use vstd::prelude::*;

verus! {

use crate::handler::cc_event;
use crate::output::{MidiMsgCc, OutputData};
use crate::ui::encoder::EncoderDirection;

/// What an encoder's turns are turned into.
#[derive(Debug, Clone, Copy, PartialEq, Eq, Structural)]
pub enum EncoderHandler {
    Dummy,
    MidiRel(MidiRel),
    MidiAbs(MidiAbs),
}

/// Relative control change: 63 for a clockwise step, 65 for a
/// counter-clockwise one (an offset around 64).
#[derive(Debug, Clone, Copy, PartialEq, Eq, Structural)]
pub struct MidiRel {
    pub channel: u8,
    pub control: u8,
}

/// Absolute control change over a counter that saturates at 0 and 127.
#[derive(Debug, Clone, Copy, PartialEq, Eq, Structural)]
pub struct MidiAbs {
    pub channel: u8,
    pub control: u8,
    pub value: u8,
}

/// A note on a key, for handlers that play notes.
#[derive(Debug, Clone, Copy, PartialEq, Eq, Structural)]
pub struct MidiNote {
    pub channel: u8,
    pub key: u8,
}

/// The relative value that encodes a direction.
pub open spec fn rel_value(dir: EncoderDirection) -> u8 {
    match dir {
        EncoderDirection::CW => 63,
        EncoderDirection::CCW => 65,
    }
}

/// One saturating step of a 7-bit counter.
pub open spec fn abs_step(v: u8, dir: EncoderDirection) -> u8 {
    match dir {
        EncoderDirection::CW => if v < 127 { (v + 1) as u8 } else { 127 },
        EncoderDirection::CCW => if v > 0 { (v - 1) as u8 } else { 0 },
    }
}

impl MidiRel {
    pub fn run(&mut self, ev: EncoderDirection) -> (r: OutputData)
        ensures
            *final(self) == *old(self),
            r == cc_event(old(self).channel, old(self).control, rel_value(ev)),
    {
        let v: u8 = match ev {
            EncoderDirection::CW => 63,
            EncoderDirection::CCW => 65,
        };
        OutputData::MidiMsgCc(MidiMsgCc { channel: self.channel, control: self.control, value: v })
    }
}

impl MidiAbs {
    pub fn run(&mut self, ev: EncoderDirection) -> (r: OutputData)
        ensures
            *final(self) == (MidiAbs { value: abs_step(old(self).value, ev), ..*old(self) }),
            r == cc_event(old(self).channel, old(self).control, abs_step(old(self).value, ev)),
    {
        match ev {
            EncoderDirection::CW => self.inc(),
            EncoderDirection::CCW => self.dec(),
        }
        OutputData::MidiMsgCc(
            MidiMsgCc { channel: self.channel, control: self.control, value: self.value },
        )
    }

    fn inc(&mut self)
        ensures
            *final(self) == (MidiAbs {
                value: abs_step(old(self).value, EncoderDirection::CW),
                ..*old(self)
            }),
    {
        if self.value < 0x7f {
            self.value += 1;
        } else {
            self.value = 0x7f;
        }
    }

    fn dec(&mut self)
        ensures
            *final(self) == (MidiAbs {
                value: abs_step(old(self).value, EncoderDirection::CCW),
                ..*old(self)
            }),
    {
        if self.value > 0 {
            self.value -= 1;
        }
    }
}

impl EncoderHandler {
    /// The handler's state after it has handled a step in direction `dir`.
    pub open spec fn after(self, dir: EncoderDirection) -> EncoderHandler {
        match self {
            EncoderHandler::MidiAbs(h) => EncoderHandler::MidiAbs(
                MidiAbs { value: abs_step(h.value, dir), ..h },
            ),
            _ => self,
        }
    }

    /// The event the handler produces for a step in direction `dir`.
    pub open spec fn output(self, dir: EncoderDirection) -> OutputData {
        match self {
            EncoderHandler::Dummy => OutputData::Dummy,
            EncoderHandler::MidiRel(h) => cc_event(h.channel, h.control, rel_value(dir)),
            EncoderHandler::MidiAbs(h) => cc_event(h.channel, h.control, abs_step(h.value, dir)),
        }
    }

    pub fn run(&mut self, dir: EncoderDirection) -> (r: OutputData)
        ensures
            *final(self) == old(self).after(dir),
            r == old(self).output(dir),
    {
        match self {
            EncoderHandler::MidiRel(h) => h.run(dir),
            EncoderHandler::MidiAbs(h) => h.run(dir),
            EncoderHandler::Dummy => OutputData::Dummy,
        }
    }
}

} // verus!
