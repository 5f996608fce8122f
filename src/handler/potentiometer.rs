use vstd::prelude::*;

verus! {

use crate::handler::cc_event;
use crate::output::{MidiMsgCc, OutputData};

/// What a potentiometer's changes are turned into.
#[derive(Debug, Clone, Copy, PartialEq, Eq, Structural)]
pub enum PotentiometerHandler {
    Dummy,
    MidiAbs(MidiAbs),
}

/// Absolute control change that mirrors the potentiometer's value.
#[derive(Debug, Clone, Copy, PartialEq, Eq, Structural)]
pub struct MidiAbs {
    pub channel: u8,
    pub control: u8,
    pub value: u8,
}

impl MidiAbs {
    pub fn run(&mut self, v: u8) -> (r: OutputData)
        ensures
            *final(self) == (MidiAbs { value: v, ..*old(self) }),
            r == cc_event(old(self).channel, old(self).control, v),
    {
        self.value = v;
        OutputData::MidiMsgCc(
            MidiMsgCc { channel: self.channel, control: self.control, value: self.value },
        )
    }
}

impl PotentiometerHandler {
    /// The handler's state after it has handled the value `v`.
    pub open spec fn after(self, v: u8) -> PotentiometerHandler {
        match self {
            PotentiometerHandler::MidiAbs(h) => PotentiometerHandler::MidiAbs(
                MidiAbs { value: v, ..h },
            ),
            PotentiometerHandler::Dummy => self,
        }
    }

    /// The event the handler produces for the value `v`.
    pub open spec fn output(self, v: u8) -> OutputData {
        match self {
            PotentiometerHandler::MidiAbs(h) => cc_event(h.channel, h.control, v),
            PotentiometerHandler::Dummy => OutputData::Dummy,
        }
    }

    pub fn run(&mut self, v: u8) -> (r: OutputData)
        ensures
            *final(self) == old(self).after(v),
            r == old(self).output(v),
    {
        match self {
            PotentiometerHandler::MidiAbs(h) => h.run(v),
            PotentiometerHandler::Dummy => OutputData::Dummy,
        }
    }
}

} // verus!
