use vstd::prelude::*;

pub mod encoder;
pub mod potentiometer;

pub use self::encoder::{EncoderHandler, MidiRel};
pub use self::potentiometer::PotentiometerHandler;

verus! {

use crate::output::{MidiMsgCc, OutputData};

/// The control-change event for the given fields.
pub open spec fn cc_event(channel: u8, control: u8, value: u8) -> OutputData {
    OutputData::MidiMsgCc(MidiMsgCc { channel, control, value })
}

} // verus!
