use vstd::prelude::*;

pub mod midi;

pub use self::midi::{MidiMsgCc, MidiMsgNote, MidiOut};

verus! {

/// An event produced by a handler, ready to be handed to the sinks.
#[derive(Debug, Clone, Copy, PartialEq, Eq, Structural)]
pub enum OutputData {
    MidiMsgCc(MidiMsgCc),
    MidiMsgNote(MidiMsgNote),
    Dummy,
}

/// A sink that renders events as text.
pub struct StdOut {}

/// A sink that queues the wire bytes of events for a USB transmitter.
pub struct UsbOut {}

/// The sinks a device's events can be sent to.
pub enum OutputType {
    StdOut(StdOut),
    MidiOut(MidiOut),
    UsbOut(UsbOut),
}

impl OutputData {
    /// The bytes a byte-oriented sink sends: the message's wire form, and
    /// three zero bytes for `Dummy`, which has none.
    pub open spec fn sent_bytes(self) -> Seq<u8> {
        match self {
            OutputData::MidiMsgCc(m) => m.wire(),
            OutputData::MidiMsgNote(m) => m.wire(),
            OutputData::Dummy => seq![0u8, 0u8, 0u8],
        }
    }
}

impl UsbOut {
    /// The three bytes this sink queues for `data`.
    pub fn frame(&self, data: &OutputData) -> (r: [u8; 3])
        ensures
            r@ == data.sent_bytes(),
    {
        match data {
            OutputData::MidiMsgCc(m) => m.to_bytes(),
            OutputData::MidiMsgNote(m) => m.to_bytes(),
            OutputData::Dummy => {
                let r = [0u8; 3];
                assert(r@ =~= seq![0u8, 0u8, 0u8]);
                r
            },
        }
    }
}

} // verus!
