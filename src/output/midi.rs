use vstd::prelude::*;

verus! {

const MIDI_MSG_STATUS_CC: u8 = 0xb0;
const MIDI_MSG_STATUS_NOTE_ON: u8 = 0x90;
const MIDI_MSG_STATUS_NOTE_OFF: u8 = 0x80;
const MIDI_MSG_STATUS_CHANNEL_MASK: u8 = 0x0f;
const MIDI_MSG_DATA_MASK: u8 = 0x7f;

/// A sink that forwards raw MIDI bytes.
pub struct MidiOut {}

/// Control-change message: a 4-bit channel, a 7-bit control number and a
/// 7-bit value. Out-of-range fields are masked when encoded.
#[derive(Debug, Clone, Copy, PartialEq, Eq, Structural)]
pub struct MidiMsgCc {
    pub channel: u8,
    pub control: u8,
    pub value: u8,
}

/// Note-on / note-off message.
#[derive(Debug, Clone, Copy, PartialEq, Eq, Structural)]
pub struct MidiMsgNote {
    pub channel: u8,
    pub key: u8,
    pub on: bool,
    pub velocity: u8,
}

/// Status byte: a message kind in the high nibble, the channel (mod 16) in
/// the low one.
pub open spec fn status_byte(kind: u8, channel: u8) -> u8 {
    (kind + channel % 16) as u8
}

/// A data byte keeps the low seven bits.
pub open spec fn data_byte(b: u8) -> u8 {
    (b % 128) as u8
}

impl MidiMsgCc {
    /// The three wire bytes of this message.
    pub open spec fn wire(&self) -> Seq<u8> {
        seq![status_byte(0xb0, self.channel), data_byte(self.control), data_byte(self.value)]
    }

    pub fn to_bytes(&self) -> (r: [u8; 3])
        ensures
            r@ == self.wire(),
    {
        let r = [
            MIDI_MSG_STATUS_CC | (MIDI_MSG_STATUS_CHANNEL_MASK & self.channel),
            MIDI_MSG_DATA_MASK & self.control,
            MIDI_MSG_DATA_MASK & self.value,
        ];
        proof {
            lemma_status_bits(MIDI_MSG_STATUS_CC, self.channel);
            lemma_data_bits(self.control);
            lemma_data_bits(self.value);
        }
        assert(r@ =~= self.wire());
        r
    }
}

impl MidiMsgNote {
    /// The three wire bytes of this message.
    pub open spec fn wire(&self) -> Seq<u8> {
        seq![
            status_byte(if self.on { 0x90u8 } else { 0x80u8 }, self.channel),
            data_byte(self.key),
            data_byte(self.velocity),
        ]
    }

    pub fn to_bytes(&self) -> (r: [u8; 3])
        ensures
            r@ == self.wire(),
    {
        let status: u8 = if self.on {
            MIDI_MSG_STATUS_NOTE_ON
        } else {
            MIDI_MSG_STATUS_NOTE_OFF
        };
        let r = [
            status | (MIDI_MSG_STATUS_CHANNEL_MASK & self.channel),
            MIDI_MSG_DATA_MASK & self.key,
            MIDI_MSG_DATA_MASK & self.velocity,
        ];
        proof {
            lemma_status_bits(status, self.channel);
            lemma_data_bits(self.key);
            lemma_data_bits(self.velocity);
        }
        assert(r@ =~= self.wire());
        r
    }
}

proof fn lemma_status_bits(kind: u8, channel: u8)
    requires
        kind == 0xb0 || kind == 0x90 || kind == 0x80,
    ensures
        kind | (0x0f & channel) == status_byte(kind, channel),
{
    assert(0x0f & channel == channel % 16) by (bit_vector);
    assert(kind == 0xb0 ==> kind | (0x0f & channel) == kind + (0x0f & channel)) by (bit_vector);
    assert(kind == 0x90 ==> kind | (0x0f & channel) == kind + (0x0f & channel)) by (bit_vector);
    assert(kind == 0x80 ==> kind | (0x0f & channel) == kind + (0x0f & channel)) by (bit_vector);
}

proof fn lemma_data_bits(b: u8)
    ensures
        0x7f & b == data_byte(b),
{
    assert(0x7f & b == b % 128) by (bit_vector);
}

} // verus!
