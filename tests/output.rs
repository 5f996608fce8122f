use reset_ctrl::output::{MidiMsgCc, MidiMsgNote, OutputData, UsbOut};

#[test]
fn cc_wire_encoding() {
    let m = MidiMsgCc {
        channel: 5,
        control: 23,
        value: 100,
    };
    assert_eq!(m.to_bytes(), [0xB5, 0x17, 0x64]);
}

#[test]
fn cc_wire_encoding_masks_fields() {
    let m = MidiMsgCc {
        channel: 0x1f,
        control: 0xff,
        value: 0x80,
    };
    assert_eq!(m.to_bytes(), [0xBF, 0x7F, 0x00]);
}

#[test]
fn note_wire_encoding() {
    let on = MidiMsgNote {
        channel: 2,
        key: 60,
        on: true,
        velocity: 0xE4,
    };
    assert_eq!(on.to_bytes(), [0x92, 60, 0x64]);
    let off = MidiMsgNote {
        channel: 18,
        key: 188,
        on: false,
        velocity: 0,
    };
    assert_eq!(off.to_bytes(), [0x82, 60, 0]);
}

#[test]
fn usb_frame_of_each_event() {
    let sink = UsbOut {};
    let cc = OutputData::MidiMsgCc(MidiMsgCc {
        channel: 0,
        control: 4,
        value: 63,
    });
    assert_eq!(sink.frame(&cc), [0xB0, 4, 63]);
    let note = OutputData::MidiMsgNote(MidiMsgNote {
        channel: 9,
        key: 36,
        on: true,
        velocity: 100,
    });
    assert_eq!(sink.frame(&note), [0x99, 36, 100]);
    assert_eq!(sink.frame(&OutputData::Dummy), [0, 0, 0]);
}
