use reset_ctrl::handler::encoder::{EncoderHandler, MidiAbs, MidiRel};
use reset_ctrl::handler::potentiometer;
use reset_ctrl::handler::PotentiometerHandler;
use reset_ctrl::output::{MidiMsgCc, OutputData};
use reset_ctrl::ui::EncoderDirection;

#[test]
fn hander_abs_cw() {
    let mut handler = MidiAbs {
        channel: 5,
        control: 23,
        value: 0,
    };

    for i in 1..3 {
        if let OutputData::MidiMsgCc(m) = handler.run(EncoderDirection::CW) {
            assert_eq!(m.channel, 5);
            assert_eq!(m.control, 23);
            assert_eq!(m.value, i);
        } else {
            panic!("Wrong output data returned");
        }
    }
}

#[test]
fn hander_abs_cw_limit() {
    let mut handler = MidiAbs {
        channel: 5,
        control: 23,
        value: 127,
    };

    if let OutputData::MidiMsgCc(m) = handler.run(EncoderDirection::CW) {
        assert_eq!(m.value, 127);
    }
}

#[test]
fn hander_abs_ccw_limit() {
    let mut handler = MidiAbs {
        channel: 5,
        control: 23,
        value: 0,
    };

    if let OutputData::MidiMsgCc(m) = handler.run(EncoderDirection::CCW) {
        assert_eq!(m.value, 0);
    }
}

#[test]
fn hander_abs_ccw() {
    let mut handler = MidiAbs {
        channel: 5,
        control: 23,
        value: 3,
    };

    for i in 2..0 {
        if let OutputData::MidiMsgCc(m) = handler.run(EncoderDirection::CW) {
            assert_eq!(m.channel, 5);
            assert_eq!(m.control, 23);
            assert_eq!(m.value, i);
        } else {
            panic!("Wrong output data returned");
        }
    }
}

#[test]
fn abs_handler_counts_down_and_keeps_state() {
    let mut handler = MidiAbs {
        channel: 5,
        control: 23,
        value: 3,
    };
    for expected in [2u8, 1, 0, 0] {
        let out = handler.run(EncoderDirection::CCW);
        assert_eq!(
            out,
            OutputData::MidiMsgCc(MidiMsgCc {
                channel: 5,
                control: 23,
                value: expected
            })
        );
        assert_eq!(handler.value, expected);
    }
}

#[test]
fn abs_handler_saturates_from_above_range() {
    let mut handler = MidiAbs {
        channel: 1,
        control: 2,
        value: 200,
    };
    handler.run(EncoderDirection::CW);
    assert_eq!(handler.value, 127);
}

#[test]
fn rel_handler_ignores_history() {
    let mut handler = MidiRel {
        channel: 3,
        control: 9,
    };
    let cw = OutputData::MidiMsgCc(MidiMsgCc {
        channel: 3,
        control: 9,
        value: 63,
    });
    let ccw = OutputData::MidiMsgCc(MidiMsgCc {
        channel: 3,
        control: 9,
        value: 65,
    });
    for _ in 0..3 {
        assert_eq!(handler.run(EncoderDirection::CW), cw);
    }
    assert_eq!(handler.run(EncoderDirection::CCW), ccw);
    assert_eq!(handler.run(EncoderDirection::CCW), ccw);
    assert_eq!(handler.run(EncoderDirection::CW), cw);
}

#[test]
fn encoder_handler_dispatches_by_variant() {
    let mut dummy = EncoderHandler::Dummy;
    assert_eq!(dummy.run(EncoderDirection::CW), OutputData::Dummy);

    let mut abs = EncoderHandler::MidiAbs(MidiAbs {
        channel: 0,
        control: 7,
        value: 10,
    });
    let out = abs.run(EncoderDirection::CW);
    assert_eq!(
        out,
        OutputData::MidiMsgCc(MidiMsgCc {
            channel: 0,
            control: 7,
            value: 11
        })
    );
    assert_eq!(
        abs,
        EncoderHandler::MidiAbs(MidiAbs {
            channel: 0,
            control: 7,
            value: 11
        })
    );
}

#[test]
fn potentiometer_handler_mirrors_value() {
    let mut handler = PotentiometerHandler::MidiAbs(potentiometer::MidiAbs {
        channel: 2,
        control: 30,
        value: 0,
    });
    let out = handler.run(99);
    assert_eq!(
        out,
        OutputData::MidiMsgCc(MidiMsgCc {
            channel: 2,
            control: 30,
            value: 99
        })
    );
    let mut dummy = PotentiometerHandler::Dummy;
    assert_eq!(dummy.run(99), OutputData::Dummy);
}
