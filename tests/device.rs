use reset_ctrl::device::Device;
use reset_ctrl::handler::encoder::{EncoderHandler, MidiAbs, MidiRel};
use reset_ctrl::handler::potentiometer;
use reset_ctrl::handler::PotentiometerHandler;
use reset_ctrl::output::{MidiMsgCc, OutputData};
use reset_ctrl::ui::{Encoder, InMemoryBackend, InputType, Potentiometer};

fn rel_encoder(control: u8) -> InputType {
    let mut encoder = Encoder::new();
    encoder.attach_handler(EncoderHandler::MidiRel(MidiRel {
        channel: 0,
        control,
    }));
    InputType::Encoder(encoder)
}

fn cc(channel: u8, control: u8, value: u8) -> OutputData {
    OutputData::MidiMsgCc(MidiMsgCc {
        channel,
        control,
        value,
    })
}

#[test]
fn device() {
    let data_cw = [false, false, true, false, true, true];

    let mut b = InMemoryBackend::new();
    b.set_input_buffer(&data_cw);

    let mut encoder = Encoder::new();
    let handler = EncoderHandler::MidiRel(MidiRel {
        channel: 0,
        control: 4,
    });
    encoder.attach_handler(handler);

    let input = InputType::Encoder(encoder);
    let mut device = Device::new();

    // setup
    assert!(device.add_input(input).is_ok());
    device.init_inputs(&mut b);

    // operation
    device.update(&mut b);
    device.run_handler();
}

#[test]
fn device_emits_event_of_changed_encoder() {
    let mut b = InMemoryBackend::new();
    b.set_input_buffer(&[false, false, true, false, true, true]);
    let mut device = Device::new();
    assert!(device.add_input(rel_encoder(4)).is_ok());
    device.init_inputs(&mut b);
    device.update(&mut b);
    assert_eq!(device.run_handler(), vec![cc(0, 4, 63)]);
    device.update(&mut b);
    assert_eq!(device.run_handler(), vec![cc(0, 4, 63)]);
    assert_eq!(device.run_handler(), vec![]);
}

#[test]
fn device_rejects_input_over_capacity() {
    let mut device = Device::new();
    assert!(device.add_input(rel_encoder(1)).is_ok());
    assert!(device.add_input(rel_encoder(2)).is_ok());
    assert_eq!(device.len(), 2);
    let extra = InputType::Potentiometer(Potentiometer::new());
    assert_eq!(device.add_input(extra), Err(extra));
    assert_eq!(device.len(), 2);
}

#[test]
fn device_dispatches_last_change_first() {
    // Init reads two samples for each encoder, the update two more each.
    let mut b = InMemoryBackend::new();
    b.set_input_buffer(&[false, false, false, false, true, false, true, false]);
    let mut device = Device::new();
    assert!(device.add_input(rel_encoder(1)).is_ok());
    assert!(device.add_input(rel_encoder(2)).is_ok());
    device.init_inputs(&mut b);
    device.update(&mut b);
    assert_eq!(device.run_handler(), vec![cc(0, 2, 63), cc(0, 1, 63)]);
}

#[test]
fn device_skips_unchanged_inputs() {
    let mut b = InMemoryBackend::new();
    b.set_input_buffer(&[false, false, true, true, true, false, true, true]);
    let mut device = Device::new();
    assert!(device.add_input(rel_encoder(1)).is_ok());
    assert!(device.add_input(rel_encoder(2)).is_ok());
    device.init_inputs(&mut b);
    device.update(&mut b);
    assert_eq!(device.run_handler(), vec![cc(0, 1, 63)]);
}

#[test]
fn device_keeps_absolute_handler_state() {
    let mut b = InMemoryBackend::new();
    b.set_input_buffer(&[false, false, true, false, true, true, false, true]);
    b.set_adc_buffer(&[0, 1000, 2000, 2000]);
    let mut encoder = Encoder::new();
    encoder.attach_handler(EncoderHandler::MidiAbs(MidiAbs {
        channel: 1,
        control: 10,
        value: 126,
    }));
    let mut pot = Potentiometer::new();
    pot.attach_handler(PotentiometerHandler::MidiAbs(potentiometer::MidiAbs {
        channel: 2,
        control: 20,
        value: 0,
    }));
    let mut device = Device::new();
    assert!(device.add_input(InputType::Encoder(encoder)).is_ok());
    assert!(device.add_input(InputType::Potentiometer(pot)).is_ok());
    device.init_inputs(&mut b);
    device.update(&mut b);
    assert_eq!(device.run_handler(), vec![cc(2, 20, 31), cc(1, 10, 127)]);
    device.update(&mut b);
    assert_eq!(device.run_handler(), vec![cc(2, 20, 62), cc(1, 10, 127)]);
}
