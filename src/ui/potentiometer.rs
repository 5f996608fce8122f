use vstd::prelude::*;

verus! {

use crate::handler::PotentiometerHandler;
use crate::output::OutputData;
use crate::ui::{Backend, Input};

/// An analog control: its last quantized value and the handler its changes
/// go to.
#[derive(Debug, Clone, Copy, PartialEq, Eq, Structural)]
pub struct Potentiometer {
    pub value: u8,
    pub handler: PotentiometerHandler,
}

/// A 12-bit sample brought to 7 bits (the low byte of `raw >> 5`).
pub open spec fn quantize(raw: u16) -> u8 {
    ((raw / 32) % 256) as u8
}

impl Potentiometer {
    pub fn new() -> (r: Potentiometer)
        ensures
            r.value == 0,
            r.handler == PotentiometerHandler::Dummy,
    {
        Potentiometer { value: 0, handler: PotentiometerHandler::Dummy }
    }

    /// The potentiometer and the backend after `init`: the value is the
    /// quantized analog sample read.
    pub open spec fn seeded<B: Backend>(self, backend: B) -> (Potentiometer, B) {
        (Potentiometer { value: quantize(backend.next_adc()), ..self }, backend.after_adc())
    }

    /// Seeds the value with one analog sample, reporting no change.
    pub fn init<B: Backend>(&mut self, backend: &mut B)
        ensures
            (*final(self), *final(backend)) == old(self).seeded(*old(backend)),
    {
        let raw = backend.read_adc();
        self.feed(raw);
    }

    pub fn value(&self) -> (r: u8)
        ensures
            r == self.value,
    {
        self.value
    }

    pub fn attach_handler(&mut self, handler: PotentiometerHandler)
        ensures
            final(self).handler == handler,
            final(self).value == old(self).value,
    {
        self.handler = handler;
    }

    /// Takes in one raw sample; true when its quantized value differs from
    /// the stored one.
    pub fn feed(&mut self, raw: u16) -> (changed: bool)
        ensures
            final(self).value == quantize(raw),
            final(self).handler == old(self).handler,
            changed == (old(self).value != quantize(raw)),
    {
        assert(((raw >> 5u16) as u8) == ((raw / 32) % 256) as u8) by (bit_vector);
        let data = (raw >> 5) as u8;
        if self.value != data {
            self.value = data;
            return true;
        }
        false
    }

    /// Runs the handler on the current value.
    pub fn run_handler(&mut self) -> (r: OutputData)
        ensures
            final(self).value == old(self).value,
            final(self).handler == old(self).handler.after(old(self).value),
            r == old(self).handler.output(old(self).value),
    {
        let v = self.value();
        self.handler.run(v)
    }
}

impl<B: Backend> Input<B> for Potentiometer {
    /// Reads one analog sample and takes it in.
    open spec fn poll(self, backend: B) -> (Potentiometer, B, bool) {
        let q = quantize(backend.next_adc());
        (Potentiometer { value: q, ..self }, backend.after_adc(), self.value != q)
    }

    fn update(&mut self, backend: &mut B) -> (changed: bool) {
        let raw = backend.read_adc();
        self.feed(raw)
    }
}

} // verus!
