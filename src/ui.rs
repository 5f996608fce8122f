use vstd::prelude::*;

pub mod encoder;
pub mod memory;
pub mod potentiometer;

pub use self::encoder::{sample, Encoder, EncoderDirection};
pub use self::memory::InMemoryBackend;
pub use self::potentiometer::Potentiometer;

verus! {

use crate::output::OutputData;

/// Access to the hardware lines that inputs read: digital lines, analog
/// samples, and a cursor over multiplexed channels that each read advances.
///
/// The state of a backend decides what its next read returns and what state
/// that read leaves.
pub trait Backend: Sized {
    /// What the next digital read returns.
    spec fn next_input(&self) -> bool;

    /// The backend after a digital read.
    spec fn after_input(&self) -> Self;

    /// What the next analog read returns.
    spec fn next_adc(&self) -> u16;

    /// The backend after an analog read.
    spec fn after_adc(&self) -> Self;

    /// The backend with its channel cursor back at the first channel.
    spec fn rewound(&self) -> Self;

    fn read_adc(&mut self) -> (r: u16)
        ensures
            r == old(self).next_adc(),
            *final(self) == old(self).after_adc(),
    ;

    fn read_input(&mut self) -> (r: bool)
        ensures
            r == old(self).next_input(),
            *final(self) == old(self).after_input(),
    ;

    /// Moves the channel cursor back to the first channel.
    fn rewind(&mut self)
        ensures
            *final(self) == old(self).rewound(),
    ;
}

/// A control that is polled through a backend.
pub trait Input<B: Backend>: Sized {
    /// The state, the backend and the change report that one poll of
    /// `backend` leads to.
    spec fn poll(self, backend: B) -> (Self, B, bool);

    /// Updates the state from the backend; true when the observable value
    /// changed.
    fn update(&mut self, backend: &mut B) -> (changed: bool)
        ensures
            (*final(self), *final(backend), changed) == old(self).poll(*old(backend)),
    ;
}

/// The inputs a device can hold.
#[derive(Debug, Clone, Copy, PartialEq, Eq, Structural)]
pub enum InputType {
    Encoder(Encoder),
    Potentiometer(Potentiometer),
}

impl InputType {
    /// The input, the backend and the change report after one poll.
    pub open spec fn poll<B: Backend>(self, backend: B) -> (InputType, B, bool) {
        match self {
            InputType::Encoder(e) => {
                let r = <Encoder as Input<B>>::poll(e, backend);
                (InputType::Encoder(r.0), r.1, r.2)
            },
            InputType::Potentiometer(p) => {
                let r = <Potentiometer as Input<B>>::poll(p, backend);
                (InputType::Potentiometer(r.0), r.1, r.2)
            },
        }
    }

    /// The input and the backend after the input is seeded by its first
    /// read.
    pub open spec fn seeded<B: Backend>(self, backend: B) -> (InputType, B) {
        match self {
            InputType::Encoder(e) => {
                let r = e.seeded(backend);
                (InputType::Encoder(r.0), r.1)
            },
            InputType::Potentiometer(p) => {
                let r = p.seeded(backend);
                (InputType::Potentiometer(r.0), r.1)
            },
        }
    }

    /// The event that running the input's handler produces.
    pub open spec fn output(self) -> OutputData {
        match self {
            InputType::Encoder(e) => e.handler.output(e.direction_spec()),
            InputType::Potentiometer(p) => p.handler.output(p.value),
        }
    }

    /// The input after its handler has run.
    pub open spec fn handled(self) -> InputType {
        match self {
            InputType::Encoder(e) => InputType::Encoder(
                Encoder { handler: e.handler.after(e.direction_spec()), ..e },
            ),
            InputType::Potentiometer(p) => InputType::Potentiometer(
                Potentiometer { handler: p.handler.after(p.value), ..p },
            ),
        }
    }
}

} // verus!
