use vstd::prelude::*;

verus! {

use crate::handler::EncoderHandler;
use crate::output::OutputData;
use crate::ui::{Backend, Input};

/// A quadrature encoder: the last two 2-bit samples of its A and B lines,
/// packed into a 4-bit history (`pattern`), and the handler its steps go to.
#[derive(Debug, Clone, Copy, PartialEq, Eq, Structural)]
pub struct Encoder {
    pub pattern: u8,
    pub handler: EncoderHandler,
}

#[derive(Debug, PartialEq, Eq, Copy, Clone, Structural)]
pub enum EncoderDirection {
    CW,
    CCW,
}

/// The 2-bit sample of the A and B lines: A is the high bit.
pub open spec fn sample_of(a: bool, b: bool) -> u8 {
    ((if a { 2int } else { 0int }) + (if b { 1int } else { 0int })) as u8
}

/// The history after a sample: unchanged when the sample repeats the last
/// one, else the last sample shifted up with the new one below it.
pub open spec fn next_history(p: u8, s: u8) -> u8 {
    if p % 4 == s {
        p
    } else {
        ((p % 4) * 4 + s) as u8
    }
}

/// The direction of a single-step transition, `None` for the histories that
/// are no such transition.
pub open spec fn decode(p: u8) -> Option<EncoderDirection> {
    if p == 0b1101 || p == 0b0100 || p == 0b0010 || p == 0b1011 {
        Some(EncoderDirection::CW)
    } else if p == 0b1110 || p == 0b0111 || p == 0b0001 || p == 0b1000 {
        Some(EncoderDirection::CCW)
    } else {
        None
    }
}

/// The reported direction: an indeterminate history counts as clockwise.
pub open spec fn direction_or_cw(p: u8) -> EncoderDirection {
    match decode(p) {
        Some(d) => d,
        None => EncoderDirection::CW,
    }
}

/// Packs the A and B line values into a 2-bit sample, A high.
pub fn sample(a: bool, b: bool) -> (r: u8)
    ensures
        r == sample_of(a, b),
{
    let a: u8 = if a { 1 } else { 0 };
    let b: u8 = if b { 1 } else { 0 };
    assert((a << 1u8) | b == a * 2 + b) by (bit_vector)
        requires
            a < 2,
            b < 2,
    ;
    (a << 1) | b
}

impl Encoder {
    /// The direction that `value` reports.
    pub open spec fn direction_spec(&self) -> EncoderDirection {
        direction_or_cw(self.pattern)
    }

    pub fn new() -> (r: Encoder)
        ensures
            r.pattern == 0,
            r.handler == EncoderHandler::Dummy,
    {
        Encoder { pattern: 0, handler: EncoderHandler::Dummy }
    }

    /// The encoder and the backend after `init`: the history holds the
    /// sample of the A and B lines, read in that order.
    pub open spec fn seeded<B: Backend>(self, backend: B) -> (Encoder, B) {
        let a = backend.next_input();
        let mid = backend.after_input();
        (Encoder { pattern: sample_of(a, mid.next_input()), ..self }, mid.after_input())
    }

    /// Reads the A line, then the B line, and seeds the history with their
    /// sample, reporting no change.
    pub fn init<B: Backend>(&mut self, backend: &mut B)
        ensures
            (*final(self), *final(backend)) == old(self).seeded(*old(backend)),
    {
        let a = backend.read_input();
        let b = backend.read_input();
        self.seed(a, b);
    }

    /// Seeds the history with the sample of the line values `a` and `b`.
    pub fn seed(&mut self, a: bool, b: bool)
        ensures
            final(self).pattern == sample_of(a, b),
            final(self).handler == old(self).handler,
    {
        self.pattern = sample(a, b);
    }

    pub fn attach_handler(&mut self, handler: EncoderHandler)
        ensures
            final(self).handler == handler,
            final(self).pattern == old(self).pattern,
    {
        self.handler = handler;
    }

    /// Takes in the sample of the line values `a` and `b`; true when it
    /// differs from the last one.
    pub fn step(&mut self, a: bool, b: bool) -> (changed: bool)
        ensures
            final(self).pattern == next_history(old(self).pattern, sample_of(a, b)),
            final(self).handler == old(self).handler,
            changed == (old(self).pattern % 4 != sample_of(a, b)),
    {
        let s = sample(a, b);
        let p = self.pattern;
        assert(p & 0b11u8 == p % 4) by (bit_vector);
        if (p & 0b11u8) == s {
            return false;
        }
        assert(((p << 2u8) & 0xfu8) | s == (p % 4) * 4 + s) by (bit_vector)
            requires
                s < 4,
        ;
        self.pattern = ((p << 2u8) & 0xfu8) | s;
        true
    }

    /// Runs the handler on the reported direction.
    pub fn run_handler(&mut self) -> (r: OutputData)
        ensures
            final(self).pattern == old(self).pattern,
            final(self).handler == old(self).handler.after(old(self).direction_spec()),
            r == old(self).handler.output(old(self).direction_spec()),
    {
        let v = self.value();
        self.handler.run(v)
    }

    /// The direction of the last step; an indeterminate history reports
    /// clockwise.
    pub fn value(&self) -> (r: EncoderDirection)
        ensures
            r == self.direction_spec(),
    {
        match self.direction() {
            Some(d) => d,
            None => EncoderDirection::CW,
        }
    }

    /// The direction of the last step, `None` when the history is no
    /// single-step transition.
    pub fn direction(&self) -> (r: Option<EncoderDirection>)
        ensures
            r == decode(self.pattern),
    {
        match self.pattern {
            0b1101u8 | 0b0100u8 | 0b0010u8 | 0b1011u8 => Some(EncoderDirection::CW),
            0b1110u8 | 0b0111u8 | 0b0001u8 | 0b1000u8 => Some(EncoderDirection::CCW),
            _ => None,
        }
    }
}

/// After a sample has been taken in, taking the same sample again is no
/// change: the history stays, so the reported direction stays too.
pub proof fn lemma_repeated_sample_is_no_change(p: u8, s: u8)
    requires
        s < 4,
    ensures
        next_history(p, s) % 4 == s,
        next_history(next_history(p, s), s) == next_history(p, s),
        direction_or_cw(next_history(next_history(p, s), s)) == direction_or_cw(
            next_history(p, s),
        ),
{
}

impl<B: Backend> Input<B> for Encoder {
    /// Reads the A line, then the B line, and takes in their sample.
    open spec fn poll(self, backend: B) -> (Encoder, B, bool) {
        let a = backend.next_input();
        let mid = backend.after_input();
        let s = sample_of(a, mid.next_input());
        (
            Encoder { pattern: next_history(self.pattern, s), ..self },
            mid.after_input(),
            self.pattern % 4 != s,
        )
    }

    fn update(&mut self, backend: &mut B) -> (changed: bool) {
        let a = backend.read_input();
        let b = backend.read_input();
        self.step(a, b)
    }
}

} // verus!
