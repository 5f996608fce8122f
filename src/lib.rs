//! Rotary and analog control surface logic: quadrature decoding, analog
//! change detection, handlers that turn input transitions into MIDI-style
//! control events, the wire encoder for those events, and the device that
//! polls its inputs and dispatches their events each cycle.
pub mod output;
pub mod handler;
pub mod ui;
pub mod device;
