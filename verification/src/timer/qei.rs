//! Quadrature encoder interface.

use vstd::prelude::*;

use crate::rcc::Rcc;

verus! {

/// A timer counting quadrature encoder pulses.
#[derive(Clone, Copy, Debug, PartialEq, Eq, Structural)]
pub struct Qei {
    /// Counter register model, as the hardware layer last read it.
    pub cnt: u16,
    /// Counting direction, as the hardware layer last read it: up when
    /// set.
    pub up: bool,
    /// Counter enable.
    pub started: bool,
}

impl Qei {
    /// Take a timer as a quadrature encoder interface: both capture
    /// channels as inputs, encoder mode, counter running.
    pub fn new(_rcc: &mut Rcc) -> (r: Qei)
        ensures
            r.cnt == 0,
            r.up,
            r.started,
    {
        Qei { cnt: 0, up: true, started: true }
    }

    /// The encoder count.
    pub fn count(&self) -> (r: u16)
        ensures
            r == self.cnt,
    {
        self.cnt
    }

    /// Whether the encoder is counting up.
    pub fn read_direction(&self) -> (r: bool)
        ensures
            r == self.up,
    {
        self.up
    }

    /// Hand the timer back.
    pub fn release(self) -> (r: u16)
        ensures
            r == self.cnt,
    {
        self.cnt
    }
}

/// A timer block that can run the encoder interface; the hardware
/// layer implements it per block.
pub trait Instance {
    /// Configure both capture channels and the encoder mode.
    fn setup_qei(&mut self);

    /// Start the counter.
    fn start(&mut self);

    /// Read the counting direction: up when set.
    fn read_direction(&self) -> bool;
}

/// Builds an encoder interface from an owned timer and its pins; the
/// hardware layer implements it per block.
pub trait QeiExt: Sized {
    fn qei(self, rcc: &mut Rcc) -> Qei;
}

} // verus!
