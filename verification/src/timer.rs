//! General-purpose timers: pulse-width modulation, one-pulse mode and
//! the quadrature encoder interface.

use vstd::prelude::*;

pub mod opm;
pub mod pwm;
pub mod qei;

verus! {

/// A pin bound to a timer's capture/compare channel; the hardware
/// layer implements it per pin.
pub trait TimerPin {
    /// The channel the pin sits on.
    fn channel(&self) -> u8;

    /// Put the pin into its alternate-function mode.
    fn setup(&self);
}

} // verus!
