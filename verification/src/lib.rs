//! Hardware abstraction layer for the STM32C0 family, with verified
//! peripheral drivers.
//!
//! Every driver is split into a pure, verified register model (this crate)
//! and a thin unverified layer that copies the model to and from the
//! memory-mapped peripheral block.  The heart of the crate is the I2C bus
//! controller driver: a protocol state machine that advances one hardware
//! status event at a time, shared by a blocking and a non-blocking driver.

#![allow(non_camel_case_types)]

use vstd::prelude::*;

pub mod exti;
pub mod gpio;
pub mod i2c;
pub mod power;
pub mod rtc;
pub mod serial;
pub mod spi;
pub mod timer;
pub mod rcc;
pub mod time;

verus! {

/// Marker trait for peripheral singletons owned by this crate's drivers.
pub trait Sealed {
}

} // verus!
