//! Pin-level types shared by the drivers.
//!
//! Pin multiplexing and electrical validation live in the hardware
//! layer; the drivers here only consume the signal-edge selection.

use vstd::prelude::*;

verus! {

/// Which signal edge triggers an event.
#[derive(Clone, Copy, Debug, PartialEq, Eq, Structural)]
pub enum SignalEdge {
    Rising,
    Falling,
    All,
}

} // verus!
