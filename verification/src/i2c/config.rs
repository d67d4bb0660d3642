//! I2C peripheral configuration.
//!
//! The timing pattern is pre-computed by the clock-tree collaborator for
//! the requested bus speed; this driver consumes it as given and does not
//! compute timing patterns itself.

use vstd::prelude::*;

use crate::i2c::SlaveAddressMask;
use crate::time::Hertz;

verus! {

/// Configuration of one I2C bus: the timing-register pattern, the noise
/// filters, and up to two slave address registrations.
#[derive(Clone, Copy, Debug, PartialEq, Eq, Structural)]
pub struct Config {
    /// Pre-computed timing-register bit pattern.
    pub timing: u32,
    /// Digital noise filter length, in bus clock cycles (0 disables it).
    pub digital_filter: u8,
    /// Whether the analog noise filter is on.
    pub analog_filter: bool,
    /// First own slave address; 0 leaves the slave role off.
    pub slave_address_1: u16,
    /// Whether the first own address is 10 bits wide (this driver always
    /// registers 7-bit addresses).
    pub address_11bits: bool,
    /// Second own slave address; 0 leaves it off.
    pub slave_address_2: u16,
    /// Mask applied when matching the second own address.
    pub slave_address_mask: SlaveAddressMask,
}

impl Config {
    /// A master-only configuration with the given timing pattern.
    pub fn new(timing: u32) -> (r: Config)
        ensures
            r.timing == timing,
            r.digital_filter == 0,
            r.analog_filter,
            r.slave_address_1 == 0,
            !r.address_11bits,
            r.slave_address_2 == 0,
            r.slave_address_mask == SlaveAddressMask::MaskNone,
    {
        Config {
            timing,
            digital_filter: 0,
            analog_filter: true,
            slave_address_1: 0,
            address_11bits: false,
            slave_address_2: 0,
            slave_address_mask: SlaveAddressMask::MaskNone,
        }
    }

    /// Register the first own 7-bit slave address.
    pub fn slave_address(self, address: u16) -> (r: Config)
        requires
            address < 128,
        ensures
            r == (Config { slave_address_1: address, ..self }),
    {
        Config { slave_address_1: address, ..self }
    }

    /// Register the second own 7-bit slave address, with the mask that
    /// widens the match.
    pub fn slave_address_2(self, address: u16, mask: SlaveAddressMask) -> (r: Config)
        requires
            address < 128,
        ensures
            r == (Config { slave_address_2: address, slave_address_mask: mask, ..self }),
    {
        Config { slave_address_2: address, slave_address_mask: mask, ..self }
    }

    /// Set the digital noise filter length.
    pub fn digital_filter(self, cycles: u8) -> (r: Config)
        requires
            cycles < 16,
        ensures
            r == (Config { digital_filter: cycles, ..self }),
    {
        Config { digital_filter: cycles, ..self }
    }

    /// Switch the analog noise filter on or off.
    pub fn analog_filter(self, on: bool) -> (r: Config)
        ensures
            r == (Config { analog_filter: on, ..self }),
    {
        Config { analog_filter: on, ..self }
    }

    /// The timing-register pattern for the given peripheral input clock.
    /// The pattern was pre-computed for that clock by the configuration
    /// collaborator; this driver hands it through unchanged.
    pub fn timing_bits(&self, _apb_clk: Hertz) -> (r: u32)
        ensures
            r == self.timing,
    {
        self.timing
    }
}

} // verus!
