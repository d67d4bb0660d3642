//! One-pulse mode: the timer fires a single pulse of a programmed
//! width.

use vstd::prelude::*;

use crate::rcc::Rcc;
use crate::time::{cycles, Hertz, MicroSecond};

verus! {

/// A timer in one-pulse mode.
#[derive(Clone, Copy, Debug, PartialEq, Eq, Structural)]
pub struct Opm {
    /// The timer's input clock.
    pub clk: Hertz,
    /// Prescaler register model.
    pub psc: u16,
    /// Auto-reload register model: the pulse width in timer ticks.
    pub arr: u16,
    /// One-pulse mode and counter enable, set when a pulse is fired.
    pub started: bool,
}

impl Opm {
    /// Take a timer and program it for the requested pulse width.
    pub fn new(pulse: MicroSecond, rcc: &Rcc) -> (r: Opm)
        requires
            1 <= pulse.0 <= 1000000,
            1000000int / pulse.0 as int <= rcc.clocks.apb_tim_clk.0 as int,
        ensures
            r.clk == rcc.clocks.apb_tim_clk,
            spec_opm_regs(rcc.clocks.apb_tim_clk, pulse, r.psc, r.arr),
            !r.started,
    {
        let mut opm = Opm { clk: rcc.clocks.apb_tim_clk, psc: 0, arr: 0, started: false };
        opm.set_pulse(pulse);
        opm
    }

    /// Program the pulse width: pick the smallest prescaler whose
    /// 16-bit reload can carry the width, then count the width in
    /// ticks of the prescaled clock.  The register fields keep the low
    /// sixteen bits of each computed value.
    pub fn set_pulse(&mut self, pulse: MicroSecond)
        requires
            1 <= pulse.0 <= 1000000,
            1000000int / pulse.0 as int <= old(self).clk.0 as int,
        ensures
            spec_opm_regs(old(self).clk, pulse, final(self).psc, final(self).arr),
            final(self).clk == old(self).clk,
            final(self).started == old(self).started,
    {
        let pulsehz: u32 = 1000000 / pulse.0;
        proof {
            assert(1000000int / pulse.0 as int >= 1) by (nonlinear_arith)
                requires
                    1 <= pulse.0 <= 1000000,
            ;
        }
        let clkraw: u32 = self.clk.raw();
        let cycles_per_period: u32 = clkraw / pulsehz;
        proof {
            assert(clkraw as int / (pulsehz as int) >= 1) by (nonlinear_arith)
                requires
                    1 <= pulsehz <= clkraw,
            ;
        }
        let psc: u32 = (cycles_per_period - 1) / 0xffff;
        let freq: u32 = clkraw / (psc + 1);
        proof {
            assert(pulse.0 as int * freq as int <= 1000000int * 0xffffffff) by (nonlinear_arith)
                requires
                    1 <= pulse.0 <= 1000000,
                    0 <= freq <= 0xffffffff,
            ;
        }
        let reload = cycles(pulse, Hertz(freq));
        proof {
            assert(psc as u16 == psc % 0x10000) by (bit_vector);
            assert(reload as u16 == reload % 0x10000) by (bit_vector);
        }
        self.psc = #[verifier::truncate] (psc as u16);
        self.arr = #[verifier::truncate] (reload as u16);
    }

    /// Fire one pulse: one-pulse mode on, counter started.
    pub fn generate(&mut self)
        ensures
            *final(self) == (Opm { started: true, ..*old(self) }),
    {
        self.started = true;
    }

    /// Bind a channel pin with a unit delay.
    pub fn bind_pin(&self, channel: u8) -> (r: OpmPin)
        ensures
            r.channel == channel,
            r.delay == 1,
            !r.enabled,
    {
        OpmPin { channel, delay: 1, enabled: false }
    }
}

/// The register patterns one-pulse programming computes for a clock and
/// a pulse width.
pub open spec fn spec_opm_regs(clk: Hertz, pulse: MicroSecond, psc: u16, arr: u16) -> bool {
    let pulsehz = 1000000int / pulse.0 as int;
    let cycles_per_period = clk.0 as int / pulsehz;
    let full_psc = (cycles_per_period - 1) / 0xffff;
    let freq = clk.0 as int / (full_psc + 1);
    let reload = pulse.0 as int * freq / 1000000;
    &&& psc == full_psc % 0x10000
    &&& arr == reload % 0x10000
}

/// One one-pulse output channel.
#[derive(Clone, Copy, Debug, PartialEq, Eq, Structural)]
pub struct OpmPin {
    /// The capture/compare channel driven.
    pub channel: u8,
    /// Compare register model: the delay before the pulse, in ticks.
    pub delay: u32,
    /// Output enable.
    pub enabled: bool,
}

impl OpmPin {
    /// Switch the channel's output on.
    pub fn enable(&mut self)
        ensures
            *final(self) == (OpmPin { enabled: true, ..*old(self) }),
    {
        self.enabled = true;
    }

    /// Switch the channel's output off.
    pub fn disable(&mut self)
        ensures
            *final(self) == (OpmPin { enabled: false, ..*old(self) }),
    {
        self.enabled = false;
    }

    /// The largest delay the timer's reload leaves room for.
    pub fn get_max_delay(&self, opm: &Opm) -> (r: u32)
        ensures
            r == opm.arr,
    {
        opm.arr as u32
    }

    /// Program the delay before the pulse.
    pub fn set_delay(&mut self, delay: u32)
        ensures
            *final(self) == (OpmPin { delay, ..*old(self) }),
    {
        self.delay = delay;
    }
}

/// Builds a one-pulse timer from an owned peripheral; the hardware
/// layer implements it per timer block.
pub trait OpmExt: Sized {
    fn opm(self, period: MicroSecond, rcc: &mut Rcc) -> Opm;
}

} // verus!
