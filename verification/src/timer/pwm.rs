//! Pulse-width modulation.

use vstd::prelude::*;

use crate::rcc::Rcc;
use crate::time::Hertz;

verus! {

/// Output-compare mode of a capture/compare channel.
#[derive(Clone, Copy, Debug, PartialEq, Eq, Structural)]
pub enum OutputCompareMode {
    Frozen,
    MatchPos,
    MatchNeg,
    MatchToggle,
    ForceLow,
    ForceHigh,
    PwmMode1,
    PmwMode2,
    OpmMode1,
    OomMode2,
    CombinedMode1,
    CombinedMode2,
    AsyncMode1,
    AsyncMode2,
}

impl OutputCompareMode {
    /// The mode-selection bits.
    pub fn bits(&self) -> (r: u8)
        ensures
            r == self.spec_bits(),
    {
        match self {
            OutputCompareMode::Frozen => 0,
            OutputCompareMode::MatchPos => 1,
            OutputCompareMode::MatchNeg => 2,
            OutputCompareMode::MatchToggle => 3,
            OutputCompareMode::ForceLow => 4,
            OutputCompareMode::ForceHigh => 5,
            OutputCompareMode::PwmMode1 => 6,
            OutputCompareMode::PmwMode2 => 7,
            OutputCompareMode::OpmMode1 => 8,
            OutputCompareMode::OomMode2 => 9,
            OutputCompareMode::CombinedMode1 => 12,
            OutputCompareMode::CombinedMode2 => 13,
            OutputCompareMode::AsyncMode1 => 14,
            OutputCompareMode::AsyncMode2 => 15,
        }
    }

    pub open spec fn spec_bits(&self) -> u8 {
        match self {
            OutputCompareMode::Frozen => 0,
            OutputCompareMode::MatchPos => 1,
            OutputCompareMode::MatchNeg => 2,
            OutputCompareMode::MatchToggle => 3,
            OutputCompareMode::ForceLow => 4,
            OutputCompareMode::ForceHigh => 5,
            OutputCompareMode::PwmMode1 => 6,
            OutputCompareMode::PmwMode2 => 7,
            OutputCompareMode::OpmMode1 => 8,
            OutputCompareMode::OomMode2 => 9,
            OutputCompareMode::CombinedMode1 => 12,
            OutputCompareMode::CombinedMode2 => 13,
            OutputCompareMode::AsyncMode1 => 14,
            OutputCompareMode::AsyncMode2 => 15,
        }
    }
}

/// A timer driving pulse-width modulated outputs.
#[derive(Clone, Copy, Debug, PartialEq, Eq, Structural)]
pub struct Pwm {
    /// The timer's input clock.
    pub clk: Hertz,
    /// Prescaler register model.
    pub psc: u16,
    /// Auto-reload register model.
    pub arr: u16,
    /// Counter enable.
    pub cen: bool,
    /// Update interrupt enable.
    pub uie: bool,
    /// Update interrupt flag, as last read.
    pub uif: bool,
    /// Counter register model.
    pub cnt: u32,
}

impl Pwm {
    /// Take a timer and program it for the requested PWM frequency.
    pub fn new(freq: Hertz, rcc: &Rcc) -> (r: Pwm)
        requires
            1 <= freq.0 <= rcc.clocks.apb_tim_clk.0,
        ensures
            r.clk == rcc.clocks.apb_tim_clk,
            ({
                let ratio = rcc.clocks.apb_tim_clk.0 as int / freq.0 as int;
                let psc = (ratio - 1) / 0xffff;
                &&& r.psc == psc % 0x10000
                &&& r.arr == (ratio / (psc + 1) - 1) % 0x10000
            }),
            r.cen,
    {
        let clk = rcc.clocks.apb_tim_clk;
        let mut pwm = Pwm { clk, psc: 0, arr: 0, cen: false, uie: false, uif: false, cnt: 0 };
        pwm.set_freq(freq);
        pwm
    }

    /// Program the PWM frequency: the largest reload that the 16-bit
    /// prescaler allows.  The register fields keep the low sixteen bits
    /// of each computed value, so the actual frequency may differ from
    /// the requested one; `freq` reads the actual one back.
    pub fn set_freq(&mut self, freq: Hertz)
        requires
            1 <= freq.0 <= old(self).clk.0,
        ensures
            ({
                let ratio = old(self).clk.0 as int / freq.0 as int;
                let psc = (ratio - 1) / 0xffff;
                &&& final(self).psc == psc % 0x10000
                &&& final(self).arr == (ratio / (psc + 1) - 1) % 0x10000
            }),
            final(self).clk == old(self).clk,
            final(self).cen,
            final(self).uie == old(self).uie,
    {
        let clkraw: u32 = self.clk.raw();
        let ratio: u32 = clkraw / freq.raw();
        proof {
            assert(clkraw as int / freq.0 as int >= 1) by (nonlinear_arith)
                requires
                    clkraw >= freq.0,
                    freq.0 >= 1,
            ;
        }
        let psc: u32 = (ratio - 1) / 0xffff;
        proof {
            assert(psc <= ratio - 1) by (nonlinear_arith)
                requires
                    psc == (ratio - 1) / 0xffff,
                    ratio >= 1,
            ;
            assert(ratio as int / (psc as int + 1) >= 1) by (nonlinear_arith)
                requires
                    ratio >= psc + 1,
                    psc >= 0,
            ;
        }
        let arr: u32 = ratio / (psc + 1) - 1;
        proof {
            assert(psc as u16 == psc % 0x10000) by (bit_vector);
            assert(arr as u16 == arr % 0x10000) by (bit_vector);
        }
        self.psc = #[verifier::truncate] (psc as u16);
        self.arr = #[verifier::truncate] (arr as u16);
        self.cen = true;
    }

    /// The frequency actually programmed.
    pub fn freq(&self) -> (r: Hertz)
        ensures
            r.0 == self.clk.0 as int / (self.psc + 1) / (self.arr + 1),
    {
        Hertz(self.clk.raw() / (self.psc as u32 + 1) / (self.arr as u32 + 1))
    }

    /// Start listening for the update interrupt.
    pub fn listen(&mut self)
        ensures
            *final(self) == (Pwm { uie: true, ..*old(self) }),
    {
        self.uie = true;
    }

    /// Stop listening for the update interrupt.
    pub fn unlisten(&mut self)
        ensures
            *final(self) == (Pwm { uie: false, ..*old(self) }),
    {
        self.uie = false;
    }

    /// Clear the update interrupt flag.
    pub fn clear_irq(&mut self)
        ensures
            *final(self) == (Pwm { uif: false, ..*old(self) }),
    {
        self.uif = false;
    }

    /// Reset the counter.
    pub fn reset(&mut self)
        ensures
            *final(self) == (Pwm { cnt: 0, ..*old(self) }),
    {
        self.cnt = 0;
    }

    /// Bind a channel pin, taking the current reload value as the duty
    /// ceiling.
    pub fn bind_pin(&self, channel: u8) -> (r: PwmPin)
        ensures
            r.channel == channel,
            !r.enabled,
            r.duty == 0,
            r.max_duty == self.arr,
            r.compare_mode == OutputCompareMode::PwmMode1.spec_bits(),
    {
        PwmPin {
            channel,
            enabled: false,
            duty: 0,
            max_duty: self.arr as u32,
            compare_mode: 6,
        }
    }
}

/// One pulse-width modulated output channel.
#[derive(Clone, Copy, Debug, PartialEq, Eq, Structural)]
pub struct PwmPin {
    /// The capture/compare channel driven.
    pub channel: u8,
    /// Output enable.
    pub enabled: bool,
    /// Compare register model: the duty value.
    pub duty: u32,
    /// The duty ceiling: the timer's reload value at binding time.
    pub max_duty: u32,
    /// Output-compare mode bits.
    pub compare_mode: u8,
}

impl PwmPin {
    /// Switch the channel's output on.
    pub fn enable(&mut self)
        ensures
            *final(self) == (PwmPin { enabled: true, ..*old(self) }),
    {
        self.enabled = true;
    }

    /// Switch the channel's output off.
    pub fn disable(&mut self)
        ensures
            *final(self) == (PwmPin { enabled: false, ..*old(self) }),
    {
        self.enabled = false;
    }

    /// The programmed duty value.
    pub fn get_duty(&self) -> (r: u32)
        ensures
            r == self.duty,
    {
        self.duty
    }

    /// The duty ceiling.
    pub fn get_max_duty(&self) -> (r: u32)
        ensures
            r == self.max_duty,
    {
        self.max_duty
    }

    /// Program the duty value.
    pub fn set_duty(&mut self, duty: u32)
        ensures
            *final(self) == (PwmPin { duty, ..*old(self) }),
    {
        self.duty = duty;
    }

    /// Select the channel's output-compare mode.
    pub fn set_compare_mode(&mut self, mode: OutputCompareMode)
        ensures
            *final(self) == (PwmPin { compare_mode: mode.spec_bits(), ..*old(self) }),
    {
        self.compare_mode = mode.bits();
    }
}

/// Builds a PWM timer from an owned peripheral; the hardware layer
/// implements it per timer block.
pub trait PwmExt: Sized {
    fn pwm(self, freq: Hertz, rcc: &mut Rcc) -> Pwm;
}

/// A channel whose output-compare mode can be selected.
pub trait PwmPinMode {
    fn set_compare_mode(&mut self, mode: OutputCompareMode);
}

} // verus!
