//! Clock-tree configuration values.

use vstd::prelude::*;

use crate::time::Hertz;

verus! {

/// Prescaler.
#[derive(Clone, Copy, Debug, PartialEq, Eq, Structural)]
pub enum Prescaler {
    NotDivided,
    Div2,
    Div4,
    Div8,
    Div16,
    Div32,
    Div64,
    Div128,
    Div256,
    Div512,
}

/// System clock mux source.
#[derive(Clone, Copy, Debug, PartialEq, Eq, Structural)]
pub enum SysClockSrc {
    LSI,
    HSI(Prescaler),
    HSE(Hertz),
    HSE_BYPASS(Hertz),
    LSE(Hertz),
    LSE_BYPASS(Hertz),
}

/// Microcontroller clock output source.
#[derive(Clone, Copy, Debug, PartialEq, Eq, Structural)]
pub enum MCOSrc {
    LSI,
    SysClk,
    HSI,
    HSE,
    LSE,
}

/// Low-speed clock output source.
#[derive(Clone, Copy, Debug, PartialEq, Eq, Structural)]
pub enum LSCOSrc {
    LSI,
    LSE,
}

/// RTC clock input source.
#[derive(Clone, Copy, Debug, PartialEq, Eq, Structural)]
pub enum RTCSrc {
    LSE,
    LSE_BYPASS,
    LSI,
    HSE,
    HSE_BYPASS,
}

/// Clock configuration: the system clock source and the bus prescalers.
#[derive(Clone, Copy, Debug, PartialEq, Eq, Structural)]
pub struct Config {
    pub sys_mux: SysClockSrc,
    pub ahb_psc: Prescaler,
    pub apb_psc: Prescaler,
}

impl Config {
    /// A configuration with the given system clock source and undivided
    /// buses.
    pub fn new(mux: SysClockSrc) -> (r: Config)
        ensures
            r.sys_mux == mux,
            r.ahb_psc == Prescaler::NotDivided,
            r.apb_psc == Prescaler::NotDivided,
    {
        Config::default().clock_src(mux)
    }

    /// Clock from the high-speed external oscillator.
    pub fn hse(freq: Hertz) -> (r: Config)
        ensures
            r.sys_mux == SysClockSrc::HSE(freq),
            r.ahb_psc == Prescaler::NotDivided,
            r.apb_psc == Prescaler::NotDivided,
    {
        Config::default().clock_src(SysClockSrc::HSE(freq))
    }

    /// Clock from an external source fed through the bypass.
    pub fn hse_bypass(freq: Hertz) -> (r: Config)
        ensures
            r.sys_mux == SysClockSrc::HSE_BYPASS(freq),
            r.ahb_psc == Prescaler::NotDivided,
            r.apb_psc == Prescaler::NotDivided,
    {
        Config::default().clock_src(SysClockSrc::HSE_BYPASS(freq))
    }

    /// Clock from the high-speed internal oscillator, divided.
    pub fn hsi(psc: Prescaler) -> (r: Config)
        ensures
            r.sys_mux == SysClockSrc::HSI(psc),
            r.ahb_psc == Prescaler::NotDivided,
            r.apb_psc == Prescaler::NotDivided,
    {
        Config::default().clock_src(SysClockSrc::HSI(psc))
    }

    /// Clock from the low-speed internal oscillator.
    pub fn lsi() -> (r: Config)
        ensures
            r.sys_mux == SysClockSrc::LSI,
            r.ahb_psc == Prescaler::NotDivided,
            r.apb_psc == Prescaler::NotDivided,
    {
        Config::default().clock_src(SysClockSrc::LSI)
    }

    /// Clock from the low-speed external oscillator.
    pub fn lse(freq: Hertz) -> (r: Config)
        ensures
            r.sys_mux == SysClockSrc::LSE(freq),
            r.ahb_psc == Prescaler::NotDivided,
            r.apb_psc == Prescaler::NotDivided,
    {
        Config::default().clock_src(SysClockSrc::LSE(freq))
    }

    /// Clock from an external low-speed source fed through the bypass.
    pub fn lse_bypass(freq: Hertz) -> (r: Config)
        ensures
            r.sys_mux == SysClockSrc::LSE_BYPASS(freq),
            r.ahb_psc == Prescaler::NotDivided,
            r.apb_psc == Prescaler::NotDivided,
    {
        Config::default().clock_src(SysClockSrc::LSE_BYPASS(freq))
    }

    /// Select the system clock source.
    pub fn clock_src(self, mux: SysClockSrc) -> (r: Config)
        ensures
            r == (Config { sys_mux: mux, ..self }),
    {
        Config { sys_mux: mux, ..self }
    }

    /// Select the AHB prescaler.
    pub fn ahb_psc(self, psc: Prescaler) -> (r: Config)
        ensures
            r == (Config { ahb_psc: psc, ..self }),
    {
        Config { ahb_psc: psc, ..self }
    }

    /// Select the APB prescaler.
    pub fn apb_psc(self, psc: Prescaler) -> (r: Config)
        ensures
            r == (Config { apb_psc: psc, ..self }),
    {
        Config { apb_psc: psc, ..self }
    }
}

impl Default for Config {
    /// The reset configuration: internal oscillator divided by four,
    /// buses undivided.
    fn default() -> (r: Config)
        ensures
            r.sys_mux == SysClockSrc::HSI(Prescaler::Div4),
            r.ahb_psc == Prescaler::NotDivided,
            r.apb_psc == Prescaler::NotDivided,
    {
        Config {
            sys_mux: SysClockSrc::HSI(Prescaler::Div4),
            ahb_psc: Prescaler::NotDivided,
            apb_psc: Prescaler::NotDivided,
        }
    }
}

} // verus!
