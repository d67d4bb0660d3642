//! Reset and clock control.
//!
//! The driver computes the clock frequencies and the selection bit
//! patterns; the hardware layer writes them to the block and performs
//! the ready-flag waits.

use vstd::prelude::*;

pub mod clockout;
pub mod config;

pub use config::{Config, LSCOSrc, MCOSrc, Prescaler, RTCSrc, SysClockSrc};

use crate::time::Hertz;

verus! {

/// High-speed internal oscillator frequency.
pub const HSI_FREQ: u32 = 48000000;

/// Low-speed internal oscillator frequency.
pub const LSI_FREQ: u32 = 32768;

/// Clock frequencies of the frozen clock tree.
#[derive(Clone, Copy, Debug, PartialEq, Eq, Structural)]
pub struct Clocks {
    /// System frequency.
    pub sys_clk: Hertz,
    /// Core frequency.
    pub core_clk: Hertz,
    /// AHB frequency.
    pub ahb_clk: Hertz,
    /// APB frequency.
    pub apb_clk: Hertz,
    /// APB timers frequency.
    pub apb_tim_clk: Hertz,
}

impl Default for Clocks {
    /// The frequencies out of reset: 12 MHz buses, 1.5 MHz core tick.
    fn default() -> (r: Clocks)
        ensures
            r.sys_clk.0 == 12000000,
            r.ahb_clk.0 == 12000000,
            r.apb_clk.0 == 12000000,
            r.apb_tim_clk.0 == 12000000,
            r.core_clk.0 == 1500000,
    {
        Clocks {
            sys_clk: Hertz(12000000),
            ahb_clk: Hertz(12000000),
            apb_clk: Hertz(12000000),
            apb_tim_clk: Hertz(12000000),
            core_clk: Hertz(1500000),
        }
    }
}

/// Model of the clock-control registers this driver programs.
#[derive(Clone, Copy, Debug, PartialEq, Eq, Structural)]
pub struct RccRegs {
    /// High-speed internal oscillator on.
    pub hsion: bool,
    /// High-speed internal oscillator divider selection.
    pub hsidiv: u8,
    /// High-speed external oscillator on.
    pub hseon: bool,
    /// High-speed external bypass.
    pub hsebyp: bool,
    /// Low-speed internal oscillator on.
    pub lsion: bool,
    /// Low-speed external oscillator on.
    pub lseon: bool,
    /// Low-speed external bypass.
    pub lsebyp: bool,
    /// System clock switch.
    pub sw: u8,
    /// AHB prescaler selection.
    pub hpre: u8,
    /// APB prescaler selection.
    pub ppre: u8,
    /// Clock-output source selection.
    pub mcosel: u8,
    /// Clock-output prescaler selection.
    pub mcopre: u8,
    /// Low-speed clock output enable.
    pub lscoen: bool,
    /// Low-speed clock output source (external when set).
    pub lscosel: bool,
    /// RTC clock source selection.
    pub rtcsel: u8,
    /// RTC clock enable.
    pub rtcen: bool,
    /// Power-interface clock enable.
    pub pwren: bool,
    /// RTC bus clock enable.
    pub rtcapben: bool,
    /// RTC bus clock enable in sleep mode.
    pub rtcapbsmen: bool,
}

impl RccRegs {
    /// The registers at reset.
    pub fn at_reset() -> (r: RccRegs)
        ensures
            r == RccRegs::spec_at_reset(),
    {
        RccRegs {
            hsion: true,
            hsidiv: 2,
            hseon: false,
            hsebyp: false,
            lsion: false,
            lseon: false,
            lsebyp: false,
            sw: 0,
            hpre: 0,
            ppre: 0,
            mcosel: 0,
            mcopre: 0,
            lscoen: false,
            lscosel: false,
            rtcsel: 0,
            rtcen: false,
            pwren: false,
            rtcapben: false,
            rtcapbsmen: false,
        }
    }

    pub open spec fn spec_at_reset() -> RccRegs {
        RccRegs {
            hsion: true,
            hsidiv: 2,
            hseon: false,
            hsebyp: false,
            lsion: false,
            lseon: false,
            lsebyp: false,
            sw: 0,
            hpre: 0,
            ppre: 0,
            mcosel: 0,
            mcopre: 0,
            lscoen: false,
            lscosel: false,
            rtcsel: 0,
            rtcen: false,
            pwren: false,
            rtcapben: false,
            rtcapbsmen: false,
        }
    }
}

/// The constrained clock controller: the frozen frequencies and the
/// register model the hardware layer applies.
#[derive(Clone, Copy, Debug, PartialEq, Eq, Structural)]
pub struct Rcc {
    /// Clock configuration.
    pub clocks: Clocks,
    /// Register model.
    pub regs: RccRegs,
}

/// The divider the high-speed internal oscillator runs through.
pub open spec fn spec_hsi_div(prs: Prescaler) -> int {
    match prs {
        Prescaler::Div2 => 2,
        Prescaler::Div4 => 4,
        Prescaler::Div8 => 8,
        Prescaler::Div16 => 16,
        Prescaler::Div32 => 32,
        Prescaler::Div64 => 64,
        Prescaler::Div128 => 128,
        _ => 1,
    }
}

/// The divider-selection bits for the high-speed internal oscillator.
pub open spec fn spec_hsi_div_bits(prs: Prescaler) -> u8 {
    match prs {
        Prescaler::Div2 => 1,
        Prescaler::Div4 => 2,
        Prescaler::Div8 => 3,
        Prescaler::Div16 => 4,
        Prescaler::Div32 => 5,
        Prescaler::Div64 => 6,
        Prescaler::Div128 => 7,
        _ => 0,
    }
}

/// The system frequency a clock source yields.
pub open spec fn spec_sys_clk(mux: SysClockSrc) -> int {
    match mux {
        SysClockSrc::HSE(freq) => freq.0 as int,
        SysClockSrc::HSE_BYPASS(freq) => freq.0 as int,
        SysClockSrc::LSE(freq) => freq.0 as int,
        SysClockSrc::LSE_BYPASS(freq) => freq.0 as int,
        SysClockSrc::LSI => LSI_FREQ as int,
        SysClockSrc::HSI(prs) => HSI_FREQ as int / spec_hsi_div(prs),
    }
}

/// The system clock switch bits for a clock source.
pub open spec fn spec_sw_bits(mux: SysClockSrc) -> u8 {
    match mux {
        SysClockSrc::HSE(_) => 1,
        SysClockSrc::HSE_BYPASS(_) => 1,
        SysClockSrc::LSE(_) => 4,
        SysClockSrc::LSE_BYPASS(_) => 4,
        SysClockSrc::LSI => 3,
        SysClockSrc::HSI(_) => 0,
    }
}

/// The divider the AHB prescaler applies.
pub open spec fn spec_ahb_div(psc: Prescaler) -> int {
    match psc {
        Prescaler::Div2 => 2,
        Prescaler::Div4 => 4,
        Prescaler::Div8 => 8,
        Prescaler::Div16 => 16,
        Prescaler::Div64 => 64,
        Prescaler::Div128 => 128,
        Prescaler::Div256 => 256,
        Prescaler::Div512 => 512,
        _ => 1,
    }
}

/// The AHB prescaler selection bits.
pub open spec fn spec_ahb_bits(psc: Prescaler) -> u8 {
    match psc {
        Prescaler::Div2 => 8,
        Prescaler::Div4 => 9,
        Prescaler::Div8 => 10,
        Prescaler::Div16 => 11,
        Prescaler::Div64 => 12,
        Prescaler::Div128 => 13,
        Prescaler::Div256 => 14,
        Prescaler::Div512 => 15,
        _ => 0,
    }
}

/// The divider the APB prescaler applies.
pub open spec fn spec_apb_div(psc: Prescaler) -> int {
    match psc {
        Prescaler::Div2 => 2,
        Prescaler::Div4 => 4,
        Prescaler::Div8 => 8,
        Prescaler::Div16 => 16,
        _ => 1,
    }
}

/// The divider the APB timer clock runs through (half the APB divider,
/// but never less than one).
pub open spec fn spec_apb_tim_div(psc: Prescaler) -> int {
    match psc {
        Prescaler::Div2 => 1,
        Prescaler::Div4 => 2,
        Prescaler::Div8 => 4,
        Prescaler::Div16 => 8,
        _ => 1,
    }
}

/// The APB prescaler selection bits.
pub open spec fn spec_apb_bits(psc: Prescaler) -> u8 {
    match psc {
        Prescaler::Div2 => 4,
        Prescaler::Div4 => 5,
        Prescaler::Div8 => 6,
        Prescaler::Div16 => 7,
        _ => 0,
    }
}

impl Rcc {
    /// The clock controller as it comes out of reset, before any
    /// configuration is applied.
    pub fn new() -> (r: Rcc)
        ensures
            r.clocks.sys_clk.0 == 12000000,
            r.clocks.apb_clk.0 == 12000000,
            r.regs == RccRegs::spec_at_reset(),
    {
        Rcc { clocks: Clocks::default(), regs: RccRegs::at_reset() }
    }

    /// Apply a clock configuration: select and start the system clock
    /// source, program the bus prescalers, and compute every derived
    /// frequency.  The hardware layer writes the register model and
    /// waits for the switch to take.
    pub fn freeze(self, cfg: Config) -> (r: Rcc)
        ensures
            r.clocks.sys_clk.0 == spec_sys_clk(cfg.sys_mux),
            r.clocks.ahb_clk.0 == spec_sys_clk(cfg.sys_mux) / spec_ahb_div(cfg.ahb_psc),
            r.clocks.apb_clk.0 == r.clocks.ahb_clk.0 as int / spec_apb_div(cfg.apb_psc),
            r.clocks.apb_tim_clk.0 == r.clocks.ahb_clk.0 as int / spec_apb_tim_div(cfg.apb_psc),
            r.clocks.core_clk.0 == r.clocks.ahb_clk.0 / 8,
            r.regs.sw == spec_sw_bits(cfg.sys_mux),
            r.regs.hpre == spec_ahb_bits(cfg.ahb_psc),
            r.regs.ppre == spec_apb_bits(cfg.apb_psc),
            cfg.sys_mux matches SysClockSrc::HSI(prs) ==> r.regs.hsion && r.regs.hsidiv
                == spec_hsi_div_bits(prs),
            (cfg.sys_mux matches SysClockSrc::HSE(_) ==> r.regs.hseon && !r.regs.hsebyp),
            (cfg.sys_mux matches SysClockSrc::HSE_BYPASS(_) ==> r.regs.hseon && r.regs.hsebyp),
            (cfg.sys_mux matches SysClockSrc::LSE(_) ==> r.regs.lseon && !r.regs.lsebyp),
            (cfg.sys_mux matches SysClockSrc::LSE_BYPASS(_) ==> r.regs.lseon && r.regs.lsebyp),
            (cfg.sys_mux matches SysClockSrc::LSI ==> r.regs.lsion),
    {
        let mut rcc = self;
        let sys_freq: u32 = match cfg.sys_mux {
            SysClockSrc::HSE(freq) => {
                rcc.enable_hse(false);
                freq.0
            },
            SysClockSrc::HSE_BYPASS(freq) => {
                rcc.enable_hse(true);
                freq.0
            },
            SysClockSrc::LSE(freq) => {
                rcc.enable_lse(false);
                freq.0
            },
            SysClockSrc::LSE_BYPASS(freq) => {
                rcc.enable_lse(true);
                freq.0
            },
            SysClockSrc::LSI => {
                rcc.enable_lsi();
                LSI_FREQ
            },
            SysClockSrc::HSI(prs) => {
                rcc.enable_hsi();
                let (freq, div_bits): (u32, u8) = match prs {
                    Prescaler::Div2 => (HSI_FREQ / 2, 1),
                    Prescaler::Div4 => (HSI_FREQ / 4, 2),
                    Prescaler::Div8 => (HSI_FREQ / 8, 3),
                    Prescaler::Div16 => (HSI_FREQ / 16, 4),
                    Prescaler::Div32 => (HSI_FREQ / 32, 5),
                    Prescaler::Div64 => (HSI_FREQ / 64, 6),
                    Prescaler::Div128 => (HSI_FREQ / 128, 7),
                    _ => (HSI_FREQ, 0),
                };
                rcc.regs.hsidiv = div_bits;
                freq
            },
        };
        let sw_bits: u8 = match cfg.sys_mux {
            SysClockSrc::HSE(_) => 1,
            SysClockSrc::HSE_BYPASS(_) => 1,
            SysClockSrc::LSE(_) => 4,
            SysClockSrc::LSE_BYPASS(_) => 4,
            SysClockSrc::LSI => 3,
            SysClockSrc::HSI(_) => 0,
        };
        let (ahb_freq, ahb_psc_bits): (u32, u8) = match cfg.ahb_psc {
            Prescaler::Div2 => (sys_freq / 2, 8),
            Prescaler::Div4 => (sys_freq / 4, 9),
            Prescaler::Div8 => (sys_freq / 8, 10),
            Prescaler::Div16 => (sys_freq / 16, 11),
            Prescaler::Div64 => (sys_freq / 64, 12),
            Prescaler::Div128 => (sys_freq / 128, 13),
            Prescaler::Div256 => (sys_freq / 256, 14),
            Prescaler::Div512 => (sys_freq / 512, 15),
            _ => (sys_freq, 0),
        };
        let (apb_freq, apb_tim_freq, apb_psc_bits): (u32, u32, u8) = match cfg.apb_psc {
            Prescaler::Div2 => (ahb_freq / 2, ahb_freq, 4),
            Prescaler::Div4 => (ahb_freq / 4, ahb_freq / 2, 5),
            Prescaler::Div8 => (ahb_freq / 8, ahb_freq / 4, 6),
            Prescaler::Div16 => (ahb_freq / 16, ahb_freq / 8, 7),
            _ => (ahb_freq, ahb_freq, 0),
        };
        rcc.regs.hpre = ahb_psc_bits;
        rcc.regs.ppre = apb_psc_bits;
        rcc.regs.sw = sw_bits;
        Rcc {
            regs: rcc.regs,
            clocks: Clocks {
                sys_clk: Hertz(sys_freq),
                ahb_clk: Hertz(ahb_freq),
                apb_clk: Hertz(apb_freq),
                apb_tim_clk: Hertz(apb_tim_freq),
                core_clk: Hertz(ahb_freq / 8),
            },
        }
    }

    /// Start the high-speed internal oscillator; the hardware layer
    /// waits for its ready flag.
    pub fn enable_hsi(&mut self)
        ensures
            *final(self) == (Rcc { regs: RccRegs { hsion: true, ..old(self).regs }, ..*old(self) }),
    {
        self.regs.hsion = true;
    }

    /// Start the high-speed external oscillator, optionally bypassed;
    /// the hardware layer waits for its ready flag.
    pub fn enable_hse(&mut self, bypass: bool)
        ensures
            *final(self) == (Rcc {
                regs: RccRegs { hseon: true, hsebyp: bypass, ..old(self).regs },
                ..*old(self)
            }),
    {
        self.regs.hseon = true;
        self.regs.hsebyp = bypass;
    }

    /// Start the low-speed internal oscillator; the hardware layer
    /// waits for its ready flag.
    pub fn enable_lsi(&mut self)
        ensures
            *final(self) == (Rcc { regs: RccRegs { lsion: true, ..old(self).regs }, ..*old(self) }),
    {
        self.regs.lsion = true;
    }

    /// Start the low-speed external oscillator, optionally bypassed;
    /// the hardware layer waits for its ready flag.
    pub fn enable_lse(&mut self, bypass: bool)
        ensures
            *final(self) == (Rcc {
                regs: RccRegs { lseon: true, lsebyp: bypass, ..old(self).regs },
                ..*old(self)
            }),
    {
        self.regs.lseon = true;
        self.regs.lsebyp = bypass;
    }

    /// Enable the power-interface bus clock.
    pub fn enable_pwr_clock(&mut self)
        ensures
            *final(self) == (Rcc { regs: RccRegs { pwren: true, ..old(self).regs }, ..*old(self) }),
    {
        self.regs.pwren = true;
    }

    /// The RTC clock source selection bits.
    pub open spec fn spec_rtc_sel(src: RTCSrc) -> u8 {
        match src {
            RTCSrc::LSE => 1,
            RTCSrc::LSE_BYPASS => 1,
            RTCSrc::LSI => 2,
            RTCSrc::HSE => 3,
            RTCSrc::HSE_BYPASS => 3,
        }
    }

    /// Reset the RTC domain, select its clock source, enable its bus
    /// clocks and start the source oscillator.
    pub fn enable_rtc(&mut self, src: RTCSrc)
        ensures
            final(self).regs.pwren,
            final(self).regs.rtcapben,
            final(self).regs.rtcapbsmen,
            final(self).regs.rtcen,
            final(self).regs.rtcsel == Rcc::spec_rtc_sel(src),
            src == RTCSrc::LSE ==> final(self).regs.lseon && !final(self).regs.lsebyp,
            src == RTCSrc::LSE_BYPASS ==> final(self).regs.lseon && final(self).regs.lsebyp,
            src == RTCSrc::LSI ==> final(self).regs.lsion,
            src == RTCSrc::HSE ==> final(self).regs.hseon && !final(self).regs.hsebyp,
            src == RTCSrc::HSE_BYPASS ==> final(self).regs.hseon && final(self).regs.hsebyp,
            final(self).clocks == old(self).clocks,
    {
        self.enable_pwr_clock();
        self.regs.rtcapben = true;
        self.regs.rtcapbsmen = true;
        let rtc_sel: u8 = match src {
            RTCSrc::LSE => 1,
            RTCSrc::LSE_BYPASS => 1,
            RTCSrc::LSI => 2,
            RTCSrc::HSE => 3,
            RTCSrc::HSE_BYPASS => 3,
        };
        self.regs.rtcsel = rtc_sel;
        self.regs.rtcen = true;
        match src {
            RTCSrc::LSE => self.enable_lse(false),
            RTCSrc::LSE_BYPASS => self.enable_lse(true),
            RTCSrc::LSI => self.enable_lsi(),
            RTCSrc::HSE => self.enable_hse(false),
            RTCSrc::HSE_BYPASS => self.enable_hse(true),
        }
    }
}

/// Constrains the raw clock controller; the hardware layer implements
/// it for the peripheral block.
pub trait RccExt {
    /// Constrain the controller so it plays nicely with the other
    /// abstractions.
    fn constrain(self) -> Rcc;

    /// Constrain the controller and apply a clock configuration.
    fn freeze(self, rcc_cfg: Config) -> Rcc;
}

/// The AMBA high-performance bus.
pub struct AHB;

/// The first advanced peripheral bus.
pub struct APB1;

/// The second advanced peripheral bus.
pub struct APB2;

/// The input-output peripheral bus.
pub struct IOP;

/// The bus a peripheral hangs off.
pub trait RccBus {
    /// Bus type.
    type Bus;
}

/// Enable or disable a peripheral's bus clock.  The hardware layer
/// implements it per peripheral.
pub trait Enable: RccBus {
    /// Enable the peripheral's clock.
    fn enable(rcc: &mut Rcc);

    /// Disable the peripheral's clock.
    fn disable(rcc: &mut Rcc);

    /// Whether the peripheral's clock is on.
    fn is_enabled() -> bool;

    /// Whether the peripheral's clock is off.
    fn is_disabled() -> bool;
}

/// Enable or disable a peripheral's clock in sleep mode.
pub trait SMEnable: RccBus {
    /// Enable the peripheral's clock in sleep mode.
    fn sleep_mode_enable(rcc: &mut Rcc);

    /// Disable the peripheral's clock in sleep mode.
    fn sleep_mode_disable(rcc: &mut Rcc);

    /// Whether the peripheral's clock is on in sleep mode.
    fn is_sleep_mode_enabled() -> bool;

    /// Whether the peripheral's clock is off in sleep mode.
    fn is_sleep_mode_disabled() -> bool;
}

/// Reset a peripheral to its default state.
pub trait Reset: RccBus {
    /// Pulse the peripheral's reset line.
    fn reset(rcc: &mut Rcc);
}

} // verus!
