//! Clock outputs: the low-speed clock output and the microcontroller
//! clock output.

use vstd::prelude::*;

use crate::rcc::config::{LSCOSrc, MCOSrc, Prescaler};
use crate::rcc::{Rcc, RccRegs};

verus! {

/// The low-speed clock output, driving its dedicated pin.
#[derive(Clone, Copy, Debug, PartialEq, Eq, Structural)]
pub struct Lsco {
    /// The source it was configured from.
    pub src: LSCOSrc,
}

impl Lsco {
    /// Route the selected low-speed oscillator to the output: start the
    /// oscillator and program the source selection.
    pub fn new(src: LSCOSrc, rcc: &mut Rcc) -> (r: Lsco)
        ensures
            r.src == src,
            src == LSCOSrc::LSE ==> final(rcc).regs.lseon && final(rcc).regs.lscosel,
            src == LSCOSrc::LSI ==> final(rcc).regs.lsion && !final(rcc).regs.lscosel,
            final(rcc).clocks == old(rcc).clocks,
    {
        let select_external: bool = match src {
            LSCOSrc::LSE => {
                rcc.enable_lse(false);
                true
            },
            LSCOSrc::LSI => {
                rcc.enable_lsi();
                false
            },
        };
        rcc.regs.lscosel = select_external;
        Lsco { src }
    }

    /// Switch the output on.
    pub fn enable(&mut self, rcc: &mut Rcc)
        ensures
            *final(self) == *old(self),
            *final(rcc) == (Rcc {
                regs: RccRegs { lscoen: true, ..old(rcc).regs },
                ..*old(rcc)
            }),
    {
        rcc.regs.lscoen = true;
    }

    /// Switch the output off.
    pub fn disable(&mut self, rcc: &mut Rcc)
        ensures
            *final(self) == *old(self),
            *final(rcc) == (Rcc {
                regs: RccRegs { lscoen: false, ..old(rcc).regs },
                ..*old(rcc)
            }),
    {
        rcc.regs.lscoen = false;
    }

    /// Hand the output back, returning the source it was driven from.
    pub fn release(self) -> (r: LSCOSrc)
        ensures
            r == self.src,
    {
        self.src
    }
}

/// Builds the low-speed clock output from its pin; the hardware layer
/// implements it for the dedicated pin.
pub trait LSCOExt {
    fn lsco(self, src: LSCOSrc, rcc: &mut Rcc) -> Lsco;
}

/// The microcontroller clock output.
#[derive(Clone, Copy, Debug, PartialEq, Eq, Structural)]
pub struct Mco {
    /// The source-selection bits programmed when the output is enabled.
    pub src_bits: u8,
}

/// The clock-output prescaler selection bits.
pub open spec fn spec_mco_psc_bits(psc: Prescaler) -> u8 {
    match psc {
        Prescaler::NotDivided => 0,
        Prescaler::Div2 => 1,
        Prescaler::Div4 => 2,
        Prescaler::Div8 => 3,
        Prescaler::Div16 => 4,
        Prescaler::Div32 => 5,
        Prescaler::Div64 => 6,
        _ => 7,
    }
}

/// The clock-output source selection bits.
pub open spec fn spec_mco_src_bits(src: MCOSrc) -> u8 {
    match src {
        MCOSrc::SysClk => 1,
        MCOSrc::HSI => 3,
        MCOSrc::HSE => 4,
        MCOSrc::LSI => 6,
        MCOSrc::LSE => 7,
    }
}

impl Mco {
    /// Configure the clock output: program the prescaler, start the
    /// selected oscillator, and remember the source bits to apply when
    /// the output is enabled.
    pub fn new(src: MCOSrc, psc: Prescaler, rcc: &mut Rcc) -> (r: Mco)
        ensures
            r.src_bits == spec_mco_src_bits(src),
            final(rcc).regs.mcopre == spec_mco_psc_bits(psc),
            src == MCOSrc::HSI ==> final(rcc).regs.hsion,
            src == MCOSrc::HSE ==> final(rcc).regs.hseon,
            src == MCOSrc::LSI ==> final(rcc).regs.lsion,
            src == MCOSrc::LSE ==> final(rcc).regs.lseon,
            final(rcc).clocks == old(rcc).clocks,
    {
        let psc_bits: u8 = match psc {
            Prescaler::NotDivided => 0,
            Prescaler::Div2 => 1,
            Prescaler::Div4 => 2,
            Prescaler::Div8 => 3,
            Prescaler::Div16 => 4,
            Prescaler::Div32 => 5,
            Prescaler::Div64 => 6,
            _ => 7,
        };
        rcc.regs.mcopre = psc_bits;
        let src_bits: u8 = match src {
            MCOSrc::SysClk => 1,
            MCOSrc::HSI => {
                rcc.enable_hsi();
                3
            },
            MCOSrc::HSE => {
                rcc.enable_hse(false);
                4
            },
            MCOSrc::LSI => {
                rcc.enable_lsi();
                6
            },
            MCOSrc::LSE => {
                rcc.enable_lse(false);
                7
            },
        };
        Mco { src_bits }
    }

    /// Switch the output on by programming its source selection.
    pub fn enable(&mut self, rcc: &mut Rcc)
        ensures
            *final(self) == *old(self),
            *final(rcc) == (Rcc {
                regs: RccRegs { mcosel: old(self).src_bits, ..old(rcc).regs },
                ..*old(rcc)
            }),
    {
        rcc.regs.mcosel = self.src_bits;
    }

    /// Switch the output off.
    pub fn disable(&mut self, rcc: &mut Rcc)
        ensures
            *final(self) == *old(self),
            *final(rcc) == (Rcc {
                regs: RccRegs { mcosel: 0, ..old(rcc).regs },
                ..*old(rcc)
            }),
    {
        rcc.regs.mcosel = 0;
    }

    /// Hand the output back, returning the remembered source bits.
    pub fn release(self) -> (r: u8)
        ensures
            r == self.src_bits,
    {
        self.src_bits
    }
}

/// Builds the microcontroller clock output from a capable pin; the
/// hardware layer implements it per pin.
pub trait MCOExt {
    fn mco(self, src: MCOSrc, psc: Prescaler, rcc: &mut Rcc) -> Mco;
}

} // verus!
