//! Serial peripheral interface.

use vstd::prelude::*;

use crate::rcc::Rcc;
use crate::time::Hertz;

verus! {

/// SPI error.
#[derive(Clone, Copy, Debug, PartialEq, Eq, Structural)]
pub enum Error {
    /// Overrun occurred.
    Overrun,
    /// Mode fault occurred.
    ModeFault,
    /// CRC error.
    Crc,
}

/// Clock polarity.
#[derive(Clone, Copy, Debug, PartialEq, Eq, Structural)]
pub enum Polarity {
    IdleLow,
    IdleHigh,
}

/// Clock phase.
#[derive(Clone, Copy, Debug, PartialEq, Eq, Structural)]
pub enum Phase {
    CaptureOnFirstTransition,
    CaptureOnSecondTransition,
}

/// SPI mode: polarity and phase.
#[derive(Clone, Copy, Debug, PartialEq, Eq, Structural)]
pub struct Mode {
    pub polarity: Polarity,
    pub phase: Phase,
}

/// Model of the first control register.
#[derive(Clone, Copy, Debug, PartialEq, Eq, Structural)]
pub struct SpiCr1 {
    pub cpha: bool,
    pub cpol: bool,
    pub mstr: bool,
    pub br: u8,
    pub lsbfirst: bool,
    pub ssm: bool,
    pub ssi: bool,
    pub rxonly: bool,
    pub bidimode: bool,
    pub bidioe: bool,
    pub spe: bool,
}

/// Model of the second control register.
#[derive(Clone, Copy, Debug, PartialEq, Eq, Structural)]
pub struct SpiCr2 {
    pub ssoe: bool,
    pub frxth: bool,
    pub ds: u8,
}

/// A status-register snapshot, taken by the hardware layer.
#[derive(Clone, Copy, Debug, PartialEq, Eq, Structural)]
pub struct SpiSr {
    /// Overrun.
    pub ovr: bool,
    /// Mode fault.
    pub modf: bool,
    /// CRC error.
    pub crcerr: bool,
    /// Receive register holds data.
    pub rxne: bool,
    /// Transmit register empty.
    pub txe: bool,
}

/// The baud-rate divisor selection for a bus-clock to SPI-clock ratio.
pub open spec fn spec_br_bits(ratio: int) -> u8 {
    if ratio <= 2 {
        0
    } else if ratio <= 5 {
        1
    } else if ratio <= 11 {
        2
    } else if ratio <= 23 {
        3
    } else if ratio <= 47 {
        4
    } else if ratio <= 95 {
        5
    } else if ratio <= 191 {
        6
    } else {
        7
    }
}

/// One SPI bus in master mode.
#[derive(Clone, Copy, Debug, PartialEq, Eq, Structural)]
pub struct Spi {
    /// First control register model.
    pub cr1: SpiCr1,
    /// Second control register model.
    pub cr2: SpiCr2,
}

impl Spi {
    /// Configure a bus in master mode at the requested speed: pick the
    /// smallest power-of-two divisor that does not exceed it, eight-bit
    /// frames, software slave management.
    pub fn new(mode: Mode, speed: Hertz, rcc: &Rcc) -> (r: Spi)
        requires
            speed.0 >= 1,
            speed.0 <= rcc.clocks.apb_clk.0,
        ensures
            r.cr1.br == spec_br_bits(rcc.clocks.apb_clk.0 as int / speed.0 as int),
            r.cr1.cpha == (mode.phase == Phase::CaptureOnSecondTransition),
            r.cr1.cpol == (mode.polarity == Polarity::IdleHigh),
            r.cr1.mstr,
            !r.cr1.lsbfirst,
            r.cr1.ssm,
            r.cr1.ssi,
            !r.cr1.rxonly,
            !r.cr1.bidimode,
            !r.cr1.bidioe,
            r.cr1.spe,
            !r.cr2.ssoe,
            r.cr2.frxth,
            r.cr2.ds == 7,
    {
        let ratio = rcc.clocks.apb_clk.raw() / speed.raw();
        let br: u8 = if ratio <= 2 {
            0
        } else if ratio <= 5 {
            1
        } else if ratio <= 11 {
            2
        } else if ratio <= 23 {
            3
        } else if ratio <= 47 {
            4
        } else if ratio <= 95 {
            5
        } else if ratio <= 191 {
            6
        } else {
            7
        };
        let cpha = match mode.phase {
            Phase::CaptureOnSecondTransition => true,
            Phase::CaptureOnFirstTransition => false,
        };
        let cpol = match mode.polarity {
            Polarity::IdleHigh => true,
            Polarity::IdleLow => false,
        };
        Spi {
            cr1: SpiCr1 {
                cpha,
                cpol,
                mstr: true,
                br,
                lsbfirst: false,
                ssm: true,
                ssi: true,
                rxonly: false,
                bidimode: false,
                bidioe: false,
                spe: true,
            },
            cr2: SpiCr2 { ssoe: false, frxth: true, ds: 7 },
        }
    }

    /// Select the frame size in bits.
    pub fn data_size(&mut self, nr_bits: u8)
        requires
            1 <= nr_bits <= 16,
        ensures
            *final(self) == (Spi {
                cr2: SpiCr2 { ds: (nr_bits - 1) as u8, ..old(self).cr2 },
                ..*old(self)
            }),
    {
        self.cr2 = SpiCr2 { ds: nr_bits - 1, ..self.cr2 };
    }

    /// Switch half-duplex mode on or off.
    pub fn half_duplex_enable(&mut self, enable: bool)
        ensures
            *final(self) == (Spi {
                cr1: SpiCr1 { bidimode: enable, ..old(self).cr1 },
                ..*old(self)
            }),
    {
        self.cr1 = SpiCr1 { bidimode: enable, ..self.cr1 };
    }

    /// In half-duplex mode, drive the line (send) or release it
    /// (receive).
    pub fn half_duplex_output_enable(&mut self, enable: bool)
        ensures
            *final(self) == (Spi {
                cr1: SpiCr1 { bidioe: enable, ..old(self).cr1 },
                ..*old(self)
            }),
    {
        self.cr1 = SpiCr1 { bidioe: enable, ..self.cr1 };
    }

    /// Hand the bus back.
    pub fn release(self) -> (r: (SpiCr1, SpiCr2))
        ensures
            r.0 == self.cr1,
            r.1 == self.cr2,
    {
        (self.cr1, self.cr2)
    }

    /// Resolve a status snapshot for a read: errors first, then the
    /// received byte if one is there, else not ready yet.
    pub fn read(&mut self, sr: &SpiSr, rx_byte: u8) -> (r: Result<Option<u8>, Error>)
        ensures
            *final(self) == *old(self),
            sr.ovr ==> r == Err::<Option<u8>, Error>(Error::Overrun),
            !sr.ovr && sr.modf ==> r == Err::<Option<u8>, Error>(Error::ModeFault),
            !sr.ovr && !sr.modf && sr.crcerr ==> r == Err::<Option<u8>, Error>(Error::Crc),
            !sr.ovr && !sr.modf && !sr.crcerr && sr.rxne ==> r == Ok::<Option<u8>, Error>(
                Some(rx_byte),
            ),
            !sr.ovr && !sr.modf && !sr.crcerr && !sr.rxne ==> r == Ok::<Option<u8>, Error>(None),
    {
        if sr.ovr {
            Err(Error::Overrun)
        } else if sr.modf {
            Err(Error::ModeFault)
        } else if sr.crcerr {
            Err(Error::Crc)
        } else if sr.rxne {
            Ok(Some(rx_byte))
        } else {
            Ok(None)
        }
    }

    /// Resolve a status snapshot for a send: errors first, then the byte
    /// to load if the transmit register is free, else not ready yet.
    pub fn send(&mut self, sr: &SpiSr, byte: u8) -> (r: Result<Option<u8>, Error>)
        ensures
            *final(self) == *old(self),
            sr.ovr ==> r == Err::<Option<u8>, Error>(Error::Overrun),
            !sr.ovr && sr.modf ==> r == Err::<Option<u8>, Error>(Error::ModeFault),
            !sr.ovr && !sr.modf && sr.crcerr ==> r == Err::<Option<u8>, Error>(Error::Crc),
            !sr.ovr && !sr.modf && !sr.crcerr && sr.txe ==> r == Ok::<Option<u8>, Error>(
                Some(byte),
            ),
            !sr.ovr && !sr.modf && !sr.crcerr && !sr.txe ==> r == Ok::<Option<u8>, Error>(None),
    {
        if sr.ovr {
            Err(Error::Overrun)
        } else if sr.modf {
            Err(Error::ModeFault)
        } else if sr.crcerr {
            Err(Error::Crc)
        } else if sr.txe {
            Ok(Some(byte))
        } else {
            Ok(None)
        }
    }
}

/// A peripheral block that can be an SPI bus; the hardware layer
/// implements it per block.
pub trait Instance {
    /// Apply the two control-register models to the block.
    fn apply(&mut self, cr1: &SpiCr1, cr2: &SpiCr2);

    /// Take a status snapshot.
    fn status(&mut self) -> SpiSr;
}

/// Builds an SPI bus from an owned peripheral and its pins; the
/// hardware layer implements it per block.
pub trait SpiExt {
    fn spi(self, mode: Mode, freq: Hertz, rcc: &mut Rcc) -> Spi;
}

} // verus!
