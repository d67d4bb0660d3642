//! The universal asynchronous receiver-transmitter driver.

use vstd::prelude::*;

use crate::rcc::Rcc;
use crate::serial::{Config, InvalidConfig, Parity, WordLength};

verus! {

/// Serial error.
#[derive(Clone, Copy, Debug, PartialEq, Eq, Structural)]
pub enum Error {
    /// Framing error.
    Framing,
    /// Noise error.
    Noise,
    /// Receive buffer overrun.
    Overrun,
    /// Parity check error.
    Parity,
}

/// Interrupt event of the port.
#[derive(Clone, Copy, Debug, PartialEq, Eq, Structural)]
pub enum Event {
    /// Transmit FIFO reached its threshold.
    TXFT,
    /// Receive FIFO reached its threshold.
    RXFT,
    /// Receive FIFO full.
    RXFF,
    /// Transmit FIFO empty.
    TXFE,
    /// A reception is ongoing on the receive line.
    BUSY,
    /// Receiver timeout lapsed without traffic.
    RTOF,
    /// Transmit data register empty.
    Txe,
    /// Transmission complete.
    TC,
    /// New data received.
    Rxne,
    /// Idle line detected.
    Idle,
    /// Overrun error.
    ORE,
    /// Noise detection flag.
    NE,
    /// Framing error.
    FE,
    /// Parity error.
    PE,
}

impl Event {
    /// The event's bit in the status register.
    pub fn val(self) -> (r: u32)
        ensures
            r == self.spec_val(),
    {
        match self {
            Event::TXFT => 1u32 << 27,
            Event::RXFT => 1u32 << 26,
            Event::RXFF => 1u32 << 24,
            Event::TXFE => 1u32 << 23,
            Event::BUSY => 1u32 << 16,
            Event::RTOF => 1u32 << 11,
            Event::Txe => 1u32 << 7,
            Event::TC => 1u32 << 6,
            Event::Rxne => 1u32 << 5,
            Event::Idle => 1u32 << 4,
            Event::ORE => 1u32 << 3,
            Event::NE => 1u32 << 2,
            Event::FE => 1u32 << 1,
            Event::PE => 1u32 << 0,
        }
    }

    /// The event's bit in the status register.
    pub open spec fn spec_val(self) -> u32 {
        match self {
            Event::TXFT => 1u32 << 27,
            Event::RXFT => 1u32 << 26,
            Event::RXFF => 1u32 << 24,
            Event::TXFE => 1u32 << 23,
            Event::BUSY => 1u32 << 16,
            Event::RTOF => 1u32 << 11,
            Event::Txe => 1u32 << 7,
            Event::TC => 1u32 << 6,
            Event::Rxne => 1u32 << 5,
            Event::Idle => 1u32 << 4,
            Event::ORE => 1u32 << 3,
            Event::NE => 1u32 << 2,
            Event::FE => 1u32 << 1,
            Event::PE => 1u32 << 0,
        }
    }
}

/// The mask of status bits whose interrupts can be acknowledged.
pub const ICR_MASK: u32 = 0x123BFF;

/// A status snapshot of the port, taken by the hardware layer.
/// `rdr` carries the received byte and is meaningful only when `rxfne`
/// is set.
#[derive(Clone, Copy, Debug, PartialEq, Eq, Structural)]
pub struct UsartIsr {
    /// Parity error.
    pub pe: bool,
    /// Framing error.
    pub fe: bool,
    /// Noise detected.
    pub ne: bool,
    /// Receive overrun.
    pub ore: bool,
    /// Receive FIFO not empty.
    pub rxfne: bool,
    /// Transmit FIFO empty.
    pub txfe: bool,
    /// Transmit FIFO reached its threshold.
    pub txft: bool,
    /// Receive FIFO reached its threshold.
    pub rxft: bool,
    /// Transmission complete.
    pub tc: bool,
    /// Receiver timeout lapsed.
    pub rtof: bool,
    /// The byte behind `rxfne`.
    pub rdr: u8,
}

/// Model of the first control register.
#[derive(Clone, Copy, Debug, PartialEq, Eq, Structural)]
pub struct UsCr1 {
    pub ue: bool,
    pub te: bool,
    pub re: bool,
    pub m0: bool,
    pub m1: bool,
    pub pce: bool,
    pub ps: bool,
    pub fifoen: bool,
    pub rxneie: bool,
    pub txeie: bool,
    pub idleie: bool,
    pub rtoie: bool,
    pub txfeie: bool,
}

/// Model of the second control register.
#[derive(Clone, Copy, Debug, PartialEq, Eq, Structural)]
pub struct UsCr2 {
    pub stop: u8,
    pub swap: bool,
    pub rtoen: bool,
}

/// Model of the third control register.
#[derive(Clone, Copy, Debug, PartialEq, Eq, Structural)]
pub struct UsCr3 {
    pub txftcfg: u8,
    pub rxftcfg: u8,
    pub txftie: bool,
    pub rxftie: bool,
    pub dem: bool,
}

/// The receive half of a split port.
#[derive(Clone, Copy, Debug, PartialEq, Eq, Structural)]
pub struct Rx {
    /// Receive interrupt enable.
    pub rxneie: bool,
}

/// The transmit half of a split port.
#[derive(Clone, Copy, Debug, PartialEq, Eq, Structural)]
pub struct Tx {
    /// Transmit-FIFO-empty interrupt enable.
    pub txfeie: bool,
}

/// One serial port.
#[derive(Clone, Copy, Debug, PartialEq, Eq, Structural)]
pub struct Serial {
    /// Baud-rate divisor.
    pub brr: u32,
    /// First control register model.
    pub cr1: UsCr1,
    /// Second control register model.
    pub cr2: UsCr2,
    /// Third control register model.
    pub cr3: UsCr3,
    /// Receiver-timeout register model.
    pub rtor: u32,
}

impl Serial {
    /// Configure a port: program the baud-rate divisor from the bus
    /// clock, the frame format, the FIFO thresholds and, if asked, the
    /// receiver timeout.
    pub fn usart(config: Config, driver_enable: bool, rcc: &Rcc) -> (r: Result<
        Serial,
        InvalidConfig,
    >)
        requires
            config.baudrate >= 1,
        ensures
            r matches Ok(s) ==> {
                &&& s.brr == rcc.clocks.apb_clk.0 as int / config.baudrate as int
                &&& s.cr1.ue && s.cr1.te && s.cr1.re
                &&& s.cr1.m0 == (config.wordlength == WordLength::DataBits7)
                &&& s.cr1.m1 == (config.wordlength == WordLength::DataBits9)
                &&& s.cr1.pce == (config.parity != Parity::ParityNone)
                &&& s.cr1.ps == (config.parity == Parity::ParityOdd)
                &&& s.cr1.fifoen == config.fifo_enable
                &&& s.cr1.rtoie == (config.receiver_timeout is Some)
                &&& s.cr2.stop == config.stopbits.spec_bits()
                &&& s.cr2.swap == config.swap
                &&& s.cr2.rtoen == (config.receiver_timeout is Some)
                &&& (config.receiver_timeout matches Some(t) ==> s.rtor == t)
                &&& s.cr3.txftcfg == config.tx_fifo_threshold.spec_bits()
                &&& s.cr3.rxftcfg == config.rx_fifo_threshold.spec_bits()
                &&& s.cr3.txftie == config.tx_fifo_interrupt
                &&& s.cr3.rxftie == config.rx_fifo_interrupt
                &&& s.cr3.dem == driver_enable
            },
            r is Ok,
    {
        let clk = rcc.clocks.apb_clk.raw() as u64;
        let bdr = config.baudrate as u64;
        let div = clk / bdr;
        let (rtoen, rtor): (bool, u32) = match config.receiver_timeout {
            Some(timeout) => (true, timeout),
            None => (false, 0),
        };
        let m0 = match config.wordlength {
            WordLength::DataBits7 => true,
            _ => false,
        };
        let m1 = match config.wordlength {
            WordLength::DataBits9 => true,
            _ => false,
        };
        let pce = match config.parity {
            Parity::ParityNone => false,
            _ => true,
        };
        let ps = match config.parity {
            Parity::ParityOdd => true,
            _ => false,
        };
        Ok(
            Serial {
                brr: div as u32,
                cr1: UsCr1 {
                    ue: true,
                    te: true,
                    re: true,
                    m0,
                    m1,
                    pce,
                    ps,
                    fifoen: config.fifo_enable,
                    rxneie: false,
                    txeie: false,
                    idleie: false,
                    rtoie: rtoen,
                    txfeie: false,
                },
                cr2: UsCr2 { stop: config.stopbits.bits(), swap: config.swap, rtoen },
                cr3: UsCr3 {
                    txftcfg: config.tx_fifo_threshold.bits(),
                    rxftcfg: config.rx_fifo_threshold.bits(),
                    txftie: config.tx_fifo_interrupt,
                    rxftie: config.rx_fifo_interrupt,
                    dem: driver_enable,
                },
                rtor,
            },
        )
    }

    /// Enable the interrupt for an event; events without a dedicated
    /// enable bit are left alone.
    pub fn listen(&mut self, event: Event)
        ensures
            final(self).cr1 == (match event {
                Event::Rxne => UsCr1 { rxneie: true, ..old(self).cr1 },
                Event::TXFE => UsCr1 { txeie: true, ..old(self).cr1 },
                Event::Idle => UsCr1 { idleie: true, ..old(self).cr1 },
                _ => old(self).cr1,
            }),
            final(self).cr2 == old(self).cr2,
            final(self).cr3 == old(self).cr3,
            final(self).brr == old(self).brr,
    {
        let cr1 = self.cr1;
        self.cr1 = match event {
            Event::Rxne => UsCr1 { rxneie: true, ..cr1 },
            Event::TXFE => UsCr1 { txeie: true, ..cr1 },
            Event::Idle => UsCr1 { idleie: true, ..cr1 },
            _ => cr1,
        };
    }

    /// Disable the interrupt for an event.
    pub fn unlisten(&mut self, event: Event)
        ensures
            final(self).cr1 == (match event {
                Event::Rxne => UsCr1 { rxneie: false, ..old(self).cr1 },
                Event::TXFE => UsCr1 { txeie: false, ..old(self).cr1 },
                Event::Idle => UsCr1 { idleie: false, ..old(self).cr1 },
                _ => old(self).cr1,
            }),
            final(self).cr2 == old(self).cr2,
            final(self).cr3 == old(self).cr3,
            final(self).brr == old(self).brr,
    {
        let cr1 = self.cr1;
        self.cr1 = match event {
            Event::Rxne => UsCr1 { rxneie: false, ..cr1 },
            Event::TXFE => UsCr1 { txeie: false, ..cr1 },
            Event::Idle => UsCr1 { idleie: false, ..cr1 },
            _ => cr1,
        };
    }

    /// Whether an event is pending in the given status-register word.
    pub fn is_pending(&mut self, isr_bits: u32, event: Event) -> (r: bool)
        ensures
            *final(self) == *old(self),
            r == (isr_bits & event.spec_val() != 0),
    {
        (isr_bits & event.val()) != 0
    }

    /// The word to write to the interrupt-clear register to acknowledge
    /// an event: the event's bit, cut to the acknowledgeable ones.
    pub fn unpend(&mut self, event: Event) -> (r: u32)
        ensures
            *final(self) == *old(self),
            r == event.spec_val() & ICR_MASK,
    {
        event.val() & ICR_MASK
    }

    /// Split the port into its transmit and receive halves.
    pub fn split(self) -> (r: (Tx, Rx))
        ensures
            r.0.txfeie == self.cr1.txfeie,
            r.1.rxneie == self.cr1.rxneie,
    {
        (Tx { txfeie: self.cr1.txfeie }, Rx { rxneie: self.cr1.rxneie })
    }
}

impl Rx {
    /// Enable the receive interrupt.
    pub fn listen(&mut self)
        ensures
            final(self).rxneie,
    {
        self.rxneie = true;
    }

    /// Disable the receive interrupt.
    pub fn unlisten(&mut self)
        ensures
            !final(self).rxneie,
    {
        self.rxneie = false;
    }

    /// Whether a received byte is waiting in the given snapshot.
    pub fn is_rxne(&self, isr: &UsartIsr) -> (r: bool)
        ensures
            r == isr.rxfne,
    {
        isr.rxfne
    }

    /// Whether the receiver timeout has lapsed in the given snapshot.
    pub fn timeout_lapsed(&self, isr: &UsartIsr) -> (r: bool)
        ensures
            r == isr.rtof,
    {
        isr.rtof
    }

    /// Whether the receive FIFO reached its threshold in the given
    /// snapshot.
    pub fn fifo_threshold_reached(&self, isr: &UsartIsr) -> (r: bool)
        ensures
            r == isr.rxft,
    {
        isr.rxft
    }

    /// Resolve a status snapshot for a read: errors first — parity,
    /// framing, noise, overrun — then the received byte if one is
    /// there, else not ready yet.
    pub fn read(&mut self, isr: &UsartIsr) -> (r: Result<Option<u8>, Error>)
        ensures
            *final(self) == *old(self),
            isr.pe ==> r == Err::<Option<u8>, Error>(Error::Parity),
            !isr.pe && isr.fe ==> r == Err::<Option<u8>, Error>(Error::Framing),
            !isr.pe && !isr.fe && isr.ne ==> r == Err::<Option<u8>, Error>(Error::Noise),
            !isr.pe && !isr.fe && !isr.ne && isr.ore ==> r == Err::<Option<u8>, Error>(
                Error::Overrun,
            ),
            !isr.pe && !isr.fe && !isr.ne && !isr.ore && isr.rxfne ==> r == Ok::<
                Option<u8>,
                Error,
            >(Some(isr.rdr)),
            !isr.pe && !isr.fe && !isr.ne && !isr.ore && !isr.rxfne ==> r == Ok::<
                Option<u8>,
                Error,
            >(None),
    {
        if isr.pe {
            Err(Error::Parity)
        } else if isr.fe {
            Err(Error::Framing)
        } else if isr.ne {
            Err(Error::Noise)
        } else if isr.ore {
            Err(Error::Overrun)
        } else if isr.rxfne {
            Ok(Some(isr.rdr))
        } else {
            Ok(None)
        }
    }
}

impl Tx {
    /// Enable the transmit-FIFO-empty interrupt.
    pub fn listen(&mut self)
        ensures
            final(self).txfeie,
    {
        self.txfeie = true;
    }

    /// Disable the transmit-FIFO-empty interrupt.
    pub fn unlisten(&mut self)
        ensures
            !final(self).txfeie,
    {
        self.txfeie = false;
    }

    /// Whether the transmit FIFO is empty in the given snapshot.
    pub fn is_txfe(&self, isr: &UsartIsr) -> (r: bool)
        ensures
            r == isr.txfe,
    {
        isr.txfe
    }

    /// Whether the transmit FIFO reached its threshold in the given
    /// snapshot.
    pub fn fifo_threshold_reached(&self, isr: &UsartIsr) -> (r: bool)
        ensures
            r == isr.txft,
    {
        isr.txft
    }

    /// Resolve a status snapshot for a send: the byte to load if the
    /// transmit FIFO has room, else not ready yet.
    pub fn write(&mut self, isr: &UsartIsr, byte: u8) -> (r: Option<u8>)
        ensures
            *final(self) == *old(self),
            isr.txfe ==> r == Some(byte),
            !isr.txfe ==> r is None,
    {
        if isr.txfe {
            Some(byte)
        } else {
            None
        }
    }

    /// Whether every queued byte has left the shift register.
    pub fn flush(&mut self, isr: &UsartIsr) -> (r: bool)
        ensures
            *final(self) == *old(self),
            r == isr.tc,
    {
        isr.tc
    }
}

/// A pin that can carry the transmit line.
pub trait TxPin {
    /// Put the pin into its alternate-function mode.
    fn setup(&self);

    /// Hand the pin back.
    fn release(self) -> Self;
}

/// A pin that can carry the receive line.
pub trait RxPin {
    /// Put the pin into its alternate-function mode.
    fn setup(&self);

    /// Hand the pin back.
    fn release(self) -> Self;
}

/// A pin that can drive the transceiver's driver-enable line.
pub trait DriverEnablePin {
    /// Put the pin into its alternate-function mode.
    fn setup(&self);

    /// Hand the pin back.
    fn release(self) -> Self;
}

/// A filler for a port with no transmit line.
#[derive(Clone, Copy, Debug, PartialEq, Eq, Structural)]
pub struct NoTx;

impl TxPin for NoTx {
    fn setup(&self) {
    }

    fn release(self) -> (r: Self) {
        self
    }
}

/// A filler for a port with no receive line.
#[derive(Clone, Copy, Debug, PartialEq, Eq, Structural)]
pub struct NoRx;

impl RxPin for NoRx {
    fn setup(&self) {
    }

    fn release(self) -> (r: Self) {
        self
    }
}

/// The full pin set of a port.
pub trait Pins {
    /// Whether the set carries a driver-enable pin.
    fn driver_enable(&self) -> bool;

    /// Put every pin into its alternate-function mode.
    fn setup(&self);

    /// Hand the pins back.
    fn release(self) -> Self;
}

/// Builds a serial port from an owned peripheral and its pins; the
/// hardware layer implements it per block.
pub trait SerialExt {
    fn usart(self, config: Config, rcc: &mut Rcc) -> Result<Serial, InvalidConfig>;
}

} // verus!
