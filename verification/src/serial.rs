//! Serial interface over the universal asynchronous
//! receiver-transmitter.

use vstd::prelude::*;

pub mod usart;

verus! {

/// The requested configuration cannot be programmed.
#[derive(Clone, Copy, Debug, PartialEq, Eq, Structural)]
pub struct InvalidConfig;

/// Word length of a frame.
#[derive(Clone, Copy, Debug, PartialEq, Eq, Structural)]
pub enum WordLength {
    DataBits7,
    DataBits8,
    DataBits9,
}

/// Parity of a frame.
#[derive(Clone, Copy, Debug, PartialEq, Eq, Structural)]
pub enum Parity {
    ParityNone,
    ParityEven,
    ParityOdd,
}

/// Stop bits of a frame.
#[derive(Clone, Copy, Debug, PartialEq, Eq, Structural)]
pub enum StopBits {
    STOP1,
    STOP0P5,
    STOP2,
    STOP1P5,
}

impl StopBits {
    /// The stop-bit selection bits.
    pub fn bits(&self) -> (r: u8)
        ensures
            r == self.spec_bits(),
    {
        match self {
            StopBits::STOP1 => 0,
            StopBits::STOP0P5 => 1,
            StopBits::STOP2 => 2,
            StopBits::STOP1P5 => 3,
        }
    }

    pub open spec fn spec_bits(&self) -> u8 {
        match self {
            StopBits::STOP1 => 0,
            StopBits::STOP0P5 => 1,
            StopBits::STOP2 => 2,
            StopBits::STOP1P5 => 3,
        }
    }
}

/// Fill level at which a FIFO raises its threshold flag.
#[derive(Clone, Copy, Debug, PartialEq, Eq, Structural)]
pub enum FifoThreshold {
    Eighth,
    Quarter,
    Half,
    ThreeQuarters,
    SevenEighths,
    Full,
}

impl FifoThreshold {
    /// The threshold selection bits.
    pub fn bits(&self) -> (r: u8)
        ensures
            r == self.spec_bits(),
    {
        match self {
            FifoThreshold::Eighth => 0,
            FifoThreshold::Quarter => 1,
            FifoThreshold::Half => 2,
            FifoThreshold::ThreeQuarters => 3,
            FifoThreshold::SevenEighths => 4,
            FifoThreshold::Full => 5,
        }
    }

    pub open spec fn spec_bits(&self) -> u8 {
        match self {
            FifoThreshold::Eighth => 0,
            FifoThreshold::Quarter => 1,
            FifoThreshold::Half => 2,
            FifoThreshold::ThreeQuarters => 3,
            FifoThreshold::SevenEighths => 4,
            FifoThreshold::Full => 5,
        }
    }
}

/// Configuration of one serial port.
#[derive(Clone, Copy, Debug, PartialEq, Eq, Structural)]
pub struct Config {
    /// Baud rate, in bits per second.
    pub baudrate: u32,
    /// Word length of a frame.
    pub wordlength: WordLength,
    /// Parity of a frame.
    pub parity: Parity,
    /// Stop bits of a frame.
    pub stopbits: StopBits,
    /// Whether the FIFOs are on.
    pub fifo_enable: bool,
    /// Receiver timeout, in bit periods, if any.
    pub receiver_timeout: Option<u32>,
    /// Swap the transmit and receive pins.
    pub swap: bool,
    /// Transmit FIFO threshold.
    pub tx_fifo_threshold: FifoThreshold,
    /// Receive FIFO threshold.
    pub rx_fifo_threshold: FifoThreshold,
    /// Interrupt at the transmit FIFO threshold.
    pub tx_fifo_interrupt: bool,
    /// Interrupt at the receive FIFO threshold.
    pub rx_fifo_interrupt: bool,
}

impl Default for Config {
    /// 115200 baud, eight data bits, no parity, one stop bit, FIFOs
    /// off.
    fn default() -> (r: Config)
        ensures
            r.baudrate == 115200,
            r.wordlength == WordLength::DataBits8,
            r.parity == Parity::ParityNone,
            r.stopbits == StopBits::STOP1,
            !r.fifo_enable,
            r.receiver_timeout is None,
            !r.swap,
            r.tx_fifo_threshold == FifoThreshold::Eighth,
            r.rx_fifo_threshold == FifoThreshold::Eighth,
            !r.tx_fifo_interrupt,
            !r.rx_fifo_interrupt,
    {
        Config {
            baudrate: 115200,
            wordlength: WordLength::DataBits8,
            parity: Parity::ParityNone,
            stopbits: StopBits::STOP1,
            fifo_enable: false,
            receiver_timeout: None,
            swap: false,
            tx_fifo_threshold: FifoThreshold::Eighth,
            rx_fifo_threshold: FifoThreshold::Eighth,
            tx_fifo_interrupt: false,
            rx_fifo_interrupt: false,
        }
    }
}

} // verus!
