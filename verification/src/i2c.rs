//! I2C bus controller driver.
//!
//! The driver is one protocol state machine consumed by two drivers: a
//! blocking driver that spins on the machine's advance step
//! ([`blocking`]) and a non-blocking driver that exposes the advance step
//! directly as the interrupt entry point ([`nonblocking`]).
//!
//! The machine works on plain values.  A hardware status snapshot comes in
//! as an [`IsrEvent`]; the one register action the machine asks for goes
//! back out as an [`Effect`].  A thin unverified layer reads the status
//! register, hands the snapshot in, and performs the returned action on
//! the peripheral block.

use vstd::prelude::*;

pub mod blocking;
pub mod config;
pub mod laws;
pub mod nonblocking;

verus! {

/// How many of a matched slave address's low bits are ignored.
#[derive(Clone, Copy, Debug, PartialEq, Eq, Structural)]
pub enum SlaveAddressMask {
    MaskNone,
    MaskOneBit,
    MaskTwoBits,
    MaskThreeBits,
    MaskFourBits,
    MaskFiveBits,
    MaskSixBits,
    MaskAllBits,
}

impl SlaveAddressMask {
    /// The value the mask register field takes for this mask.
    pub fn bits(&self) -> (r: u8)
        ensures
            r == self.spec_bits(),
    {
        match self {
            SlaveAddressMask::MaskNone => 0,
            SlaveAddressMask::MaskOneBit => 1,
            SlaveAddressMask::MaskTwoBits => 2,
            SlaveAddressMask::MaskThreeBits => 3,
            SlaveAddressMask::MaskFourBits => 4,
            SlaveAddressMask::MaskFiveBits => 5,
            SlaveAddressMask::MaskSixBits => 6,
            SlaveAddressMask::MaskAllBits => 7,
        }
    }

    pub open spec fn spec_bits(&self) -> u8 {
        match self {
            SlaveAddressMask::MaskNone => 0,
            SlaveAddressMask::MaskOneBit => 1,
            SlaveAddressMask::MaskTwoBits => 2,
            SlaveAddressMask::MaskThreeBits => 3,
            SlaveAddressMask::MaskFourBits => 4,
            SlaveAddressMask::MaskFiveBits => 5,
            SlaveAddressMask::MaskSixBits => 6,
            SlaveAddressMask::MaskAllBits => 7,
        }
    }
}

/// Direction of a transaction, as the hardware reports it on an address
/// match.  Never set by software directly.
#[derive(Clone, Copy, Debug, PartialEq, Eq, Structural)]
pub enum I2cDirection {
    MasterReadSlaveWrite,
    MasterWriteSlaveRead,
}

/// Interrupt events the caller can enable or disable one by one.
#[derive(Clone, Copy, Debug, PartialEq, Eq, Structural)]
pub enum Event {
    AddressMatch,
    Rxne,
}

/// I2C error.
#[derive(Clone, Copy, Debug, PartialEq, Eq, Structural)]
pub enum Error {
    Overrun,
    Nack,
    PECError,
    BusError,
    ArbitrationLost,
    IncorrectFrameSize(usize),
}

/// Terminal outcome of a transaction, handed to the caller.
#[derive(Debug, PartialEq, Eq)]
pub enum I2cResult {
    /// A transaction finished: peer address, direction, and the bytes moved.
    Data(u16, I2cDirection, Vec<u8>),
    /// A master addressed this device as a slave.
    Addressed(u16, I2cDirection),
}

/// A snapshot of the hardware status register, taken by the caller and
/// handed to the state machine.  `rxdata` carries the received byte and is
/// meaningful only when `rxne` is set; `dir` and `addcode` are meaningful
/// only when `addr` is set (`dir` also at a stop condition).
#[derive(Clone, Copy, Debug, PartialEq, Eq, Structural)]
pub struct IsrEvent {
    /// Bus error.
    pub berr: bool,
    /// Arbitration lost.
    pub arlo: bool,
    /// The peer refused an address or a byte.
    pub nackf: bool,
    /// Transmit register ready for the next byte.
    pub txis: bool,
    /// Receive register holds a byte.
    pub rxne: bool,
    /// Stop condition observed.
    pub stopf: bool,
    /// Transfer complete (software-end master mode).
    pub tc: bool,
    /// Byte counter must be re-armed (slave reload boundary).
    pub tcr: bool,
    /// This device was addressed as a slave.
    pub addr: bool,
    /// Reported direction: set for master-read/slave-write.
    pub dir: bool,
    /// The matched 7-bit address.
    pub addcode: u8,
    /// The byte behind `rxne`.
    pub rxdata: u8,
}

impl IsrEvent {
    /// A snapshot with no flag set.
    pub fn idle() -> (r: IsrEvent)
        ensures
            r == IsrEvent::spec_idle(),
    {
        IsrEvent {
            berr: false,
            arlo: false,
            nackf: false,
            txis: false,
            rxne: false,
            stopf: false,
            tc: false,
            tcr: false,
            addr: false,
            dir: false,
            addcode: 0,
            rxdata: 0,
        }
    }

    pub open spec fn spec_idle() -> IsrEvent {
        IsrEvent {
            berr: false,
            arlo: false,
            nackf: false,
            txis: false,
            rxne: false,
            stopf: false,
            tc: false,
            tcr: false,
            addr: false,
            dir: false,
            addcode: 0,
            rxdata: 0,
        }
    }
}

/// The one flag a status snapshot resolves to: a strict evaluation order
/// settles ambiguous simultaneous flags.  Fatal errors take precedence over
/// everything; a NACK takes precedence over the data-ready flags.
#[derive(Clone, Copy, Debug, PartialEq, Eq, Structural)]
pub enum Flag {
    FatalBusError,
    FatalArbitrationLost,
    Nack,
    TxReady,
    RxReady,
    Reload,
    AddressMatch,
    TransferComplete,
    Stop,
    Idle,
}

/// The decision table shared by both drivers.
pub open spec fn spec_classify(ev: IsrEvent) -> Flag {
    if ev.berr {
        Flag::FatalBusError
    } else if ev.arlo {
        Flag::FatalArbitrationLost
    } else if ev.nackf {
        Flag::Nack
    } else if ev.txis {
        Flag::TxReady
    } else if ev.rxne {
        Flag::RxReady
    } else if ev.tcr {
        Flag::Reload
    } else if ev.addr {
        Flag::AddressMatch
    } else if ev.tc {
        Flag::TransferComplete
    } else if ev.stopf {
        Flag::Stop
    } else {
        Flag::Idle
    }
}

/// Resolve a status snapshot to the one flag to act on.
pub fn classify(ev: &IsrEvent) -> (f: Flag)
    ensures
        f == spec_classify(*ev),
{
    if ev.berr {
        Flag::FatalBusError
    } else if ev.arlo {
        Flag::FatalArbitrationLost
    } else if ev.nackf {
        Flag::Nack
    } else if ev.txis {
        Flag::TxReady
    } else if ev.rxne {
        Flag::RxReady
    } else if ev.tcr {
        Flag::Reload
    } else if ev.addr {
        Flag::AddressMatch
    } else if ev.tc {
        Flag::TransferComplete
    } else if ev.stopf {
        Flag::Stop
    } else {
        Flag::Idle
    }
}

/// A full control-word program: start condition, peer address, direction,
/// byte count and end mode, written in one go.
#[derive(Clone, Copy, Debug, PartialEq, Eq, Structural)]
pub struct Cr2 {
    /// Issue a start condition.
    pub start: bool,
    /// Number of bytes in this phase.
    pub nbytes: u8,
    /// The address field as it goes on the wire (7-bit address shifted
    /// left by one).
    pub sadd: u16,
    /// Transfer direction: set for a master read.
    pub rd_wrn: bool,
    /// Issue the stop condition automatically after `nbytes` bytes.
    pub autoend: bool,
    /// Re-arm the byte counter instead of ending the phase.
    pub reload: bool,
    /// 10-bit addressing (never used by this driver).
    pub add10: bool,
}

/// The control word that starts a master write of `n` bytes to `addr`.
pub open spec fn cr2_master_write(addr: u16, n: u8) -> Cr2 {
    Cr2 {
        start: true,
        nbytes: n,
        sadd: (addr * 2) as u16,
        rd_wrn: false,
        autoend: true,
        reload: false,
        add10: false,
    }
}

/// The control word that starts the write phase of a write-then-read:
/// software end mode, so that the transfer-complete flag marks the
/// boundary before the read phase.
pub open spec fn cr2_master_write_phase(addr: u16, n: u8) -> Cr2 {
    Cr2 {
        start: true,
        nbytes: n,
        sadd: (addr * 2) as u16,
        rd_wrn: false,
        autoend: false,
        reload: false,
        add10: false,
    }
}

/// The control word that starts a master read of `n` bytes from `addr`.
pub open spec fn cr2_master_read(addr: u16, n: u8) -> Cr2 {
    Cr2 {
        start: true,
        nbytes: n,
        sadd: (addr * 2) as u16,
        rd_wrn: true,
        autoend: true,
        reload: false,
        add10: false,
    }
}

/// The one register action the state machine asks of the hardware layer
/// after a step.  Applying it is mechanical.
#[derive(Clone, Copy, Debug, PartialEq, Eq, Structural)]
pub enum Effect {
    /// Nothing to do.
    NoOp,
    /// Clear the bus-error flag.
    ClearBusError,
    /// Clear the arbitration-lost flag.
    ClearArbitrationLost,
    /// Clear the NACK flag.
    ClearNack,
    /// Clear the stop-condition flag and flush the transmit register.
    ClearStop,
    /// Clear the address-match flag, releasing the address-phase clock
    /// stretch.
    ClearAddress,
    /// Load one byte into the transmit register.
    WriteTx(u8),
    /// Write a full control word (a master start, or the read phase of a
    /// write-then-read).
    ProgramCr2(Cr2),
    /// Request a stop condition.
    Stop,
    /// Refuse the next byte and re-arm the byte counter with one byte,
    /// ending a slave reload boundary cleanly.
    NackReload,
    /// Accept a slave receive of up to the given count: arm the byte
    /// counter with reload mode, then release the address-phase clock
    /// stretch.
    SlaveAcceptReceive(u8),
    /// Begin a slave transmit of the given count: arm the byte counter,
    /// flush the transmit register, then release the address-phase clock
    /// stretch.
    SlaveBeginTransmit(u8),
}

/// What one advance step reports to the caller.
#[derive(Debug, PartialEq, Eq)]
pub enum StepStatus {
    /// No terminal flag yet: invoke the step again on the next event.
    Pending,
    /// A terminal state, with its data.
    Ready(I2cResult),
    /// A terminal error.
    Failed(Error),
}

/// The mathematical shadow of [`StepStatus`], for contracts and laws.
pub enum SpecStatus {
    Pending,
    Data(u16, I2cDirection, Seq<u8>),
    Addressed(u16, I2cDirection),
    Failed(Error),
}

/// Abstract an executable step report to its mathematical shadow.
pub open spec fn abs_status(s: StepStatus) -> SpecStatus {
    match s {
        StepStatus::Pending => SpecStatus::Pending,
        StepStatus::Ready(I2cResult::Data(a, d, v)) => SpecStatus::Data(a, d, v@),
        StepStatus::Ready(I2cResult::Addressed(a, d)) => SpecStatus::Addressed(a, d),
        StepStatus::Failed(e) => SpecStatus::Failed(e),
    }
}

/// The direction a status snapshot reports.
pub open spec fn spec_dir_of(ev: IsrEvent) -> I2cDirection {
    if ev.dir {
        I2cDirection::MasterReadSlaveWrite
    } else {
        I2cDirection::MasterWriteSlaveRead
    }
}

/// Read the reported direction out of a status snapshot.
pub fn dir_of(ev: &IsrEvent) -> (d: I2cDirection)
    ensures
        d == spec_dir_of(*ev),
{
    if ev.dir {
        I2cDirection::MasterReadSlaveWrite
    } else {
        I2cDirection::MasterWriteSlaveRead
    }
}

/// The port the blocking driver spins on.  The hardware layer implements
/// it over the real peripheral block; a test harness implements it over a
/// scripted peer.  Nothing is assumed of either: the driver's contracts
/// hold for every implementation.
pub trait Instance {
    /// Take one status snapshot.
    fn poll_event(&mut self) -> IsrEvent;

    /// Perform one register action.
    fn apply(&mut self, effect: &Effect);
}

/// Builds an I2C bus driver from an owned peripheral.  The hardware layer
/// implements this for each I2C block of the device.
pub trait I2cExt {
    fn i2c(self, config: config::Config) -> nonblocking::I2c;
}

} // verus!
