//! The non-blocking I2C engine: the protocol state machine itself.
//!
//! Each operation programs the transaction descriptor and returns at once;
//! [`I2c::check_isr_flags`] — safe to invoke from a poll loop or from the
//! bus interrupt — advances the descriptor one hardware event at a time
//! until the transaction's stop condition fires.
//!
//! The whole behaviour of the advance step is pinned down by three
//! specification functions over the abstract state [`Core`]:
//! [`step_state`], [`step_effect`] and [`step_status`].

use vstd::prelude::*;

use crate::i2c::config::Config;
use crate::i2c::{
    abs_status, classify, cr2_master_read, cr2_master_write, cr2_master_write_phase, dir_of,
    spec_classify, spec_dir_of, Cr2, Effect, Error, Event, Flag, I2cDirection, I2cResult,
    IsrEvent, SpecStatus, StepStatus,
};

verus! {

/// Model of the control register holding the processing-enable bit, the
/// filters, slave byte control and the interrupt enables.
#[derive(Clone, Copy, Debug, PartialEq, Eq, Structural)]
pub struct Cr1 {
    /// Processing enable.
    pub pe: bool,
    /// Slave byte control.
    pub sbc: bool,
    /// Digital noise filter length.
    pub dnf: u8,
    /// Analog noise filter off.
    pub anfoff: bool,
    /// Transmit-ready interrupt enable.
    pub txie: bool,
    /// Receive interrupt enable.
    pub rxie: bool,
    /// Address-match interrupt enable.
    pub addrie: bool,
    /// NACK interrupt enable.
    pub nackie: bool,
    /// Stop-condition interrupt enable.
    pub stopie: bool,
    /// Transfer-complete interrupt enable.
    pub tcie: bool,
    /// Error interrupt enable.
    pub errie: bool,
}

/// Model of the first own-address register.
#[derive(Clone, Copy, Debug, PartialEq, Eq, Structural)]
pub struct Oar1 {
    pub oa1: u16,
    pub oa1mode: bool,
    pub oa1en: bool,
}

/// Model of the second own-address register.
#[derive(Clone, Copy, Debug, PartialEq, Eq, Structural)]
pub struct Oar2 {
    pub oa2: u16,
    pub oa2msk: u8,
    pub oa2en: bool,
}

/// The abstract state of one bus instance: the transaction descriptor,
/// the watchdog counter, the error counter and the configured register
/// models.  Contracts and laws are stated over this type.
pub struct Core {
    /// Peer address of the open transaction.
    pub address: u16,
    /// Watchdog counter; armed to 10 at a transaction start, disarmed at
    /// its stop condition.
    pub watchdog: u16,
    /// Bytes moved so far.
    pub index: int,
    /// Bytes expected in the current phase.
    pub length: int,
    /// For a master write-then-read, the length of the read phase still
    /// to come; 0 otherwise.
    pub length_write_read: int,
    /// Accumulated error count, reset on read.
    pub errors: int,
    /// The transfer buffer (always 255 bytes, the largest frame the
    /// 8-bit hardware length field can carry).
    pub data: Seq<u8>,
    /// A transaction is open; starting another is refused until it ends.
    pub busy: bool,
    /// At the stop condition, completion is classified against `length`
    /// exactly.  A slave receive programmed automatically at an address
    /// match accepts any count instead.
    pub framed: bool,
    /// Control register model.
    pub cr1: Cr1,
    /// First own-address register model.
    pub oar1: Oar1,
    /// Second own-address register model.
    pub oar2: Oar2,
    /// Timing register pattern.
    pub timingr: u32,
}

/// The capacity of the transfer buffer.
pub const MAX_FRAME: usize = 255;

/// Well-formedness of the abstract state.
pub open spec fn core_wf(c: Core) -> bool {
    &&& c.data.len() == 255
    &&& 0 <= c.index <= c.length <= 255
    &&& 0 <= c.length_write_read <= 255
    &&& c.address < 128
    &&& 0 <= c.errors <= usize::MAX
    &&& c.watchdog <= 10
}

/// One more error, saturating at the counter's width.
pub open spec fn bumped(e: int) -> int {
    if e < usize::MAX {
        e + 1
    } else {
        e
    }
}

/// The descriptor after one advance step on the given status snapshot.
pub open spec fn step_state(c: Core, ev: IsrEvent) -> Core {
    match spec_classify(ev) {
        Flag::FatalBusError => Core { errors: bumped(c.errors), busy: false, ..c },
        Flag::FatalArbitrationLost => Core { busy: false, ..c },
        Flag::Nack => c,
        Flag::TxReady => if c.index < c.length {
            Core { index: c.index + 1, ..c }
        } else {
            c
        },
        Flag::RxReady => if c.index < c.length {
            Core { data: c.data.update(c.index, ev.rxdata), index: c.index + 1, ..c }
        } else {
            c
        },
        Flag::Reload => c,
        Flag::AddressMatch => {
            let c1 = Core { address: ev.addcode as u16, watchdog: 10, busy: true, ..c };
            if ev.dir {
                c1
            } else {
                Core { length: 255, index: 0, framed: false, ..c1 }
            }
        },
        Flag::TransferComplete => {
            let i2 = if c.index < c.length { c.index + 1 } else { c.index };
            if i2 == c.length {
                Core { index: 0, length: c.length_write_read, length_write_read: 0, ..c }
            } else {
                Core { index: i2, errors: bumped(c.errors), busy: false, ..c }
            }
        },
        Flag::Stop => {
            let c1 = Core { watchdog: 0, busy: false, ..c };
            if c.index == 0 || (c.framed && c.index != c.length) {
                Core { errors: bumped(c1.errors), ..c1 }
            } else {
                c1
            }
        },
        Flag::Idle => c,
    }
}

/// The register action one advance step asks for.
pub open spec fn step_effect(c: Core, ev: IsrEvent) -> Effect {
    match spec_classify(ev) {
        Flag::FatalBusError => Effect::ClearBusError,
        Flag::FatalArbitrationLost => Effect::ClearArbitrationLost,
        Flag::Nack => Effect::ClearNack,
        Flag::TxReady => if c.index < c.length {
            Effect::WriteTx(c.data[c.index])
        } else {
            Effect::NoOp
        },
        Flag::RxReady => Effect::NoOp,
        Flag::Reload => Effect::NackReload,
        Flag::AddressMatch => if ev.dir {
            Effect::NoOp
        } else {
            Effect::SlaveAcceptReceive(255)
        },
        Flag::TransferComplete => {
            let i2 = if c.index < c.length { c.index + 1 } else { c.index };
            if i2 == c.length {
                Effect::ProgramCr2(cr2_master_read(c.address, c.length_write_read as u8))
            } else {
                Effect::Stop
            }
        },
        Flag::Stop => Effect::ClearStop,
        Flag::Idle => Effect::NoOp,
    }
}

/// What one advance step reports, abstractly.
pub open spec fn step_status(c: Core, ev: IsrEvent) -> SpecStatus {
    match spec_classify(ev) {
        Flag::FatalBusError => SpecStatus::Failed(Error::BusError),
        Flag::FatalArbitrationLost => SpecStatus::Failed(Error::ArbitrationLost),
        Flag::Nack => SpecStatus::Pending,
        Flag::TxReady => SpecStatus::Pending,
        Flag::RxReady => SpecStatus::Pending,
        Flag::Reload => SpecStatus::Pending,
        Flag::AddressMatch => SpecStatus::Addressed(ev.addcode as u16, spec_dir_of(ev)),
        Flag::TransferComplete => {
            let i2 = if c.index < c.length { c.index + 1 } else { c.index };
            if i2 == c.length {
                SpecStatus::Pending
            } else if i2 == 0 {
                SpecStatus::Failed(Error::Nack)
            } else {
                SpecStatus::Failed(Error::IncorrectFrameSize(i2 as usize))
            }
        },
        Flag::Stop => {
            if c.index == 0 {
                SpecStatus::Failed(Error::Nack)
            } else if c.framed && c.index != c.length {
                SpecStatus::Failed(Error::IncorrectFrameSize(c.index as usize))
            } else {
                SpecStatus::Data(c.address, spec_dir_of(ev), c.data.subrange(0, c.index))
            }
        },
        Flag::Idle => SpecStatus::Pending,
    }
}

/// The descriptor after one watchdog tick.
pub open spec fn wd_step(c: Core) -> Core {
    if c.watchdog == 0 {
        c
    } else if c.watchdog == 1 {
        Core { watchdog: 0, errors: bumped(c.errors), busy: false, ..c }
    } else {
        Core { watchdog: (c.watchdog - 1) as u16, ..c }
    }
}

/// Whether one watchdog tick forces the peripheral soft-reset.
pub open spec fn wd_fires(c: Core) -> bool {
    c.watchdog == 1
}

/// One I2C bus instance: the owner of the transaction descriptor and the
/// register models of one hardware block.
#[derive(Debug)]
pub struct I2c {
    /// Peer address of the open transaction.
    pub address: u16,
    /// Watchdog counter: armed to 10 at each start, cleared at each stop.
    pub watchdog: u16,
    /// Bytes moved so far.
    pub index: usize,
    /// Bytes expected in the current phase.
    pub length: usize,
    /// Read-phase length still to come in a master write-then-read.
    pub length_write_read: usize,
    /// Accumulated error count, reset on read.
    pub errors: usize,
    /// The transfer buffer; the driver owns it during a transfer.
    pub data: Vec<u8>,
    /// A transaction is open.
    pub busy: bool,
    /// Completion is classified against `length` exactly.
    pub framed: bool,
    /// The configuration this instance was created with.
    pub config: Config,
    /// Control register model.
    pub cr1: Cr1,
    /// First own-address register model.
    pub oar1: Oar1,
    /// Second own-address register model.
    pub oar2: Oar2,
    /// Timing register pattern.
    pub timingr: u32,
}

impl View for I2c {
    type V = Core;

    open spec fn view(&self) -> Core {
        Core {
            address: self.address,
            watchdog: self.watchdog,
            index: self.index as int,
            length: self.length as int,
            length_write_read: self.length_write_read as int,
            errors: self.errors as int,
            data: self.data@,
            busy: self.busy,
            framed: self.framed,
            cr1: self.cr1,
            oar1: self.oar1,
            oar2: self.oar2,
            timingr: self.timingr,
        }
    }
}

/// One more error, saturating at the counter's width.
fn bump_errors(e: usize) -> (r: usize)
    ensures
        r as int == bumped(e as int),
{
    if e < usize::MAX {
        e + 1
    } else {
        e
    }
}

/// Copy the first `n` elements of `v` into a fresh vector.
fn copy_prefix(v: &Vec<u8>, n: usize) -> (r: Vec<u8>)
    requires
        n <= v@.len(),
    ensures
        r@ == v@.subrange(0, n as int),
{
    let mut out: Vec<u8> = Vec::new();
    let mut i: usize = 0;
    while i < n
        invariant
            i <= n,
            n <= v@.len(),
            out@ == v@.subrange(0, i as int),
        decreases n - i,
    {
        let b = v[i];
        out.push(b);
        proof {
            assert(out@ =~= v@.subrange(0, i + 1));
        }
        i = i + 1;
    }
    out
}

/// Overwrite the first `src.len()` bytes of `dst` with `src`.
fn load_prefix(dst: &mut Vec<u8>, src: &[u8])
    requires
        old(dst)@.len() == 255,
        src@.len() <= 255,
    ensures
        final(dst)@ == src@ + old(dst)@.subrange(src@.len() as int, 255),
{
    let n = src.len();
    let mut i: usize = 0;
    while i < n
        invariant
            i <= n,
            n == src@.len() <= 255,
            dst@.len() == 255,
            forall|k: int| 0 <= k < i ==> dst@[k] == src@[k],
            forall|k: int| i <= k < 255 ==> dst@[k] == old(dst)@[k],
        decreases n - i,
    {
        let b = *vstd::slice::slice_index_get(src, i);
        dst.set(i, b);
        i = i + 1;
    }
    proof {
        assert(dst@ =~= src@ + old(dst)@.subrange(src@.len() as int, 255));
    }
}

/// Zero the first `n` bytes of `dst`.
fn zero_prefix(dst: &mut Vec<u8>, n: usize)
    requires
        old(dst)@.len() == 255,
        n <= 255,
    ensures
        final(dst)@ == Seq::new(n as nat, |i: int| 0u8) + old(dst)@.subrange(n as int, 255),
{
    let mut i: usize = 0;
    while i < n
        invariant
            i <= n <= 255,
            dst@.len() == 255,
            forall|k: int| 0 <= k < i ==> dst@[k] == 0u8,
            forall|k: int| i <= k < 255 ==> dst@[k] == old(dst)@[k],
        decreases n - i,
    {
        dst.set(i, 0u8);
        i = i + 1;
    }
    proof {
        assert(dst@ =~= Seq::new(n as nat, |i: int| 0u8) + old(dst)@.subrange(n as int, 255));
    }
}

impl I2c {
    /// Well-formedness of the descriptor.
    pub open spec fn wf(&self) -> bool {
        core_wf(self@)
    }

    /// Create a bus instance from its configuration.  The register models
    /// come out exactly as the hardware is to be programmed: slave
    /// addresses registered if non-zero, and slave byte control enabled
    /// whenever a slave address is registered.
    pub fn new(config: Config) -> (r: I2c)
        ensures
            r.wf(),
            r.address == 0,
            r.watchdog == 0,
            r.index == 0,
            r.length == 0,
            r.length_write_read == 0,
            r.errors == 0,
            r.data@ == Seq::new(255, |i: int| 0u8),
            !r.busy,
            r.framed,
            r.config == config,
            r.timingr == config.timing,
            r.cr1 == (Cr1 {
                pe: true,
                sbc: config.slave_address_1 > 0 || config.slave_address_2 > 0,
                dnf: config.digital_filter,
                anfoff: !config.analog_filter,
                txie: false,
                rxie: false,
                addrie: false,
                nackie: false,
                stopie: false,
                tcie: false,
                errie: false,
            }),
            r.oar1 == (Oar1 {
                oa1: config.slave_address_1,
                oa1mode: config.address_11bits,
                oa1en: config.slave_address_1 > 0,
            }),
            r.oar2 == (Oar2 {
                oa2: config.slave_address_2,
                oa2msk: config.slave_address_mask.spec_bits(),
                oa2en: config.slave_address_2 > 0,
            }),
    {
        let mut data: Vec<u8> = Vec::new();
        let mut i: usize = 0;
        while i < 255
            invariant
                i <= 255,
                data@ == Seq::new(i as nat, |k: int| 0u8),
            decreases 255 - i,
        {
            data.push(0u8);
            proof {
                assert(data@ =~= Seq::new((i + 1) as nat, |k: int| 0u8));
            }
            i = i + 1;
        }
        let sbc = config.slave_address_1 > 0 || config.slave_address_2 > 0;
        I2c {
            address: 0,
            watchdog: 0,
            index: 0,
            length: 0,
            length_write_read: 0,
            errors: 0,
            data,
            busy: false,
            framed: true,
            config,
            cr1: Cr1 {
                pe: true,
                sbc,
                dnf: config.digital_filter,
                anfoff: !config.analog_filter,
                txie: false,
                rxie: false,
                addrie: false,
                nackie: false,
                stopie: false,
                tcie: false,
                errie: false,
            },
            oar1: Oar1 {
                oa1: config.slave_address_1,
                oa1mode: config.address_11bits,
                oa1en: config.slave_address_1 > 0,
            },
            oar2: Oar2 {
                oa2: config.slave_address_2,
                oa2msk: config.slave_address_mask.bits(),
                oa2en: config.slave_address_2 > 0,
            },
            timingr: config.timing,
        }
    }

    /// Consume the instance, handing back the configuration it was
    /// created with so the raw peripheral can be reconfigured or reused.
    pub fn release(self) -> (r: Config)
        ensures
            r == self.config,
    {
        self.config
    }

    /// Advance the state machine by one hardware status event.
    ///
    /// Exactly one flag of the snapshot is resolved, in the classifier's
    /// strict priority order.  The returned effect is the one register
    /// action to perform; the returned status is `Pending` until the
    /// transaction reaches a terminal state.
    pub fn check_isr_flags(&mut self, ev: &IsrEvent) -> (r: (Effect, StepStatus))
        requires
            old(self).wf(),
            ev.addcode < 128,
        ensures
            final(self).wf(),
            final(self)@ == step_state(old(self)@, *ev),
            r.0 == step_effect(old(self)@, *ev),
            abs_status(r.1) == step_status(old(self)@, *ev),
    {
        match classify(ev) {
            Flag::FatalBusError => {
                self.errors = bump_errors(self.errors);
                self.busy = false;
                (Effect::ClearBusError, StepStatus::Failed(Error::BusError))
            },
            Flag::FatalArbitrationLost => {
                self.busy = false;
                (Effect::ClearArbitrationLost, StepStatus::Failed(Error::ArbitrationLost))
            },
            Flag::Nack => {
                // One more pass: the hardware is still completing the
                // stop sequence that follows a NACK.
                (Effect::ClearNack, StepStatus::Pending)
            },
            Flag::TxReady => {
                if self.index < self.length {
                    let b = self.data[self.index];
                    self.index = self.index + 1;
                    (Effect::WriteTx(b), StepStatus::Pending)
                } else {
                    (Effect::NoOp, StepStatus::Pending)
                }
            },
            Flag::RxReady => {
                if self.index < self.length {
                    self.data.set(self.index, ev.rxdata);
                    self.index = self.index + 1;
                }
                (Effect::NoOp, StepStatus::Pending)
            },
            Flag::Reload => {
                // Slave reload boundary: refuse the next byte to end the
                // phase cleanly.
                (Effect::NackReload, StepStatus::Pending)
            },
            Flag::AddressMatch => {
                let a = ev.addcode as u16;
                self.address = a;
                // Guard against a peer that stops responding.
                self.watchdog = 10;
                self.busy = true;
                if ev.dir {
                    (
                        Effect::NoOp,
                        StepStatus::Ready(
                            I2cResult::Addressed(a, I2cDirection::MasterReadSlaveWrite),
                        ),
                    )
                } else {
                    // The peer writes to this device: accept a frame of
                    // any length up to the buffer, with no further caller
                    // action.
                    self.length = MAX_FRAME;
                    self.index = 0;
                    self.framed = false;
                    (
                        Effect::SlaveAcceptReceive(255),
                        StepStatus::Ready(
                            I2cResult::Addressed(a, I2cDirection::MasterWriteSlaveRead),
                        ),
                    )
                }
            },
            Flag::TransferComplete => {
                if self.index < self.length {
                    self.index = self.index + 1;
                }
                if self.index == self.length {
                    // Write phase of a write-then-read done: reprogram
                    // the peripheral for the read phase and restart.
                    let n = self.length_write_read;
                    self.length = n;
                    self.length_write_read = 0;
                    self.index = 0;
                    let cr2 = Cr2 {
                        start: true,
                        nbytes: n as u8,
                        sadd: self.address * 2,
                        rd_wrn: true,
                        autoend: true,
                        reload: false,
                        add10: false,
                    };
                    (Effect::ProgramCr2(cr2), StepStatus::Pending)
                } else if self.index == 0 {
                    self.errors = bump_errors(self.errors);
                    self.busy = false;
                    (Effect::Stop, StepStatus::Failed(Error::Nack))
                } else {
                    self.errors = bump_errors(self.errors);
                    self.busy = false;
                    (Effect::Stop, StepStatus::Failed(Error::IncorrectFrameSize(self.index)))
                }
            },
            Flag::Stop => {
                self.watchdog = 0;
                self.busy = false;
                if self.index == 0 {
                    self.errors = bump_errors(self.errors);
                    (Effect::ClearStop, StepStatus::Failed(Error::Nack))
                } else if self.framed && self.index != self.length {
                    self.errors = bump_errors(self.errors);
                    (
                        Effect::ClearStop,
                        StepStatus::Failed(Error::IncorrectFrameSize(self.index)),
                    )
                } else {
                    let bytes = copy_prefix(&self.data, self.index);
                    (
                        Effect::ClearStop,
                        StepStatus::Ready(I2cResult::Data(self.address, dir_of(ev), bytes)),
                    )
                }
            },
            Flag::Idle => (Effect::NoOp, StepStatus::Pending),
        }
    }

    /// Program a master write of `bytes` to the 7-bit address `addr`.
    /// Returns the control word to apply, or `None` while a transaction
    /// is still open (call again once the bus is free).
    pub fn master_write(&mut self, addr: u16, bytes: &[u8]) -> (r: Option<Effect>)
        requires
            old(self).wf(),
            addr < 128,
            1 <= bytes@.len() <= 255,
        ensures
            final(self).wf(),
            old(self)@.busy ==> r is None && final(self)@ == old(self)@,
            !old(self)@.busy ==> r == Some(
                Effect::ProgramCr2(cr2_master_write(addr, bytes@.len() as u8)),
            ) && final(self)@ == (Core {
                address: addr,
                watchdog: 10,
                index: 0,
                length: bytes@.len() as int,
                length_write_read: 0,
                data: bytes@ + old(self)@.data.subrange(bytes@.len() as int, 255),
                busy: true,
                framed: true,
                ..old(self)@
            }),
    {
        if self.busy {
            return None;
        }
        self.watchdog = 10;
        let buflen = bytes.len();
        self.length = buflen;
        load_prefix(&mut self.data, bytes);
        self.index = 0;
        self.address = addr;
        self.length_write_read = 0;
        self.busy = true;
        self.framed = true;
        Some(Effect::ProgramCr2(Cr2 {
            start: true,
            nbytes: buflen as u8,
            sadd: addr * 2,
            rd_wrn: false,
            autoend: true,
            reload: false,
            add10: false,
        }))
    }

    /// Program a master write of `bytes` followed, once the write phase
    /// completes, by a read of `read_len` bytes under a repeated start.
    /// The read phase is programmed by the advance step at the
    /// transfer-complete boundary, never earlier.
    pub fn master_write_read(&mut self, addr: u16, bytes: &[u8], read_len: u8) -> (r: Option<
        Effect,
    >)
        requires
            old(self).wf(),
            addr < 128,
            1 <= bytes@.len() <= 255,
        ensures
            final(self).wf(),
            old(self)@.busy ==> r is None && final(self)@ == old(self)@,
            !old(self)@.busy ==> r == Some(
                Effect::ProgramCr2(cr2_master_write_phase(addr, bytes@.len() as u8)),
            ) && final(self)@ == (Core {
                address: addr,
                watchdog: 10,
                index: 0,
                length: bytes@.len() as int,
                length_write_read: read_len as int,
                data: bytes@ + old(self)@.data.subrange(bytes@.len() as int, 255),
                busy: true,
                framed: true,
                ..old(self)@
            }),
    {
        if self.busy {
            return None;
        }
        self.watchdog = 10;
        let buflen = bytes.len();
        self.length = buflen;
        load_prefix(&mut self.data, bytes);
        self.index = 0;
        self.address = addr;
        self.length_write_read = read_len as usize;
        self.busy = true;
        self.framed = true;
        Some(Effect::ProgramCr2(Cr2 {
            start: true,
            nbytes: buflen as u8,
            sadd: addr * 2,
            rd_wrn: false,
            autoend: false,
            reload: false,
            add10: false,
        }))
    }

    /// Program a master read of `length` bytes from the 7-bit address
    /// `addr`.  Returns the control word to apply, or `None` while a
    /// transaction is still open.
    pub fn master_read(&mut self, addr: u16, length: u8) -> (r: Option<Effect>)
        requires
            old(self).wf(),
            addr < 128,
        ensures
            final(self).wf(),
            old(self)@.busy ==> r is None && final(self)@ == old(self)@,
            !old(self)@.busy ==> r == Some(Effect::ProgramCr2(cr2_master_read(addr, length)))
                && final(self)@ == (Core {
                address: addr,
                watchdog: 10,
                index: 0,
                length: length as int,
                data: Seq::new(length as nat, |i: int| 0u8) + old(self)@.data.subrange(
                    length as int,
                    255,
                ),
                busy: true,
                framed: true,
                ..old(self)@
            }),
    {
        if self.busy {
            return None;
        }
        self.watchdog = 10;
        self.length = length as usize;
        self.index = 0;
        self.address = addr;
        zero_prefix(&mut self.data, length as usize);
        self.busy = true;
        self.framed = true;
        Some(Effect::ProgramCr2(Cr2 {
            start: true,
            nbytes: length,
            sadd: addr * 2,
            rd_wrn: true,
            autoend: true,
            reload: false,
            add10: false,
        }))
    }

    /// Program a slave transmit of `bytes`, to be called once this device
    /// has been addressed for a master-read.  Returns the action that
    /// arms the byte counter and releases the address-phase clock
    /// stretch.  If the master wants more bytes, the hardware free-runs a
    /// filler byte, which this device cannot detect; if it wants fewer,
    /// the stop condition reports the shorter count.
    pub fn slave_write(&mut self, bytes: &[u8]) -> (eff: Effect)
        requires
            old(self).wf(),
            1 <= bytes@.len() <= 255,
        ensures
            final(self).wf(),
            eff == Effect::SlaveBeginTransmit(bytes@.len() as u8),
            final(self)@ == (Core {
                index: 0,
                length: bytes@.len() as int,
                data: bytes@ + old(self)@.data.subrange(bytes@.len() as int, 255),
                framed: false,
                ..old(self)@
            }),
    {
        let buflen = bytes.len();
        self.length = buflen;
        load_prefix(&mut self.data, bytes);
        self.index = 0;
        self.framed = false;
        Effect::SlaveBeginTransmit(buflen as u8)
    }

    /// The address of the peer (or the matched own address, in the slave
    /// role) of the last transaction.
    pub fn get_address(&self) -> (r: u16)
        ensures
            r == self@.address,
    {
        self.address
    }

    /// The data of the last transaction: exactly the bytes moved.
    pub fn get_data(&self) -> (r: Vec<u8>)
        requires
            self.wf(),
        ensures
            r@ == self@.data.subrange(0, self@.index),
    {
        copy_prefix(&self.data, self.index)
    }

    /// The accumulated error count; reading resets it to zero.
    pub fn get_errors_reset(&mut self) -> (r: usize)
        ensures
            r as int == old(self)@.errors,
            final(self)@ == (Core { errors: 0, ..old(self)@ }),
    {
        let result = self.errors;
        self.errors = 0;
        result
    }

    /// One watchdog tick, to be invoked at a fixed cadence by an external
    /// timer.  While disarmed (zero) it does nothing; armed, it counts
    /// down; on reaching the last tick it disarms, records one error and
    /// returns true: the caller must then soft-reset the peripheral
    /// (processing enable off, then on), which resets the hardware state
    /// machines of a stuck bus.
    pub fn execute_watchdog(&mut self) -> (reset: bool)
        requires
            old(self).wf(),
        ensures
            final(self).wf(),
            final(self)@ == wd_step(old(self)@),
            reset == wd_fires(old(self)@),
    {
        if self.watchdog == 0 {
            false
        } else if self.watchdog == 1 {
            self.errors = bump_errors(self.errors);
            self.watchdog = 0;
            self.busy = false;
            true
        } else {
            self.watchdog = self.watchdog - 1;
            false
        }
    }

    /// Enable one interrupt source.
    pub fn listen(&mut self, ev: Event)
        ensures
            ev == Event::AddressMatch ==> final(self)@ == (Core {
                cr1: Cr1 { addrie: true, ..old(self)@.cr1 },
                ..old(self)@
            }),
            ev == Event::Rxne ==> final(self)@ == (Core {
                cr1: Cr1 { rxie: true, ..old(self)@.cr1 },
                ..old(self)@
            }),
    {
        match ev {
            Event::AddressMatch => {
                self.cr1 = Cr1 { addrie: true, ..self.cr1 };
            },
            Event::Rxne => {
                self.cr1 = Cr1 { rxie: true, ..self.cr1 };
            },
        }
    }

    /// Disable one interrupt source.
    pub fn unlisten(&mut self, ev: Event)
        ensures
            ev == Event::AddressMatch ==> final(self)@ == (Core {
                cr1: Cr1 { addrie: false, ..old(self)@.cr1 },
                ..old(self)@
            }),
            ev == Event::Rxne ==> final(self)@ == (Core {
                cr1: Cr1 { rxie: false, ..old(self)@.cr1 },
                ..old(self)@
            }),
    {
        match ev {
            Event::AddressMatch => {
                self.cr1 = Cr1 { addrie: false, ..self.cr1 };
            },
            Event::Rxne => {
                self.cr1 = Cr1 { rxie: false, ..self.cr1 };
            },
        }
    }

    /// The action that acknowledges one pending interrupt event.
    pub fn clear_irq(&self, ev: Event) -> (eff: Effect)
        ensures
            ev == Event::AddressMatch ==> eff == Effect::ClearAddress,
            ev == Event::Rxne ==> eff == Effect::NoOp,
    {
        match ev {
            Event::AddressMatch => Effect::ClearAddress,
            Event::Rxne => Effect::NoOp,
        }
    }

    /// Enable every interrupt source the state machine consumes, for
    /// interrupt-driven operation.
    pub fn listen_all(&mut self)
        ensures
            final(self)@ == (Core {
                cr1: Cr1 {
                    txie: true,
                    rxie: true,
                    addrie: true,
                    nackie: true,
                    stopie: true,
                    tcie: true,
                    errie: true,
                    ..old(self)@.cr1
                },
                ..old(self)@
            }),
    {
        self.cr1 = Cr1 {
            txie: true,
            rxie: true,
            addrie: true,
            nackie: true,
            stopie: true,
            tcie: true,
            errie: true,
            ..self.cr1
        };
    }

    /// Disable every interrupt source.
    pub fn unlisten_all(&mut self)
        ensures
            final(self)@ == (Core {
                cr1: Cr1 {
                    txie: false,
                    rxie: false,
                    addrie: false,
                    nackie: false,
                    stopie: false,
                    tcie: false,
                    errie: false,
                    ..old(self)@.cr1
                },
                ..old(self)@
            }),
    {
        self.cr1 = Cr1 {
            txie: false,
            rxie: false,
            addrie: false,
            nackie: false,
            stopie: false,
            tcie: false,
            errie: false,
            ..self.cr1
        };
    }

    /// Enable or disable slave byte control.  For a master write-then-
    /// read against this device as a slave, the transaction should start
    /// with it off, so the last received byte is acknowledged, and it
    /// should be re-enabled before the transmit phase.
    pub fn slave_sbc(&mut self, sbc_enabled: bool)
        ensures
            final(self)@ == (Core {
                cr1: Cr1 { sbc: sbc_enabled, ..old(self)@.cr1 },
                ..old(self)@
            }),
    {
        self.cr1 = Cr1 { sbc: sbc_enabled, ..self.cr1 };
    }

    /// Register and enable the first own 7-bit slave address.
    pub fn set_address(&mut self, address: u16)
        requires
            address < 128,
        ensures
            final(self)@ == (Core {
                oar1: Oar1 { oa1: address, oa1mode: false, oa1en: true },
                ..old(self)@
            }),
    {
        self.oar1 = Oar1 { oa1: address, oa1mode: false, oa1en: true };
    }
}

/// The slave role of the non-blocking engine.  Of the two transfer
/// directions, a master writing to this device is fully under the
/// master's control — the machine accepts whatever it sends — while a
/// master reading is under this device's control: the caller decides
/// how many bytes to offer.
///
/// The contracts speak of the implementor's abstract descriptor state.
pub trait I2cSlave {
    /// The abstract descriptor state the contracts speak of.
    spec fn model(&self) -> Core;

    /// Enable or disable slave byte control.  For a master
    /// write-then-read against this device, the transaction should
    /// start with it off, so the last received byte is acknowledged,
    /// and it should be re-enabled before the transmit phase.
    fn slave_sbc(&mut self, sbc_enabled: bool)
        ensures
            final(self).model() == (Core {
                cr1: Cr1 { sbc: sbc_enabled, ..old(self).model().cr1 },
                ..old(self).model()
            }),
    ;

    /// Program a slave transmit of `bytes`, to be called once this
    /// device has been addressed for a master-read; the returned
    /// action arms the byte counter and releases the address-phase
    /// clock stretch.
    fn slave_write(&mut self, bytes: &[u8]) -> (eff: Effect)
        requires
            core_wf(old(self).model()),
            1 <= bytes@.len() <= 255,
        ensures
            core_wf(final(self).model()),
            eff == Effect::SlaveBeginTransmit(bytes@.len() as u8),
            final(self).model() == (Core {
                index: 0,
                length: bytes@.len() as int,
                data: bytes@ + old(self).model().data.subrange(bytes@.len() as int, 255),
                framed: false,
                ..old(self).model()
            }),
    ;

    /// The matched own address of the last transaction.
    fn get_address(&self) -> (r: u16)
        ensures
            r == self.model().address,
    ;

    /// The data of the last transaction: exactly the bytes moved.
    fn get_data(&self) -> (r: Vec<u8>)
        requires
            core_wf(self.model()),
        ensures
            r@ == self.model().data.subrange(0, self.model().index),
    ;

    /// Register and enable the first own 7-bit slave address.
    fn set_address(&mut self, address: u16)
        requires
            address < 128,
        ensures
            final(self).model() == (Core {
                oar1: Oar1 { oa1: address, oa1mode: false, oa1en: true },
                ..old(self).model()
            }),
    ;
}

impl I2cSlave for I2c {
    open spec fn model(&self) -> Core {
        self@
    }

    fn slave_sbc(&mut self, sbc_enabled: bool) {
        self.slave_sbc(sbc_enabled);
    }

    fn slave_write(&mut self, bytes: &[u8]) -> (eff: Effect) {
        self.slave_write(bytes)
    }

    fn get_address(&self) -> (r: u16) {
        self.get_address()
    }

    fn get_data(&self) -> (r: Vec<u8>) {
        self.get_data()
    }

    fn set_address(&mut self, address: u16) {
        self.set_address(address);
    }
}

} // verus!
