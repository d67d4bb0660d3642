//! The blocking I2C driver.
//!
//! Each operation programs the state machine and then spins: it polls a
//! status snapshot from the port, advances the machine one step, applies
//! the returned register action, and repeats until the machine reports a
//! terminal state.
//!
//! The spin is bounded by an enormous poll budget so that every operation
//! provably terminates; a port that never yields a terminal flag within
//! the budget is reported as [`Error::Overrun`].

use vstd::prelude::*;

use crate::i2c::laws::{lemma_run_append, lemma_run_one, run_state};
use crate::i2c::nonblocking::{core_wf, step_state, Core, Cr1, I2c};
use crate::i2c::{Effect, Error, I2cDirection, I2cResult, Instance, IsrEvent, StepStatus};

verus! {

/// How many status snapshots a blocking operation is willing to take
/// before giving up on the bus.
pub const POLL_BUDGET: u64 = u64::MAX;

/// Copy `data[0..buffer.len()]` of `src` into `buffer`.
fn fill_from(buffer: &mut Vec<u8>, src: &Vec<u8>)
    requires
        old(buffer)@.len() <= src@.len(),
    ensures
        final(buffer)@ == src@.subrange(0, old(buffer)@.len() as int),
{
    let n = buffer.len();
    let mut i: usize = 0;
    while i < n
        invariant
            i <= n,
            buffer@.len() == n <= src@.len(),
            forall|k: int| 0 <= k < i ==> buffer@[k] == src@[k],
        decreases n - i,
    {
        let b = src[i];
        buffer.set(i, b);
        i = i + 1;
    }
    proof {
        assert(buffer@ =~= src@.subrange(0, n as int));
    }
}

/// Copy `src[0..n]` into the front of `buffer`, leaving the rest as it
/// was.
fn fill_prefix(buffer: &mut Vec<u8>, src: &Vec<u8>, n: usize)
    requires
        n <= old(buffer)@.len(),
        n <= src@.len(),
    ensures
        final(buffer)@ == src@.subrange(0, n as int) + old(buffer)@.subrange(
            n as int,
            old(buffer)@.len() as int,
        ),
{
    let mut i: usize = 0;
    while i < n
        invariant
            i <= n,
            n <= buffer@.len(),
            buffer@.len() == old(buffer)@.len(),
            n <= src@.len(),
            forall|k: int| 0 <= k < i ==> buffer@[k] == src@[k],
            forall|k: int| i <= k < buffer@.len() ==> buffer@[k] == old(buffer)@[k],
        decreases n - i,
    {
        let b = src[i];
        buffer.set(i, b);
        i = i + 1;
    }
    proof {
        assert(buffer@ =~= src@.subrange(0, n as int) + old(buffer)@.subrange(
            n as int,
            old(buffer)@.len() as int,
        ));
    }
}

impl I2c {
    /// Take one snapshot from the port, advance the machine one step and
    /// apply the action.  The address code is cut to the 7-bit hardware
    /// field before it enters the machine.
    fn advance_once<B: Instance>(&mut self, bus: &mut B) -> (r: StepStatus)
        requires
            old(self).wf(),
        ensures
            final(self).wf(),
            exists|ev: IsrEvent| final(self)@ == step_state(old(self)@, ev),
            r matches StepStatus::Ready(res) ==> match res {
                I2cResult::Data(a, _d, bytes) => {
                    &&& a == final(self)@.address
                    &&& bytes@ == final(self)@.data.subrange(0, final(self)@.index)
                    &&& final(self)@.index > 0
                    &&& !final(self)@.busy
                    &&& (final(self)@.framed ==> final(self)@.index == final(self)@.length)
                    &&& final(self)@.length == old(self)@.length
                    &&& final(self)@.framed == old(self)@.framed
                    &&& final(self)@.data == old(self)@.data
                },
                I2cResult::Addressed(a, d) => {
                    &&& a == final(self)@.address && a < 128
                    &&& final(self)@.watchdog == 10
                    &&& final(self)@.busy
                    &&& (d == I2cDirection::MasterWriteSlaveRead ==> !final(self)@.framed
                        && final(self)@.length == 255 && final(self)@.index == 0)
                },
            },
            r matches StepStatus::Failed(e) ==> match e {
                Error::Nack => final(self)@.index == 0,
                Error::IncorrectFrameSize(k) => k == final(self)@.index && 0 < k,
                _ => true,
            },
    {
        let polled = bus.poll_event();
        let code = polled.addcode;
        proof {
            assert(code & 0x7f < 128) by (bit_vector);
        }
        let ev = IsrEvent { addcode: code & 0x7f, ..polled };
        let (effect, status) = self.check_isr_flags(&ev);
        bus.apply(&effect);
        proof {
            assert(self@ == step_state(old(self)@, ev));
        }
        status
    }

    /// Spin until the open transaction reaches a terminal state, or this
    /// device is addressed as a slave, or the poll budget runs out.
    fn poll_transaction<B: Instance>(&mut self, bus: &mut B) -> (r: Result<I2cResult, Error>)
        requires
            old(self).wf(),
        ensures
            final(self).wf(),
            exists|evs: Seq<IsrEvent>| final(self)@ == run_state(old(self)@, evs),
            r matches Ok(res) ==> (res matches I2cResult::Data(a, _d, bytes) ==> {
                &&& a == final(self)@.address
                &&& bytes@ == final(self)@.data.subrange(0, final(self)@.index)
                &&& final(self)@.index > 0
                &&& (final(self)@.framed ==> final(self)@.index == final(self)@.length)
            }),
            r matches Err(e) ==> match e {
                Error::Nack => final(self)@.index == 0,
                Error::IncorrectFrameSize(k) => k == final(self)@.index && 0 < k,
                _ => true,
            },
    {
        let ghost c0 = self@;
        let ghost mut evs: Seq<IsrEvent> = Seq::empty();
        let mut budget: u64 = POLL_BUDGET;
        while budget > 0
            invariant
                self.wf(),
                c0 == old(self)@,
                self@ == run_state(c0, evs),
            decreases budget,
        {
            let ghost pre = self@;
            let status = self.advance_once(bus);
            proof {
                let w = choose|ev: IsrEvent| self@ == step_state(pre, ev);
                lemma_run_append(c0, evs, seq![w]);
                lemma_run_one(pre, w);
                assert(evs + seq![w] =~= evs.push(w));
                evs = evs.push(w);
            }
            match status {
                StepStatus::Pending => {},
                StepStatus::Ready(res) => {
                    proof {
                        assert(self@ == run_state(old(self)@, evs));
                    }
                    return Ok(res);
                },
                StepStatus::Failed(e) => {
                    proof {
                        assert(self@ == run_state(old(self)@, evs));
                    }
                    return Err(e);
                },
            }
            budget = budget - 1;
        }
        proof {
            assert(self@ == run_state(old(self)@, evs));
        }
        Err(Error::Overrun)
    }

    /// Classify a finished transaction against the expected count, as the
    /// completion policy asks: all bytes moved is success, none is a
    /// refused address, some is a short frame with the actual count.
    fn classify_completion(&self) -> (r: Result<(), Error>)
        requires
            self.wf(),
        ensures
            r matches Ok(()) ==> self@.index == self@.length,
            r matches Err(e) ==> match e {
                Error::Nack => self@.index == 0,
                Error::IncorrectFrameSize(k) => k == self@.index && 0 < k < self@.length,
                _ => false,
            },
    {
        if self.index == self.length {
            Ok(())
        } else if self.index == 0 {
            Err(Error::Nack)
        } else {
            Err(Error::IncorrectFrameSize(self.index))
        }
    }

    /// Spin until no transaction is open, processing stale events, so a
    /// new start condition does not overlap the one before it.
    fn wait_idle<B: Instance>(&mut self, bus: &mut B) -> (r: bool)
        requires
            old(self).wf(),
        ensures
            final(self).wf(),
            exists|evs: Seq<IsrEvent>| final(self)@ == run_state(old(self)@, evs),
            r ==> !final(self)@.busy,
    {
        let ghost c0 = self@;
        let ghost mut evs: Seq<IsrEvent> = Seq::empty();
        let mut budget: u64 = POLL_BUDGET;
        while budget > 0
            invariant
                self.wf(),
                c0 == old(self)@,
                self@ == run_state(c0, evs),
            decreases budget,
        {
            if !self.busy {
                proof {
                    assert(self@ == run_state(old(self)@, evs));
                }
                return true;
            }
            let ghost pre = self@;
            let _ = self.advance_once(bus);
            proof {
                let w = choose|ev: IsrEvent| self@ == step_state(pre, ev);
                lemma_run_append(c0, evs, seq![w]);
                lemma_run_one(pre, w);
                assert(evs + seq![w] =~= evs.push(w));
                evs = evs.push(w);
            }
            budget = budget - 1;
        }
        proof {
            assert(self@ == run_state(old(self)@, evs));
        }
        !self.busy
    }

    /// Write `bytes` to the peer at the 7-bit address `addr`, blocking
    /// until the transaction ends.
    ///
    /// Success means the whole frame went out: exactly `bytes.len()`
    /// bytes were handed to the wire, in order.  A peer that refuses the
    /// address gives `Nack` with nothing transferred; one that refuses
    /// mid-frame gives `IncorrectFrameSize` with the count that was
    /// acknowledged.
    pub fn write<B: Instance>(&mut self, bus: &mut B, addr: u16, bytes: &[u8]) -> (r: Result<
        (),
        Error,
    >)
        requires
            old(self).wf(),
            addr < 128,
            1 <= bytes@.len() <= 255,
        ensures
            final(self).wf(),
            r matches Ok(()) ==> final(self)@.index == final(self)@.length,
            r matches Err(e) ==> match e {
                Error::Nack => final(self)@.index == 0,
                Error::IncorrectFrameSize(k) => k == final(self)@.index && 0 < k,
                _ => true,
            },
    {
        if !self.wait_idle(bus) {
            return Err(Error::Overrun);
        }
        match self.master_write(addr, bytes) {
            Some(effect) => bus.apply(&effect),
            None => {
                return Err(Error::Overrun);
            },
        }
        match self.poll_transaction(bus) {
            Ok(_) => self.classify_completion(),
            Err(e) => Err(e),
        }
    }

    /// Read `buffer.len()` bytes from the peer at the 7-bit address
    /// `addr`, blocking until the transaction ends.  On success the
    /// buffer holds exactly the received bytes, in order.
    pub fn read<B: Instance>(
        &mut self,
        bus: &mut B,
        addr: u16,
        buffer: &mut Vec<u8>,
    ) -> (r: Result<(), Error>)
        requires
            old(self).wf(),
            addr < 128,
            1 <= old(buffer)@.len() <= 255,
        ensures
            final(self).wf(),
            final(buffer)@.len() == old(buffer)@.len(),
            r matches Ok(()) ==> final(self)@.index == final(self)@.length && final(buffer)@
                == final(self)@.data.subrange(0, old(buffer)@.len() as int),
            r matches Err(e) ==> match e {
                Error::Nack => final(self)@.index == 0,
                Error::IncorrectFrameSize(k) => k == final(self)@.index && 0 < k,
                _ => true,
            },
    {
        if !self.wait_idle(bus) {
            return Err(Error::Overrun);
        }
        let len = buffer.len() as u8;
        match self.master_read(addr, len) {
            Some(effect) => bus.apply(&effect),
            None => {
                return Err(Error::Overrun);
            },
        }
        match self.poll_transaction(bus) {
            Ok(_) => {
                let done = self.classify_completion();
                if done.is_ok() {
                    fill_from(buffer, &self.data);
                }
                done
            },
            Err(e) => Err(e),
        }
    }

    /// Write `bytes` to the peer, then — only once the write phase has
    /// fully completed — read `buffer.len()` bytes under a repeated
    /// start, blocking until the whole transaction ends.  On success the
    /// buffer holds exactly the bytes of the read phase.
    pub fn write_then_read<B: Instance>(
        &mut self,
        bus: &mut B,
        addr: u16,
        bytes: &[u8],
        buffer: &mut Vec<u8>,
    ) -> (r: Result<(), Error>)
        requires
            old(self).wf(),
            addr < 128,
            1 <= bytes@.len() <= 255,
            1 <= old(buffer)@.len() <= 255,
        ensures
            final(self).wf(),
            final(buffer)@.len() == old(buffer)@.len(),
            r matches Ok(()) ==> final(self)@.index == final(self)@.length && final(buffer)@
                == final(self)@.data.subrange(0, old(buffer)@.len() as int),
            r matches Err(e) ==> match e {
                Error::Nack => final(self)@.index == 0,
                Error::IncorrectFrameSize(k) => k == final(self)@.index && 0 < k,
                _ => true,
            },
    {
        if !self.wait_idle(bus) {
            return Err(Error::Overrun);
        }
        let read_len = buffer.len() as u8;
        match self.master_write_read(addr, bytes, read_len) {
            Some(effect) => bus.apply(&effect),
            None => {
                return Err(Error::Overrun);
            },
        }
        match self.poll_transaction(bus) {
            Ok(_) => {
                let done = self.classify_completion();
                if done.is_ok() {
                    fill_from(buffer, &self.data);
                }
                done
            },
            Err(e) => Err(e),
        }
    }

    /// Report whether a master is addressing this device right now, from
    /// one status snapshot, without advancing the state machine or
    /// releasing the address-phase clock stretch.
    pub fn slave_addressed(&self, ev: &IsrEvent) -> (r: Result<
        Option<(u16, I2cDirection)>,
        Error,
    >)
        ensures
            ev.addr ==> r == Ok::<_, Error>(
                Some(((ev.addcode & 0x7f) as u16, crate::i2c::spec_dir_of(*ev))),
            ),
            !ev.addr ==> r == Ok::<Option<(u16, I2cDirection)>, Error>(None),
    {
        if ev.addr {
            let code = ev.addcode & 0x7f;
            let direction = if ev.dir {
                I2cDirection::MasterReadSlaveWrite
            } else {
                I2cDirection::MasterWriteSlaveRead
            };
            Ok(Some((code as u16, direction)))
        } else {
            Ok(None)
        }
    }

    /// Block until a master addresses this device, returning the matched
    /// address and the reported direction.  When the master writes to
    /// this device, the machine has already accepted a maximum-length
    /// receive by the time this returns.
    pub fn slave_wait_addressed<B: Instance>(&mut self, bus: &mut B) -> (r: Result<
        (u16, I2cDirection),
        Error,
    >)
        requires
            old(self).wf(),
        ensures
            final(self).wf(),
            exists|evs: Seq<IsrEvent>| final(self)@ == run_state(old(self)@, evs),
            r matches Ok((a, d)) ==> {
                &&& a == final(self)@.address && a < 128
                &&& final(self)@.watchdog == 10
                &&& final(self)@.busy
                &&& (d == I2cDirection::MasterWriteSlaveRead ==> !final(self)@.framed
                    && final(self)@.length == 255 && final(self)@.index == 0)
            },
    {
        let ghost c0 = self@;
        let ghost mut evs: Seq<IsrEvent> = Seq::empty();
        let mut budget: u64 = POLL_BUDGET;
        while budget > 0
            invariant
                self.wf(),
                c0 == old(self)@,
                self@ == run_state(c0, evs),
            decreases budget,
        {
            let ghost pre = self@;
            let status = self.advance_once(bus);
            proof {
                let w = choose|ev: IsrEvent| self@ == step_state(pre, ev);
                lemma_run_append(c0, evs, seq![w]);
                lemma_run_one(pre, w);
                assert(evs + seq![w] =~= evs.push(w));
                evs = evs.push(w);
            }
            match status {
                StepStatus::Ready(I2cResult::Addressed(a, d)) => {
                    proof {
                        assert(self@ == run_state(old(self)@, evs));
                    }
                    return Ok((a, d));
                },
                _ => {},
            }
            budget = budget - 1;
        }
        proof {
            assert(self@ == run_state(old(self)@, evs));
        }
        Err(Error::Overrun)
    }

    /// Receive exactly `buffer.len()` bytes from the master, blocking
    /// until its stop condition.  On success the buffer holds exactly
    /// the received bytes, in order.  A master that stops early gives
    /// `IncorrectFrameSize` with the count actually sent, the received
    /// prefix copied to the front of the buffer and the rest untouched;
    /// one that sent more than the buffer holds gives
    /// `IncorrectFrameSize` with one more than the buffer length, the
    /// buffer filled with the bytes it has room for.
    pub fn slave_read<B: Instance>(&mut self, bus: &mut B, buffer: &mut Vec<u8>) -> (r: Result<
        (),
        Error,
    >)
        requires
            old(self).wf(),
            1 <= old(buffer)@.len() <= 255,
        ensures
            final(self).wf(),
            exists|evs: Seq<IsrEvent>| final(self)@ == run_state(old(self)@, evs),
            final(buffer)@.len() == old(buffer)@.len(),
            r matches Ok(()) ==> final(self)@.index == old(buffer)@.len() && final(buffer)@
                == final(self)@.data.subrange(0, old(buffer)@.len() as int),
            r matches Err(e) ==> match e {
                Error::IncorrectFrameSize(k) => {
                    ||| (k == final(self)@.index && k < old(buffer)@.len() && final(buffer)@
                        == final(self)@.data.subrange(0, k as int) + old(buffer)@.subrange(
                        k as int,
                        old(buffer)@.len() as int,
                    ))
                    ||| (k == old(buffer)@.len() + 1 && final(self)@.index > old(buffer)@.len()
                        && final(buffer)@ == final(self)@.data.subrange(
                        0,
                        old(buffer)@.len() as int,
                    ))
                    ||| (k == final(self)@.index && k >= old(buffer)@.len() && final(buffer)@
                        == old(buffer)@)
                },
                Error::Nack => final(self)@.index == 0 && final(buffer)@ == old(buffer)@,
                _ => final(buffer)@ == old(buffer)@,
            },
    {
        let expected = buffer.len();
        let ghost c0 = self@;
        let ghost mut evs: Seq<IsrEvent> = Seq::empty();
        let mut budget: u64 = POLL_BUDGET;
        while budget > 0
            invariant
                self.wf(),
                c0 == old(self)@,
                self@ == run_state(c0, evs),
                buffer@ == old(buffer)@,
                buffer@.len() == expected,
                expected == old(buffer)@.len(),
                1 <= expected <= 255,
            decreases budget,
        {
            let ghost pre = self@;
            let status = self.advance_once(bus);
            proof {
                let w = choose|ev: IsrEvent| self@ == step_state(pre, ev);
                lemma_run_append(c0, evs, seq![w]);
                lemma_run_one(pre, w);
                assert(evs + seq![w] =~= evs.push(w));
                evs = evs.push(w);
                assert(self@ == run_state(old(self)@, evs));
            }
            match status {
                StepStatus::Pending => {},
                StepStatus::Ready(I2cResult::Addressed(_, _)) => {},
                StepStatus::Ready(I2cResult::Data(_, _, _)) => {
                    if self.index == expected {
                        fill_from(buffer, &self.data);
                        return Ok(());
                    } else if self.index < expected {
                        // The master stopped before the frame was full:
                        // hand over what arrived, report the count.
                        fill_prefix(buffer, &self.data, self.index);
                        return Err(Error::IncorrectFrameSize(self.index));
                    } else {
                        // The master sent more than the caller can take.
                        fill_from(buffer, &self.data);
                        return Err(Error::IncorrectFrameSize(expected + 1));
                    }
                },
                StepStatus::Failed(e) => {
                    match e {
                        Error::IncorrectFrameSize(k) => {
                            if k < expected {
                                // A short frame: hand over what arrived.
                                fill_prefix(buffer, &self.data, k);
                            }
                            return Err(Error::IncorrectFrameSize(k));
                        },
                        _ => {
                            return Err(e);
                        },
                    }
                },
            }
            budget = budget - 1;
        }
        proof {
            assert(self@ == run_state(old(self)@, evs));
        }
        Err(Error::Overrun)
    }

    /// Transmit `bytes` to the master, blocking until its stop
    /// condition.  A master that wants more bytes makes the hardware
    /// free-run a filler byte, which this device cannot detect, so that
    /// case still returns success; one that takes fewer gives
    /// `IncorrectFrameSize` with the count actually taken.
    pub fn slave_write_blocking<B: Instance>(&mut self, bus: &mut B, bytes: &[u8]) -> (r: Result<
        (),
        Error,
    >)
        requires
            old(self).wf(),
            1 <= bytes@.len() <= 255,
        ensures
            final(self).wf(),
            r matches Ok(()) ==> final(self)@.index == final(self)@.length,
            r matches Err(e) ==> match e {
                Error::Nack => final(self)@.index == 0,
                Error::IncorrectFrameSize(k) => k == final(self)@.index && 0 < k,
                _ => true,
            },
    {
        let effect = self.slave_write(bytes);
        bus.apply(&effect);
        // The caller handed an exact frame: classify the stop condition
        // against it.
        self.framed = true;
        match self.poll_transaction(bus) {
            Ok(_) => self.classify_completion(),
            Err(e) => Err(e),
        }
    }
}

/// The slave role of the blocking driver: wait to be addressed, then
/// serve the master's transfer against the port.
///
/// The contracts speak of the implementor's abstract descriptor state.
pub trait I2cSlave {
    /// The abstract descriptor state the contracts speak of.
    spec fn model(&self) -> Core;

    /// Enable or disable slave byte control.
    fn slave_sbc(&mut self, sbc_enabled: bool)
        ensures
            final(self).model() == (Core {
                cr1: Cr1 { sbc: sbc_enabled, ..old(self).model().cr1 },
                ..old(self).model()
            }),
    ;

    /// Report whether a master is addressing this device right now,
    /// from one status snapshot, without advancing the state machine.
    fn slave_addressed(&self, ev: &IsrEvent) -> (r: Result<Option<(u16, I2cDirection)>, Error>)
        ensures
            ev.addr ==> r == Ok::<_, Error>(
                Some(((ev.addcode & 0x7f) as u16, crate::i2c::spec_dir_of(*ev))),
            ),
            !ev.addr ==> r == Ok::<Option<(u16, I2cDirection)>, Error>(None),
    ;

    /// Block until a master addresses this device, returning the
    /// matched address and the reported direction.
    fn slave_wait_addressed<B: Instance>(&mut self, bus: &mut B) -> (r: Result<
        (u16, I2cDirection),
        Error,
    >)
        requires
            core_wf(old(self).model()),
        ensures
            core_wf(final(self).model()),
            r matches Ok((a, d)) ==> {
                &&& a == final(self).model().address && a < 128
                &&& final(self).model().watchdog == 10
                &&& final(self).model().busy
                &&& (d == I2cDirection::MasterWriteSlaveRead ==> !final(self).model().framed
                    && final(self).model().length == 255 && final(self).model().index == 0)
            },
    ;

    /// Receive exactly `buffer.len()` bytes from the master, blocking
    /// until its stop condition; a short frame hands over the received
    /// prefix with its count, an overlong one fills the buffer and
    /// reports one more than its length.
    fn slave_read<B: Instance>(&mut self, bus: &mut B, buffer: &mut Vec<u8>) -> (r: Result<
        (),
        Error,
    >)
        requires
            core_wf(old(self).model()),
            1 <= old(buffer)@.len() <= 255,
        ensures
            core_wf(final(self).model()),
            final(buffer)@.len() == old(buffer)@.len(),
            r matches Ok(()) ==> final(self).model().index == old(buffer)@.len()
                && final(buffer)@ == final(self).model().data.subrange(
                0,
                old(buffer)@.len() as int,
            ),
            r matches Err(e) ==> match e {
                Error::IncorrectFrameSize(k) => {
                    ||| (k == final(self).model().index && k < old(buffer)@.len()
                        && final(buffer)@ == final(self).model().data.subrange(0, k as int)
                        + old(buffer)@.subrange(k as int, old(buffer)@.len() as int))
                    ||| (k == old(buffer)@.len() + 1
                        && final(self).model().index > old(buffer)@.len()
                        && final(buffer)@ == final(self).model().data.subrange(
                        0,
                        old(buffer)@.len() as int,
                    ))
                    ||| (k == final(self).model().index && k >= old(buffer)@.len()
                        && final(buffer)@ == old(buffer)@)
                },
                Error::Nack => final(self).model().index == 0 && final(buffer)@ == old(buffer)@,
                _ => final(buffer)@ == old(buffer)@,
            },
    ;

    /// Transmit `bytes` to the master, blocking until its stop
    /// condition; a master that takes fewer bytes gives a short-frame
    /// error with the count actually taken.
    fn slave_write<B: Instance>(&mut self, bus: &mut B, bytes: &[u8]) -> (r: Result<(), Error>)
        requires
            core_wf(old(self).model()),
            1 <= bytes@.len() <= 255,
        ensures
            core_wf(final(self).model()),
            r matches Ok(()) ==> final(self).model().index == final(self).model().length,
            r matches Err(e) ==> match e {
                Error::Nack => final(self).model().index == 0,
                Error::IncorrectFrameSize(k) => k == final(self).model().index && 0 < k,
                _ => true,
            },
    ;
}

impl I2cSlave for I2c {
    open spec fn model(&self) -> Core {
        self@
    }

    fn slave_sbc(&mut self, sbc_enabled: bool) {
        self.slave_sbc(sbc_enabled);
    }

    fn slave_addressed(&self, ev: &IsrEvent) -> (r: Result<
        Option<(u16, I2cDirection)>,
        Error,
    >) {
        self.slave_addressed(ev)
    }

    fn slave_wait_addressed<B: Instance>(&mut self, bus: &mut B) -> (r: Result<
        (u16, I2cDirection),
        Error,
    >) {
        self.slave_wait_addressed(bus)
    }

    fn slave_read<B: Instance>(&mut self, bus: &mut B, buffer: &mut Vec<u8>) -> (r: Result<
        (),
        Error,
    >) {
        self.slave_read(bus, buffer)
    }

    fn slave_write<B: Instance>(&mut self, bus: &mut B, bytes: &[u8]) -> (r: Result<(), Error>) {
        self.slave_write_blocking(bus, bytes)
    }
}

} // verus!
