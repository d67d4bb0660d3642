//! Laws of the I2C state machine.
//!
//! The advance step is pinned down by [`step_state`], [`step_effect`] and
//! [`step_status`]; these laws fold the step over whole event runs and
//! prove what a transaction does end to end: a full write moves exactly
//! the programmed bytes in order, a full read populates exactly the
//! received bytes, a write-then-read keeps its two phases apart, a
//! refused address is a `Nack` and a refused byte a short frame, the
//! watchdog fires exactly once, and the error counter reads out once.

use vstd::prelude::*;

use crate::i2c::nonblocking::{
    bumped, core_wf, step_effect, step_state, step_status, wd_fires, wd_step, Core,
};
use crate::i2c::{
    cr2_master_read, spec_classify, Effect, Error, Flag, I2cDirection, IsrEvent, SpecStatus,
};

verus! {

/// A status snapshot carrying only the transmit-ready flag.
pub open spec fn tx_ev() -> IsrEvent {
    IsrEvent { txis: true, ..IsrEvent::spec_idle() }
}

/// A status snapshot carrying only the receive flag, with the byte `b`.
pub open spec fn rx_ev(b: u8) -> IsrEvent {
    IsrEvent { rxne: true, rxdata: b, ..IsrEvent::spec_idle() }
}

/// A status snapshot carrying only the NACK flag.
pub open spec fn nack_ev() -> IsrEvent {
    IsrEvent { nackf: true, ..IsrEvent::spec_idle() }
}

/// A status snapshot carrying only the transfer-complete flag.
pub open spec fn tc_ev() -> IsrEvent {
    IsrEvent { tc: true, ..IsrEvent::spec_idle() }
}

/// A status snapshot carrying only the stop-condition flag.
pub open spec fn stop_ev() -> IsrEvent {
    IsrEvent { stopf: true, ..IsrEvent::spec_idle() }
}

/// A status snapshot carrying only the address-match flag.
pub open spec fn addr_ev(code: u8, dir: bool) -> IsrEvent {
    IsrEvent { addr: true, addcode: code, dir, ..IsrEvent::spec_idle() }
}

/// The state after running the machine over a whole sequence of events.
pub open spec fn run_state(c: Core, evs: Seq<IsrEvent>) -> Core
    decreases evs.len(),
{
    if evs.len() == 0 {
        c
    } else {
        run_state(step_state(c, evs[0]), evs.skip(1))
    }
}

/// The bytes the machine hands to the wire over a sequence of events,
/// in order.
pub open spec fn run_tx(c: Core, evs: Seq<IsrEvent>) -> Seq<u8>
    decreases evs.len(),
{
    if evs.len() == 0 {
        Seq::<u8>::empty()
    } else {
        (match step_effect(c, evs[0]) {
            Effect::WriteTx(b) => seq![b],
            _ => Seq::<u8>::empty(),
        }) + run_tx(step_state(c, evs[0]), evs.skip(1))
    }
}

/// What the machine reports at the last event of a run.
pub open spec fn run_status(c: Core, evs: Seq<IsrEvent>) -> SpecStatus
    recommends
        evs.len() > 0,
{
    step_status(run_state(c, evs.drop_last()), evs.last())
}

/// Running over one event is taking one step.
pub proof fn lemma_run_one(c: Core, e: IsrEvent)
    ensures
        run_state(c, seq![e]) == step_state(c, e),
        run_tx(c, seq![e]) == (match step_effect(c, e) {
            Effect::WriteTx(b) => seq![b],
            _ => Seq::<u8>::empty(),
        }),
{
    assert(seq![e].skip(1) =~= Seq::<IsrEvent>::empty());
    assert(run_state(step_state(c, e), Seq::<IsrEvent>::empty()) == step_state(c, e));
    assert(run_tx(step_state(c, e), Seq::<IsrEvent>::empty()) == Seq::<u8>::empty());
    assert(run_tx(c, seq![e]) =~= (match step_effect(c, e) {
        Effect::WriteTx(b) => seq![b],
        _ => Seq::<u8>::empty(),
    }));
}

/// Running over a concatenation is running over the parts in turn.
pub proof fn lemma_run_append(c: Core, a: Seq<IsrEvent>, b: Seq<IsrEvent>)
    ensures
        run_state(c, a + b) == run_state(run_state(c, a), b),
        run_tx(c, a + b) == run_tx(c, a) + run_tx(run_state(c, a), b),
    decreases a.len(),
{
    if a.len() == 0 {
        assert(a + b =~= b);
        assert(run_tx(c, a) + run_tx(run_state(c, a), b) =~= run_tx(c, b));
    } else {
        let c1 = step_state(c, a[0]);
        lemma_run_append(c1, a.skip(1), b);
        assert((a + b).len() > 0);
        assert((a + b)[0] == a[0]);
        assert((a + b).skip(1) =~= a.skip(1) + b);
        assert(run_tx(c, a + b) =~= run_tx(c, a) + run_tx(run_state(c, a), b));
    }
}

/// A run of transmit-ready events: each hands the next programmed byte
/// to the wire and advances the index; nothing else changes.
proof fn lemma_tx_run(c: Core, k: nat)
    requires
        core_wf(c),
        c.index + k <= c.length,
    ensures
        run_state(c, Seq::new(k, |i: int| tx_ev())) == (Core { index: c.index + k, ..c }),
        run_tx(c, Seq::new(k, |i: int| tx_ev())) == c.data.subrange(c.index, c.index + k),
    decreases k,
{
    let evs = Seq::new(k, |i: int| tx_ev());
    if k == 0 {
        assert(run_tx(c, evs) =~= c.data.subrange(c.index, c.index));
    } else {
        assert(spec_classify(tx_ev()) == Flag::TxReady);
        let c1 = step_state(c, tx_ev());
        assert(c1 == (Core { index: c.index + 1, ..c }));
        lemma_tx_run(c1, (k - 1) as nat);
        assert(evs.skip(1) =~= Seq::new((k - 1) as nat, |i: int| tx_ev()));
        assert(run_state(c, evs) == (Core { index: c.index + k, ..c }));
        assert(step_effect(c, tx_ev()) == Effect::WriteTx(c.data[c.index]));
        assert(run_tx(c1, evs.skip(1)) == c.data.subrange(c.index + 1, c.index + k));
        assert(seq![c.data[c.index]] + c.data.subrange(c.index + 1, c.index + k) =~= c.data
            .subrange(c.index, c.index + k));
    }
}

/// A run of receive events carrying the bytes `bs`: each is stored at
/// the index, which advances; nothing goes out on the wire.
proof fn lemma_rx_run(c: Core, bs: Seq<u8>)
    requires
        core_wf(c),
        c.index + bs.len() <= c.length,
    ensures
        run_state(c, Seq::new(bs.len(), |i: int| rx_ev(bs[i]))) == (Core {
            index: c.index + bs.len(),
            data: c.data.subrange(0, c.index) + bs + c.data.subrange(c.index + bs.len(), 255),
            ..c
        }),
        run_tx(c, Seq::new(bs.len(), |i: int| rx_ev(bs[i]))) == Seq::<u8>::empty(),
    decreases bs.len(),
{
    let evs = Seq::new(bs.len(), |i: int| rx_ev(bs[i]));
    if bs.len() == 0 {
        assert(c.data.subrange(0, c.index) + bs + c.data.subrange(c.index, 255) =~= c.data);
    } else {
        assert(spec_classify(rx_ev(bs[0])) == Flag::RxReady);
        let c1 = step_state(c, rx_ev(bs[0]));
        assert(c1 == (Core {
            index: c.index + 1,
            data: c.data.update(c.index, bs[0]),
            ..c
        }));
        lemma_rx_run(c1, bs.skip(1));
        assert(evs.skip(1) =~= Seq::new(bs.skip(1).len(), |i: int| rx_ev(bs.skip(1)[i])));
        let rec = run_state(c1, evs.skip(1));
        assert(rec.data == c1.data.subrange(0, c1.index) + bs.skip(1) + c1.data.subrange(
            c1.index + bs.skip(1).len(),
            255,
        ));
        assert(c1.data.subrange(0, c1.index) + bs.skip(1) + c1.data.subrange(
            c1.index + bs.skip(1).len(),
            255,
        ) =~= c.data.subrange(0, c.index) + bs + c.data.subrange(c.index + bs.len(), 255));
        assert(run_tx(c, evs) =~= Seq::<u8>::empty());
    }
}

/// For every buffer length L in [1, 255]: a write run that the peer
/// fully acknowledges — L transmit-ready events, then the stop
/// condition — hands exactly the L programmed bytes to the wire, in
/// order and byte-for-byte, and ends in success carrying those bytes.
pub proof fn lemma_write_transfers_exactly(c: Core, n: nat)
    requires
        core_wf(c),
        c.index == 0,
        c.framed,
        c.length == n,
        1 <= n <= 255,
    ensures
        run_tx(c, Seq::new(n, |i: int| tx_ev()) + seq![stop_ev()]) == c.data.subrange(0, n as int),
        run_status(c, Seq::new(n, |i: int| tx_ev()) + seq![stop_ev()]) == SpecStatus::Data(
            c.address,
            I2cDirection::MasterWriteSlaveRead,
            c.data.subrange(0, n as int),
        ),
        run_state(c, Seq::new(n, |i: int| tx_ev()) + seq![stop_ev()]).index == n,
{
    let txs = Seq::new(n, |i: int| tx_ev());
    let evs = txs + seq![stop_ev()];
    lemma_tx_run(c, n);
    let mid = run_state(c, txs);
    lemma_run_append(c, txs, seq![stop_ev()]);
    assert(spec_classify(stop_ev()) == Flag::Stop);
    lemma_run_one(mid, stop_ev());
    assert(evs.drop_last() =~= txs);
    assert(evs.last() == stop_ev());
    assert(run_tx(c, evs) =~= c.data.subrange(0, n as int));
}

/// For every L in [1, 255]: a read run the peer serves fully — L receive
/// events carrying the bytes `bs`, then the stop condition — populates
/// exactly those L bytes, in order, and ends in success carrying them;
/// nothing goes out on the wire.
pub proof fn lemma_read_populates_exactly(c: Core, bs: Seq<u8>)
    requires
        core_wf(c),
        c.index == 0,
        c.framed,
        c.length == bs.len(),
        1 <= bs.len() <= 255,
    ensures
        run_state(c, Seq::new(bs.len(), |i: int| rx_ev(bs[i])) + seq![stop_ev()]).index
            == bs.len(),
        run_state(c, Seq::new(bs.len(), |i: int| rx_ev(bs[i])) + seq![stop_ev()]).data.subrange(
            0,
            bs.len() as int,
        ) == bs,
        run_status(c, Seq::new(bs.len(), |i: int| rx_ev(bs[i])) + seq![stop_ev()])
            == SpecStatus::Data(c.address, I2cDirection::MasterWriteSlaveRead, bs),
        run_tx(c, Seq::new(bs.len(), |i: int| rx_ev(bs[i])) + seq![stop_ev()]) == Seq::<
            u8,
        >::empty(),
{
    let rxs = Seq::new(bs.len(), |i: int| rx_ev(bs[i]));
    let evs = rxs + seq![stop_ev()];
    lemma_rx_run(c, bs);
    let mid = run_state(c, rxs);
    lemma_run_append(c, rxs, seq![stop_ev()]);
    assert(spec_classify(stop_ev()) == Flag::Stop);
    lemma_run_one(mid, stop_ev());
    assert(evs.drop_last() =~= rxs);
    assert(evs.last() == stop_ev());
    assert(mid.data.subrange(0, bs.len() as int) =~= bs);
    assert(run_tx(c, evs) =~= Seq::<u8>::empty());
    assert(step_state(mid, stop_ev()).data.subrange(0, bs.len() as int) =~= bs);
}

/// A write-then-read with output length Lo and read length Li completes
/// the write phase fully before any read-phase byte moves: over the
/// whole run — Lo transmit events, the transfer-complete boundary, Li
/// receive events, the stop — exactly the Lo programmed bytes go out on
/// the wire, the read phase is programmed only at the boundary, and the
/// final buffer holds only the Li read bytes.
pub proof fn lemma_write_then_read_phases(c: Core, lo: nat, li: nat, bs: Seq<u8>)
    requires
        core_wf(c),
        c.index == 0,
        c.framed,
        c.length == lo,
        1 <= lo <= 255,
        c.length_write_read == li,
        1 <= li <= 255,
        bs.len() == li,
    ensures
        run_tx(
            c,
            Seq::new(lo, |i: int| tx_ev()) + seq![tc_ev()] + Seq::new(li, |i: int| rx_ev(bs[i]))
                + seq![stop_ev()],
        ) == c.data.subrange(0, lo as int),
        step_effect(run_state(c, Seq::new(lo, |i: int| tx_ev())), tc_ev())
            == Effect::ProgramCr2(cr2_master_read(c.address, li as u8)),
        run_status(
            c,
            Seq::new(lo, |i: int| tx_ev()) + seq![tc_ev()] + Seq::new(li, |i: int| rx_ev(bs[i]))
                + seq![stop_ev()],
        ) == SpecStatus::Data(c.address, I2cDirection::MasterWriteSlaveRead, bs),
{
    let txs = Seq::new(lo, |i: int| tx_ev());
    let rxs = Seq::new(li, |i: int| rx_ev(bs[i]));
    let evs = txs + seq![tc_ev()] + rxs + seq![stop_ev()];
    lemma_tx_run(c, lo);
    let m1 = run_state(c, txs);
    assert(spec_classify(tc_ev()) == Flag::TransferComplete);
    let m2 = step_state(m1, tc_ev());
    assert(m2 == (Core { index: 0, length: li as int, length_write_read: 0, ..m1 }));
    lemma_run_one(m1, tc_ev());
    lemma_rx_run(m2, bs);
    let m3 = run_state(m2, rxs);
    assert(spec_classify(stop_ev()) == Flag::Stop);
    let m4 = step_state(m3, stop_ev());
    lemma_run_one(m3, stop_ev());
    lemma_run_append(c, txs, seq![tc_ev()]);
    lemma_run_append(c, txs + seq![tc_ev()], rxs);
    lemma_run_append(c, txs + seq![tc_ev()] + rxs, seq![stop_ev()]);
    assert(run_state(c, txs + seq![tc_ev()]) == m2);
    assert(run_state(c, txs + seq![tc_ev()] + rxs) == m3);
    assert(evs.drop_last() =~= txs + seq![tc_ev()] + rxs);
    assert(evs.last() == stop_ev());
    assert(m3.data.subrange(0, li as int) =~= bs);
    assert(step_status(m3, stop_ev()) == SpecStatus::Data(
        c.address,
        I2cDirection::MasterWriteSlaveRead,
        bs,
    ));
    assert(run_tx(m2, rxs) == Seq::<u8>::empty());
    assert(run_tx(m1, seq![tc_ev()]) == Seq::<u8>::empty());
    assert(run_tx(m3, seq![stop_ev()]) == Seq::<u8>::empty());
    assert(run_tx(c, evs) =~= c.data.subrange(0, lo as int));
}

/// A peer that refuses the address on a write of any length: at the stop
/// condition the hardware generates, nothing was transferred and the
/// outcome is `Nack` — never `IncorrectFrameSize`.
pub proof fn lemma_nack_on_address(c: Core)
    requires
        core_wf(c),
        c.index == 0,
        c.framed,
        1 <= c.length,
    ensures
        run_tx(c, seq![nack_ev(), stop_ev()]) == Seq::<u8>::empty(),
        run_status(c, seq![nack_ev(), stop_ev()]) == SpecStatus::Failed(Error::Nack),
{
    let evs = seq![nack_ev(), stop_ev()];
    assert(spec_classify(nack_ev()) == Flag::Nack);
    assert(spec_classify(stop_ev()) == Flag::Stop);
    assert(step_state(c, nack_ev()) == c);
    assert(evs.drop_last() =~= seq![nack_ev()]);
    lemma_run_one(c, nack_ev());
    assert(evs.last() == stop_ev());
    lemma_run_append(c, seq![nack_ev()], seq![stop_ev()]);
    assert(evs =~= seq![nack_ev()] + seq![stop_ev()]);
    lemma_run_one(c, stop_ev());
    assert(run_tx(c, evs) =~= Seq::<u8>::empty());
}

/// A peer that acknowledges k of L bytes (0 < k < L) and then refuses:
/// over the run — k transmit events, the NACK, the stop the hardware
/// generates — exactly the first k programmed bytes went out, and the
/// outcome is `IncorrectFrameSize(k)`.
pub proof fn lemma_nack_mid_frame(c: Core, k: nat)
    requires
        core_wf(c),
        c.index == 0,
        c.framed,
        0 < k < c.length,
    ensures
        run_tx(c, Seq::new(k, |i: int| tx_ev()) + seq![nack_ev(), stop_ev()]) == c.data.subrange(
            0,
            k as int,
        ),
        run_status(c, Seq::new(k, |i: int| tx_ev()) + seq![nack_ev(), stop_ev()])
            == SpecStatus::Failed(Error::IncorrectFrameSize(k as usize)),
{
    let txs = Seq::new(k, |i: int| tx_ev());
    let evs = txs + seq![nack_ev(), stop_ev()];
    lemma_tx_run(c, k);
    let mid = run_state(c, txs);
    lemma_run_append(c, txs, seq![nack_ev(), stop_ev()]);
    assert(spec_classify(nack_ev()) == Flag::Nack);
    assert(spec_classify(stop_ev()) == Flag::Stop);
    assert(step_state(mid, nack_ev()) == mid);
    assert(evs.drop_last() =~= txs + seq![nack_ev()]);
    lemma_run_append(c, txs, seq![nack_ev()]);
    lemma_run_one(mid, nack_ev());
    assert(evs.last() == stop_ev());
    assert(step_status(mid, stop_ev()) == SpecStatus::Failed(
        Error::IncorrectFrameSize(k as usize),
    ));
    lemma_run_append(mid, seq![nack_ev()], seq![stop_ev()]);
    assert(seq![nack_ev(), stop_ev()] =~= seq![nack_ev()] + seq![stop_ev()]);
    lemma_run_one(mid, stop_ev());
    assert(run_tx(mid, seq![nack_ev(), stop_ev()]) =~= Seq::<u8>::empty());
    assert(run_tx(c, evs) =~= c.data.subrange(0, k as int));
}

/// How many forced resets a run of watchdog ticks performs.
pub open spec fn wd_resets(c: Core, n: nat) -> int
    decreases n,
{
    if n == 0 {
        0
    } else {
        (if wd_fires(c) {
            1int
        } else {
            0int
        }) + wd_resets(wd_step(c), (n - 1) as nat)
    }
}

/// The state after a run of watchdog ticks.
pub open spec fn wd_run(c: Core, n: nat) -> Core
    decreases n,
{
    if n == 0 {
        c
    } else {
        wd_run(wd_step(c), (n - 1) as nat)
    }
}

/// A disarmed watchdog stays disarmed and never fires.
proof fn lemma_wd_disarmed(c: Core, n: nat)
    requires
        c.watchdog == 0,
    ensures
        wd_run(c, n) == c,
        wd_resets(c, n) == 0,
    decreases n,
{
    if n > 0 {
        assert(wd_step(c) == c);
        lemma_wd_disarmed(c, (n - 1) as nat);
    }
}

/// An armed watchdog counts down, fires exactly once when it runs out,
/// and then stays disarmed.
proof fn lemma_wd_armed(c: Core, n: nat)
    requires
        1 <= c.watchdog,
    ensures
        n < c.watchdog ==> wd_resets(c, n) == 0 && wd_run(c, n) == (Core {
            watchdog: (c.watchdog - n) as u16,
            ..c
        }),
        n >= c.watchdog ==> wd_resets(c, n) == 1 && wd_run(c, n) == (Core {
            watchdog: 0,
            errors: bumped(c.errors),
            busy: false,
            ..c
        }),
    decreases n,
{
    if n == 0 {
    } else if c.watchdog == 1 {
        let c1 = wd_step(c);
        assert(c1 == (Core { watchdog: 0, errors: bumped(c.errors), busy: false, ..c }));
        lemma_wd_disarmed(c1, (n - 1) as nat);
    } else {
        let c1 = wd_step(c);
        assert(c1 == (Core { watchdog: (c.watchdog - 1) as u16, ..c }));
        lemma_wd_armed(c1, (n - 1) as nat);
    }
}

/// Watchdog: armed to 10, ten or more ticks with no intervening
/// completion perform exactly one forced reset and add exactly one
/// error; fewer than ten perform none, and ticks past the tenth add
/// nothing more until the watchdog is rearmed.
pub proof fn lemma_watchdog_fires_once(c: Core, n: nat)
    requires
        c.watchdog == 10,
    ensures
        n < 10 ==> wd_resets(c, n) == 0 && wd_run(c, n).errors == c.errors,
        n >= 10 ==> wd_resets(c, n) == 1 && wd_run(c, n).errors == bumped(c.errors) && wd_run(
            c,
            n,
        ).watchdog == 0,
{
    lemma_wd_armed(c, n);
}

/// The error counter reads out once: the read hands back the
/// accumulated count and leaves zero, so a second read with nothing in
/// between hands back zero and changes nothing.
pub proof fn lemma_errors_reset_idempotent(c: Core)
    ensures
        (Core { errors: 0, ..c }).errors == 0,
        (Core { errors: 0, ..(Core { errors: 0, ..c }) }) == (Core { errors: 0, ..c }),
{
}

/// When a peer addresses this device to write to it, one advance step
/// arms the watchdog and programs a maximum-length receive — byte
/// counter at the buffer's capacity, reload mode, clock stretch
/// released — with no further caller action.
pub proof fn lemma_address_match_auto_receive(c: Core, code: u8)
    requires
        core_wf(c),
        code < 128,
    ensures
        step_effect(c, addr_ev(code, false)) == Effect::SlaveAcceptReceive(255),
        step_state(c, addr_ev(code, false)) == (Core {
            address: code as u16,
            watchdog: 10,
            busy: true,
            length: 255,
            index: 0,
            framed: false,
            ..c
        }),
        step_status(c, addr_ev(code, false)) == SpecStatus::Addressed(
            code as u16,
            I2cDirection::MasterWriteSlaveRead,
        ),
{
    assert(spec_classify(addr_ev(code, false)) == Flag::AddressMatch);
}

} // verus!

