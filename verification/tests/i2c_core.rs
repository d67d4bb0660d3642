//! Tests of the I2C state machine: one advance step per hardware event.

use stm32c0xx_hal::i2c::config::Config;
use stm32c0xx_hal::i2c::nonblocking::{I2c, I2cSlave};
use stm32c0xx_hal::i2c::{
    classify, Cr2, Effect, Error, Event, Flag, I2cDirection, I2cResult, IsrEvent, StepStatus,
};

fn tx_ev() -> IsrEvent {
    let mut ev = IsrEvent::idle();
    ev.txis = true;
    ev
}

fn rx_ev(b: u8) -> IsrEvent {
    let mut ev = IsrEvent::idle();
    ev.rxne = true;
    ev.rxdata = b;
    ev
}

fn stop_ev() -> IsrEvent {
    let mut ev = IsrEvent::idle();
    ev.stopf = true;
    ev
}

fn nack_ev() -> IsrEvent {
    let mut ev = IsrEvent::idle();
    ev.nackf = true;
    ev
}

fn tc_ev() -> IsrEvent {
    let mut ev = IsrEvent::idle();
    ev.tc = true;
    ev
}

fn addr_ev(code: u8, dir: bool) -> IsrEvent {
    let mut ev = IsrEvent::idle();
    ev.addr = true;
    ev.addcode = code;
    ev.dir = dir;
    ev
}

#[test]
fn classifier_orders_fatal_first() {
    let mut ev = tx_ev();
    ev.berr = true;
    ev.arlo = true;
    assert_eq!(classify(&ev), Flag::FatalBusError);
    ev.berr = false;
    assert_eq!(classify(&ev), Flag::FatalArbitrationLost);
    ev.arlo = false;
    assert_eq!(classify(&ev), Flag::TxReady);
}

#[test]
fn classifier_orders_nack_before_data() {
    let mut ev = tx_ev();
    ev.nackf = true;
    ev.rxne = true;
    assert_eq!(classify(&ev), Flag::Nack);
}

#[test]
fn classifier_idle_when_nothing_set() {
    assert_eq!(classify(&IsrEvent::idle()), Flag::Idle);
}

#[test]
fn master_write_programs_control_word() {
    let mut i2c = I2c::new(Config::new(0x2000_090E));
    let data = [0x11u8, 0x22, 0x33];
    let eff = i2c.master_write(0x50, &data).expect("bus is idle");
    assert_eq!(
        eff,
        Effect::ProgramCr2(Cr2 {
            start: true,
            nbytes: 3,
            sadd: 0xA0,
            rd_wrn: false,
            autoend: true,
            reload: false,
            add10: false,
        })
    );
    assert_eq!(i2c.length, 3);
    assert_eq!(i2c.index, 0);
    assert_eq!(i2c.watchdog, 10);
    assert!(i2c.busy);
    // A second start while the transaction is open is refused.
    assert!(i2c.master_write(0x51, &data).is_none());
}

#[test]
fn write_moves_every_byte_in_order() {
    // A successful write of L bytes hands exactly the L input bytes to
    // the wire, in order, and ends in success carrying them.
    let mut i2c = I2c::new(Config::new(0));
    let data = [5u8, 6, 7, 8];
    i2c.master_write(0x22, &data).expect("bus is idle");
    let mut sent = Vec::new();
    for _ in 0..4 {
        let (eff, status) = i2c.check_isr_flags(&tx_ev());
        match eff {
            Effect::WriteTx(b) => sent.push(b),
            other => panic!("expected a transmit action, got {:?}", other),
        }
        assert_eq!(status, StepStatus::Pending);
    }
    assert_eq!(sent, vec![5, 6, 7, 8]);
    let (eff, status) = i2c.check_isr_flags(&stop_ev());
    assert_eq!(eff, Effect::ClearStop);
    assert_eq!(
        status,
        StepStatus::Ready(I2cResult::Data(
            0x22,
            I2cDirection::MasterWriteSlaveRead,
            vec![5, 6, 7, 8]
        ))
    );
    assert!(!i2c.busy);
    assert_eq!(i2c.watchdog, 0);
}

#[test]
fn read_populates_every_byte_in_order() {
    // A successful read of L bytes stores exactly the L received bytes,
    // and the data accessor exposes exactly those L bytes.
    let mut i2c = I2c::new(Config::new(0));
    i2c.master_read(0x3A, 3).expect("bus is idle");
    for (i, b) in [0xDEu8, 0xAD, 0xBE].iter().enumerate() {
        let (eff, status) = i2c.check_isr_flags(&rx_ev(*b));
        assert_eq!(eff, Effect::NoOp);
        assert_eq!(status, StepStatus::Pending);
        assert_eq!(i2c.index, i + 1);
    }
    let (_, status) = i2c.check_isr_flags(&stop_ev());
    assert_eq!(
        status,
        StepStatus::Ready(I2cResult::Data(
            0x3A,
            I2cDirection::MasterWriteSlaveRead,
            vec![0xDE, 0xAD, 0xBE]
        ))
    );
    assert_eq!(i2c.get_data(), vec![0xDE, 0xAD, 0xBE]);
}

#[test]
fn write_then_read_keeps_phases_apart() {
    // The write phase completes fully, the read phase is programmed
    // only at the transfer-complete boundary, and the final buffer
    // holds only the read bytes.
    let mut i2c = I2c::new(Config::new(0));
    let out = [0xA1u8, 0xA2];
    let eff = i2c.master_write_read(0x44, &out, 3).expect("bus is idle");
    assert_eq!(
        eff,
        Effect::ProgramCr2(Cr2 {
            start: true,
            nbytes: 2,
            sadd: 0x88,
            rd_wrn: false,
            autoend: false,
            reload: false,
            add10: false,
        })
    );
    let (e1, _) = i2c.check_isr_flags(&tx_ev());
    let (e2, _) = i2c.check_isr_flags(&tx_ev());
    assert_eq!(e1, Effect::WriteTx(0xA1));
    assert_eq!(e2, Effect::WriteTx(0xA2));
    // The boundary: the read phase is programmed here, never earlier.
    let (eff, status) = i2c.check_isr_flags(&tc_ev());
    assert_eq!(
        eff,
        Effect::ProgramCr2(Cr2 {
            start: true,
            nbytes: 3,
            sadd: 0x88,
            rd_wrn: true,
            autoend: true,
            reload: false,
            add10: false,
        })
    );
    assert_eq!(status, StepStatus::Pending);
    for b in [1u8, 2, 3] {
        let (_, status) = i2c.check_isr_flags(&rx_ev(b));
        assert_eq!(status, StepStatus::Pending);
    }
    let (_, status) = i2c.check_isr_flags(&stop_ev());
    assert_eq!(
        status,
        StepStatus::Ready(I2cResult::Data(
            0x44,
            I2cDirection::MasterWriteSlaveRead,
            vec![1, 2, 3]
        ))
    );
    // Only the three read bytes are exposed.
    assert_eq!(i2c.get_data(), vec![1, 2, 3]);
}

#[test]
fn nack_at_address_is_nack_not_short_frame() {
    // A peer that refuses the address: zero bytes transferred, result
    // Nack, never IncorrectFrameSize.
    let mut i2c = I2c::new(Config::new(0));
    let data = [1u8, 2, 3, 4, 5];
    i2c.master_write(0x10, &data).expect("bus is idle");
    let (eff, status) = i2c.check_isr_flags(&nack_ev());
    assert_eq!(eff, Effect::ClearNack);
    assert_eq!(status, StepStatus::Pending);
    let (_, status) = i2c.check_isr_flags(&stop_ev());
    assert_eq!(status, StepStatus::Failed(Error::Nack));
    assert_eq!(i2c.index, 0);
}

#[test]
fn nack_mid_frame_is_short_frame_with_count() {
    // A peer that acknowledges k of L bytes: result
    // IncorrectFrameSize(k).
    let mut i2c = I2c::new(Config::new(0));
    let data = [9u8, 8, 7, 6, 5];
    i2c.master_write(0x10, &data).expect("bus is idle");
    let (_, _) = i2c.check_isr_flags(&tx_ev());
    let (_, _) = i2c.check_isr_flags(&tx_ev());
    let (_, status) = i2c.check_isr_flags(&nack_ev());
    assert_eq!(status, StepStatus::Pending);
    let (_, status) = i2c.check_isr_flags(&stop_ev());
    assert_eq!(status, StepStatus::Failed(Error::IncorrectFrameSize(2)));
}

#[test]
fn bus_error_aborts_immediately() {
    let mut i2c = I2c::new(Config::new(0));
    let data = [1u8];
    i2c.master_write(0x10, &data).expect("bus is idle");
    let mut ev = IsrEvent::idle();
    ev.berr = true;
    let (eff, status) = i2c.check_isr_flags(&ev);
    assert_eq!(eff, Effect::ClearBusError);
    assert_eq!(status, StepStatus::Failed(Error::BusError));
    assert_eq!(i2c.get_errors_reset(), 1);
}

#[test]
fn arbitration_loss_aborts_immediately() {
    let mut i2c = I2c::new(Config::new(0));
    let data = [1u8];
    i2c.master_write(0x10, &data).expect("bus is idle");
    let mut ev = IsrEvent::idle();
    ev.arlo = true;
    let (eff, status) = i2c.check_isr_flags(&ev);
    assert_eq!(eff, Effect::ClearArbitrationLost);
    assert_eq!(status, StepStatus::Failed(Error::ArbitrationLost));
}

#[test]
fn address_match_auto_programs_max_receive() {
    // A peer addressing this device for a master-write: the machine
    // latches address and direction and programs a maximum-length
    // receive with no further caller action.
    let mut i2c = I2c::new(Config::new(0).slave_address(0x2A));
    let (eff, status) = i2c.check_isr_flags(&addr_ev(0x2A, false));
    assert_eq!(eff, Effect::SlaveAcceptReceive(255));
    assert_eq!(
        status,
        StepStatus::Ready(I2cResult::Addressed(0x2A, I2cDirection::MasterWriteSlaveRead))
    );
    assert_eq!(i2c.length, 255);
    assert_eq!(i2c.index, 0);
    assert_eq!(i2c.watchdog, 10);
    assert_eq!(i2c.get_address(), 0x2A);
}

#[test]
fn address_match_for_master_read_waits_for_caller() {
    let mut i2c = I2c::new(Config::new(0).slave_address(0x2A));
    let (eff, status) = i2c.check_isr_flags(&addr_ev(0x2A, true));
    assert_eq!(eff, Effect::NoOp);
    assert_eq!(
        status,
        StepStatus::Ready(I2cResult::Addressed(0x2A, I2cDirection::MasterReadSlaveWrite))
    );
    // The caller answers with the bytes the master wants.
    let eff = i2c.slave_write(&[0x55u8, 0x66]);
    assert_eq!(eff, Effect::SlaveBeginTransmit(2));
    let (e1, _) = i2c.check_isr_flags(&tx_ev());
    let (e2, _) = i2c.check_isr_flags(&tx_ev());
    assert_eq!(e1, Effect::WriteTx(0x55));
    assert_eq!(e2, Effect::WriteTx(0x66));
    let mut stop = stop_ev();
    stop.dir = true;
    let (_, status) = i2c.check_isr_flags(&stop);
    assert_eq!(
        status,
        StepStatus::Ready(I2cResult::Data(
            0x2A,
            I2cDirection::MasterReadSlaveWrite,
            vec![0x55, 0x66]
        ))
    );
}

#[test]
fn slave_receive_accepts_any_count() {
    // A slave receive programmed at the address match takes however
    // many bytes the master sends; the stop condition is success with
    // the actual count, not a short-frame error.
    let mut i2c = I2c::new(Config::new(0).slave_address(0x31));
    i2c.check_isr_flags(&addr_ev(0x31, false));
    for b in [1u8, 2, 3, 4, 5, 6, 7] {
        i2c.check_isr_flags(&rx_ev(b));
    }
    let (_, status) = i2c.check_isr_flags(&stop_ev());
    assert_eq!(
        status,
        StepStatus::Ready(I2cResult::Data(
            0x31,
            I2cDirection::MasterWriteSlaveRead,
            vec![1, 2, 3, 4, 5, 6, 7]
        ))
    );
}

#[test]
fn reload_boundary_refuses_next_byte() {
    let mut i2c = I2c::new(Config::new(0).slave_address(0x31));
    let mut ev = IsrEvent::idle();
    ev.tcr = true;
    let (eff, status) = i2c.check_isr_flags(&ev);
    assert_eq!(eff, Effect::NackReload);
    assert_eq!(status, StepStatus::Pending);
}

#[test]
fn watchdog_fires_exactly_once_after_ten_ticks() {
    // Armed to 10, ten invocations with no intervening completion give
    // exactly one forced reset and one error; further ticks give none.
    let mut i2c = I2c::new(Config::new(0));
    let data = [1u8];
    i2c.master_write(0x10, &data).expect("bus is idle");
    assert_eq!(i2c.watchdog, 10);
    let mut resets = 0;
    for _ in 0..10 {
        if i2c.execute_watchdog() {
            resets += 1;
        }
    }
    assert_eq!(resets, 1);
    assert_eq!(i2c.watchdog, 0);
    assert_eq!(i2c.get_errors_reset(), 1);
    for _ in 0..5 {
        assert!(!i2c.execute_watchdog());
    }
    assert_eq!(i2c.get_errors_reset(), 0);
}

#[test]
fn watchdog_disarmed_by_stop() {
    let mut i2c = I2c::new(Config::new(0));
    let data = [1u8];
    i2c.master_write(0x10, &data).expect("bus is idle");
    i2c.check_isr_flags(&tx_ev());
    i2c.check_isr_flags(&stop_ev());
    assert_eq!(i2c.watchdog, 0);
    for _ in 0..20 {
        assert!(!i2c.execute_watchdog());
    }
}

#[test]
fn errors_reset_reads_out_once() {
    // The accumulated count comes out once, then zero.
    let mut i2c = I2c::new(Config::new(0));
    let data = [1u8];
    i2c.master_write(0x10, &data).expect("bus is idle");
    i2c.check_isr_flags(&nack_ev());
    i2c.check_isr_flags(&stop_ev());
    // One more failed transaction accumulates a second error.
    i2c.master_write(0x10, &data).expect("bus is idle");
    i2c.check_isr_flags(&nack_ev());
    i2c.check_isr_flags(&stop_ev());
    assert_eq!(i2c.get_errors_reset(), 2);
    assert_eq!(i2c.get_errors_reset(), 0);
}

#[test]
fn new_programs_configuration_registers() {
    let cfg = Config::new(0x10805E89)
        .slave_address(0x40)
        .digital_filter(3)
        .analog_filter(false);
    let i2c = I2c::new(cfg);
    assert_eq!(i2c.timingr, 0x10805E89);
    assert!(i2c.cr1.pe);
    assert!(i2c.cr1.sbc);
    assert_eq!(i2c.cr1.dnf, 3);
    assert!(i2c.cr1.anfoff);
    assert!(i2c.oar1.oa1en);
    assert_eq!(i2c.oar1.oa1, 0x40);
    assert!(!i2c.oar2.oa2en);
    let back = i2c.release();
    assert_eq!(back, cfg);
}

#[test]
fn listen_and_unlisten_toggle_interrupt_bits() {
    let mut i2c = I2c::new(Config::new(0));
    i2c.listen(Event::AddressMatch);
    assert!(i2c.cr1.addrie);
    i2c.listen(Event::Rxne);
    assert!(i2c.cr1.rxie);
    i2c.unlisten(Event::AddressMatch);
    assert!(!i2c.cr1.addrie);
    i2c.listen_all();
    assert!(i2c.cr1.txie && i2c.cr1.stopie && i2c.cr1.errie && i2c.cr1.tcie && i2c.cr1.nackie);
    i2c.unlisten_all();
    assert!(!i2c.cr1.txie && !i2c.cr1.stopie && !i2c.cr1.errie);
    assert_eq!(i2c.clear_irq(Event::AddressMatch), Effect::ClearAddress);
    assert_eq!(i2c.clear_irq(Event::Rxne), Effect::NoOp);
}

/// Slave-side code written against the non-blocking trait, generic
/// over the driver.
fn offered_address<S: stm32c0xx_hal::i2c::nonblocking::I2cSlave>(slave: &S) -> u16 {
    slave.get_address()
}

#[test]
fn nonblocking_slave_trait_exposes_state() {
    let mut i2c = I2c::new(Config::new(0));
    I2cSlave::set_address(&mut i2c, 0x29);
    assert!(i2c.oar1.oa1en);
    i2c.check_isr_flags(&addr_ev(0x29, true));
    assert_eq!(offered_address(&i2c), 0x29);
    let eff = I2cSlave::slave_write(&mut i2c, &[0x42u8]);
    assert_eq!(eff, Effect::SlaveBeginTransmit(1));
}

#[test]
fn slave_controls() {
    let mut i2c = I2c::new(Config::new(0));
    i2c.slave_sbc(true);
    assert!(i2c.cr1.sbc);
    i2c.slave_sbc(false);
    assert!(!i2c.cr1.sbc);
    i2c.set_address(0x17);
    assert!(i2c.oar1.oa1en);
    assert_eq!(i2c.oar1.oa1, 0x17);
    assert!(!i2c.oar1.oa1mode);
}
