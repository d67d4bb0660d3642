//! Tests of the blocking I2C driver, spun against a scripted peer.

use stm32c0xx_hal::i2c::config::Config;
use stm32c0xx_hal::i2c::nonblocking::I2c;
use stm32c0xx_hal::i2c::{Effect, Error, I2cDirection, Instance, IsrEvent};

/// A scripted peer: hands out a fixed sequence of status snapshots and
/// records every register action the driver asks for.
struct SimBus {
    script: Vec<IsrEvent>,
    next: usize,
    applied: Vec<Effect>,
}

impl SimBus {
    fn new(script: Vec<IsrEvent>) -> SimBus {
        SimBus { script, next: 0, applied: Vec::new() }
    }

    /// The bytes the driver put on the wire, in order.
    fn wire_bytes(&self) -> Vec<u8> {
        let mut out = Vec::new();
        for eff in &self.applied {
            if let Effect::WriteTx(b) = eff {
                out.push(*b);
            }
        }
        out
    }
}

impl Instance for SimBus {
    fn poll_event(&mut self) -> IsrEvent {
        let ev = if self.next < self.script.len() {
            self.script[self.next]
        } else {
            IsrEvent::idle()
        };
        self.next += 1;
        ev
    }

    fn apply(&mut self, effect: &Effect) {
        self.applied.push(*effect);
    }
}

fn tx_ev() -> IsrEvent {
    let mut ev = IsrEvent::idle();
    ev.txis = true;
    ev
}

fn rx_ev(b: u8) -> IsrEvent {
    let mut ev = IsrEvent::idle();
    ev.rxne = true;
    ev.rxdata = b;
    ev
}

fn stop_ev() -> IsrEvent {
    let mut ev = IsrEvent::idle();
    ev.stopf = true;
    ev
}

fn nack_ev() -> IsrEvent {
    let mut ev = IsrEvent::idle();
    ev.nackf = true;
    ev
}

fn tc_ev() -> IsrEvent {
    let mut ev = IsrEvent::idle();
    ev.tc = true;
    ev
}

fn addr_ev(code: u8, dir: bool) -> IsrEvent {
    let mut ev = IsrEvent::idle();
    ev.addr = true;
    ev.addcode = code;
    ev.dir = dir;
    ev
}

#[test]
fn blocking_write_full_frame() {
    // An acknowledged write of L bytes succeeds and puts exactly the L
    // input bytes on the wire, in order.
    let mut i2c = I2c::new(Config::new(0));
    let data = [10u8, 20, 30, 40, 50];
    let mut script = vec![IsrEvent::idle()];
    for _ in 0..5 {
        script.push(tx_ev());
    }
    script.push(stop_ev());
    let mut bus = SimBus::new(script);
    assert_eq!(i2c.write(&mut bus, 0x48, &data), Ok(()));
    assert_eq!(bus.wire_bytes(), vec![10, 20, 30, 40, 50]);
}

#[test]
fn blocking_write_nack_at_address() {
    // The peer refuses the address: Nack, zero bytes transferred.
    let mut i2c = I2c::new(Config::new(0));
    let data = [1u8, 2, 3];
    let mut bus = SimBus::new(vec![nack_ev(), stop_ev()]);
    assert_eq!(i2c.write(&mut bus, 0x48, &data), Err(Error::Nack));
    assert_eq!(bus.wire_bytes(), Vec::<u8>::new());
}

#[test]
fn blocking_write_nack_mid_frame() {
    // The peer takes two of four bytes: IncorrectFrameSize(2).
    let mut i2c = I2c::new(Config::new(0));
    let data = [1u8, 2, 3, 4];
    let mut bus = SimBus::new(vec![tx_ev(), tx_ev(), nack_ev(), stop_ev()]);
    assert_eq!(
        i2c.write(&mut bus, 0x48, &data),
        Err(Error::IncorrectFrameSize(2))
    );
    assert_eq!(bus.wire_bytes(), vec![1, 2]);
}

#[test]
fn blocking_read_full_frame() {
    // A served read of L bytes fills the caller's buffer with exactly
    // the received bytes, in order.
    let mut i2c = I2c::new(Config::new(0));
    let mut buffer = vec![0u8; 4];
    let script = vec![rx_ev(0xC0), rx_ev(0xFF), rx_ev(0xEE), rx_ev(0x01), stop_ev()];
    let mut bus = SimBus::new(script);
    assert_eq!(i2c.read(&mut bus, 0x21, &mut buffer), Ok(()));
    assert_eq!(buffer, vec![0xC0, 0xFF, 0xEE, 0x01]);
}

#[test]
fn blocking_read_short_is_error() {
    let mut i2c = I2c::new(Config::new(0));
    let mut buffer = vec![0u8; 4];
    let mut bus = SimBus::new(vec![rx_ev(0xAA), stop_ev()]);
    assert_eq!(
        i2c.read(&mut bus, 0x21, &mut buffer),
        Err(Error::IncorrectFrameSize(1))
    );
}

#[test]
fn blocking_write_then_read() {
    // The write phase completes fully before any read byte; the final
    // buffer holds only the read bytes.
    let mut i2c = I2c::new(Config::new(0));
    let out = [0x0Eu8, 0x01];
    let mut buffer = vec![0u8; 3];
    let script = vec![
        tx_ev(),
        tx_ev(),
        tc_ev(),
        rx_ev(0x61),
        rx_ev(0x62),
        rx_ev(0x63),
        stop_ev(),
    ];
    let mut bus = SimBus::new(script);
    assert_eq!(i2c.write_then_read(&mut bus, 0x1D, &out, &mut buffer), Ok(()));
    assert_eq!(buffer, vec![0x61, 0x62, 0x63]);
    // The write phase went out before the read phase was programmed.
    assert_eq!(bus.wire_bytes(), vec![0x0E, 0x01]);
    let boundary = bus
        .applied
        .iter()
        .position(|e| matches!(e, Effect::ProgramCr2(c) if c.rd_wrn))
        .expect("the read phase was programmed");
    let last_tx = bus
        .applied
        .iter()
        .rposition(|e| matches!(e, Effect::WriteTx(_)))
        .expect("the write phase put bytes out");
    assert!(last_tx < boundary);
}

#[test]
fn blocking_slave_wait_addressed_and_read() {
    // A master writes five bytes to this device.
    let mut i2c = I2c::new(Config::new(0).slave_address(0x2B));
    let script = vec![
        IsrEvent::idle(),
        addr_ev(0x2B, false),
        rx_ev(11),
        rx_ev(12),
        rx_ev(13),
        rx_ev(14),
        rx_ev(15),
        stop_ev(),
    ];
    let mut bus = SimBus::new(script);
    let (addr, dir) = i2c.slave_wait_addressed(&mut bus).expect("addressed");
    assert_eq!(addr, 0x2B);
    assert_eq!(dir, I2cDirection::MasterWriteSlaveRead);
    // The receive was programmed automatically at the address match.
    assert!(bus.applied.contains(&Effect::SlaveAcceptReceive(255)));
    let mut buffer = vec![0u8; 5];
    assert_eq!(i2c.slave_read(&mut bus, &mut buffer), Ok(()));
    assert_eq!(buffer, vec![11, 12, 13, 14, 15]);
}

#[test]
fn blocking_slave_read_short_frame() {
    // The master stops after three of five expected bytes: the count is
    // reported and the received prefix is handed over, the rest of the
    // buffer untouched.
    let mut i2c = I2c::new(Config::new(0).slave_address(0x2B));
    let script = vec![
        addr_ev(0x2B, false),
        rx_ev(1),
        rx_ev(2),
        rx_ev(3),
        stop_ev(),
    ];
    let mut bus = SimBus::new(script);
    i2c.slave_wait_addressed(&mut bus).expect("addressed");
    let mut buffer = vec![9u8; 5];
    assert_eq!(
        i2c.slave_read(&mut bus, &mut buffer),
        Err(Error::IncorrectFrameSize(3))
    );
    assert_eq!(buffer, vec![1, 2, 3, 9, 9]);
}

#[test]
fn blocking_slave_read_overlong_frame() {
    // The master sends seven bytes where the caller has room for five:
    // the buffer takes its fill and the report is one past its length.
    let mut i2c = I2c::new(Config::new(0).slave_address(0x2B));
    let script = vec![
        addr_ev(0x2B, false),
        rx_ev(1),
        rx_ev(2),
        rx_ev(3),
        rx_ev(4),
        rx_ev(5),
        rx_ev(6),
        rx_ev(7),
        stop_ev(),
    ];
    let mut bus = SimBus::new(script);
    i2c.slave_wait_addressed(&mut bus).expect("addressed");
    let mut buffer = vec![0u8; 5];
    assert_eq!(
        i2c.slave_read(&mut bus, &mut buffer),
        Err(Error::IncorrectFrameSize(6))
    );
    assert_eq!(buffer, vec![1, 2, 3, 4, 5]);
}

/// Slave-side code written against the blocking trait, generic over the
/// driver.
fn serve_one_frame<S: stm32c0xx_hal::i2c::blocking::I2cSlave, B: Instance>(
    slave: &mut S,
    bus: &mut B,
    buffer: &mut Vec<u8>,
) -> Result<(), Error> {
    slave.slave_wait_addressed(bus)?;
    slave.slave_read(bus, buffer)
}

#[test]
fn blocking_slave_trait_serves_generically() {
    let mut i2c = I2c::new(Config::new(0).slave_address(0x2B));
    let script = vec![addr_ev(0x2B, false), rx_ev(8), rx_ev(9), stop_ev()];
    let mut bus = SimBus::new(script);
    let mut buffer = vec![0u8; 2];
    assert_eq!(serve_one_frame(&mut i2c, &mut bus, &mut buffer), Ok(()));
    assert_eq!(buffer, vec![8, 9]);
}

#[test]
fn blocking_slave_write_full_frame() {
    // A master reads two bytes from this device.
    let mut i2c = I2c::new(Config::new(0).slave_address(0x2B));
    let script = vec![addr_ev(0x2B, true), tx_ev(), tx_ev(), stop_ev()];
    let mut bus = SimBus::new(script);
    let (_, dir) = i2c.slave_wait_addressed(&mut bus).expect("addressed");
    assert_eq!(dir, I2cDirection::MasterReadSlaveWrite);
    assert_eq!(i2c.slave_write_blocking(&mut bus, &[0x77u8, 0x88]), Ok(()));
    assert_eq!(bus.wire_bytes(), vec![0x77, 0x88]);
}

#[test]
fn blocking_slave_write_master_takes_fewer() {
    // The master stops after one of three offered bytes.
    let mut i2c = I2c::new(Config::new(0).slave_address(0x2B));
    let script = vec![addr_ev(0x2B, true), tx_ev(), stop_ev()];
    let mut bus = SimBus::new(script);
    i2c.slave_wait_addressed(&mut bus).expect("addressed");
    assert_eq!(
        i2c.slave_write_blocking(&mut bus, &[1u8, 2, 3]),
        Err(Error::IncorrectFrameSize(1))
    );
}

#[test]
fn blocking_write_fatal_bus_error() {
    let mut i2c = I2c::new(Config::new(0));
    let mut berr = IsrEvent::idle();
    berr.berr = true;
    let mut bus = SimBus::new(vec![tx_ev(), berr]);
    let data = [1u8, 2];
    assert_eq!(i2c.write(&mut bus, 0x48, &data), Err(Error::BusError));
    assert!(bus.applied.contains(&Effect::ClearBusError));
}

#[test]
fn slave_addressed_reports_without_consuming() {
    let i2c = I2c::new(Config::new(0).slave_address(0x19));
    assert_eq!(i2c.slave_addressed(&IsrEvent::idle()), Ok(None));
    let hit = i2c.slave_addressed(&addr_ev(0x19, true));
    assert_eq!(hit, Ok(Some((0x19, I2cDirection::MasterReadSlaveWrite))));
}

#[test]
fn blocking_write_smallest_frame() {
    // The smallest frame the contract allows: one byte.
    let mut i2c = I2c::new(Config::new(0));
    let data = [0xABu8];
    let mut bus = SimBus::new(vec![tx_ev(), stop_ev()]);
    assert_eq!(i2c.write(&mut bus, 0x01, &data), Ok(()));
    assert_eq!(bus.wire_bytes(), vec![0xAB]);
}

#[test]
fn blocking_write_largest_frame() {
    // The largest frame the 8-bit hardware length field can carry:
    // 255 bytes.
    let mut i2c = I2c::new(Config::new(0));
    let mut data = Vec::new();
    let mut script = Vec::new();
    for i in 0..255u32 {
        data.push((i % 251) as u8);
        script.push(tx_ev());
    }
    script.push(stop_ev());
    let mut bus = SimBus::new(script);
    assert_eq!(i2c.write(&mut bus, 0x7F, &data), Ok(()));
    assert_eq!(bus.wire_bytes(), data);
}

#[test]
fn blocking_read_largest_frame() {
    let mut i2c = I2c::new(Config::new(0));
    let mut buffer = vec![0u8; 255];
    let mut script = Vec::new();
    let mut expected = Vec::new();
    for i in 0..255u32 {
        let b = (255 - i % 256) as u8;
        expected.push(b);
        script.push(rx_ev(b));
    }
    script.push(stop_ev());
    let mut bus = SimBus::new(script);
    assert_eq!(i2c.read(&mut bus, 0x7F, &mut buffer), Ok(()));
    assert_eq!(buffer, expected);
}
