//! Tests of the register-model drivers around the bus controller.

use stm32c0xx_hal::exti::{Event as ExtiEvent, Exti};
use stm32c0xx_hal::gpio::SignalEdge;
use stm32c0xx_hal::power::{LowPowerMode, Power, PowerMode, PwrRegs, WakeUp};
use stm32c0xx_hal::rcc::{Config as RccConfig, Prescaler, RTCSrc, Rcc, SysClockSrc};
use stm32c0xx_hal::rtc::{Alarm, Event as RtcEvent, Rtc, RtcCalibrationFrequency};
use stm32c0xx_hal::serial::usart::{Event as SerialEvent, Serial, UsartIsr};
use stm32c0xx_hal::serial::{Config as SerialConfig, WordLength};
use stm32c0xx_hal::spi::{Error as SpiError, Mode, Phase, Polarity, Spi, SpiSr};
use stm32c0xx_hal::time::{Date, Hertz, MicroSecond, Time};
use stm32c0xx_hal::timer::opm::Opm;
use stm32c0xx_hal::timer::pwm::Pwm;
use stm32c0xx_hal::timer::qei::Qei;

fn pwr_at_reset() -> PwrRegs {
    PwrRegs {
        lpr: false,
        lpms: 0,
        ulpen: false,
        ewup1: false,
        ewup2: false,
        ewup3: false,
        ewup4: false,
        ewup6: false,
        eiwul: false,
        wp1: false,
        wp2: false,
        wp3: false,
        wp4: false,
        wp6: false,
        sbf: false,
        wuf1: false,
        wuf2: false,
        wuf3: false,
        wuf4: false,
        wuf6: false,
    }
}

#[test]
fn rcc_freeze_hsi_divided() {
    // 48 MHz internal oscillator divided by four, buses undivided.
    let rcc = Rcc::new().freeze(RccConfig::hsi(Prescaler::Div4));
    assert_eq!(rcc.clocks.sys_clk, Hertz(12_000_000));
    assert_eq!(rcc.clocks.ahb_clk, Hertz(12_000_000));
    assert_eq!(rcc.clocks.apb_clk, Hertz(12_000_000));
    assert_eq!(rcc.clocks.apb_tim_clk, Hertz(12_000_000));
    assert_eq!(rcc.clocks.core_clk, Hertz(1_500_000));
    assert_eq!(rcc.regs.sw, 0);
    assert_eq!(rcc.regs.hsidiv, 2);
    assert!(rcc.regs.hsion);
}

#[test]
fn rcc_freeze_hse_with_prescalers() {
    let cfg = RccConfig::hse(Hertz(16_000_000))
        .ahb_psc(Prescaler::Div2)
        .apb_psc(Prescaler::Div4);
    let rcc = Rcc::new().freeze(cfg);
    assert_eq!(rcc.clocks.sys_clk, Hertz(16_000_000));
    assert_eq!(rcc.clocks.ahb_clk, Hertz(8_000_000));
    assert_eq!(rcc.clocks.apb_clk, Hertz(2_000_000));
    // The timer clock runs at half the APB division.
    assert_eq!(rcc.clocks.apb_tim_clk, Hertz(4_000_000));
    assert_eq!(rcc.regs.sw, 1);
    assert_eq!(rcc.regs.hpre, 8);
    assert_eq!(rcc.regs.ppre, 5);
    assert!(rcc.regs.hseon);
    assert!(!rcc.regs.hsebyp);
}

#[test]
fn rcc_freeze_lsi() {
    let rcc = Rcc::new().freeze(RccConfig::new(SysClockSrc::LSI));
    assert_eq!(rcc.clocks.sys_clk, Hertz(32_768));
    assert_eq!(rcc.regs.sw, 3);
    assert!(rcc.regs.lsion);
}

#[test]
fn rcc_enable_rtc_selects_source() {
    let mut rcc = Rcc::new();
    rcc.enable_rtc(RTCSrc::LSI);
    assert!(rcc.regs.rtcen && rcc.regs.pwren && rcc.regs.rtcapben);
    assert_eq!(rcc.regs.rtcsel, 2);
    assert!(rcc.regs.lsion);
}

#[test]
fn exti_listen_and_pend_bits() {
    let mut exti = Exti::new();
    exti.listen(ExtiEvent::GPIO3, SignalEdge::Rising);
    assert_eq!(exti.imr1, 1 << 3);
    assert_eq!(exti.rtsr1, 1 << 3);
    assert_eq!(exti.ftsr1, 0);
    exti.listen(ExtiEvent::GPIO5, SignalEdge::All);
    assert_eq!(exti.imr1, (1 << 3) | (1 << 5));
    assert_eq!(exti.ftsr1, 1 << 5);
    // A pending rising edge on line 3.
    exti.rpr1 = 1 << 3;
    assert!(exti.is_pending(ExtiEvent::GPIO3, SignalEdge::Rising));
    assert!(!exti.is_pending(ExtiEvent::GPIO3, SignalEdge::Falling));
    exti.unpend(ExtiEvent::GPIO3);
    assert!(!exti.is_pending(ExtiEvent::GPIO3, SignalEdge::Rising));
    exti.unlisten(ExtiEvent::GPIO3);
    assert_eq!(exti.imr1, 1 << 5);
    assert_eq!(exti.rtsr1, 1 << 5);
    // Lines without edge triggers only route the interrupt.
    exti.wakeup(ExtiEvent::I2C1);
    assert_eq!(exti.imr1, (1 << 5) | (1 << 23));
    assert!(!exti.is_pending(ExtiEvent::I2C1, SignalEdge::Rising));
}

#[test]
fn exti_event_codes_round_trip() {
    for n in 0..=15u8 {
        assert_eq!(ExtiEvent::from_code(n).line(), n);
    }
    assert_eq!(ExtiEvent::RTC.line(), 19);
    assert_eq!(ExtiEvent::LSE_CSS.line(), 31);
}

#[test]
fn power_wakeup_lanes() {
    let mut rcc = Rcc::new();
    let mut power = Power::new(pwr_at_reset(), &mut rcc);
    assert!(rcc.regs.pwren);
    power.enable_wakeup_lane(WakeUp::Line2, SignalEdge::Falling);
    assert!(power.rb.ewup2);
    assert!(power.rb.wp2);
    power.enable_wakeup_lane(WakeUp::Line4, SignalEdge::Rising);
    assert!(power.rb.ewup4);
    assert!(!power.rb.wp4);
    power.disable_wakeup_lane(WakeUp::Line2);
    assert!(!power.rb.ewup2);
    power.rb.wuf4 = true;
    assert!(power.get_wakeup_flag(WakeUp::Line4));
    power.clear_wakeup_flag(WakeUp::Line4);
    assert!(!power.get_wakeup_flag(WakeUp::Line4));
    power.rb.sbf = true;
    assert!(power.get_standby_flag());
    power.clear_standby_flag();
    assert!(!power.get_standby_flag());
}

#[test]
fn power_mode_selection() {
    let mut rcc = Rcc::new();
    let mut power = Power::new(pwr_at_reset(), &mut rcc);
    power.set_mode(PowerMode::LowPower(LowPowerMode::Standby));
    assert!(power.rb.lpr);
    assert!(!power.rb.ulpen);
    assert_eq!(power.rb.lpms, 3);
    power.set_mode(PowerMode::UltraLowPower(LowPowerMode::Shutdown));
    assert!(power.rb.ulpen);
    assert_eq!(power.rb.lpms, 7);
    power.set_mode(PowerMode::Run);
    assert!(!power.rb.lpr);
}

#[test]
fn rtc_time_round_trip() {
    let mut rcc = Rcc::new();
    let mut rtc = Rtc::new(RTCSrc::LSI, &mut rcc);
    rtc.set_time(&Time::new(23, 59, 41, false));
    assert_eq!(rtc.tr.ht, 2);
    assert_eq!(rtc.tr.hu, 3);
    assert_eq!(rtc.tr.mnt, 5);
    assert_eq!(rtc.tr.mnu, 9);
    assert_eq!(rtc.tr.st, 4);
    assert_eq!(rtc.tr.su, 1);
    let back = rtc.get_time();
    assert_eq!(back.hours, 23);
    assert_eq!(back.minutes, 59);
    assert_eq!(back.seconds, 41);
}

#[test]
fn rtc_date_round_trip() {
    let mut rcc = Rcc::new();
    let mut rtc = Rtc::new(RTCSrc::LSI, &mut rcc);
    rtc.set_date(&Date::new(2024, 12, 31));
    assert_eq!(rtc.dr.yt, 5);
    assert_eq!(rtc.dr.yu, 4);
    assert!(rtc.dr.mt);
    assert_eq!(rtc.dr.mu, 2);
    assert_eq!(rtc.dr.dt, 3);
    assert_eq!(rtc.dr.du, 1);
    let back = rtc.get_date();
    assert_eq!(back.year, 2024);
    assert_eq!(back.month, 12);
    assert_eq!(back.day, 31);
}

#[test]
fn rtc_alarm_encoding() {
    let mut rcc = Rcc::new();
    let mut rtc = Rtc::new(RTCSrc::LSI, &mut rcc);
    let alarm = Alarm::new().set_month_day(15).set_hours(7).mask_minutes().set_seconds(30);
    rtc.set_alarm_a(alarm);
    assert!(rtc.cr.alrae);
    assert!(!rtc.alrmar.wdsel);
    assert!(!rtc.alrmar.msk4);
    assert!(!rtc.alrmar.msk3);
    assert!(rtc.alrmar.msk2);
    assert!(!rtc.alrmar.msk1);
    assert_eq!(rtc.alrmar.dt, 1);
    assert_eq!(rtc.alrmar.du, 5);
    assert_eq!(rtc.alrmar.ht, 0);
    assert_eq!(rtc.alrmar.hu, 7);
    assert_eq!(rtc.alrmar.st, 3);
    assert_eq!(rtc.alrmar.su, 0);
}

#[test]
fn rtc_alarm_from_time() {
    let alarm = Alarm::from(Time::new(6, 30, 0, false));
    assert_eq!(alarm.hours, Some(6));
    assert_eq!(alarm.minutes, Some(30));
    assert_eq!(alarm.seconds, Some(0));
    assert_eq!(alarm.day, None);
}

#[test]
fn rtc_alarm_b_and_events() {
    let mut rcc = Rcc::new();
    let mut rtc = Rtc::new(RTCSrc::LSI, &mut rcc);
    rtc.set_alarm_b(Alarm::new().set_seconds(5));
    assert!(rtc.cr.alrbe);
    assert_eq!(rtc.alrmbr.su, 5);
    rtc.listen(RtcEvent::AlarmB);
    assert!(rtc.cr.alrbie);
    rtc.sr.alrbf = true;
    assert!(rtc.is_pending(RtcEvent::AlarmB));
    rtc.unpend(RtcEvent::AlarmB);
    assert!(!rtc.is_pending(RtcEvent::AlarmB));
    rtc.unlisten(RtcEvent::AlarmB);
    assert!(!rtc.cr.alrbie);
}

#[test]
fn rtc_calibration_output() {
    let mut rcc = Rcc::new();
    let mut rtc = Rtc::new(RTCSrc::LSI, &mut rcc);
    rtc.enable_calibration_output(true, RtcCalibrationFrequency::F1Hz);
    assert_eq!(rtc.cr.osel, 0);
    assert!(rtc.cr.out2en);
    assert!(rtc.cr.cosel);
    assert!(rtc.cr.coe);
    rtc.enable_calibration_output(false, RtcCalibrationFrequency::F512Hz);
    assert!(!rtc.cr.out2en);
    assert!(!rtc.cr.cosel);
    assert!(rtc.cr.coe);
}

#[test]
fn spi_divisor_table() {
    let mut rcc = Rcc::new();
    rcc.clocks.apb_clk = Hertz(48_000_000);
    let mode = Mode { polarity: Polarity::IdleLow, phase: Phase::CaptureOnFirstTransition };
    // 48 MHz / 24 MHz = 2 -> divide by 2 (bits 0).
    assert_eq!(Spi::new(mode, Hertz(24_000_000), &rcc).cr1.br, 0);
    // 48 / 10 = 4 -> divide by 8 selection (bits 1).
    assert_eq!(Spi::new(mode, Hertz(10_000_000), &rcc).cr1.br, 1);
    // 48 / 1 = 48 -> bits 5.
    assert_eq!(Spi::new(mode, Hertz(1_000_000), &rcc).cr1.br, 5);
    // 48 / 0.1 = 480 -> bits 7.
    assert_eq!(Spi::new(mode, Hertz(100_000), &rcc).cr1.br, 7);
}

#[test]
fn spi_classifiers() {
    let mut rcc = Rcc::new();
    rcc.clocks.apb_clk = Hertz(48_000_000);
    let mode = Mode { polarity: Polarity::IdleHigh, phase: Phase::CaptureOnSecondTransition };
    let mut spi = Spi::new(mode, Hertz(1_000_000), &rcc);
    assert!(spi.cr1.cpol && spi.cr1.cpha);
    let idle = SpiSr { ovr: false, modf: false, crcerr: false, rxne: false, txe: false };
    assert_eq!(spi.read(&idle, 0), Ok(None));
    let rx = SpiSr { rxne: true, ..idle };
    assert_eq!(spi.read(&rx, 0x42), Ok(Some(0x42)));
    let ovr = SpiSr { ovr: true, ..idle };
    assert_eq!(spi.read(&ovr, 0), Err(SpiError::Overrun));
    let modf = SpiSr { modf: true, ..idle };
    assert_eq!(spi.send(&modf, 1), Err(SpiError::ModeFault));
    let crc = SpiSr { crcerr: true, ..idle };
    assert_eq!(spi.send(&crc, 1), Err(SpiError::Crc));
    let txe = SpiSr { txe: true, ..idle };
    assert_eq!(spi.send(&txe, 0x55), Ok(Some(0x55)));
    spi.data_size(16);
    assert_eq!(spi.cr2.ds, 15);
    spi.half_duplex_enable(true);
    assert!(spi.cr1.bidimode);
}

#[test]
fn serial_configures_baud_divisor() {
    let mut rcc = Rcc::new();
    rcc.clocks.apb_clk = Hertz(48_000_000);
    let cfg = SerialConfig { baudrate: 115_200, ..SerialConfig::default() };
    let serial = Serial::usart(cfg, false, &rcc).expect("valid configuration");
    assert_eq!(serial.brr, 48_000_000 / 115_200);
    assert!(serial.cr1.ue && serial.cr1.te && serial.cr1.re);
    assert!(!serial.cr1.m0 && !serial.cr1.m1);
    assert!(!serial.cr1.pce);
}

#[test]
fn serial_word_length_and_events() {
    let mut rcc = Rcc::new();
    rcc.clocks.apb_clk = Hertz(16_000_000);
    let cfg = SerialConfig { wordlength: WordLength::DataBits7, ..SerialConfig::default() };
    let mut serial = Serial::usart(cfg, true, &rcc).expect("valid configuration");
    assert!(serial.cr1.m0);
    assert!(serial.cr3.dem);
    serial.listen(SerialEvent::Rxne);
    assert!(serial.cr1.rxneie);
    serial.unlisten(SerialEvent::Rxne);
    assert!(!serial.cr1.rxneie);
    assert!(serial.is_pending(1 << 5, SerialEvent::Rxne));
    assert!(!serial.is_pending(0, SerialEvent::Rxne));
    assert_eq!(serial.unpend(SerialEvent::PE), 1);
}

#[test]
fn serial_split_halves_classify() {
    let mut rcc = Rcc::new();
    rcc.clocks.apb_clk = Hertz(16_000_000);
    let serial = Serial::usart(SerialConfig::default(), false, &rcc).expect("valid configuration");
    let (mut tx, mut rx) = serial.split();
    let idle = UsartIsr {
        pe: false,
        fe: false,
        ne: false,
        ore: false,
        rxfne: false,
        txfe: false,
        txft: false,
        rxft: false,
        tc: false,
        rtof: false,
        rdr: 0,
    };
    assert_eq!(rx.read(&idle), Ok(None));
    let got = UsartIsr { rxfne: true, rdr: 0x7E, ..idle };
    assert_eq!(rx.read(&got), Ok(Some(0x7E)));
    let pe = UsartIsr { pe: true, ..idle };
    assert_eq!(rx.read(&pe), Err(stm32c0xx_hal::serial::usart::Error::Parity));
    let fe = UsartIsr { fe: true, ..idle };
    assert_eq!(rx.read(&fe), Err(stm32c0xx_hal::serial::usart::Error::Framing));
    let ne = UsartIsr { ne: true, ..idle };
    assert_eq!(rx.read(&ne), Err(stm32c0xx_hal::serial::usart::Error::Noise));
    let ore = UsartIsr { ore: true, ..idle };
    assert_eq!(rx.read(&ore), Err(stm32c0xx_hal::serial::usart::Error::Overrun));
    let free = UsartIsr { txfe: true, ..idle };
    assert_eq!(tx.write(&free, 0x31), Some(0x31));
    assert_eq!(tx.write(&idle, 0x31), None);
    assert!(!tx.flush(&idle));
    let done = UsartIsr { tc: true, ..idle };
    assert!(tx.flush(&done));
}

#[test]
fn pwm_frequency_math() {
    let mut rcc = Rcc::new();
    rcc.clocks.apb_tim_clk = Hertz(48_000_000);
    let mut pwm = Pwm::new(Hertz(1_000), &rcc);
    // 48 MHz / 1 kHz = 48000 cycles: no prescaling needed.
    assert_eq!(pwm.psc, 0);
    assert_eq!(pwm.arr, 47_999);
    assert_eq!(pwm.freq(), Hertz(1_000));
    // 1 Hz needs the prescaler: (48000000 - 1) / 65535 = 732.
    pwm.set_freq(Hertz(1));
    assert_eq!(pwm.psc, 732);
    assert_eq!(pwm.arr as u32, 48_000_000 / 733 - 1);
    let pin = pwm.bind_pin(1);
    assert_eq!(pin.max_duty, pwm.arr as u32);
    let mut pin = pin;
    pin.set_duty(100);
    assert_eq!(pin.get_duty(), 100);
    pin.enable();
    assert!(pin.enabled);
}

#[test]
fn opm_pulse_math() {
    let mut rcc = Rcc::new();
    rcc.clocks.apb_tim_clk = Hertz(1_000_000);
    // A 1 ms pulse on a 1 MHz timer clock: 1000 ticks.
    let opm = Opm::new(MicroSecond(1_000), &rcc);
    assert_eq!(opm.psc, 0);
    assert_eq!(opm.arr, 1_000);
    let mut opm = opm;
    opm.generate();
    assert!(opm.started);
    let mut pin = opm.bind_pin(1);
    assert_eq!(pin.delay, 1);
    pin.set_delay(25);
    assert_eq!(pin.delay, 25);
    assert_eq!(pin.get_max_delay(&opm), 1_000);
}

#[test]
fn qei_counts_and_direction() {
    let mut rcc = Rcc::new();
    let mut qei = Qei::new(&mut rcc);
    assert_eq!(qei.count(), 0);
    assert!(qei.read_direction());
    qei.cnt = 42;
    qei.up = false;
    assert_eq!(qei.count(), 42);
    assert!(!qei.read_direction());
    assert_eq!(qei.release(), 42);
}

#[test]
fn hertz_helpers() {
    assert_eq!(Hertz::khz(32), Hertz(32_000));
    assert_eq!(Hertz::mhz(48), Hertz(48_000_000));
    assert_eq!(Hertz::from_raw(123).raw(), 123);
}
