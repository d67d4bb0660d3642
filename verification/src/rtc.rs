//! Real-time clock.
//!
//! Times and dates live in the hardware as packed binary-coded decimal
//! nibbles; the driver encodes and decodes them exactly, at the field
//! widths the registers give each nibble.

use vstd::prelude::*;

use crate::rcc::{RTCSrc, Rcc};
use crate::time::{Date, Time};

verus! {

/// Hour format of the clock.
#[derive(Clone, Copy, Debug, PartialEq, Eq, Structural)]
pub enum RtcHourFormat {
    H24,
    H12,
}

/// Frequency of the calibration output.
#[derive(Clone, Copy, Debug, PartialEq, Eq, Structural)]
pub enum RtcCalibrationFrequency {
    F1Hz,
    F512Hz,
}

/// An interrupt event of the clock.
#[derive(Clone, Copy, Debug, PartialEq, Eq, Structural)]
pub enum Event {
    WakeupTimer,
    AlarmA,
    AlarmB,
    Timestamp,
}

/// An alarm setting: each field is matched when present and masked when
/// absent.
#[derive(Clone, Copy, Debug, PartialEq, Eq)]
pub struct Alarm {
    /// Day to match: a month day, or a week day when `use_weekday`.
    pub day: Option<u32>,
    /// Hours to match.
    pub hours: Option<u32>,
    /// Minutes to match.
    pub minutes: Option<u32>,
    /// Seconds to match.
    pub seconds: Option<u32>,
    /// Subseconds to match.
    pub subseconds: u16,
    /// How many low subsecond bits are compared.
    pub subseconds_mask_bits: u8,
    /// Whether `day` names a week day.
    pub use_weekday: bool,
}

impl Default for Alarm {
    /// An alarm that matches every day, hour, minute and second.
    fn default() -> (r: Alarm)
        ensures
            r.day is None,
            r.hours is None,
            r.minutes is None,
            r.seconds is None,
            r.subseconds == 0,
            r.subseconds_mask_bits == 0,
            !r.use_weekday,
    {
        Alarm {
            day: None,
            hours: None,
            minutes: None,
            seconds: None,
            subseconds: 0,
            subseconds_mask_bits: 0,
            use_weekday: false,
        }
    }
}

impl Alarm {
    /// An alarm that matches every day, hour, minute and second.
    pub fn new() -> (r: Alarm)
        ensures
            r.day is None,
            r.hours is None,
            r.minutes is None,
            r.seconds is None,
            r.subseconds == 0,
            r.subseconds_mask_bits == 0,
            !r.use_weekday,
    {
        Alarm::default()
    }

    /// Match a day of the month.
    pub fn set_month_day(self, day: u32) -> (r: Alarm)
        ensures
            r == (Alarm { use_weekday: false, day: Some(day), ..self }),
    {
        Alarm { use_weekday: false, day: Some(day), ..self }
    }

    /// Match a day of the week.
    pub fn set_week_day(self, day: u32) -> (r: Alarm)
        ensures
            r == (Alarm { use_weekday: true, day: Some(day), ..self }),
    {
        Alarm { use_weekday: true, day: Some(day), ..self }
    }

    /// Match an hour.
    pub fn set_hours(self, val: u32) -> (r: Alarm)
        ensures
            r == (Alarm { hours: Some(val), ..self }),
    {
        Alarm { hours: Some(val), ..self }
    }

    /// Match a minute.
    pub fn set_minutes(self, val: u32) -> (r: Alarm)
        ensures
            r == (Alarm { minutes: Some(val), ..self }),
    {
        Alarm { minutes: Some(val), ..self }
    }

    /// Match a second.
    pub fn set_seconds(self, val: u32) -> (r: Alarm)
        ensures
            r == (Alarm { seconds: Some(val), ..self }),
    {
        Alarm { seconds: Some(val), ..self }
    }

    /// Match a subsecond value on its lowest `mask_bits` bits.
    pub fn set_subseconds(self, subseconds: u16, mask_bits: u8) -> (r: Alarm)
        ensures
            r == (Alarm { subseconds_mask_bits: mask_bits, subseconds, ..self }),
    {
        Alarm { subseconds_mask_bits: mask_bits, subseconds, ..self }
    }

    /// Match every day.
    pub fn mask_day(self) -> (r: Alarm)
        ensures
            r == (Alarm { day: None, ..self }),
    {
        Alarm { day: None, ..self }
    }

    /// Match every hour.
    pub fn mask_hours(self) -> (r: Alarm)
        ensures
            r == (Alarm { hours: None, ..self }),
    {
        Alarm { hours: None, ..self }
    }

    /// Match every minute.
    pub fn mask_minutes(self) -> (r: Alarm)
        ensures
            r == (Alarm { minutes: None, ..self }),
    {
        Alarm { minutes: None, ..self }
    }

    /// Match every second.
    pub fn mask_seconds(self) -> (r: Alarm)
        ensures
            r == (Alarm { seconds: None, ..self }),
    {
        Alarm { seconds: None, ..self }
    }
}

impl From<Time> for Alarm {
    /// An alarm that fires at the given time of every day.
    fn from(time: Time) -> (r: Alarm) {
        Alarm::default().set_hours(time.hours).set_minutes(time.minutes).set_seconds(time.seconds)
    }
}

impl vstd::std_specs::convert::FromSpecImpl<Time> for Alarm {
    open spec fn obeys_from_spec() -> bool {
        true
    }

    open spec fn from_spec(time: Time) -> Alarm {
        Alarm {
            day: None,
            hours: Some(time.hours),
            minutes: Some(time.minutes),
            seconds: Some(time.seconds),
            subseconds: 0,
            subseconds_mask_bits: 0,
            use_weekday: false,
        }
    }
}

/// Model of the time register's nibbles.
#[derive(Clone, Copy, Debug, PartialEq, Eq, Structural)]
pub struct RtcTr {
    pub ht: u8,
    pub hu: u8,
    pub mnt: u8,
    pub mnu: u8,
    pub st: u8,
    pub su: u8,
    pub pm: bool,
}

/// Model of the date register's nibbles.
#[derive(Clone, Copy, Debug, PartialEq, Eq, Structural)]
pub struct RtcDr {
    pub yt: u8,
    pub yu: u8,
    pub mt: bool,
    pub mu: u8,
    pub dt: u8,
    pub du: u8,
    pub wdu: u8,
}

/// Model of the control register bits this driver programs.
#[derive(Clone, Copy, Debug, PartialEq, Eq, Structural)]
pub struct RtcCr {
    /// 12-hour format when set.
    pub fmt: bool,
    /// Alarm A enable.
    pub alrae: bool,
    /// Alarm B enable.
    pub alrbe: bool,
    /// Wakeup-timer interrupt enable.
    pub wutie: bool,
    /// Alarm A interrupt enable.
    pub alraie: bool,
    /// Alarm B interrupt enable.
    pub alrbie: bool,
    /// Timestamp interrupt enable.
    pub tsie: bool,
    /// Output selection (zero routes no alarm or wakeup event).
    pub osel: u8,
    /// Drive the second output channel.
    pub out2en: bool,
    /// Calibration output at one hertz instead of 512.
    pub cosel: bool,
    /// Calibration output enable.
    pub coe: bool,
}

/// Model of the status register's event flags.
#[derive(Clone, Copy, Debug, PartialEq, Eq, Structural)]
pub struct RtcSr {
    pub wutf: bool,
    pub alraf: bool,
    pub alrbf: bool,
    pub tsf: bool,
}

/// Model of an alarm register.
#[derive(Clone, Copy, Debug, PartialEq, Eq, Structural)]
pub struct AlarmReg {
    pub wdsel: bool,
    pub msk1: bool,
    pub msk2: bool,
    pub msk3: bool,
    pub msk4: bool,
    pub dt: u8,
    pub du: u8,
    pub ht: u8,
    pub hu: u8,
    pub mnt: u8,
    pub mnu: u8,
    pub st: u8,
    pub su: u8,
}

/// Model of an alarm subsecond register.
#[derive(Clone, Copy, Debug, PartialEq, Eq, Structural)]
pub struct AlarmSsReg {
    pub maskss: u8,
    pub ss: u16,
}

/// The real-time clock.
#[derive(Clone, Copy, Debug, PartialEq, Eq, Structural)]
pub struct Rtc {
    /// Time register model.
    pub tr: RtcTr,
    /// Date register model.
    pub dr: RtcDr,
    /// Control register model.
    pub cr: RtcCr,
    /// Status flags, as the hardware layer last read them.
    pub sr: RtcSr,
    /// Alarm A register model.
    pub alrmar: AlarmReg,
    /// Alarm A subsecond register model.
    pub alrmassr: AlarmSsReg,
    /// Alarm B register model.
    pub alrmbr: AlarmReg,
    /// Alarm B subsecond register model.
    pub alrmbssr: AlarmSsReg,
}

/// Split a two-digit value into its tens and its ones.
fn bcd2_encode(word: u32) -> (r: (u8, u8))
    requires
        word < 100,
    ensures
        r.0 == word / 10,
        r.1 == word % 10,
{
    ((word / 10) as u8, (word % 10) as u8)
}

/// Put a tens nibble and a ones nibble back together.
fn bcd2_decode(fst: u8, snd: u8) -> (r: u32)
    requires
        fst < 16,
        snd < 16,
    ensures
        r == fst * 10 + snd,
{
    fst as u32 * 10 + snd as u32
}

impl Rtc {
    /// Every nibble of the time and date models stays inside its
    /// register field.
    pub open spec fn wf(&self) -> bool {
        &&& self.tr.ht < 16
        &&& self.tr.hu < 16
        &&& self.tr.mnt < 16
        &&& self.tr.mnu < 16
        &&& self.tr.st < 16
        &&& self.tr.su < 16
        &&& self.dr.yt < 16
        &&& self.dr.yu < 16
        &&& self.dr.mu < 16
        &&& self.dr.dt < 16
        &&& self.dr.du < 16
    }

    /// Take the clock, selecting and starting its clock source.
    pub fn new(src: RTCSrc, rcc: &mut Rcc) -> (r: Rtc)
        ensures
            r.wf(),
            final(rcc).regs.rtcen,
            final(rcc).regs.rtcsel == Rcc::spec_rtc_sel(src),
            final(rcc).clocks == old(rcc).clocks,
            r.tr == (RtcTr { ht: 0, hu: 0, mnt: 0, mnu: 0, st: 0, su: 0, pm: false }),
            r.dr == (RtcDr { yt: 0, yu: 0, mt: false, mu: 0, dt: 0, du: 0, wdu: 0 }),
            !r.cr.alrae && !r.cr.alrbe,
    {
        rcc.enable_rtc(src);
        Rtc {
            tr: RtcTr { ht: 0, hu: 0, mnt: 0, mnu: 0, st: 0, su: 0, pm: false },
            dr: RtcDr { yt: 0, yu: 0, mt: false, mu: 0, dt: 0, du: 0, wdu: 0 },
            cr: RtcCr {
                fmt: false,
                alrae: false,
                alrbe: false,
                wutie: false,
                alraie: false,
                alrbie: false,
                tsie: false,
                osel: 0,
                out2en: false,
                cosel: false,
                coe: false,
            },
            sr: RtcSr { wutf: false, alraf: false, alrbf: false, tsf: false },
            alrmar: AlarmReg {
                wdsel: false,
                msk1: false,
                msk2: false,
                msk3: false,
                msk4: false,
                dt: 0,
                du: 0,
                ht: 0,
                hu: 0,
                mnt: 0,
                mnu: 0,
                st: 0,
                su: 0,
            },
            alrmassr: AlarmSsReg { maskss: 0, ss: 0 },
            alrmbr: AlarmReg {
                wdsel: false,
                msk1: false,
                msk2: false,
                msk3: false,
                msk4: false,
                dt: 0,
                du: 0,
                ht: 0,
                hu: 0,
                mnt: 0,
                mnu: 0,
                st: 0,
                su: 0,
            },
            alrmbssr: AlarmSsReg { maskss: 0, ss: 0 },
        }
    }

    /// Select the 12-hour or 24-hour format.
    pub fn set_hour_format(&mut self, fmt: RtcHourFormat)
        ensures
            *final(self) == (Rtc {
                cr: RtcCr { fmt: fmt == RtcHourFormat::H12, ..old(self).cr },
                ..*old(self)
            }),
    {
        let twelve = match fmt {
            RtcHourFormat::H12 => true,
            RtcHourFormat::H24 => false,
        };
        self.cr = RtcCr { fmt: twelve, ..self.cr };
    }

    /// Write a date into the date register, encoded as binary-coded
    /// decimal.  The year register holds two digits, counted from 1970.
    pub fn set_date(&mut self, date: &Date)
        requires
            1970 <= date.year < 2070,
            date.month < 100,
            date.day < 100,
        ensures
            final(self).dr == (RtcDr {
                yt: ((date.year - 1970) / 10) as u8,
                yu: ((date.year - 1970) % 10) as u8,
                mt: date.month / 10 > 0,
                mu: (date.month % 10) as u8,
                dt: (date.day / 10) as u8,
                du: (date.day % 10) as u8,
                wdu: date.day as u8,
            }),
            final(self).tr == old(self).tr,
            final(self).cr == old(self).cr,
            old(self).wf() ==> final(self).wf(),
    {
        let (yt, yu) = bcd2_encode(date.year - 1970);
        let (mt, mu) = bcd2_encode(date.month);
        let (dt, du) = bcd2_encode(date.day);
        self.dr = RtcDr { yt, yu, mt: mt > 0, mu, dt, du, wdu: date.day as u8 };
    }

    /// Write a time of day into the time register, encoded as
    /// binary-coded decimal.
    pub fn set_time(&mut self, time: &Time)
        requires
            time.hours < 100,
            time.minutes < 100,
            time.seconds < 100,
        ensures
            final(self).tr == (RtcTr {
                ht: (time.hours / 10) as u8,
                hu: (time.hours % 10) as u8,
                mnt: (time.minutes / 10) as u8,
                mnu: (time.minutes % 10) as u8,
                st: (time.seconds / 10) as u8,
                su: (time.seconds % 10) as u8,
                pm: false,
            }),
            final(self).cr == (RtcCr { fmt: time.daylight_savings, ..old(self).cr }),
            final(self).dr == old(self).dr,
            old(self).wf() ==> final(self).wf(),
    {
        let (ht, hu) = bcd2_encode(time.hours);
        let (mnt, mnu) = bcd2_encode(time.minutes);
        let (st, su) = bcd2_encode(time.seconds);
        self.tr = RtcTr { ht, hu, mnt, mnu, st, su, pm: false };
        self.cr = RtcCr { fmt: time.daylight_savings, ..self.cr };
    }

    /// Read the time of day back out of the time register.
    pub fn get_time(&self) -> (r: Time)
        requires
            self.wf(),
        ensures
            r.hours == self.tr.ht * 10 + self.tr.hu,
            r.minutes == self.tr.mnt * 10 + self.tr.mnu,
            r.seconds == self.tr.st * 10 + self.tr.su,
            r.daylight_savings == self.cr.fmt,
    {
        Time::new(
            bcd2_decode(self.tr.ht, self.tr.hu),
            bcd2_decode(self.tr.mnt, self.tr.mnu),
            bcd2_decode(self.tr.st, self.tr.su),
            self.cr.fmt,
        )
    }

    /// Read the date back out of the date register.
    pub fn get_date(&self) -> (r: Date)
        requires
            self.wf(),
        ensures
            r.year == self.dr.yt * 10 + self.dr.yu + 1970,
            r.month == (if self.dr.mt {
                10int
            } else {
                0int
            }) + self.dr.mu,
            r.day == self.dr.dt * 10 + self.dr.du,
    {
        let mt: u8 = if self.dr.mt {
            1
        } else {
            0
        };
        Date::new(
            bcd2_decode(self.dr.yt, self.dr.yu) + 1970,
            bcd2_decode(mt, self.dr.mu),
            bcd2_decode(self.dr.dt, self.dr.du),
        )
    }

    /// The week day stored beside the date.
    pub fn get_week_day(&self) -> (r: u8)
        ensures
            r == self.dr.wdu,
    {
        self.dr.wdu
    }

    /// Program and enable alarm A.  Absent fields are masked: they
    /// match always.
    pub fn set_alarm_a(&mut self, alarm: Alarm)
        requires
            alarm.day matches Some(d) ==> d < 100,
            alarm.hours matches Some(h) ==> h < 100,
            alarm.minutes matches Some(m) ==> m < 100,
            alarm.seconds matches Some(s) ==> s < 100,
        ensures
            final(self).alrmar == spec_alarm_reg(alarm),
            final(self).alrmassr == (AlarmSsReg {
                maskss: alarm.subseconds_mask_bits,
                ss: alarm.subseconds,
            }),
            final(self).cr == (RtcCr { alrae: true, ..old(self).cr }),
            final(self).tr == old(self).tr,
            final(self).dr == old(self).dr,
            final(self).alrmbr == old(self).alrmbr,
            old(self).wf() ==> final(self).wf(),
    {
        let reg = encode_alarm(&alarm);
        self.alrmassr = AlarmSsReg { maskss: alarm.subseconds_mask_bits, ss: alarm.subseconds };
        self.alrmar = reg;
        self.cr = RtcCr { alrae: true, ..self.cr };
    }

    /// Program and enable alarm B.  Absent fields are masked: they
    /// match always.
    pub fn set_alarm_b(&mut self, alarm: Alarm)
        requires
            alarm.day matches Some(d) ==> d < 100,
            alarm.hours matches Some(h) ==> h < 100,
            alarm.minutes matches Some(m) ==> m < 100,
            alarm.seconds matches Some(s) ==> s < 100,
        ensures
            final(self).alrmbr == spec_alarm_reg(alarm),
            final(self).alrmbssr == (AlarmSsReg {
                maskss: alarm.subseconds_mask_bits,
                ss: alarm.subseconds,
            }),
            final(self).cr == (RtcCr { alrbe: true, ..old(self).cr }),
            final(self).tr == old(self).tr,
            final(self).dr == old(self).dr,
            final(self).alrmar == old(self).alrmar,
            old(self).wf() ==> final(self).wf(),
    {
        let reg = encode_alarm(&alarm);
        self.alrmbssr = AlarmSsReg { maskss: alarm.subseconds_mask_bits, ss: alarm.subseconds };
        self.alrmbr = reg;
        self.cr = RtcCr { alrbe: true, ..self.cr };
    }

    /// Enable one interrupt source.
    pub fn listen(&mut self, ev: Event)
        ensures
            final(self).cr == (match ev {
                Event::WakeupTimer => RtcCr { wutie: true, ..old(self).cr },
                Event::AlarmA => RtcCr { alraie: true, ..old(self).cr },
                Event::AlarmB => RtcCr { alrbie: true, ..old(self).cr },
                Event::Timestamp => RtcCr { tsie: true, ..old(self).cr },
            }),
            final(self).tr == old(self).tr,
            final(self).dr == old(self).dr,
            final(self).sr == old(self).sr,
    {
        let cr = self.cr;
        self.cr = match ev {
            Event::WakeupTimer => RtcCr { wutie: true, ..cr },
            Event::AlarmA => RtcCr { alraie: true, ..cr },
            Event::AlarmB => RtcCr { alrbie: true, ..cr },
            Event::Timestamp => RtcCr { tsie: true, ..cr },
        };
    }

    /// Disable one interrupt source.
    pub fn unlisten(&mut self, ev: Event)
        ensures
            final(self).cr == (match ev {
                Event::WakeupTimer => RtcCr { wutie: false, ..old(self).cr },
                Event::AlarmA => RtcCr { alraie: false, ..old(self).cr },
                Event::AlarmB => RtcCr { alrbie: false, ..old(self).cr },
                Event::Timestamp => RtcCr { tsie: false, ..old(self).cr },
            }),
            final(self).tr == old(self).tr,
            final(self).dr == old(self).dr,
            final(self).sr == old(self).sr,
    {
        let cr = self.cr;
        self.cr = match ev {
            Event::WakeupTimer => RtcCr { wutie: false, ..cr },
            Event::AlarmA => RtcCr { alraie: false, ..cr },
            Event::AlarmB => RtcCr { alrbie: false, ..cr },
            Event::Timestamp => RtcCr { tsie: false, ..cr },
        };
    }

    /// Whether an event's flag is pending.
    pub fn is_pending(&self, ev: Event) -> (r: bool)
        ensures
            r == (match ev {
                Event::WakeupTimer => self.sr.wutf,
                Event::AlarmA => self.sr.alraf,
                Event::AlarmB => self.sr.alrbf,
                Event::Timestamp => self.sr.tsf,
            }),
    {
        match ev {
            Event::WakeupTimer => self.sr.wutf,
            Event::AlarmA => self.sr.alraf,
            Event::AlarmB => self.sr.alrbf,
            Event::Timestamp => self.sr.tsf,
        }
    }

    /// Route the calibration signal to an output: no alarm or wakeup
    /// event on the output selection, the given channel, the chosen
    /// frequency, output enabled.  Binding the pin itself lives in the
    /// hardware layer.
    pub fn enable_calibration_output(&mut self, channel: bool, freq: RtcCalibrationFrequency)
        ensures
            final(self).cr == (RtcCr {
                osel: 0,
                out2en: channel,
                cosel: freq == RtcCalibrationFrequency::F1Hz,
                coe: true,
                ..old(self).cr
            }),
            final(self).tr == old(self).tr,
            final(self).dr == old(self).dr,
            final(self).sr == old(self).sr,
            final(self).alrmar == old(self).alrmar,
            final(self).alrmbr == old(self).alrmbr,
    {
        let one_hz = match freq {
            RtcCalibrationFrequency::F1Hz => true,
            RtcCalibrationFrequency::F512Hz => false,
        };
        self.cr = RtcCr { osel: 0, out2en: channel, cosel: one_hz, coe: true, ..self.cr };
    }

    /// Clear an event's pending flag.
    pub fn unpend(&mut self, ev: Event)
        ensures
            final(self).sr == (match ev {
                Event::WakeupTimer => RtcSr { wutf: false, ..old(self).sr },
                Event::AlarmA => RtcSr { alraf: false, ..old(self).sr },
                Event::AlarmB => RtcSr { alrbf: false, ..old(self).sr },
                Event::Timestamp => RtcSr { tsf: false, ..old(self).sr },
            }),
            final(self).cr == old(self).cr,
            final(self).tr == old(self).tr,
            final(self).dr == old(self).dr,
    {
        let sr = self.sr;
        self.sr = match ev {
            Event::WakeupTimer => RtcSr { wutf: false, ..sr },
            Event::AlarmA => RtcSr { alraf: false, ..sr },
            Event::AlarmB => RtcSr { alrbf: false, ..sr },
            Event::Timestamp => RtcSr { tsf: false, ..sr },
        };
    }
}

/// The alarm register pattern an alarm setting encodes to.
pub open spec fn spec_alarm_reg(alarm: Alarm) -> AlarmReg {
    AlarmReg {
        wdsel: alarm.use_weekday,
        msk1: alarm.seconds is None,
        msk2: alarm.minutes is None,
        msk3: alarm.hours is None,
        msk4: alarm.day is None,
        dt: (spec_or_zero(alarm.day) / 10) as u8,
        du: (spec_or_zero(alarm.day) % 10) as u8,
        ht: (spec_or_zero(alarm.hours) / 10) as u8,
        hu: (spec_or_zero(alarm.hours) % 10) as u8,
        mnt: (spec_or_zero(alarm.minutes) / 10) as u8,
        mnu: (spec_or_zero(alarm.minutes) % 10) as u8,
        st: (spec_or_zero(alarm.seconds) / 10) as u8,
        su: (spec_or_zero(alarm.seconds) % 10) as u8,
    }
}

/// An optional value, or zero when absent.
pub open spec fn spec_or_zero(v: Option<u32>) -> u32 {
    match v {
        Some(x) => x,
        None => 0,
    }
}

/// An optional value, or zero when absent.
fn or_zero(v: &Option<u32>) -> (r: u32)
    ensures
        r == spec_or_zero(*v),
{
    match v {
        Some(x) => *x,
        None => 0,
    }
}

/// Encode an alarm setting into its register pattern.
fn encode_alarm(alarm: &Alarm) -> (r: AlarmReg)
    requires
        alarm.day matches Some(d) ==> d < 100,
        alarm.hours matches Some(h) ==> h < 100,
        alarm.minutes matches Some(m) ==> m < 100,
        alarm.seconds matches Some(s) ==> s < 100,
    ensures
        r == spec_alarm_reg(*alarm),
{
    let (dt, du) = bcd2_encode(or_zero(&alarm.day));
    let (ht, hu) = bcd2_encode(or_zero(&alarm.hours));
    let (mnt, mnu) = bcd2_encode(or_zero(&alarm.minutes));
    let (st, su) = bcd2_encode(or_zero(&alarm.seconds));
    AlarmReg {
        wdsel: alarm.use_weekday,
        msk1: alarm.seconds.is_none(),
        msk2: alarm.minutes.is_none(),
        msk3: alarm.hours.is_none(),
        msk4: alarm.day.is_none(),
        dt,
        du,
        ht,
        hu,
        mnt,
        mnu,
        st,
        su,
    }
}

/// Constrains the raw clock; the hardware layer implements it for the
/// peripheral block, clocked from the low-speed internal oscillator.
pub trait RtcExt {
    fn constrain(self, rcc: &mut Rcc) -> Rtc;
}

/// A pin that can carry the clock's calibration output; the hardware
/// layer implements it per capable pin.
pub trait RtcOutputPin: Sized {
    /// The pin in its alternate-function mode.
    type AFPin;

    /// Put the pin into its alternate-function mode.
    fn setup(self) -> Self::AFPin;

    /// Which output channel the pin sits on.
    fn channel(&self) -> bool;

    /// Hand the pin back.
    fn release(pin: Self::AFPin) -> Self;
}

} // verus!
