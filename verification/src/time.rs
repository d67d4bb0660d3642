//! Plain time and frequency values used throughout the crate.

use vstd::prelude::*;

verus! {

/// A frequency in hertz.
#[derive(Clone, Copy, Debug, PartialEq, Eq, Structural)]
pub struct Hertz(pub u32);

impl Hertz {
    pub fn from_raw(raw: u32) -> (r: Hertz)
        ensures
            r.0 == raw,
    {
        Hertz(raw)
    }

    pub fn raw(&self) -> (r: u32)
        ensures
            r == self.0,
    {
        self.0
    }

    /// A frequency given in kilohertz.
    pub fn khz(v: u32) -> (r: Hertz)
        requires
            v * 1000 <= u32::MAX,
        ensures
            r.0 == v * 1000,
    {
        Hertz(v * 1000)
    }

    /// A frequency given in megahertz.
    pub fn mhz(v: u32) -> (r: Hertz)
        requires
            v * 1000000 <= u32::MAX,
        ensures
            r.0 == v * 1000000,
    {
        Hertz(v * 1000000)
    }
}

/// A duration in microseconds.
#[derive(Clone, Copy, Debug, PartialEq, Eq, Structural)]
pub struct MicroSecond(pub u32);

impl MicroSecond {
    pub fn from_raw(raw: u32) -> (r: MicroSecond)
        ensures
            r.0 == raw,
    {
        MicroSecond(raw)
    }

    pub fn raw(&self) -> (r: u32)
        ensures
            r == self.0,
    {
        self.0
    }
}

/// How many cycles of a clock fit in a period.
pub fn cycles(period: MicroSecond, freq: Hertz) -> (r: u32)
    requires
        period.0 as int * freq.0 as int / 1000000 <= u32::MAX,
    ensures
        r == period.0 as int * freq.0 as int / 1000000,
{
    ((period.0 as u64 * freq.0 as u64) / 1000000) as u32
}

/// A time of day, as the real-time clock keeps it.
#[derive(Clone, Copy, Debug, PartialEq, Eq, Structural)]
pub struct Time {
    pub hours: u32,
    pub minutes: u32,
    pub seconds: u32,
    pub daylight_savings: bool,
}

impl Time {
    pub fn new(hours: u32, minutes: u32, seconds: u32, daylight_savings: bool) -> (r: Time)
        ensures
            r.hours == hours,
            r.minutes == minutes,
            r.seconds == seconds,
            r.daylight_savings == daylight_savings,
    {
        Time { hours, minutes, seconds, daylight_savings }
    }
}

/// A calendar date, as the real-time clock keeps it.
#[derive(Clone, Copy, Debug, PartialEq, Eq, Structural)]
pub struct Date {
    pub year: u32,
    pub month: u32,
    pub day: u32,
}

impl Date {
    pub fn new(year: u32, month: u32, day: u32) -> (r: Date)
        ensures
            r.year == year,
            r.month == month,
            r.day == day,
    {
        Date { year, month, day }
    }
}

} // verus!
