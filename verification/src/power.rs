//! Power control.

use vstd::prelude::*;

use crate::gpio::SignalEdge;
use crate::rcc::Rcc;

verus! {

/// The low-power state the core enters on a deep sleep.
#[derive(Clone, Copy, Debug, PartialEq, Eq, Structural)]
pub enum LowPowerMode {
    StopMode1,
    StopMode2,
    Standby,
    Shutdown,
}

impl LowPowerMode {
    /// The mode-selection bits.
    pub fn bits(&self) -> (r: u8)
        ensures
            r == self.spec_bits(),
    {
        match self {
            LowPowerMode::StopMode1 => 0,
            LowPowerMode::StopMode2 => 1,
            LowPowerMode::Standby => 3,
            LowPowerMode::Shutdown => 7,
        }
    }

    pub open spec fn spec_bits(&self) -> u8 {
        match self {
            LowPowerMode::StopMode1 => 0,
            LowPowerMode::StopMode2 => 1,
            LowPowerMode::Standby => 3,
            LowPowerMode::Shutdown => 7,
        }
    }
}

/// The regulator mode of the device.
#[derive(Clone, Copy, Debug, PartialEq, Eq, Structural)]
pub enum PowerMode {
    Run,
    LowPower(LowPowerMode),
    UltraLowPower(LowPowerMode),
}

/// A wakeup source.
#[derive(Clone, Copy, Debug, PartialEq, Eq, Structural)]
pub enum WakeUp {
    InternalLine,
    Line1,
    Line2,
    Line3,
    Line4,
    Line6,
}

/// Model of the power controller's registers.
#[derive(Clone, Copy, Debug, PartialEq, Eq, Structural)]
pub struct PwrRegs {
    /// Low-power run mode.
    pub lpr: bool,
    /// Low-power mode selection.
    pub lpms: u8,
    /// Ultra-low-power enable.
    pub ulpen: bool,
    /// Wakeup enables for the five external lines.
    pub ewup1: bool,
    pub ewup2: bool,
    pub ewup3: bool,
    pub ewup4: bool,
    pub ewup6: bool,
    /// Wakeup enable for the internal line.
    pub eiwul: bool,
    /// Wakeup polarities: set selects the falling edge.
    pub wp1: bool,
    pub wp2: bool,
    pub wp3: bool,
    pub wp4: bool,
    pub wp6: bool,
    /// Standby flag.
    pub sbf: bool,
    /// Wakeup flags for the five external lines.
    pub wuf1: bool,
    pub wuf2: bool,
    pub wuf3: bool,
    pub wuf4: bool,
    pub wuf6: bool,
}

/// The power controller.
#[derive(Clone, Copy, Debug, PartialEq, Eq, Structural)]
pub struct Power {
    /// Register model; the flag fields mirror what the hardware layer
    /// last read.
    pub rb: PwrRegs,
}

impl Power {
    /// Take the power controller, enabling its bus clock.
    pub fn new(rb: PwrRegs, rcc: &mut Rcc) -> (r: Power)
        ensures
            r.rb == rb,
            final(rcc).regs.pwren,
            final(rcc).clocks == old(rcc).clocks,
    {
        rcc.enable_pwr_clock();
        Power { rb }
    }

    /// Whether the device woke from standby.
    pub fn get_standby_flag(&mut self) -> (r: bool)
        ensures
            r == old(self).rb.sbf,
            *final(self) == *old(self),
    {
        self.rb.sbf
    }

    /// Whether the given wakeup line fired.  The internal line has no
    /// flag of its own and reads as false.
    pub fn get_wakeup_flag(&self, lane: WakeUp) -> (r: bool)
        ensures
            r == (match lane {
                WakeUp::Line1 => self.rb.wuf1,
                WakeUp::Line2 => self.rb.wuf2,
                WakeUp::Line3 => self.rb.wuf3,
                WakeUp::Line4 => self.rb.wuf4,
                WakeUp::Line6 => self.rb.wuf6,
                WakeUp::InternalLine => false,
            }),
    {
        match lane {
            WakeUp::Line1 => self.rb.wuf1,
            WakeUp::Line2 => self.rb.wuf2,
            WakeUp::Line3 => self.rb.wuf3,
            WakeUp::Line4 => self.rb.wuf4,
            WakeUp::Line6 => self.rb.wuf6,
            _ => false,
        }
    }

    /// Clear the given wakeup line's flag.  The internal line has none.
    pub fn clear_wakeup_flag(&mut self, lane: WakeUp)
        ensures
            final(self).rb == (PwrRegs {
                wuf1: old(self).rb.wuf1 && lane != WakeUp::Line1,
                wuf2: old(self).rb.wuf2 && lane != WakeUp::Line2,
                wuf3: old(self).rb.wuf3 && lane != WakeUp::Line3,
                wuf4: old(self).rb.wuf4 && lane != WakeUp::Line4,
                wuf6: old(self).rb.wuf6 && lane != WakeUp::Line6,
                ..old(self).rb
            }),
    {
        let rb = self.rb;
        self.rb = match lane {
            WakeUp::Line1 => PwrRegs { wuf1: false, ..rb },
            WakeUp::Line2 => PwrRegs { wuf2: false, ..rb },
            WakeUp::Line3 => PwrRegs { wuf3: false, ..rb },
            WakeUp::Line4 => PwrRegs { wuf4: false, ..rb },
            WakeUp::Line6 => PwrRegs { wuf6: false, ..rb },
            WakeUp::InternalLine => rb,
        };
    }

    /// Clear the standby flag.
    pub fn clear_standby_flag(&mut self)
        ensures
            *final(self) == (Power { rb: PwrRegs { sbf: false, ..old(self).rb } }),
    {
        self.rb.sbf = false;
    }

    /// Enable a wakeup line on the given edge.  Both-edge wakeup does
    /// not exist in this hardware.
    pub fn enable_wakeup_lane(&mut self, lane: WakeUp, edge: SignalEdge)
        requires
            edge != SignalEdge::All,
        ensures
            final(self).rb == (PwrRegs {
                ewup1: old(self).rb.ewup1 || lane == WakeUp::Line1,
                ewup2: old(self).rb.ewup2 || lane == WakeUp::Line2,
                ewup3: old(self).rb.ewup3 || lane == WakeUp::Line3,
                ewup4: old(self).rb.ewup4 || lane == WakeUp::Line4,
                ewup6: old(self).rb.ewup6 || lane == WakeUp::Line6,
                eiwul: old(self).rb.eiwul || lane == WakeUp::InternalLine,
                wp1: (if lane == WakeUp::Line1 { edge == SignalEdge::Falling } else { old(self).rb.wp1 }),
                wp2: (if lane == WakeUp::Line2 { edge == SignalEdge::Falling } else { old(self).rb.wp2 }),
                wp3: (if lane == WakeUp::Line3 { edge == SignalEdge::Falling } else { old(self).rb.wp3 }),
                wp4: (if lane == WakeUp::Line4 { edge == SignalEdge::Falling } else { old(self).rb.wp4 }),
                wp6: (if lane == WakeUp::Line6 { edge == SignalEdge::Falling } else { old(self).rb.wp6 }),
                ..old(self).rb
            }),
    {
        let falling = match edge {
            SignalEdge::Falling => true,
            _ => false,
        };
        let rb = self.rb;
        self.rb = match lane {
            WakeUp::Line1 => PwrRegs { ewup1: true, wp1: falling, ..rb },
            WakeUp::Line2 => PwrRegs { ewup2: true, wp2: falling, ..rb },
            WakeUp::Line3 => PwrRegs { ewup3: true, wp3: falling, ..rb },
            WakeUp::Line4 => PwrRegs { ewup4: true, wp4: falling, ..rb },
            WakeUp::Line6 => PwrRegs { ewup6: true, wp6: falling, ..rb },
            WakeUp::InternalLine => PwrRegs { eiwul: true, ..rb },
        };
    }

    /// Disable a wakeup line.
    pub fn disable_wakeup_lane(&mut self, lane: WakeUp)
        ensures
            final(self).rb == (PwrRegs {
                ewup1: old(self).rb.ewup1 && lane != WakeUp::Line1,
                ewup2: old(self).rb.ewup2 && lane != WakeUp::Line2,
                ewup3: old(self).rb.ewup3 && lane != WakeUp::Line3,
                ewup4: old(self).rb.ewup4 && lane != WakeUp::Line4,
                ewup6: old(self).rb.ewup6 && lane != WakeUp::Line6,
                eiwul: old(self).rb.eiwul && lane != WakeUp::InternalLine,
                ..old(self).rb
            }),
    {
        let rb = self.rb;
        self.rb = match lane {
            WakeUp::Line1 => PwrRegs { ewup1: false, ..rb },
            WakeUp::Line2 => PwrRegs { ewup2: false, ..rb },
            WakeUp::Line3 => PwrRegs { ewup3: false, ..rb },
            WakeUp::Line4 => PwrRegs { ewup4: false, ..rb },
            WakeUp::Line6 => PwrRegs { ewup6: false, ..rb },
            WakeUp::InternalLine => PwrRegs { eiwul: false, ..rb },
        };
    }

    /// Select the regulator mode; the hardware layer performs the
    /// regulator-ready waits after applying the model.
    pub fn set_mode(&mut self, mode: PowerMode)
        ensures
            final(self).rb == (PwrRegs {
                lpr: !(mode matches PowerMode::Run),
                lpms: (match mode {
                    PowerMode::Run => old(self).rb.lpms,
                    PowerMode::LowPower(sm) => sm.spec_bits(),
                    PowerMode::UltraLowPower(sm) => sm.spec_bits(),
                }),
                ulpen: (match mode {
                    PowerMode::Run => old(self).rb.ulpen,
                    PowerMode::LowPower(_) => false,
                    PowerMode::UltraLowPower(_) => true,
                }),
                ..old(self).rb
            }),
    {
        let rb = self.rb;
        self.rb = match mode {
            PowerMode::Run => PwrRegs { lpr: false, ..rb },
            PowerMode::LowPower(sm) => PwrRegs { ulpen: false, lpr: true, lpms: sm.bits(), ..rb },
            PowerMode::UltraLowPower(sm) => PwrRegs {
                ulpen: true,
                lpr: true,
                lpms: sm.bits(),
                ..rb
            },
        };
    }
}

/// Constrains the raw power controller; the hardware layer implements
/// it for the peripheral block.
pub trait PowerExt {
    fn constrain(self, rcc: &mut Rcc) -> Power;
}

} // verus!
