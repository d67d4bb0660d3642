//! External interrupt controller.

use vstd::prelude::*;

use crate::gpio::SignalEdge;

verus! {

/// An event line of the external interrupt controller.
#[derive(Clone, Copy, Debug, PartialEq, Eq, Structural)]
pub enum Event {
    GPIO0,
    GPIO1,
    GPIO2,
    GPIO3,
    GPIO4,
    GPIO5,
    GPIO6,
    GPIO7,
    GPIO8,
    GPIO9,
    GPIO10,
    GPIO11,
    GPIO12,
    GPIO13,
    GPIO14,
    GPIO15,
    RTC,
    I2C1,
    USART1,
    LSE_CSS,
}

/// The highest line number that can be edge-triggered.
pub const TRIGGER_MAX: u8 = 15;

impl Event {
    /// The controller line this event sits on.
    pub open spec fn spec_line(self) -> u8 {
        match self {
            Event::GPIO0 => 0,
            Event::GPIO1 => 1,
            Event::GPIO2 => 2,
            Event::GPIO3 => 3,
            Event::GPIO4 => 4,
            Event::GPIO5 => 5,
            Event::GPIO6 => 6,
            Event::GPIO7 => 7,
            Event::GPIO8 => 8,
            Event::GPIO9 => 9,
            Event::GPIO10 => 10,
            Event::GPIO11 => 11,
            Event::GPIO12 => 12,
            Event::GPIO13 => 13,
            Event::GPIO14 => 14,
            Event::GPIO15 => 15,
            Event::RTC => 19,
            Event::I2C1 => 23,
            Event::USART1 => 25,
            Event::LSE_CSS => 31,
        }
    }

    /// The controller line this event sits on.
    pub fn line(&self) -> (r: u8)
        ensures
            r == self.spec_line(),
            r < 32,
    {
        match self {
            Event::GPIO0 => 0,
            Event::GPIO1 => 1,
            Event::GPIO2 => 2,
            Event::GPIO3 => 3,
            Event::GPIO4 => 4,
            Event::GPIO5 => 5,
            Event::GPIO6 => 6,
            Event::GPIO7 => 7,
            Event::GPIO8 => 8,
            Event::GPIO9 => 9,
            Event::GPIO10 => 10,
            Event::GPIO11 => 11,
            Event::GPIO12 => 12,
            Event::GPIO13 => 13,
            Event::GPIO14 => 14,
            Event::GPIO15 => 15,
            Event::RTC => 19,
            Event::I2C1 => 23,
            Event::USART1 => 25,
            Event::LSE_CSS => 31,
        }
    }

    /// The pin event for a pin number.
    pub fn from_code(n: u8) -> (r: Event)
        requires
            n <= 15,
        ensures
            r.spec_line() == n,
    {
        match n {
            0 => Event::GPIO0,
            1 => Event::GPIO1,
            2 => Event::GPIO2,
            3 => Event::GPIO3,
            4 => Event::GPIO4,
            5 => Event::GPIO5,
            6 => Event::GPIO6,
            7 => Event::GPIO7,
            8 => Event::GPIO8,
            9 => Event::GPIO9,
            10 => Event::GPIO10,
            11 => Event::GPIO11,
            12 => Event::GPIO12,
            13 => Event::GPIO13,
            14 => Event::GPIO14,
            _ => Event::GPIO15,
        }
    }
}

/// Model of the external interrupt controller's registers: the wakeup
/// mask, the two trigger-selection registers and the two pending
/// registers.
#[derive(Clone, Copy, Debug, PartialEq, Eq, Structural)]
pub struct Exti {
    /// Interrupt mask: a set bit routes the line's event to the core.
    pub imr1: u32,
    /// Rising-edge trigger selection.
    pub rtsr1: u32,
    /// Falling-edge trigger selection.
    pub ftsr1: u32,
    /// Rising-edge pending flags.
    pub rpr1: u32,
    /// Falling-edge pending flags.
    pub fpr1: u32,
}

impl Exti {
    /// The controller with nothing routed, selected or pending.
    pub fn new() -> (r: Exti)
        ensures
            r == (Exti { imr1: 0, rtsr1: 0, ftsr1: 0, rpr1: 0, fpr1: 0 }),
    {
        Exti { imr1: 0, rtsr1: 0, ftsr1: 0, rpr1: 0, fpr1: 0 }
    }

    /// Route an event line's interrupt to the core.
    pub fn wakeup(&mut self, ev: Event)
        ensures
            final(self).imr1 == old(self).imr1 | (1u32 << ev.spec_line()),
            final(self).rtsr1 == old(self).rtsr1,
            final(self).ftsr1 == old(self).ftsr1,
            final(self).rpr1 == old(self).rpr1,
            final(self).fpr1 == old(self).fpr1,
    {
        let line = ev.line();
        self.imr1 = self.imr1 | (1u32 << line);
    }

    /// Select the trigger edge for a pin line and route its interrupt
    /// to the core.  Only pin lines can be edge-triggered.
    pub fn listen(&mut self, ev: Event, edge: SignalEdge)
        requires
            ev.spec_line() <= TRIGGER_MAX,
        ensures
            final(self).imr1 == old(self).imr1 | (1u32 << ev.spec_line()),
            edge == SignalEdge::Rising ==> final(self).rtsr1 == old(self).rtsr1 | (1u32
                << ev.spec_line()) && final(self).ftsr1 == old(self).ftsr1,
            edge == SignalEdge::Falling ==> final(self).ftsr1 == old(self).ftsr1 | (1u32
                << ev.spec_line()) && final(self).rtsr1 == old(self).rtsr1,
            edge == SignalEdge::All ==> final(self).rtsr1 == old(self).rtsr1 | (1u32
                << ev.spec_line()) && final(self).ftsr1 == old(self).ftsr1 | (1u32
                << ev.spec_line()),
            final(self).rpr1 == old(self).rpr1,
            final(self).fpr1 == old(self).fpr1,
    {
        let line = ev.line();
        let mask: u32 = 1u32 << line;
        match edge {
            SignalEdge::Rising => {
                self.rtsr1 = self.rtsr1 | mask;
            },
            SignalEdge::Falling => {
                self.ftsr1 = self.ftsr1 | mask;
            },
            SignalEdge::All => {
                self.rtsr1 = self.rtsr1 | mask;
                self.ftsr1 = self.ftsr1 | mask;
            },
        }
        self.wakeup(ev);
    }

    /// Unroute an event line, clear its pending flags and, for a pin
    /// line, clear its trigger selections.
    pub fn unlisten(&mut self, ev: Event)
        ensures
            final(self).imr1 == old(self).imr1 & !(1u32 << ev.spec_line()),
            ev.spec_line() <= TRIGGER_MAX ==> final(self).rtsr1 == old(self).rtsr1 & !(1u32
                << ev.spec_line()) && final(self).ftsr1 == old(self).ftsr1 & !(1u32
                << ev.spec_line()),
            ev.spec_line() > TRIGGER_MAX ==> final(self).rtsr1 == old(self).rtsr1
                && final(self).ftsr1 == old(self).ftsr1,
    {
        self.unpend(ev);
        let line = ev.line();
        let mask: u32 = !(1u32 << line);
        self.imr1 = self.imr1 & mask;
        if line <= TRIGGER_MAX {
            self.rtsr1 = self.rtsr1 & mask;
            self.ftsr1 = self.ftsr1 & mask;
        }
    }

    /// Whether an event is pending on the given edge.  Lines that
    /// cannot be edge-triggered are never pending.
    pub fn is_pending(&self, ev: Event, edge: SignalEdge) -> (r: bool)
        ensures
            ev.spec_line() > TRIGGER_MAX ==> r == false,
            ev.spec_line() <= TRIGGER_MAX ==> r == (match edge {
                SignalEdge::Rising => self.rpr1 & (1u32 << ev.spec_line()) != 0,
                SignalEdge::Falling => self.fpr1 & (1u32 << ev.spec_line()) != 0,
                SignalEdge::All => (self.rpr1 & (1u32 << ev.spec_line()) != 0) && (self.fpr1 & (
                1u32 << ev.spec_line()) != 0),
            }),
    {
        let line = ev.line();
        if line > TRIGGER_MAX {
            return false;
        }
        let mask: u32 = 1u32 << line;
        match edge {
            SignalEdge::Rising => self.rpr1 & mask != 0,
            SignalEdge::Falling => self.fpr1 & mask != 0,
            SignalEdge::All => (self.rpr1 & mask != 0) && (self.fpr1 & mask != 0),
        }
    }

    /// Clear an event's pending flags on both edges.
    pub fn unpend(&mut self, ev: Event)
        ensures
            ev.spec_line() <= TRIGGER_MAX ==> final(self).rpr1 == old(self).rpr1 & !(1u32
                << ev.spec_line()) && final(self).fpr1 == old(self).fpr1 & !(1u32
                << ev.spec_line()),
            ev.spec_line() > TRIGGER_MAX ==> final(self).rpr1 == old(self).rpr1
                && final(self).fpr1 == old(self).fpr1,
            final(self).imr1 == old(self).imr1,
            final(self).rtsr1 == old(self).rtsr1,
            final(self).ftsr1 == old(self).ftsr1,
    {
        let line = ev.line();
        if line <= TRIGGER_MAX {
            // Writing a set bit to a pending register clears the flag.
            self.rpr1 = self.rpr1 & !(1u32 << line);
            self.fpr1 = self.fpr1 & !(1u32 << line);
        }
    }
}

/// The external interrupt controller's operations; the hardware layer
/// implements them over the peripheral block itself.
pub trait ExtiExt {
    fn wakeup(&self, ev: Event);

    fn listen(&self, ev: Event, edge: SignalEdge);

    fn unlisten(&self, ev: Event);

    fn is_pending(&self, ev: Event, edge: SignalEdge) -> bool;

    fn unpend(&self, ev: Event);
}

} // verus!
