//! The timer as the bus sees it: four registers and the countdown that
//! delays the overflow interrupt by one machine cycle. Counting is not part
//! of this crate; whoever steps the device hands the stepped value back.

use vstd::prelude::*;

verus! {

/// First address of the register window.
pub const TIMER_REGISTERS_START: u16 = 0xFF04;

/// Last address of the register window.
pub const TIMER_REGISTERS_END: u16 = 0xFF07;

/// Bus-visible state of the timer.
///
/// `tima_irq` is zero when no overflow is pending. The device arms it on
/// overflow; the interrupt latch counts it down once per machine cycle and
/// raises the timer request on the step that reaches zero.
#[derive(Clone, Copy, Debug, PartialEq, Eq, Structural)]
pub struct Timer {
    pub div: u8,
    pub tima: u8,
    pub tma: u8,
    pub tac: u8,
    pub tima_irq: u8,
}

impl Timer {
    /// The register behind an address of the window 0xFF04..=0xFF07.
    pub open spec fn register(self, addr: u16) -> u8 {
        if addr == 0xFF04 {
            self.div
        } else if addr == 0xFF05 {
            self.tima
        } else if addr == 0xFF06 {
            self.tma
        } else {
            self.tac
        }
    }

    /// The timer after storing `val` in the register behind `addr`.
    pub open spec fn with_register(self, addr: u16, val: u8) -> Timer {
        if addr == 0xFF04 {
            Timer { div: val, ..self }
        } else if addr == 0xFF05 {
            Timer { tima: val, ..self }
        } else if addr == 0xFF06 {
            Timer { tma: val, ..self }
        } else {
            Timer { tac: val, ..self }
        }
    }

    /// A timer with cleared registers and no overflow pending.
    pub open spec fn cleared() -> Timer {
        Timer { div: 0, tima: 0, tma: 0, tac: 0, tima_irq: 0 }
    }

    /// A timer with cleared registers and no overflow pending.
    pub fn new() -> (t: Timer)
        ensures
            t == Timer::cleared(),
    {
        Timer { div: 0, tima: 0, tma: 0, tac: 0, tima_irq: 0 }
    }

    /// The register behind `addr`.
    pub fn read_registers(&self, addr: u16) -> (val: u8)
        requires
            TIMER_REGISTERS_START <= addr <= TIMER_REGISTERS_END,
        ensures
            val == self.register(addr),
    {
        if addr == 0xFF04 {
            self.div
        } else if addr == 0xFF05 {
            self.tima
        } else if addr == 0xFF06 {
            self.tma
        } else {
            self.tac
        }
    }

    /// Stores `val` in the register behind `addr`.
    pub fn write_registers(&mut self, addr: u16, val: u8)
        requires
            TIMER_REGISTERS_START <= addr <= TIMER_REGISTERS_END,
        ensures
            *final(self) == old(self).with_register(addr, val),
    {
        if addr == 0xFF04 {
            self.div = val;
        } else if addr == 0xFF05 {
            self.tima = val;
        } else if addr == 0xFF06 {
            self.tma = val;
        } else {
            self.tac = val;
        }
    }
}

} // verus!
