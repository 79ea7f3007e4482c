//! The interrupt latch: which request bits one machine cycle adds to IF.

use vstd::prelude::*;
use crate::memory::{BusState, Memory};
use crate::ppu::PpuState;
use crate::timer::Timer;

verus! {

/// IF bit of the vertical-blank interrupt.
pub const VBLANK_REQUEST: u8 = 0x01;

/// IF bit of the LCD status interrupt.
pub const STAT_REQUEST: u8 = 0x02;

/// IF bit of the timer interrupt.
pub const TIMER_REQUEST: u8 = 0x04;

/// Whether any enabled STAT source is active: the LY = LYC comparison
/// (enable bit 6), OAM search (bit 5, mode 2), vertical blank (bit 4,
/// mode 1) or horizontal blank (bit 3, mode 0).
pub open spec fn stat_line(stat: u8, ly: u8, lyc: u8) -> bool {
    ||| (stat & 0x40 != 0 && ly == lyc)
    ||| (stat & 0x20 != 0 && stat & 0x03 == 2)
    ||| (stat & 0x10 != 0 && stat & 0x03 == 1)
    ||| (stat & 0x08 != 0 && stat & 0x03 == 0)
}

/// The vertical-blank request is raised when the device has an edge the
/// latch has not consumed yet.
pub open spec fn vblank_edge(ppu: PpuState) -> bool {
    !ppu.vblank_irq_triggered
}

/// The STAT request is raised when the device has an unconsumed edge and
/// an enabled source is active.
pub open spec fn stat_edge(ppu: PpuState) -> bool {
    !ppu.stat_irq_triggered && stat_line(ppu.stat, ppu.ly, ppu.lyc)
}

/// The timer request is raised on the step that takes the countdown to
/// zero.
pub open spec fn timer_edge(timer: Timer) -> bool {
    timer.tima_irq == 1
}

/// The request bits for the three edges.
pub open spec fn request_bits(vblank: bool, stat: bool, timer: bool) -> u8 {
    (if vblank { VBLANK_REQUEST } else { 0u8 }) | (if stat { STAT_REQUEST } else { 0u8 }) | (if timer {
        TIMER_REQUEST
    } else {
        0u8
    })
}

/// The request bits this cycle adds to IF.
pub open spec fn latched_requests(ppu: PpuState, timer: Timer) -> u8 {
    request_bits(vblank_edge(ppu), stat_edge(ppu), timer_edge(timer))
}

/// The countdown after one latch step.
pub open spec fn timer_countdown(tima_irq: u8) -> u8 {
    if tima_irq > 0 {
        (tima_irq - 1) as u8
    } else {
        0
    }
}

/// Evaluates the STAT sources.
pub fn stat_line_active(stat: u8, ly: u8, lyc: u8) -> (active: bool)
    ensures
        active == stat_line(stat, ly, lyc),
{
    (stat & 0x40 != 0 && ly == lyc) || (stat & 0x20 != 0 && stat & 0x03 == 2) || (stat & 0x10 != 0
        && stat & 0x03 == 1) || (stat & 0x08 != 0 && stat & 0x03 == 0)
}

/// Packs three edges into their request bits.
pub fn pack_requests(vblank: bool, stat: bool, timer: bool) -> (bits: u8)
    ensures
        bits == request_bits(vblank, stat, timer),
{
    let v: u8 = if vblank {
        VBLANK_REQUEST
    } else {
        0
    };
    let s: u8 = if stat {
        STAT_REQUEST
    } else {
        0
    };
    let t: u8 = if timer {
        TIMER_REQUEST
    } else {
        0
    };
    v | s | t
}

/// Each edge owns one bit of the request byte, and no other bit is ever
/// set.
pub proof fn lemma_request_bits(vblank: bool, stat: bool, timer: bool)
    ensures
        request_bits(vblank, stat, timer) & VBLANK_REQUEST != 0 <==> vblank,
        request_bits(vblank, stat, timer) & STAT_REQUEST != 0 <==> stat,
        request_bits(vblank, stat, timer) & TIMER_REQUEST != 0 <==> timer,
        request_bits(vblank, stat, timer) & 0xF8 == 0,
        request_bits(vblank, stat, timer) == (if vblank { 1int } else { 0 }) + (if stat { 2int } else { 0 })
            + (if timer { 4int } else { 0 }),
{
    let v: u8 = if vblank { 1 } else { 0 };
    let s: u8 = if stat { 2 } else { 0 };
    let t: u8 = if timer { 4 } else { 0 };
    assert((v == 0 || v == 1) && (s == 0 || s == 2) && (t == 0 || t == 4) ==> {
        &&& ((v | s | t) & 1 != 0 <==> v == 1)
        &&& ((v | s | t) & 2 != 0 <==> s == 2)
        &&& ((v | s | t) & 4 != 0 <==> t == 4)
        &&& (v | s | t) & 0xF8 == 0
        &&& (v | s | t) == v + s + t
    }) by (bit_vector);
}

/// Latching into IF only ever adds bits: every bit already set stays set.
pub proof fn lemma_latch_keeps_pending(iflags: u8, requests: u8)
    ensures
        (iflags | requests) & iflags == iflags,
        (iflags | requests) & requests == requests,
        requests == 0 ==> iflags | requests == iflags,
{
    assert((iflags | requests) & iflags == iflags) by (bit_vector);
    assert((iflags | requests) & requests == requests) by (bit_vector);
    assert(requests == 0 ==> iflags | requests == iflags) by (bit_vector);
}

impl BusState {
    /// The state after the latch has sampled the devices: the fresh
    /// requests are OR-ed into IF, both picture-unit edges are marked
    /// consumed, and the timer countdown has moved one step. IE and
    /// everything else stay as they are.
    pub open spec fn latch_interrupts(self) -> BusState {
        BusState {
            iflags: self.iflags | latched_requests(self.ppu, self.timer),
            ppu: PpuState { vblank_irq_triggered: true, stat_irq_triggered: true, ..self.ppu },
            timer: Timer { tima_irq: timer_countdown(self.timer.tima_irq), ..self.timer },
            ..self
        }
    }

    /// What one latch step does to IF and the devices: each of the three
    /// request bits is set afterwards exactly if it was set before or its
    /// edge was raised, the other bits of IF and all of IE are untouched,
    /// and both picture-unit edges are consumed, so that latching again
    /// without a device step raises neither of them.
    pub proof fn lemma_latch_interrupts(self)
        ensures
            self.latch_interrupts().iflags & VBLANK_REQUEST != 0 <==> self.iflags & VBLANK_REQUEST != 0
                || vblank_edge(self.ppu),
            self.latch_interrupts().iflags & STAT_REQUEST != 0 <==> self.iflags & STAT_REQUEST != 0
                || stat_edge(self.ppu),
            self.latch_interrupts().iflags & TIMER_REQUEST != 0 <==> self.iflags & TIMER_REQUEST != 0
                || timer_edge(self.timer),
            self.latch_interrupts().iflags & 0xF8 == self.iflags & 0xF8,
            self.latch_interrupts().ie == self.ie,
            !vblank_edge(self.latch_interrupts().ppu),
            !stat_edge(self.latch_interrupts().ppu),
            !timer_edge(self.timer) && self.timer.tima_irq > 0 ==> self.latch_interrupts().timer.tima_irq
                == self.timer.tima_irq - 1,
    {
        let before = self.iflags;
        let fresh = latched_requests(self.ppu, self.timer);
        lemma_request_bits(vblank_edge(self.ppu), stat_edge(self.ppu), timer_edge(self.timer));
        assert(fresh & 0xF8 == 0 ==> {
            &&& ((before | fresh) & 1 != 0 <==> before & 1 != 0 || fresh & 1 != 0)
            &&& ((before | fresh) & 2 != 0 <==> before & 2 != 0 || fresh & 2 != 0)
            &&& ((before | fresh) & 4 != 0 <==> before & 4 != 0 || fresh & 4 != 0)
            &&& (before | fresh) & 0xF8 == before & 0xF8
        }) by (bit_vector);
    }
}

impl Memory {
    /// Folds the devices' interrupt edges into IF. Call once per machine
    /// cycle, after the devices have been stepped.
    pub fn update_requested_interrupts(&mut self)
        requires
            old(self).wf(),
        ensures
            final(self).wf(),
            final(self)@ == old(self)@.latch_interrupts(),
    {
        let vblank = !self.ppu.vblank_irq_triggered;
        self.ppu.vblank_irq_triggered = true;
        let stat = !self.ppu.stat_irq_triggered && stat_line_active(
            self.ppu.stat,
            self.ppu.ly,
            self.ppu.lyc,
        );
        self.ppu.stat_irq_triggered = true;
        let mut timer = false;
        if self.timer.tima_irq > 0 {
            self.timer.tima_irq = self.timer.tima_irq - 1;
            timer = self.timer.tima_irq == 0;
        }
        self.iflags = self.iflags | pack_requests(vblank, stat, timer);
        assert(self@ =~= old(self)@.latch_interrupts());
    }
}

} // verus!
