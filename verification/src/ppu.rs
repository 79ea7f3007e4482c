//! The picture unit as the bus sees it: two buffers, a register window and
//! two interrupt edge flags. Rendering is not part of this crate; whoever
//! steps the device hands the stepped value back to the bus.

use vstd::prelude::*;

verus! {

/// Bytes of video RAM.
pub const VRAM_SIZE: usize = 0x2000;

/// Bytes of object attribute memory.
pub const OAM_SIZE: usize = 0xA0;

/// Pixels of one frame, 160 columns by 144 rows.
pub const FRAME_PIXELS: usize = 23040;

/// First address of the register window.
pub const PPU_REGISTERS_START: u16 = 0xFF40;

/// Last address of the register window.
pub const PPU_REGISTERS_END: u16 = 0xFF4B;

/// One rendered frame, a shade per pixel in row-major order.
#[derive(Clone, Copy, Debug)]
pub struct Display {
    pub pixels: [u8; 23040],
}

/// Bus-visible state of the picture unit.
///
/// The edge flags are active-low from the bus's side: the device clears
/// `vblank_irq_triggered` / `stat_irq_triggered` to announce an edge, and
/// the interrupt latch sets them again once the edge is folded into IF.
#[derive(Clone, Copy, Debug)]
pub struct Ppu {
    pub vram: [u8; 0x2000],
    pub oam: [u8; 0xA0],
    pub lcdc: u8,
    pub stat: u8,
    pub scy: u8,
    pub scx: u8,
    pub ly: u8,
    pub lyc: u8,
    pub dma: u8,
    pub bgp: u8,
    pub obp0: u8,
    pub obp1: u8,
    pub wy: u8,
    pub wx: u8,
    pub vblank_irq_triggered: bool,
    pub stat_irq_triggered: bool,
    pub lcd: Display,
}

/// Mathematical view of [`Ppu`]: the buffers as sequences.
pub struct PpuState {
    pub vram: Seq<u8>,
    pub oam: Seq<u8>,
    pub lcdc: u8,
    pub stat: u8,
    pub scy: u8,
    pub scx: u8,
    pub ly: u8,
    pub lyc: u8,
    pub dma: u8,
    pub bgp: u8,
    pub obp0: u8,
    pub obp1: u8,
    pub wy: u8,
    pub wx: u8,
    pub vblank_irq_triggered: bool,
    pub stat_irq_triggered: bool,
    pub lcd: Display,
}

impl PpuState {
    /// The register behind an address of the window 0xFF40..=0xFF4B.
    pub open spec fn register(self, addr: u16) -> u8 {
        if addr == 0xFF40 {
            self.lcdc
        } else if addr == 0xFF41 {
            self.stat
        } else if addr == 0xFF42 {
            self.scy
        } else if addr == 0xFF43 {
            self.scx
        } else if addr == 0xFF44 {
            self.ly
        } else if addr == 0xFF45 {
            self.lyc
        } else if addr == 0xFF46 {
            self.dma
        } else if addr == 0xFF47 {
            self.bgp
        } else if addr == 0xFF48 {
            self.obp0
        } else if addr == 0xFF49 {
            self.obp1
        } else if addr == 0xFF4A {
            self.wy
        } else {
            self.wx
        }
    }

    /// The state after storing `val` in the register behind `addr`.
    pub open spec fn with_register(self, addr: u16, val: u8) -> PpuState {
        if addr == 0xFF40 {
            PpuState { lcdc: val, ..self }
        } else if addr == 0xFF41 {
            PpuState { stat: val, ..self }
        } else if addr == 0xFF42 {
            PpuState { scy: val, ..self }
        } else if addr == 0xFF43 {
            PpuState { scx: val, ..self }
        } else if addr == 0xFF44 {
            PpuState { ly: val, ..self }
        } else if addr == 0xFF45 {
            PpuState { lyc: val, ..self }
        } else if addr == 0xFF46 {
            PpuState { dma: val, ..self }
        } else if addr == 0xFF47 {
            PpuState { bgp: val, ..self }
        } else if addr == 0xFF48 {
            PpuState { obp0: val, ..self }
        } else if addr == 0xFF49 {
            PpuState { obp1: val, ..self }
        } else if addr == 0xFF4A {
            PpuState { wy: val, ..self }
        } else {
            PpuState { wx: val, ..self }
        }
    }

    /// A picture unit with cleared buffers and registers and no edge
    /// pending, showing `lcd`.
    pub open spec fn cleared(lcd: Display) -> PpuState {
        PpuState {
            vram: Seq::new(VRAM_SIZE as nat, |i: int| 0u8),
            oam: Seq::new(OAM_SIZE as nat, |i: int| 0u8),
            lcdc: 0,
            stat: 0,
            scy: 0,
            scx: 0,
            ly: 0,
            lyc: 0,
            dma: 0,
            bgp: 0,
            obp0: 0,
            obp1: 0,
            wy: 0,
            wx: 0,
            vblank_irq_triggered: true,
            stat_irq_triggered: true,
            lcd,
        }
    }
}

impl View for Ppu {
    type V = PpuState;

    open spec fn view(&self) -> PpuState {
        PpuState {
            vram: self.vram@,
            oam: self.oam@,
            lcdc: self.lcdc,
            stat: self.stat,
            scy: self.scy,
            scx: self.scx,
            ly: self.ly,
            lyc: self.lyc,
            dma: self.dma,
            bgp: self.bgp,
            obp0: self.obp0,
            obp1: self.obp1,
            wy: self.wy,
            wx: self.wx,
            vblank_irq_triggered: self.vblank_irq_triggered,
            stat_irq_triggered: self.stat_irq_triggered,
            lcd: self.lcd,
        }
    }
}

impl Display {
    /// Whether every pixel is at shade 0.
    pub open spec fn is_blank(self) -> bool {
        forall|i: int| 0 <= i < FRAME_PIXELS ==> self.pixels@[i] == 0
    }

    /// A frame with every pixel at shade 0.
    pub fn blank() -> (d: Display)
        ensures
            d.is_blank(),
    {
        Display { pixels: [0u8;23040] }
    }
}

impl Ppu {
    /// A picture unit with cleared buffers and registers and no edge
    /// pending.
    pub fn new() -> (p: Ppu)
        ensures
            p@ == PpuState::cleared(p.lcd),
            p.lcd.is_blank(),
    {
        let p = Ppu {
            vram: [0u8;0x2000],
            oam: [0u8;0xA0],
            lcdc: 0,
            stat: 0,
            scy: 0,
            scx: 0,
            ly: 0,
            lyc: 0,
            dma: 0,
            bgp: 0,
            obp0: 0,
            obp1: 0,
            wy: 0,
            wx: 0,
            vblank_irq_triggered: true,
            stat_irq_triggered: true,
            lcd: Display::blank(),
        };
        assert(p@.vram =~= PpuState::cleared(p.lcd).vram);
        assert(p@.oam =~= PpuState::cleared(p.lcd).oam);
        p
    }

    /// The byte of video RAM at `offset`.
    pub fn read_vram(&self, offset: u16) -> (val: u8)
        requires
            offset < VRAM_SIZE,
        ensures
            val == self@.vram[offset as int],
    {
        self.vram[offset as usize]
    }

    /// Stores `val` in video RAM at `offset`.
    pub fn write_vram(&mut self, offset: u16, val: u8)
        requires
            offset < VRAM_SIZE,
        ensures
            final(self)@ == (PpuState { vram: old(self)@.vram.update(offset as int, val), ..old(self)@ }),
    {
        self.vram[offset as usize] = val;
    }

    /// The byte of object attribute memory at `offset`.
    pub fn read_oam(&self, offset: u16) -> (val: u8)
        requires
            offset < OAM_SIZE,
        ensures
            val == self@.oam[offset as int],
    {
        self.oam[offset as usize]
    }

    /// Stores `val` in object attribute memory at `offset`.
    pub fn write_oam(&mut self, offset: u16, val: u8)
        requires
            offset < OAM_SIZE,
        ensures
            final(self)@ == (PpuState { oam: old(self)@.oam.update(offset as int, val), ..old(self)@ }),
    {
        self.oam[offset as usize] = val;
    }

    /// The register behind `addr`.
    pub fn read_registers(&self, addr: u16) -> (val: u8)
        requires
            PPU_REGISTERS_START <= addr <= PPU_REGISTERS_END,
        ensures
            val == self@.register(addr),
    {
        if addr == 0xFF40 {
            self.lcdc
        } else if addr == 0xFF41 {
            self.stat
        } else if addr == 0xFF42 {
            self.scy
        } else if addr == 0xFF43 {
            self.scx
        } else if addr == 0xFF44 {
            self.ly
        } else if addr == 0xFF45 {
            self.lyc
        } else if addr == 0xFF46 {
            self.dma
        } else if addr == 0xFF47 {
            self.bgp
        } else if addr == 0xFF48 {
            self.obp0
        } else if addr == 0xFF49 {
            self.obp1
        } else if addr == 0xFF4A {
            self.wy
        } else {
            self.wx
        }
    }

    /// Stores `val` in the register behind `addr`.
    pub fn write_registers(&mut self, addr: u16, val: u8)
        requires
            PPU_REGISTERS_START <= addr <= PPU_REGISTERS_END,
        ensures
            final(self)@ == old(self)@.with_register(addr, val),
    {
        if addr == 0xFF40 {
            self.lcdc = val;
        } else if addr == 0xFF41 {
            self.stat = val;
        } else if addr == 0xFF42 {
            self.scy = val;
        } else if addr == 0xFF43 {
            self.scx = val;
        } else if addr == 0xFF44 {
            self.ly = val;
        } else if addr == 0xFF45 {
            self.lyc = val;
        } else if addr == 0xFF46 {
            self.dma = val;
        } else if addr == 0xFF47 {
            self.bgp = val;
        } else if addr == 0xFF48 {
            self.obp0 = val;
        } else if addr == 0xFF49 {
            self.obp1 = val;
        } else if addr == 0xFF4A {
            self.wy = val;
        } else {
            self.wx = val;
        }
    }
}

} // verus!
