//! Address decoding: which device answers a 16-bit address, and what a
//! read returns and a write changes.
//!
//! The decoder is stated twice: as `BusState::read` / `BusState::write`
//! over the mathematical state, and as `Memory::read` / `Memory::write`,
//! which are proved to compute exactly that.

use vstd::prelude::*;
use crate::joypad::{joypad_nibble, read_joypad};
use crate::mask::lemma_mask_bound;
use crate::mbc::{BankingMode, MbcKind};
use crate::memory::{BusState, Memory};
use crate::ppu::{PpuState, OAM_SIZE};

verus! {

/// Last address of the cartridge ROM window.
pub const ROM_END: u16 = 0x7FFF;

/// Last address of the fixed half of the ROM window.
pub const ROM_LOW_END: u16 = 0x3FFF;

/// First address of video RAM.
pub const VRAM_START: u16 = 0x8000;

/// Last address of video RAM.
pub const VRAM_END: u16 = 0x9FFF;

/// First address of the external RAM window.
pub const SRAM_START: u16 = 0xA000;

/// Last address of the external RAM window.
pub const SRAM_END: u16 = 0xBFFF;

/// First address of work RAM.
pub const WRAM_START: u16 = 0xC000;

/// Last address of work RAM.
pub const WRAM_END: u16 = 0xDFFF;

/// First address of object attribute memory.
pub const OAM_START: u16 = 0xFE00;

/// Last address of object attribute memory.
pub const OAM_END: u16 = 0xFE9F;

/// The joypad register.
pub const JOYP: u16 = 0xFF00;

/// The serial data register, which reads as 0xFF.
pub const SERIAL_DATA: u16 = 0xFF01;

/// The interrupt flag register.
pub const IF_REGISTER: u16 = 0xFF0F;

/// The register that starts an OAM DMA.
pub const DMA_REGISTER: u16 = 0xFF46;

/// The register that unmaps the boot ROM.
pub const BOOT_LATCH: u16 = 0xFF50;

/// First address of high RAM.
pub const HRAM_START: u16 = 0xFF80;

/// Last address of high RAM.
pub const HRAM_END: u16 = 0xFFFE;

/// The interrupt enable register.
pub const IE_REGISTER: u16 = 0xFFFF;

/// What a disabled external RAM and the serial stub read as.
pub const OPEN_BUS: u8 = 0xFF;

/// Bytes one OAM DMA copies.
pub const DMA_LENGTH: u16 = 0xA0;

/// Why the bus cannot serve an access.
#[derive(Clone, Copy, Debug, PartialEq, Eq, Structural)]
pub enum AccessFault {
    /// The address belongs to the cartridge and none is loaded.
    NoCartridge,
    /// MBC3 has a clock register (upper register above 3) selected in the
    /// RAM window. The clock is not emulated.
    UnsupportedRtc,
    /// The external RAM is enabled, but the byte the controller selects
    /// does not exist.
    MissingRam,
    /// A DMA was asked from a page the bus cannot read in full.
    UnreadableDmaSource,
}

impl BusState {
    /// Whether the boot ROM answers `addr`.
    pub open spec fn boot_rom_answers(self, addr: u16) -> bool {
        self.boot_rom_mounted && addr <= 0xFF
    }

    /// The ROM byte at `offset`, folded into the image by masking with its
    /// length minus one.
    pub open spec fn rom_byte(self, offset: u32) -> u8 {
        self.rom[((offset as usize) & ((self.rom.len() - 1) as usize)) as int]
    }

    /// Whether the external RAM can serve `addr`: it is disabled (and reads
    /// as open bus), or the byte the controller selects exists.
    pub open spec fn sram_reachable(self, addr: u16) -> bool {
        !self.mbc.ram_enabled || self.mbc.sram_index(self.sram.len(), addr) < self.sram.len()
    }

    /// What an external RAM read returns under MBC1 or MBC3.
    pub open spec fn sram_read(self, addr: u16) -> u8 {
        if self.mbc.ram_enabled {
            self.sram[self.mbc.sram_index(self.sram.len(), addr) as int]
        } else {
            OPEN_BUS
        }
    }

    /// The state after an external RAM write under MBC1 or MBC3: the
    /// selected byte is replaced, or nothing happens while the RAM is
    /// disabled.
    pub open spec fn sram_write(self, addr: u16, val: u8) -> BusState {
        if self.mbc.ram_enabled {
            BusState {
                sram: self.sram.update(self.mbc.sram_index(self.sram.len(), addr) as int, val),
                ..self
            }
        } else {
            self
        }
    }

    /// What MBC1 returns for `addr` in 0x0000..=0x7FFF or 0xA000..=0xBFFF.
    pub open spec fn mbc1_read(self, addr: u16) -> u8 {
        if addr <= ROM_LOW_END {
            self.rom_byte(self.mbc.mbc1_low_offset(addr))
        } else if addr <= ROM_END {
            self.rom_byte(self.mbc.mbc1_high_offset(addr))
        } else {
            self.sram_read(addr)
        }
    }

    /// What MBC3 returns for `addr` in 0x0000..=0x7FFF or 0xA000..=0xBFFF.
    pub open spec fn mbc3_read(self, addr: u16) -> u8 {
        if addr <= ROM_LOW_END {
            self.rom[(addr & 0x3FFF) as int]
        } else if addr <= ROM_END {
            self.rom_byte(self.mbc.mbc3_high_offset(addr))
        } else {
            self.sram_read(addr)
        }
    }

    /// The state after MBC1 sees a write to `addr` in 0x0000..=0x7FFF or
    /// 0xA000..=0xBFFF.
    pub open spec fn mbc1_write(self, addr: u16, val: u8) -> BusState {
        if addr <= ROM_END {
            BusState { mbc: self.mbc.mbc1_control(addr, val), ..self }
        } else {
            self.sram_write(addr, val)
        }
    }

    /// The state after MBC3 sees a write to `addr` in 0x0000..=0x7FFF or
    /// 0xA000..=0xBFFF.
    pub open spec fn mbc3_write(self, addr: u16, val: u8) -> BusState {
        if addr <= ROM_END {
            BusState { mbc: self.mbc.mbc3_control(addr, val), ..self }
        } else {
            self.sram_write(addr, val)
        }
    }

    /// What the cartridge returns for `addr` in 0x0000..=0x7FFF or
    /// 0xA000..=0xBFFF. Without a controller both windows show the image
    /// itself.
    pub open spec fn cartridge_read(self, addr: u16) -> u8 {
        match self.mbc.kind {
            MbcKind::Mbc1 => self.mbc1_read(addr),
            MbcKind::Mbc3 => self.mbc3_read(addr),
            _ => self.rom[addr as int],
        }
    }

    /// The state after the cartridge sees a write to `addr` in
    /// 0x0000..=0x7FFF or 0xA000..=0xBFFF. Without a controller the write
    /// is dropped.
    pub open spec fn cartridge_write(self, addr: u16, val: u8) -> BusState {
        match self.mbc.kind {
            MbcKind::Mbc1 => self.mbc1_write(addr, val),
            MbcKind::Mbc3 => self.mbc3_write(addr, val),
            _ => self,
        }
    }

    /// Whether MBC1 can serve an access to `addr` in 0x0000..=0x7FFF or
    /// 0xA000..=0xBFFF: a cartridge is loaded, and in the RAM window the
    /// external RAM is reachable.
    pub open spec fn mbc1_reachable(self, addr: u16) -> bool {
        self.cartridge_loaded() && (addr >= SRAM_START ==> self.sram_reachable(addr))
    }

    /// Whether MBC3 can serve an access to `addr` in 0x0000..=0x7FFF or
    /// 0xA000..=0xBFFF. As for MBC1, and in the RAM window no clock
    /// register (upper register above 3) may be selected: the clock is not
    /// emulated.
    pub open spec fn mbc3_reachable(self, addr: u16) -> bool {
        self.cartridge_loaded() && (addr >= SRAM_START ==> self.mbc.ram_or_rom_upper <= 3
            && self.sram_reachable(addr))
    }

    /// Why the cartridge cannot serve an access to `addr` in
    /// 0x0000..=0x7FFF or 0xA000..=0xBFFF, if it cannot.
    pub open spec fn cartridge_fault(self, addr: u16) -> Option<AccessFault> {
        if !self.cartridge_loaded() {
            Some(AccessFault::NoCartridge)
        } else if addr < SRAM_START {
            None
        } else if self.mbc.kind == MbcKind::Mbc3 && self.mbc.ram_or_rom_upper > 3 {
            Some(AccessFault::UnsupportedRtc)
        } else if (self.mbc.kind == MbcKind::Mbc1 || self.mbc.kind == MbcKind::Mbc3)
            && !self.sram_reachable(addr) {
            Some(AccessFault::MissingRam)
        } else {
            None
        }
    }

    /// Why the bus cannot serve a read of `addr`, if it cannot. Only the
    /// cartridge windows can fail, and only where the boot ROM does not
    /// answer in the cartridge's place.
    pub open spec fn read_fault(self, addr: u16) -> Option<AccessFault> {
        if self.boot_rom_answers(addr) {
            None
        } else if addr <= ROM_END || (SRAM_START <= addr <= SRAM_END) {
            self.cartridge_fault(addr)
        } else {
            None
        }
    }

    /// Whether a read of `addr` is defined.
    pub open spec fn readable(self, addr: u16) -> bool {
        self.read_fault(addr) is None
    }

    /// What a read of `addr` returns.
    pub open spec fn read(self, addr: u16) -> u8 {
        if self.boot_rom_answers(addr) {
            self.boot_rom[addr as int]
        } else if addr <= ROM_END {
            self.cartridge_read(addr)
        } else if addr <= VRAM_END {
            self.ppu.vram[addr - VRAM_START]
        } else if addr <= SRAM_END {
            self.cartridge_read(addr)
        } else if addr <= WRAM_END {
            self.wram[addr - WRAM_START]
        } else if OAM_START <= addr <= OAM_END {
            self.ppu.oam[addr - OAM_START]
        } else if addr == JOYP {
            joypad_nibble(self.keypress, self.joyp)
        } else if addr == SERIAL_DATA {
            OPEN_BUS
        } else if 0xFF04 <= addr <= 0xFF07 {
            self.timer.register(addr)
        } else if addr == IF_REGISTER {
            self.iflags
        } else if 0xFF40 <= addr <= 0xFF4B {
            self.ppu.register(addr)
        } else if addr == BOOT_LATCH {
            if self.boot_rom_mounted {
                1
            } else {
                0
            }
        } else if HRAM_START <= addr <= HRAM_END {
            self.hram[addr - HRAM_START]
        } else if addr == IE_REGISTER {
            self.ie
        } else {
            0
        }
    }

    /// The 160 bytes an OAM DMA from page `page` fetches: what the bus
    /// reads at `page * 256 + i`.
    pub open spec fn dma_image(self, page: u8) -> Seq<u8> {
        Seq::new(DMA_LENGTH as nat, |i: int| self.read((page * 0x100 + i) as u16))
    }

    /// Whether every byte of page `page` that an OAM DMA fetches can be
    /// read.
    pub open spec fn dma_readable(self, page: u8) -> bool {
        forall|i: int| 0 <= i < DMA_LENGTH ==> #[trigger] self.readable((page * 0x100 + i) as u16)
    }

    /// Why the bus cannot serve a write of `val` to `addr`, if it cannot.
    /// A write into the RAM window fails as a read there does, unless the
    /// cartridge has no controller and drops it; a write to the DMA
    /// register fails if the source page cannot be read in full.
    pub open spec fn write_fault(self, addr: u16, val: u8) -> Option<AccessFault> {
        if SRAM_START <= addr <= SRAM_END {
            if self.mbc.kind == MbcKind::Mbc1 || self.mbc.kind == MbcKind::Mbc3 {
                self.cartridge_fault(addr)
            } else {
                None
            }
        } else if addr == DMA_REGISTER && !self.dma_readable(val) {
            Some(AccessFault::UnreadableDmaSource)
        } else {
            None
        }
    }

    /// Whether a write of `val` to `addr` is defined.
    pub open spec fn writable(self, addr: u16, val: u8) -> bool {
        self.write_fault(addr, val) is None
    }

    /// The state after a write of `val` to `addr`.
    pub open spec fn write(self, addr: u16, val: u8) -> BusState {
        if addr <= ROM_END {
            self.cartridge_write(addr, val)
        } else if addr <= VRAM_END {
            BusState {
                ppu: PpuState { vram: self.ppu.vram.update(addr - VRAM_START, val), ..self.ppu },
                ..self
            }
        } else if addr <= SRAM_END {
            self.cartridge_write(addr, val)
        } else if addr <= WRAM_END {
            BusState { wram: self.wram.update(addr - WRAM_START, val), ..self }
        } else if OAM_START <= addr <= OAM_END {
            BusState {
                ppu: PpuState { oam: self.ppu.oam.update(addr - OAM_START, val), ..self.ppu },
                ..self
            }
        } else if addr == JOYP {
            BusState { joyp: val, ..self }
        } else if 0xFF04 <= addr <= 0xFF07 {
            BusState { timer: self.timer.with_register(addr, val), ..self }
        } else if addr == IF_REGISTER {
            BusState { iflags: val, ..self }
        } else if addr == DMA_REGISTER {
            BusState { ppu: PpuState { oam: self.dma_image(val), ..self.ppu }, ..self }
        } else if 0xFF40 <= addr <= 0xFF4B {
            BusState { ppu: self.ppu.with_register(addr, val), ..self }
        } else if addr == BOOT_LATCH {
            if val & 0x01 == 0x01 {
                BusState { boot_rom_mounted: false, ..self }
            } else {
                self
            }
        } else if HRAM_START <= addr <= HRAM_END {
            BusState { hram: self.hram.update(addr - HRAM_START, val), ..self }
        } else if addr == IE_REGISTER {
            BusState { ie: val, ..self }
        } else {
            self
        }
    }
}

impl Memory {
    /// The ROM byte at `offset`, folded into the image.
    fn rom_at(&self, offset: u32) -> (val: u8)
        requires
            self@.cartridge_loaded(),
        ensures
            val == self@.rom_byte(offset),
    {
        let len = self.rom_chip.len();
        proof {
            lemma_mask_bound(offset as usize, len);
        }
        self.rom_chip[(offset as usize) & (len - 1)]
    }

    /// Reads the external RAM under MBC1 or MBC3.
    fn sram_at(&self, addr: u16) -> (val: u8)
        requires
            self@.sram_reachable(addr),
        ensures
            val == self@.sram_read(addr),
    {
        if self.mbc.ram_enabled {
            self.sram[self.mbc.index_sram(self.sram.len(), addr)]
        } else {
            OPEN_BUS
        }
    }

    /// Writes the external RAM under MBC1 or MBC3.
    fn sram_store(&mut self, addr: u16, val: u8)
        requires
            old(self).wf(),
            old(self)@.sram_reachable(addr),
        ensures
            final(self).wf(),
            final(self)@ == old(self)@.sram_write(addr, val),
    {
        if self.mbc.ram_enabled {
            let index = self.mbc.index_sram(self.sram.len(), addr);
            self.sram[index] = val;
        }
        assert(self@ =~= old(self)@.sram_write(addr, val));
    }

    /// Reads `addr` through MBC1: the fixed or the switchable ROM window,
    /// or the external RAM.
    pub fn mbc1_read(&self, addr: u16) -> (val: u8)
        requires
            self.wf(),
            addr <= ROM_END || SRAM_START <= addr <= SRAM_END,
            self@.mbc1_reachable(addr),
        ensures
            val == self@.mbc1_read(addr),
    {
        if addr <= ROM_LOW_END {
            self.rom_at(self.mbc.low_offset_mbc1(addr))
        } else if addr <= ROM_END {
            self.rom_at(self.mbc.high_offset_mbc1(addr))
        } else {
            self.sram_at(addr)
        }
    }

    /// Hands a write to `addr` to MBC1: a control register below 0x8000,
    /// the external RAM above.
    pub fn mbc1_write(&mut self, addr: u16, val: u8)
        requires
            old(self).wf(),
            addr <= ROM_END || SRAM_START <= addr <= SRAM_END,
            addr >= SRAM_START ==> old(self)@.sram_reachable(addr),
        ensures
            final(self).wf(),
            final(self)@ == old(self)@.mbc1_write(addr, val),
    {
        if addr <= 0x1FFF {
            self.mbc.ram_enabled = val & 0x0F == 0x0A;
        } else if addr <= 0x3FFF {
            self.mbc.rom_bank_lo = val & 0x1F;
        } else if addr <= 0x5FFF {
            self.mbc.ram_or_rom_upper = val & 0x03;
        } else if addr <= ROM_END {
            self.mbc.banking_mode = if val & 0x01 == 0x01 {
                BankingMode::Advanced
            } else {
                BankingMode::Simple
            };
        } else {
            self.sram_store(addr, val);
        }
        assert(self@ =~= old(self)@.mbc1_write(addr, val));
    }

    /// Reads `addr` through MBC3: bank 0, the switchable ROM window, or the
    /// external RAM.
    pub fn mbc3_read(&self, addr: u16) -> (val: u8)
        requires
            self.wf(),
            addr <= ROM_END || SRAM_START <= addr <= SRAM_END,
            self@.mbc3_reachable(addr),
        ensures
            val == self@.mbc3_read(addr),
    {
        if addr <= ROM_LOW_END {
            let within: u16 = addr & 0x3FFF;
            assert(within <= 0x3FFF) by (bit_vector)
                requires
                    within == addr & 0x3FFF,
            ;
            self.rom_chip[within as usize]
        } else if addr <= ROM_END {
            self.rom_at(self.mbc.high_offset_mbc3(addr))
        } else {
            self.sram_at(addr)
        }
    }

    /// Hands a write to `addr` to MBC3: a control register below 0x8000,
    /// the external RAM above.
    pub fn mbc3_write(&mut self, addr: u16, val: u8)
        requires
            old(self).wf(),
            addr <= ROM_END || SRAM_START <= addr <= SRAM_END,
            addr >= SRAM_START ==> old(self)@.mbc.ram_or_rom_upper <= 3 && old(self)@.sram_reachable(
                addr,
            ),
        ensures
            final(self).wf(),
            final(self)@ == old(self)@.mbc3_write(addr, val),
    {
        if addr <= 0x1FFF {
            if val == 0x0A {
                self.mbc.ram_enabled = true;
            } else if val == 0x00 {
                self.mbc.ram_enabled = false;
            }
        } else if addr <= 0x3FFF {
            self.mbc.rom_bank_lo = if val == 0x00 {
                0x01
            } else {
                val & 0x7F
            };
        } else if addr <= 0x5FFF {
            self.mbc.ram_or_rom_upper = val;
        } else if addr <= ROM_END {
        } else {
            self.sram_store(addr, val);
        }
        assert(self@ =~= old(self)@.mbc3_write(addr, val));
    }

    /// Reads `addr` from the cartridge.
    fn cartridge_at(&self, addr: u16) -> (val: u8)
        requires
            self.wf(),
            addr <= ROM_END || SRAM_START <= addr <= SRAM_END,
            self@.cartridge_fault(addr) is None,
        ensures
            val == self@.cartridge_read(addr),
    {
        if self.mbc.kind == MbcKind::Mbc1 {
            self.mbc1_read(addr)
        } else if self.mbc.kind == MbcKind::Mbc3 {
            self.mbc3_read(addr)
        } else {
            self.rom_chip[addr as usize]
        }
    }

    /// Why the cartridge cannot serve an access to `addr`, if it cannot.
    fn cartridge_fault(&self, addr: u16) -> (fault: Option<AccessFault>)
        requires
            self.wf(),
            addr <= ROM_END || SRAM_START <= addr <= SRAM_END,
        ensures
            fault == self@.cartridge_fault(addr),
    {
        if self.rom_chip.len() == 0 {
            Some(AccessFault::NoCartridge)
        } else if addr < SRAM_START {
            None
        } else if self.mbc.kind == MbcKind::Mbc3 && self.mbc.ram_or_rom_upper > 3 {
            Some(AccessFault::UnsupportedRtc)
        } else if (self.mbc.kind == MbcKind::Mbc1 || self.mbc.kind == MbcKind::Mbc3)
            && self.mbc.ram_enabled && self.mbc.index_sram(self.sram.len(), addr) >= self.sram.len() {
            Some(AccessFault::MissingRam)
        } else {
            None
        }
    }

    /// Why the bus cannot serve a read of `addr`, if it cannot.
    pub fn read_fault(&self, addr: u16) -> (fault: Option<AccessFault>)
        requires
            self.wf(),
        ensures
            fault == self@.read_fault(addr),
    {
        if self.boot_rom_mounted && addr <= 0xFF {
            None
        } else if addr <= ROM_END || (SRAM_START <= addr && addr <= SRAM_END) {
            self.cartridge_fault(addr)
        } else {
            None
        }
    }

    /// Whether a read of `addr` is defined.
    pub fn can_read(&self, addr: u16) -> (ok: bool)
        requires
            self.wf(),
        ensures
            ok == self@.readable(addr),
    {
        match self.read_fault(addr) {
            None => true,
            Some(_) => false,
        }
    }

    /// Reads the byte the bus shows at `addr`.
    pub fn read(&self, addr: u16) -> (val: u8)
        requires
            self.wf(),
            self@.readable(addr),
        ensures
            val == self@.read(addr),
    {
        if self.boot_rom_mounted && addr <= 0xFF {
            self.boot_rom[addr as usize]
        } else if addr <= ROM_END {
            self.cartridge_at(addr)
        } else if addr <= VRAM_END {
            self.ppu.read_vram(addr - VRAM_START)
        } else if addr <= SRAM_END {
            self.cartridge_at(addr)
        } else if addr <= WRAM_END {
            self.wram[(addr - WRAM_START) as usize]
        } else if OAM_START <= addr && addr <= OAM_END {
            self.ppu.read_oam(addr - OAM_START)
        } else if addr == JOYP {
            read_joypad(self.keypress, self.joyp)
        } else if addr == SERIAL_DATA {
            OPEN_BUS
        } else if 0xFF04 <= addr && addr <= 0xFF07 {
            self.timer.read_registers(addr)
        } else if addr == IF_REGISTER {
            self.iflags
        } else if 0xFF40 <= addr && addr <= 0xFF4B {
            self.ppu.read_registers(addr)
        } else if addr == BOOT_LATCH {
            if self.boot_rom_mounted {
                1
            } else {
                0
            }
        } else if HRAM_START <= addr && addr <= HRAM_END {
            self.hram[(addr - HRAM_START) as usize]
        } else if addr == IE_REGISTER {
            self.ie
        } else {
            0
        }
    }

    /// Whether every byte an OAM DMA from page `page` fetches can be read.
    fn can_read_page(&self, page: u8) -> (ok: bool)
        requires
            self.wf(),
        ensures
            ok == self@.dma_readable(page),
    {
        let source: u16 = (page as u16) * 0x100;
        let mut i: u16 = 0;
        while i < DMA_LENGTH
            invariant
                i <= DMA_LENGTH,
                source == page * 0x100,
                self.wf(),
                forall|j: int| 0 <= j < i ==> #[trigger] self@.readable((page * 0x100 + j) as u16),
            decreases DMA_LENGTH - i,
        {
            if !self.can_read(source + i) {
                return false;
            }
            i = i + 1;
        }
        true
    }

    /// Why the bus cannot serve a write of `val` to `addr`, if it cannot.
    pub fn write_fault(&self, addr: u16, val: u8) -> (fault: Option<AccessFault>)
        requires
            self.wf(),
        ensures
            fault == self@.write_fault(addr, val),
    {
        if SRAM_START <= addr && addr <= SRAM_END {
            if self.mbc.kind == MbcKind::Mbc1 || self.mbc.kind == MbcKind::Mbc3 {
                self.cartridge_fault(addr)
            } else {
                None
            }
        } else if addr == DMA_REGISTER && !self.can_read_page(val) {
            Some(AccessFault::UnreadableDmaSource)
        } else {
            None
        }
    }

    /// Whether a write of `val` to `addr` is defined.
    pub fn can_write(&self, addr: u16, val: u8) -> (ok: bool)
        requires
            self.wf(),
        ensures
            ok == self@.writable(addr, val),
    {
        match self.write_fault(addr, val) {
            None => true,
            Some(_) => false,
        }
    }

    /// Copies the 160 bytes at `source`, the start of a page, into object
    /// attribute memory, each fetched through [`Memory::read`] in
    /// ascending order.
    pub fn oam_dma_transfer(&mut self, source: u16)
        requires
            old(self).wf(),
            source % 0x100 == 0,
            old(self)@.dma_readable((source / 0x100) as u8),
        ensures
            final(self).wf(),
            final(self)@ == (BusState {
                ppu: PpuState {
                    oam: old(self)@.dma_image((source / 0x100) as u8),
                    ..old(self)@.ppu
                },
                ..old(self)@
            }),
    {
        let ghost page: u8 = (source / 0x100) as u8;
        let ghost before = self@;
        let mut i: u16 = 0;
        while i < DMA_LENGTH
            invariant
                i <= DMA_LENGTH,
                source == page * 0x100,
                before.wf(),
                before.dma_readable(page),
                before.ppu.oam.len() == OAM_SIZE,
                self@ == (BusState { ppu: PpuState { oam: self@.ppu.oam, ..before.ppu }, ..before }),
                self@.ppu.oam.len() == OAM_SIZE,
                forall|j: int| 0 <= j < i ==> self@.ppu.oam[j] == before.read((page * 0x100 + j) as u16),
                forall|j: int| i <= j < OAM_SIZE ==> self@.ppu.oam[j] == before.ppu.oam[j],
            decreases DMA_LENGTH - i,
        {
            let addr: u16 = source + i;
            assert(before.readable((page * 0x100 + i) as u16));
            assert(self@.readable(addr));
            assert(self@.read(addr) == before.read(addr));
            let val = self.read(addr);
            self.ppu.write_oam(i, val);
            i = i + 1;
        }
        assert(self@.ppu.oam =~= before.dma_image(page));
    }

    /// Writes `val` to `addr`: stores it in the RAM or register that lives
    /// there, hands it to the bank controller, starts an OAM DMA, unmaps
    /// the boot ROM, or drops it.
    pub fn write(&mut self, addr: u16, val: u8)
        requires
            old(self).wf(),
            old(self)@.writable(addr, val),
        ensures
            final(self).wf(),
            final(self)@ == old(self)@.write(addr, val),
    {
        if addr <= ROM_END || (SRAM_START <= addr && addr <= SRAM_END) {
            if self.mbc.kind == MbcKind::Mbc1 {
                self.mbc1_write(addr, val);
            } else if self.mbc.kind == MbcKind::Mbc3 {
                self.mbc3_write(addr, val);
            }
        } else if addr <= VRAM_END {
            self.ppu.write_vram(addr - VRAM_START, val);
        } else if addr <= WRAM_END {
            self.wram[(addr - WRAM_START) as usize] = val;
        } else if OAM_START <= addr && addr <= OAM_END {
            self.ppu.write_oam(addr - OAM_START, val);
        } else if addr == JOYP {
            self.joyp = val;
        } else if 0xFF04 <= addr && addr <= 0xFF07 {
            self.timer.write_registers(addr, val);
        } else if addr == IF_REGISTER {
            self.iflags = val;
        } else if addr == DMA_REGISTER {
            self.oam_dma_transfer((val as u16) * 0x100);
        } else if 0xFF40 <= addr && addr <= 0xFF4B {
            self.ppu.write_registers(addr, val);
        } else if addr == BOOT_LATCH {
            if val & 0x01 == 0x01 {
                self.boot_rom_mounted = false;
            }
        } else if HRAM_START <= addr && addr <= HRAM_END {
            self.hram[(addr - HRAM_START) as usize] = val;
        } else if addr == IE_REGISTER {
            self.ie = val;
        }
        assert(self@ =~= old(self)@.write(addr, val));
    }
}

} // verus!
