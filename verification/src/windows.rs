//! What the guest observes through the bus: theorems about the ROM and
//! RAM windows, the boot ROM overlay and the OAM DMA, proved from the
//! decoder's definition in [`crate::bus`].

use vstd::prelude::*;
use crate::bus::{BOOT_LATCH, DMA_LENGTH, DMA_REGISTER, SRAM_END, SRAM_START};
use crate::mask::{is_power_of_two, lemma_mask_bound, lemma_mask_identity, lemma_mask_is_mod};
use crate::mbc::{BankingMode, MbcKind, BANKED_SRAM_SIZE, ROM_BANK_SIZE, SRAM_BANK_SIZE};
use crate::memory::BusState;

verus! {

impl BusState {
    /// The state after a series of writes, taken in order.
    pub open spec fn write_each(self, writes: Seq<(u16, u8)>) -> BusState
        decreases writes.len(),
    {
        if writes.len() == 0 {
            self
        } else {
            self.write(writes[0].0, writes[0].1).write_each(writes.skip(1))
        }
    }

    /// The length of a loaded image is a power of two, so every ROM access
    /// lands inside the image, at the offset reduced modulo its length.
    pub proof fn lemma_rom_access(self, offset: u32)
        requires
            self.wf(),
            self.cartridge_loaded(),
        ensures
            is_power_of_two(self.rom.len() as usize),
            ((offset as usize) & ((self.rom.len() - 1) as usize)) < self.rom.len(),
            self.rom_byte(offset) == self.rom[offset as int % self.rom.len() as int],
    {
        let len = self.rom.len() as usize;
        lemma_mask_bound(offset as usize, len);
        lemma_mask_is_mod(offset as usize, len);
    }

    /// A write the bus can take keeps the invariant.
    pub proof fn lemma_write_keeps_wf(self, addr: u16, val: u8)
        requires
            self.wf(),
            self.writable(addr, val),
        ensures
            self.write(addr, val).wf(),
    {
    }

    /// No write changes the cartridge image or the controller it was
    /// loaded with.
    pub proof fn lemma_write_keeps_cartridge(self, addr: u16, val: u8)
        ensures
            self.write(addr, val).rom == self.rom,
            self.write(addr, val).mbc.kind == self.mbc.kind,
    {
    }

    /// Without a controller, writes into the ROM and RAM windows change
    /// nothing.
    pub proof fn lemma_plain_rom_ignores_writes(self, addr: u16, val: u8)
        requires
            self.mbc.kind == MbcKind::NoMbc,
            addr <= 0x7FFF || SRAM_START <= addr <= SRAM_END,
        ensures
            self.write(addr, val) == self,
    {
    }

    /// A write to the boot latch with bit 0 set unmaps the boot ROM; one
    /// with bit 0 clear leaves the overlay as it is.
    pub proof fn lemma_boot_latch(self, val: u8)
        ensures
            val & 0x01 == 0x01 ==> !self.write(BOOT_LATCH, val).boot_rom_mounted,
            val & 0x01 != 0x01 ==> self.write(BOOT_LATCH, val).boot_rom_mounted
                == self.boot_rom_mounted,
    {
    }

    /// Once the boot ROM is unmapped, no write maps it again.
    pub proof fn lemma_write_keeps_boot_rom_unmapped(self, addr: u16, val: u8)
        requires
            !self.boot_rom_mounted,
        ensures
            !self.write(addr, val).boot_rom_mounted,
    {
    }

    /// Once the boot ROM is unmapped, no series of writes maps it again,
    /// whatever they write to the boot latch.
    pub proof fn lemma_boot_rom_unmap_is_final(self, writes: Seq<(u16, u8)>)
        requires
            !self.boot_rom_mounted,
        ensures
            !self.write_each(writes).boot_rom_mounted,
        decreases writes.len(),
    {
        if writes.len() > 0 {
            self.lemma_write_keeps_boot_rom_unmapped(writes[0].0, writes[0].1);
            self.write(writes[0].0, writes[0].1).lemma_boot_rom_unmap_is_final(writes.skip(1));
        }
    }

    /// While the boot ROM is mounted it answers the first 256 addresses;
    /// unmapped, the cartridge answers them.
    pub proof fn lemma_boot_overlay(self, addr: u16)
        requires
            addr <= 0xFF,
        ensures
            self.boot_rom_mounted ==> self.read(addr) == self.boot_rom[addr as int],
            !self.boot_rom_mounted ==> self.read(addr) == self.cartridge_read(addr),
    {
    }

    /// Without a controller the ROM window shows the image as it is.
    pub proof fn lemma_plain_rom_window(self, addr: u16)
        requires
            self.mbc.kind == MbcKind::NoMbc,
            addr <= 0x7FFF,
            !self.boot_rom_answers(addr),
        ensures
            self.read(addr) == self.rom[addr as int],
    {
    }

    /// MBC1 in simple mode: the low window shows the start of the image,
    /// whatever the upper register holds.
    pub proof fn lemma_mbc1_simple_low_window(self, addr: u16)
        requires
            self.wf(),
            self.cartridge_loaded(),
            self.mbc.kind == MbcKind::Mbc1,
            self.mbc.banking_mode == BankingMode::Simple,
            addr <= 0x3FFF,
            !self.boot_rom_answers(addr),
        ensures
            self.read(addr) == self.rom[((addr as usize) & ((self.rom.len() - 1) as usize)) as int],
            self.read(addr) == self.rom[addr as int],
    {
        lemma_mask_identity(addr as usize, self.rom.len() as usize);
    }

    /// MBC1 in advanced mode: the upper register moves the low window in
    /// steps of 512 KiB, folded into the image.
    pub proof fn lemma_mbc1_advanced_low_window(self, addr: u16)
        requires
            self.wf(),
            self.cartridge_loaded(),
            self.mbc.kind == MbcKind::Mbc1,
            self.mbc.banking_mode == BankingMode::Advanced,
            addr <= 0x3FFF,
            !self.boot_rom_answers(addr),
        ensures
            self.read(addr) == self.rom[(self.mbc.ram_or_rom_upper * 0x80000 + addr) % (
            self.rom.len() as int)],
    {
        self.mbc.lemma_mbc1_low_offset(addr);
        self.lemma_rom_access(self.mbc.mbc1_low_offset(addr));
    }

    /// MBC1: the high window shows bank `upper * 32 + bank` of the image,
    /// folded into its length, where `bank` is the low register with zero
    /// read as one.
    pub proof fn lemma_mbc1_high_window(self, addr: u16)
        requires
            self.wf(),
            self.cartridge_loaded(),
            self.mbc.kind == MbcKind::Mbc1,
            self.mbc.rom_bank_lo < 32,
            0x4000 <= addr <= 0x7FFF,
        ensures
            self.read(addr) == self.rom[((self.mbc.ram_or_rom_upper * 32 + self.mbc.mbc1_high_bank())
                * ROM_BANK_SIZE + (addr - 0x4000)) % (self.rom.len() as int)],
    {
        self.mbc.lemma_mbc1_high_offset(addr);
        self.lemma_rom_access(self.mbc.mbc1_high_offset(addr));
    }

    /// MBC1: a write to the bank register shows in the next read through
    /// the high window. The register keeps the low five bits of the value,
    /// and zero selects bank 1.
    pub proof fn lemma_mbc1_bank_switch(self, register: u16, val: u8, addr: u16)
        requires
            self.wf(),
            self.cartridge_loaded(),
            self.mbc.kind == MbcKind::Mbc1,
            0x2000 <= register <= 0x3FFF,
            0x4000 <= addr <= 0x7FFF,
        ensures
            self.write(register, val).read(addr) == self.rom[((self.mbc.ram_or_rom_upper * 32 + (if val
                & 0x1F == 0 {
                1
            } else {
                val & 0x1F
            })) * ROM_BANK_SIZE + (addr - 0x4000)) % (self.rom.len() as int)],
    {
        assert(val & 0x1F < 32) by (bit_vector);
        self.write(register, val).lemma_mbc1_high_window(addr);
    }

    /// MBC3: a write to the bank register shows in the next read through
    /// the high window. The register keeps the low seven bits of the
    /// value, and a written zero selects bank 1.
    pub proof fn lemma_mbc3_bank_switch(self, register: u16, val: u8, addr: u16)
        requires
            self.wf(),
            self.cartridge_loaded(),
            self.mbc.kind == MbcKind::Mbc3,
            0x2000 <= register <= 0x3FFF,
            0x4000 <= addr <= 0x7FFF,
        ensures
            self.write(register, val).read(addr) == self.rom[((if val == 0 {
                1
            } else {
                val & 0x7F
            }) * ROM_BANK_SIZE + (addr - 0x4000)) % (self.rom.len() as int)],
    {
        self.write(register, val).lemma_mbc3_windows(addr);
    }

    /// MBC1 with both bank registers zero: the high window shows bank 1,
    /// so address `0x4000 + k` reads the image at `0x4000 + k`.
    pub proof fn lemma_mbc1_bank_zero_reads_bank_one(self, k: u16)
        requires
            self.wf(),
            self.cartridge_loaded(),
            self.mbc.kind == MbcKind::Mbc1,
            self.mbc.rom_bank_lo == 0,
            self.mbc.ram_or_rom_upper == 0,
            k < 0x4000,
        ensures
            self.read((0x4000 + k) as u16) == self.rom[0x4000 + k],
    {
        let addr = (0x4000 + k) as u16;
        self.lemma_mbc1_high_window(addr);
        vstd::arithmetic::div_mod::lemma_small_mod((0x4000 + k) as nat, self.rom.len());
    }

    /// MBC3: the low window shows bank 0 and the high window the bank in
    /// the low register, folded into the image.
    pub proof fn lemma_mbc3_windows(self, addr: u16)
        requires
            self.wf(),
            self.cartridge_loaded(),
            self.mbc.kind == MbcKind::Mbc3,
            addr <= 0x7FFF,
            !self.boot_rom_answers(addr),
        ensures
            addr <= 0x3FFF ==> self.read(addr) == self.rom[addr as int],
            addr >= 0x4000 ==> self.read(addr) == self.rom[(self.mbc.rom_bank_lo * ROM_BANK_SIZE + (addr
                - 0x4000)) % (self.rom.len() as int)],
    {
        if addr <= 0x3FFF {
            assert(addr <= 0x3FFF ==> addr & 0x3FFF == addr) by (bit_vector);
        } else {
            self.mbc.lemma_mbc3_high_offset(addr);
            self.lemma_rom_access(self.mbc.mbc3_high_offset(addr));
        }
    }

    /// MBC1 with 32 KiB of enabled external RAM: in advanced mode the RAM
    /// window shows the bank the upper register selects, in simple mode
    /// bank 0.
    pub proof fn lemma_mbc1_sram_bank(self, k: u16)
        requires
            self.mbc.kind == MbcKind::Mbc1,
            self.mbc.ram_enabled,
            self.sram.len() == BANKED_SRAM_SIZE,
            k < SRAM_BANK_SIZE,
        ensures
            self.mbc.banking_mode == BankingMode::Advanced ==> self.read((0xA000 + k) as u16)
                == self.sram[self.mbc.ram_or_rom_upper * SRAM_BANK_SIZE + k],
            self.mbc.banking_mode == BankingMode::Simple ==> self.read((0xA000 + k) as u16)
                == self.sram[k as int],
            self.readable((0xA000 + k) as u16) <==> self.cartridge_loaded() && (self.mbc.banking_mode
                == BankingMode::Advanced ==> self.mbc.ram_or_rom_upper < 4),
    {
        self.mbc.lemma_sram_index(self.sram.len(), (0xA000 + k) as u16);
    }

    /// With any other size of external RAM the window shows bank 0 in
    /// either mode.
    pub proof fn lemma_unbanked_sram(self, k: u16)
        requires
            self.mbc.kind == MbcKind::Mbc1 || self.mbc.kind == MbcKind::Mbc3,
            self.mbc.ram_enabled,
            self.sram.len() != BANKED_SRAM_SIZE,
            k < SRAM_BANK_SIZE,
        ensures
            self.read((0xA000 + k) as u16) == self.sram[k as int],
    {
        self.mbc.lemma_sram_index(self.sram.len(), (0xA000 + k) as u16);
    }

    /// While the external RAM is disabled, a write into its window changes
    /// nothing and a read returns 0xFF.
    pub proof fn lemma_disabled_sram(self, addr: u16, val: u8)
        requires
            self.mbc.kind == MbcKind::Mbc1 || self.mbc.kind == MbcKind::Mbc3,
            !self.mbc.ram_enabled,
            SRAM_START <= addr <= SRAM_END,
        ensures
            self.write(addr, val) == self,
            self.read(addr) == 0xFF,
    {
    }

    /// While the external RAM is enabled, a byte written into its window
    /// is the byte read back there.
    pub proof fn lemma_sram_write_then_read(self, addr: u16, val: u8)
        requires
            self.mbc.kind == MbcKind::Mbc1 || self.mbc.kind == MbcKind::Mbc3,
            self.mbc.ram_enabled,
            SRAM_START <= addr <= SRAM_END,
            self.sram_reachable(addr),
        ensures
            self.write(addr, val).read(addr) == val,
    {
    }

    /// An OAM DMA from page `page` leaves in each of the 160 bytes of
    /// object attribute memory what the bus read at `page * 256 + i` when
    /// the DMA was started, and touches nothing else.
    pub proof fn lemma_dma_copies_page(self, page: u8, i: int)
        requires
            0 <= i < DMA_LENGTH,
        ensures
            self.write(DMA_REGISTER, page).ppu.oam.len() == DMA_LENGTH,
            self.write(DMA_REGISTER, page).ppu.oam[i] == self.read((page * 0x100 + i) as u16),
            self.write(DMA_REGISTER, page) == (BusState {
                ppu: crate::ppu::PpuState {
                    oam: self.write(DMA_REGISTER, page).ppu.oam,
                    ..self.ppu
                },
                ..self
            }),
    {
    }
}

} // verus!
