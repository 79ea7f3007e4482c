//! Memory-bank-controller registers and the address arithmetic they drive.
//!
//! Everything here is a pure function of the register file and the guest
//! address; the bus supplies the ROM and SRAM the offsets index into.

use vstd::prelude::*;

verus! {

/// The bank controller a cartridge carries.
#[derive(Clone, Copy, Debug, PartialEq, Eq, Structural)]
pub enum MbcKind {
    /// Plain ROM, no controller.
    NoMbc,
    Mbc1,
    /// An MBC1 wired for a multi-game cartridge. Recognised, not emulated.
    Mbc1Multicart,
    Mbc3,
}

/// MBC1 banking mode: whether the upper register also steers the low ROM
/// window and the RAM bank.
#[derive(Clone, Copy, Debug, PartialEq, Eq, Structural)]
pub enum BankingMode {
    Simple,
    Advanced,
}

/// The controller's register file. Registers are stored as written (after
/// the controller's own masking); the zero-to-one bank remap of MBC1 is
/// applied when an address is resolved, not here.
#[derive(Clone, Copy, Debug, PartialEq, Eq, Structural)]
pub struct MbcState {
    pub kind: MbcKind,
    pub ram_enabled: bool,
    pub rom_bank_lo: u8,
    pub ram_or_rom_upper: u8,
    pub banking_mode: BankingMode,
}

/// Size in bytes of one switchable ROM bank.
pub const ROM_BANK_SIZE: usize = 0x4000;

/// Size in bytes of one external-RAM bank.
pub const SRAM_BANK_SIZE: usize = 0x2000;

/// Length of the external RAM on cartridges whose RAM the upper register
/// can bank.
pub const BANKED_SRAM_SIZE: usize = 0x8000;

impl MbcState {
    /// Registers at power-on: no controller, RAM disabled, bank registers
    /// zero, simple banking.
    pub open spec fn power_on() -> MbcState {
        MbcState {
            kind: MbcKind::NoMbc,
            ram_enabled: false,
            rom_bank_lo: 0,
            ram_or_rom_upper: 0,
            banking_mode: BankingMode::Simple,
        }
    }

    /// The bank MBC1 shows in 0x4000..=0x7FFF: the low register, with zero
    /// read as one.
    pub open spec fn mbc1_high_bank(self) -> u8 {
        if self.rom_bank_lo == 0 {
            1
        } else {
            self.rom_bank_lo
        }
    }

    /// ROM offset MBC1 forms for an address in 0x0000..=0x3FFF.
    pub open spec fn mbc1_low_offset(self, addr: u16) -> u32 {
        if self.banking_mode == BankingMode::Advanced {
            ((self.ram_or_rom_upper as u32) << 19) | ((addr as u32) & 0x3FFF)
        } else {
            addr as u32
        }
    }

    /// ROM offset MBC1 forms for an address in 0x4000..=0x7FFF.
    pub open spec fn mbc1_high_offset(self, addr: u16) -> u32 {
        ((self.ram_or_rom_upper as u32) << 19) | ((self.mbc1_high_bank() as u32) << 14) | ((addr as u32)
            & 0x3FFF)
    }

    /// ROM offset MBC3 forms for an address in 0x4000..=0x7FFF.
    pub open spec fn mbc3_high_offset(self, addr: u16) -> u32 {
        ((self.rom_bank_lo as u32) << 14) | ((addr as u32) & 0x3FFF)
    }

    /// Start of the SRAM bank in view: the upper register selects a bank
    /// only in advanced mode on a 32 KiB RAM, otherwise bank 0 is in view.
    pub open spec fn sram_bank_base(self, sram_len: nat) -> nat {
        if self.banking_mode == BankingMode::Advanced && sram_len == BANKED_SRAM_SIZE {
            (self.ram_or_rom_upper as nat) * (SRAM_BANK_SIZE as nat)
        } else {
            0
        }
    }

    /// SRAM index behind an address in 0xA000..=0xBFFF.
    pub open spec fn sram_index(self, sram_len: nat, addr: u16) -> nat {
        self.sram_bank_base(sram_len) + ((addr & 0x1FFF) as nat)
    }

    /// Registers after an MBC1 control write to `addr` in 0x0000..=0x7FFF.
    pub open spec fn mbc1_control(self, addr: u16, val: u8) -> MbcState {
        if addr <= 0x1FFF {
            MbcState { ram_enabled: val & 0x0F == 0x0A, ..self }
        } else if addr <= 0x3FFF {
            MbcState { rom_bank_lo: val & 0x1F, ..self }
        } else if addr <= 0x5FFF {
            MbcState { ram_or_rom_upper: val & 0x03, ..self }
        } else {
            MbcState {
                banking_mode: if val & 0x01 == 0x01 {
                    BankingMode::Advanced
                } else {
                    BankingMode::Simple
                },
                ..self
            }
        }
    }

    /// Registers after an MBC3 control write to `addr` in 0x0000..=0x7FFF.
    /// The enable register reacts to 0x0A and 0x00 only; the latch-clock
    /// range 0x6000..=0x7FFF changes nothing.
    pub open spec fn mbc3_control(self, addr: u16, val: u8) -> MbcState {
        if addr <= 0x1FFF {
            if val == 0x0A {
                MbcState { ram_enabled: true, ..self }
            } else if val == 0x00 {
                MbcState { ram_enabled: false, ..self }
            } else {
                self
            }
        } else if addr <= 0x3FFF {
            MbcState { rom_bank_lo: if val == 0 { 1 } else { val & 0x7F }, ..self }
        } else if addr <= 0x5FFF {
            MbcState { ram_or_rom_upper: val, ..self }
        } else {
            self
        }
    }

    /// Executable form of [`MbcState::mbc1_low_offset`].
    pub fn low_offset_mbc1(&self, addr: u16) -> (offset: u32)
        ensures
            offset == self.mbc1_low_offset(addr),
    {
        if self.banking_mode == BankingMode::Advanced {
            ((self.ram_or_rom_upper as u32) << 19) | ((addr as u32) & 0x3FFF)
        } else {
            addr as u32
        }
    }

    /// Executable form of [`MbcState::mbc1_high_offset`].
    pub fn high_offset_mbc1(&self, addr: u16) -> (offset: u32)
        ensures
            offset == self.mbc1_high_offset(addr),
    {
        let bank: u8 = if self.rom_bank_lo == 0 {
            1
        } else {
            self.rom_bank_lo
        };
        ((self.ram_or_rom_upper as u32) << 19) | ((bank as u32) << 14) | ((addr as u32) & 0x3FFF)
    }

    /// Executable form of [`MbcState::mbc3_high_offset`].
    pub fn high_offset_mbc3(&self, addr: u16) -> (offset: u32)
        ensures
            offset == self.mbc3_high_offset(addr),
    {
        ((self.rom_bank_lo as u32) << 14) | ((addr as u32) & 0x3FFF)
    }

    /// Executable form of [`MbcState::sram_index`].
    pub fn index_sram(&self, sram_len: usize, addr: u16) -> (index: usize)
        ensures
            index == self.sram_index(sram_len as nat, addr),
    {
        let within: u16 = addr & 0x1FFF;
        assert(within <= 0x1FFF) by (bit_vector)
            requires
                within == addr & 0x1FFF,
        ;
        if self.banking_mode == BankingMode::Advanced && sram_len == BANKED_SRAM_SIZE {
            (self.ram_or_rom_upper as usize) * SRAM_BANK_SIZE + (within as usize)
        } else {
            within as usize
        }
    }
}

/// Bank arithmetic behind the offsets: each register contributes a
/// multiple of the size of what it selects.
impl MbcState {
    /// In advanced mode the upper register moves the low window in steps
    /// of 512 KiB; in simple mode the window shows the start of the image.
    pub proof fn lemma_mbc1_low_offset(self, addr: u16)
        requires
            addr <= 0x3FFF,
        ensures
            self.banking_mode == BankingMode::Advanced ==> self.mbc1_low_offset(addr)
                == self.ram_or_rom_upper * 0x80000 + addr,
            self.banking_mode == BankingMode::Simple ==> self.mbc1_low_offset(addr) == addr,
    {
        let upper = self.ram_or_rom_upper as u32;
        let a = addr as u32;
        assert(upper <= 0xFF && a <= 0x3FFF ==> (upper << 19) | (a & 0x3FFF) == upper * 0x80000 + a)
            by (bit_vector);
    }

    /// The high window of MBC1 shows bank `upper * 32 + bank`, where `bank`
    /// is the five-bit low register with zero read as one.
    pub proof fn lemma_mbc1_high_offset(self, addr: u16)
        requires
            0x4000 <= addr <= 0x7FFF,
            self.rom_bank_lo < 32,
        ensures
            self.mbc1_high_offset(addr) == (self.ram_or_rom_upper * 32 + self.mbc1_high_bank())
                * ROM_BANK_SIZE + (addr - 0x4000),
    {
        let upper = self.ram_or_rom_upper as u32;
        let bank = self.mbc1_high_bank() as u32;
        let a = addr as u32;
        assert(upper <= 0xFF && bank < 32 && 0x4000 <= a <= 0x7FFF ==> (upper << 19) | (bank << 14) | (a
            & 0x3FFF) == (upper * 32 + bank) * 0x4000 + (a - 0x4000)) by (bit_vector);
    }

    /// The high window of MBC3 shows the bank in the low register.
    pub proof fn lemma_mbc3_high_offset(self, addr: u16)
        requires
            0x4000 <= addr <= 0x7FFF,
        ensures
            self.mbc3_high_offset(addr) == self.rom_bank_lo * ROM_BANK_SIZE + (addr - 0x4000),
    {
        let bank = self.rom_bank_lo as u32;
        let a = addr as u32;
        assert(bank <= 0xFF && 0x4000 <= a <= 0x7FFF ==> (bank << 14) | (a & 0x3FFF) == bank * 0x4000
            + (a - 0x4000)) by (bit_vector);
    }

    /// An address of the RAM window selects the byte at its distance from
    /// 0xA000 in the bank in view.
    pub proof fn lemma_sram_index(self, sram_len: nat, addr: u16)
        requires
            0xA000 <= addr <= 0xBFFF,
        ensures
            self.sram_index(sram_len, addr) == self.sram_bank_base(sram_len) + (addr - 0xA000),
    {
        assert(0xA000 <= addr <= 0xBFFF ==> addr & 0x1FFF == addr - 0xA000) by (bit_vector);
    }

    /// The masks of the control registers, read as arithmetic: a register
    /// of `n` bits keeps the written value modulo `2^n`, the enable
    /// register compares the low nibble, the mode register takes the
    /// parity.
    pub proof fn lemma_register_masks(val: u8)
        ensures
            val & 0x1F == val % 32,
            val & 0x03 == val % 4,
            val & 0x7F == val % 128,
            (val & 0x0F == 0x0A) == (val % 16 == 10),
            (val & 0x01 == 0x01) == (val % 2 == 1),
    {
        assert(val & 0x1F == val % 32 && val & 0x03 == val % 4 && val & 0x7F == val % 128 && (val & 0x0F
            == 0x0A) == (val % 16 == 10) && (val & 0x01 == 0x01) == (val % 2 == 1)) by (bit_vector);
    }

    /// What the control registers hold after a write is within the width
    /// the controller gives them: MBC1 keeps five bits of bank and two of
    /// the upper register, MBC3 seven bits of bank, never zero.
    pub proof fn lemma_control_widths(self, addr: u16, val: u8)
        ensures
            0x2000 <= addr <= 0x3FFF ==> self.mbc1_control(addr, val).rom_bank_lo < 32,
            0x4000 <= addr <= 0x5FFF ==> self.mbc1_control(addr, val).ram_or_rom_upper < 4,
            0x2000 <= addr <= 0x3FFF ==> 1 <= self.mbc3_control(addr, val).rom_bank_lo < 128 || (val
                == 0x80 && self.mbc3_control(addr, val).rom_bank_lo == 0),
    {
        assert(val & 0x1F < 32) by (bit_vector);
        assert(val & 0x03 < 4) by (bit_vector);
        assert(val & 0x7F < 128 && (val & 0x7F == 0 ==> val == 0 || val == 0x80)) by (bit_vector);
    }
}

} // verus!
