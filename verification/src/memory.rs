//! The bus itself: the buffers it owns, the devices it holds, and the
//! mathematical state every contract of this crate speaks about.

use vstd::prelude::*;
use crate::cartridge::{
    detect_kind, lemma_stored_rom, lemma_stored_rom_header, load_verdict, loadable_image,
    pad_image, resized,
    sram_size, sram_size_for, stored_rom, supported_kind, valid_rom_image, CartridgeError, HEADER_CHECKSUM_END, HEADER_CHECKSUM_START, HEADER_MBC_TYPE, HEADER_RAM_SIZE,
    HEADER_TITLE_END, HEADER_TITLE_START, PLAIN_ROM_SIZE,
};
use crate::mbc::{BankingMode, MbcKind, MbcState};
use crate::ppu::{Display, Ppu, PpuState, OAM_SIZE, VRAM_SIZE};
use crate::timer::Timer;

verus! {

/// Bytes of work RAM.
pub const WRAM_SIZE: usize = 0x2000;

/// Bytes of high RAM.
pub const HRAM_SIZE: usize = 0x7F;

/// Bytes of boot ROM.
pub const BOOT_ROM_SIZE: usize = 0x100;

/// The memory bus of the machine.
pub struct Memory {
    pub(crate) bess_buffer_offsets: Vec<u8>,
    pub(crate) rom_chip: Vec<u8>,
    pub(crate) wram: [u8; 0x2000],
    pub(crate) hram: [u8; 0x7F],
    pub(crate) sram: Vec<u8>,
    pub(crate) boot_rom: [u8; 0x100],
    pub(crate) boot_rom_mounted: bool,
    pub(crate) mbc: MbcState,
    pub(crate) ie: u8,
    pub(crate) iflags: u8,
    pub(crate) keypress: i8,
    pub(crate) joyp: u8,
    pub(crate) ppu: Ppu,
    pub(crate) timer: Timer,
}

/// Mathematical state of the bus.
#[verifier::ext_equal]
pub struct BusState {
    /// The cartridge image as stored; empty until a cartridge is loaded.
    pub rom: Seq<u8>,
    /// External RAM, all banks.
    pub sram: Seq<u8>,
    pub wram: Seq<u8>,
    pub hram: Seq<u8>,
    pub boot_rom: Seq<u8>,
    /// Whether the boot ROM overlays 0x0000..=0x00FF.
    pub boot_rom_mounted: bool,
    pub mbc: MbcState,
    /// Interrupt enable register.
    pub ie: u8,
    /// Interrupt flag register.
    pub iflags: u8,
    /// The key held down, or -1 for none (see [`crate::joypad`]).
    pub keypress: i8,
    /// The joypad register as last written.
    pub joyp: u8,
    pub ppu: PpuState,
    pub timer: Timer,
    /// The save-state offset table. It only ever grows: each aggregation
    /// appends one table.
    pub buffer_offsets: Seq<u8>,
}

impl BusState {
    /// Whether a cartridge is loaded.
    pub open spec fn cartridge_loaded(self) -> bool {
        self.rom.len() > 0
    }

    /// The invariant of the bus.
    ///
    /// The fixed buffers have their sizes. Without a cartridge there is no
    /// external RAM and no controller. With one, the image has a
    /// power-of-two length of at least 32 KiB (64 KiB without a
    /// controller), the controller is the supported one its header and
    /// bank 0x10 determine, and the external RAM has the size its header
    /// asks for.
    pub open spec fn wf(self) -> bool {
        &&& self.wram.len() == WRAM_SIZE
        &&& self.hram.len() == HRAM_SIZE
        &&& self.boot_rom.len() == BOOT_ROM_SIZE
        &&& self.ppu.vram.len() == VRAM_SIZE
        &&& self.ppu.oam.len() == OAM_SIZE
        &&& if self.cartridge_loaded() {
            &&& valid_rom_image(self.rom)
            &&& supported_kind(self.rom) == Ok::<MbcKind, CartridgeError>(self.mbc.kind)
            &&& self.mbc.kind == MbcKind::NoMbc ==> self.rom.len() >= PLAIN_ROM_SIZE
            &&& self.sram.len() == sram_size_for(self.rom[HEADER_RAM_SIZE as int])
        } else {
            &&& self.mbc.kind == MbcKind::NoMbc
            &&& self.sram.len() == 0
        }
    }

    /// The bus at power-on: no cartridge, boot ROM not mounted, every
    /// buffer and register zero, no key held, devices cleared.
    pub open spec fn power_on(lcd: Display) -> BusState {
        BusState {
            rom: Seq::empty(),
            sram: Seq::empty(),
            wram: Seq::new(WRAM_SIZE as nat, |i: int| 0u8),
            hram: Seq::new(HRAM_SIZE as nat, |i: int| 0u8),
            boot_rom: Seq::new(BOOT_ROM_SIZE as nat, |i: int| 0u8),
            boot_rom_mounted: false,
            mbc: MbcState::power_on(),
            ie: 0,
            iflags: 0,
            keypress: crate::joypad::NO_KEY,
            joyp: 0,
            ppu: PpuState::cleared(lcd),
            timer: Timer::cleared(),
            buffer_offsets: Seq::empty(),
        }
    }

    /// The state after loading an image whose controller is `kind`: the
    /// image stored, padded as [`stored_rom`] says, the external RAM cut or
    /// zero-extended to the size the header asks for, the controller set.
    /// The controller's registers and everything else stay as they are.
    pub open spec fn with_cartridge(self, bytes: Seq<u8>, kind: MbcKind) -> BusState {
        BusState {
            rom: stored_rom(bytes),
            sram: resized(self.sram, sram_size_for(bytes[HEADER_RAM_SIZE as int])),
            mbc: MbcState { kind, ..self.mbc },
            ..self
        }
    }

    /// The state after the devices have been stepped to `ppu` and `timer`.
    pub open spec fn with_devices(self, ppu: PpuState, timer: Timer) -> BusState {
        BusState { ppu, timer, ..self }
    }

    /// The sixteen title bytes of the header followed by the two bytes of
    /// its global checksum.
    pub open spec fn rom_info(self) -> Seq<u8> {
        self.rom.subrange(HEADER_TITLE_START as int, HEADER_TITLE_END as int) + self.rom.subrange(
            HEADER_CHECKSUM_START as int,
            HEADER_CHECKSUM_END as int,
        )
    }

    /// The boot ROM after mounting `bytes`: the first 256 bytes of `bytes`
    /// over what was there, the rest kept.
    pub open spec fn mounted_boot_rom(self, bytes: Seq<u8>) -> Seq<u8> {
        Seq::new(
            BOOT_ROM_SIZE as nat,
            |i: int|
                if i < bytes.len() {
                    bytes[i]
                } else {
                    self.boot_rom[i]
                },
        )
    }
}

impl BusState {
    /// Loading keeps the invariant, whatever the length of the image: the
    /// bus keeps it at a power-of-two length of at least 32 KiB, so that
    /// masking an offset with the length minus one reduces it modulo the
    /// length.
    pub proof fn lemma_load_keeps_wf(self, bytes: Seq<u8>)
        requires
            self.wf(),
            loadable_image(bytes),
            load_verdict(bytes) is Ok,
        ensures
            self.with_cartridge(bytes, load_verdict(bytes)->Ok_0).wf(),
            self.with_cartridge(bytes, load_verdict(bytes)->Ok_0).cartridge_loaded(),
            valid_rom_image(self.with_cartridge(bytes, load_verdict(bytes)->Ok_0).rom),
    {
        lemma_stored_rom(bytes);
        lemma_stored_rom_header(bytes);
    }
}

impl Memory {
    /// The mathematical state of this bus.
    pub open(crate) spec fn view(&self) -> BusState {
        BusState {
            rom: self.rom_chip@,
            sram: self.sram@,
            wram: self.wram@,
            hram: self.hram@,
            boot_rom: self.boot_rom@,
            boot_rom_mounted: self.boot_rom_mounted,
            mbc: self.mbc,
            ie: self.ie,
            iflags: self.iflags,
            keypress: self.keypress,
            joyp: self.joyp,
            ppu: self.ppu@,
            timer: self.timer,
            buffer_offsets: self.bess_buffer_offsets@,
        }
    }

    /// The invariant every method needs and keeps.
    pub open spec fn wf(&self) -> bool {
        self@.wf()
    }

    /// A bus at power-on, showing a blank frame.
    pub fn new() -> (m: Memory)
        ensures
            m.wf(),
            m@ == BusState::power_on(m@.ppu.lcd),
            m@.ppu.lcd.is_blank(),
    {
        let m = Memory {
            bess_buffer_offsets: Vec::new(),
            rom_chip: Vec::new(),
            wram: [0u8;0x2000],
            hram: [0u8;0x7F],
            sram: Vec::new(),
            boot_rom: [0u8;0x100],
            boot_rom_mounted: false,
            mbc: MbcState {
                kind: MbcKind::NoMbc,
                ram_enabled: false,
                rom_bank_lo: 0,
                ram_or_rom_upper: 0,
                banking_mode: BankingMode::Simple,
            },
            ie: 0,
            iflags: 0,
            keypress: -1,
            joyp: 0,
            ppu: Ppu::new(),
            timer: Timer::new(),
        };
        assert(m@ =~= BusState::power_on(m@.ppu.lcd));
        m
    }

    /// Mounts the boot ROM: copies up to 256 bytes of `bytes` over it and
    /// overlays it on 0x0000..=0x00FF.
    pub fn mount_bootrom(&mut self, bytes: Vec<u8>)
        requires
            old(self).wf(),
        ensures
            final(self).wf(),
            final(self)@ == (BusState {
                boot_rom: old(self)@.mounted_boot_rom(bytes@),
                boot_rom_mounted: true,
                ..old(self)@
            }),
    {
        let n: usize = if bytes.len() < BOOT_ROM_SIZE {
            bytes.len()
        } else {
            BOOT_ROM_SIZE
        };
        let mut i: usize = 0;
        while i < n
            invariant
                i <= n <= BOOT_ROM_SIZE,
                n <= bytes@.len(),
                forall|j: int| 0 <= j < i ==> self.boot_rom@[j] == bytes@[j],
                forall|j: int| i <= j < BOOT_ROM_SIZE ==> self.boot_rom@[j] == old(self).boot_rom@[j],
                *self == (Memory { boot_rom: self.boot_rom, ..*old(self) }),
            decreases n - i,
        {
            self.boot_rom[i] = bytes[i];
            i = i + 1;
        }
        self.boot_rom_mounted = true;
        assert(self@.boot_rom =~= old(self)@.mounted_boot_rom(bytes@));
    }
}

impl Memory {
    /// Loads a cartridge image.
    ///
    /// The image is stored zero-padded to a power-of-two length: at least
    /// 64 KiB if it has no controller, at least 32 KiB otherwise. An image
    /// that has such a length already is stored as it is. The controller is
    /// decided from the header and the multicart scan of the
    /// stored image, and the external RAM takes the size the header asks
    /// for. An image with an unknown controller code, or one the scan finds
    /// to be a multicart, is refused and the bus stays as it was.
    pub fn load_cartridge(&mut self, bytes: Vec<u8>) -> (outcome: Result<(), CartridgeError>)
        requires
            old(self).wf(),
            loadable_image(bytes@),
        ensures
            final(self).wf(),
            match outcome {
                Ok(_) => load_verdict(bytes@) is Ok && final(self)@ == old(self)@.with_cartridge(
                    bytes@,
                    load_verdict(bytes@)->Ok_0,
                ),
                Err(e) => load_verdict(bytes@) == Err::<MbcKind, CartridgeError>(e) && final(self)@
                    == old(self)@,
            },
            outcome is Ok ==> {
                &&& final(self)@.cartridge_loaded()
                &&& final(self)@.rom.len() >= bytes@.len()
                &&& final(self)@.rom.subrange(0, bytes@.len() as int) == bytes@
                &&& forall|i: int|
                    bytes@.len() <= i < final(self)@.rom.len() ==> final(self)@.rom[i] == 0
            },
    {
        let mut image = bytes;
        proof {
            lemma_stored_rom(bytes@);
            lemma_stored_rom_header(bytes@);
        }
        pad_image(&mut image);
        let kind = match detect_kind(image.as_slice()) {
            None => {
                return Err(CartridgeError::UnsupportedMbc { code: image[HEADER_MBC_TYPE] });
            },
            Some(MbcKind::Mbc1Multicart) => {
                return Err(CartridgeError::UnsupportedMulticart);
            },
            Some(kind) => kind,
        };
        let size = sram_size(image[HEADER_RAM_SIZE]);
        self.rom_chip = image;
        self.sram.resize(size, 0);
        self.mbc.kind = kind;
        proof {
            assert(self@.sram =~= resized(old(self)@.sram, size as nat));
            assert(self@ =~= old(self)@.with_cartridge(bytes@, kind));
        }
        Ok(())
    }

    /// The title and global checksum of the loaded cartridge, eighteen
    /// bytes.
    pub fn get_rom_info(&self) -> (info: Vec<u8>)
        requires
            self.wf(),
            self@.cartridge_loaded(),
        ensures
            info@ == self@.rom_info(),
    {
        let mut info: Vec<u8> = Vec::new();
        let mut i: usize = HEADER_TITLE_START;
        while i < HEADER_TITLE_END
            invariant
                HEADER_TITLE_START <= i <= HEADER_TITLE_END,
                self.rom_chip@.len() >= HEADER_CHECKSUM_END,
                info@ == self.rom_chip@.subrange(HEADER_TITLE_START as int, i as int),
            decreases HEADER_TITLE_END - i,
        {
            info.push(self.rom_chip[i]);
            assert(info@ =~= self.rom_chip@.subrange(HEADER_TITLE_START as int, i + 1));
            i = i + 1;
        }
        let mut j: usize = HEADER_CHECKSUM_START;
        while j < HEADER_CHECKSUM_END
            invariant
                HEADER_CHECKSUM_START <= j <= HEADER_CHECKSUM_END,
                self.rom_chip@.len() >= HEADER_CHECKSUM_END,
                info@ == self.rom_chip@.subrange(HEADER_TITLE_START as int, HEADER_TITLE_END as int)
                    + self.rom_chip@.subrange(HEADER_CHECKSUM_START as int, j as int),
            decreases HEADER_CHECKSUM_END - j,
        {
            info.push(self.rom_chip[j]);
            assert(info@ =~= self.rom_chip@.subrange(HEADER_TITLE_START as int, HEADER_TITLE_END as int)
                + self.rom_chip@.subrange(HEADER_CHECKSUM_START as int, j + 1));
            j = j + 1;
        }
        info
    }
}

impl Memory {
    /// Installs the devices as they stand after this machine cycle's
    /// step. Stepping them, the picture unit first and then the timer, is
    /// the caller's part; the bus keeps what it is handed.
    pub fn update_components(&mut self, ppu: Ppu, timer: Timer)
        requires
            old(self).wf(),
        ensures
            final(self).wf(),
            final(self)@ == old(self)@.with_devices(ppu@, timer),
    {
        self.ppu = ppu;
        self.timer = timer;
        assert(self@ =~= old(self)@.with_devices(ppu@, timer));
    }

    /// The frame the picture unit shows.
    pub fn get_display(&self) -> (lcd: Display)
        ensures
            lcd == self@.ppu.lcd,
    {
        self.ppu.lcd
    }

    /// Sets the key held down: 1 to 8 for up, left, down, right, A, B,
    /// start, select, or -1 for none.
    pub fn set_keypress(&mut self, keypress: i8)
        ensures
            final(self)@ == (BusState { keypress, ..old(self)@ }),
            final(self).wf() == old(self).wf(),
    {
        self.keypress = keypress;
    }

    /// The key held down.
    pub fn keypress(&self) -> (keypress: i8)
        ensures
            keypress == self@.keypress,
    {
        self.keypress
    }

    /// The save-state offset table as aggregated so far.
    pub fn buffer_offsets(&self) -> (table: &Vec<u8>)
        ensures
            table@ == self@.buffer_offsets,
    {
        &self.bess_buffer_offsets
    }

    /// Whether a cartridge is loaded.
    pub fn cartridge_loaded(&self) -> (loaded: bool)
        ensures
            loaded == self@.cartridge_loaded(),
    {
        self.rom_chip.len() > 0
    }

    /// Whether the boot ROM overlays the first 256 addresses.
    pub fn boot_rom_mounted(&self) -> (mounted: bool)
        ensures
            mounted == self@.boot_rom_mounted,
    {
        self.boot_rom_mounted
    }

    /// The bank controller's registers.
    pub fn mbc(&self) -> (mbc: MbcState)
        ensures
            mbc == self@.mbc,
    {
        self.mbc
    }

    /// The cartridge image as stored.
    pub fn rom(&self) -> (rom: &Vec<u8>)
        ensures
            rom@ == self@.rom,
    {
        &self.rom_chip
    }

    /// The external RAM, all banks.
    pub fn sram(&self) -> (sram: &Vec<u8>)
        ensures
            sram@ == self@.sram,
    {
        &self.sram
    }

    /// The picture unit as the bus holds it.
    pub fn ppu(&self) -> (ppu: &Ppu)
        ensures
            ppu@ == self@.ppu,
    {
        &self.ppu
    }

    /// The timer as the bus holds it.
    pub fn timer(&self) -> (timer: &Timer)
        ensures
            *timer == self@.timer,
    {
        &self.timer
    }
}

impl Default for Memory {
    fn default() -> (m: Memory)
        ensures
            m.wf(),
            m@ == BusState::power_on(m@.ppu.lcd),
            m@.ppu.lcd.is_blank(),
    {
        Memory::new()
    }
}

} // verus!
