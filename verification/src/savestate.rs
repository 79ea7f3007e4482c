//! Save states in the BESS layout: the controller block that replays the
//! bank registers, and the table and blob that carry the RAM buffers.

use vstd::prelude::*;
use crate::endian::{
    le16, le16_at, le32, le32_at, lemma_le16_round_trip, lemma_le32_round_trip,
    u16_from_little_endian, u32_from_little_endian, u32_to_little_endian,
};
use crate::bus::AccessFault;
use crate::mbc::{BankingMode, MbcKind, MbcState};
use crate::memory::{BusState, Memory, HRAM_SIZE, WRAM_SIZE};
use crate::ppu::{PpuState, OAM_SIZE, VRAM_SIZE};

verus! {

/// Buffers the table describes: work RAM, video RAM, external RAM, object
/// attribute memory, high RAM, and the two palette buffers a DMG lacks.
pub const TABLE_ENTRIES: usize = 7;

/// Bytes of one table entry: a 32-bit size and a 32-bit offset.
pub const TABLE_ENTRY_SIZE: usize = 8;

/// Bytes of one table.
pub const TABLE_SIZE: usize = 56;

/// Bytes of one record of the controller block: a 16-bit address and the
/// value to write there.
pub const RECORD_SIZE: usize = 3;

/// The value that enables external RAM.
pub const RAM_ENABLE: u8 = 0x0A;

/// Why a table and blob were not restored.
#[derive(Clone, Copy, Debug, PartialEq, Eq, Structural)]
pub enum RestoreError {
    /// The table is shorter than its seven entries.
    TableTooShort,
    /// A buffer's size in the table is not the size of that buffer on this
    /// bus.
    SizeMismatch,
    /// A buffer reaches past the end of the blob.
    OutOfRange,
}

/// Why the replay of a controller block stopped.
#[derive(Clone, Copy, Debug, PartialEq, Eq, Structural)]
pub enum ReplayError {
    /// The block ends inside a record.
    Truncated,
    /// The bus cannot take the write a record asks for.
    Refused { fault: AccessFault },
}

/// The size the table gives for buffer `k`.
pub open spec fn entry_size(table: Seq<u8>, k: int) -> int {
    le32_at(table, TABLE_ENTRY_SIZE * k)
}

/// The offset into the blob the table gives for buffer `k`.
pub open spec fn entry_offset(table: Seq<u8>, k: int) -> int {
    le32_at(table, TABLE_ENTRY_SIZE * k + 4)
}

/// Whether buffer `k` of the table lies inside the blob.
pub open spec fn entry_in_range(table: Seq<u8>, blob: Seq<u8>, k: int) -> bool {
    entry_offset(table, k) + entry_size(table, k) <= blob.len()
}

/// The bytes of the blob that the table assigns to buffer `k`.
pub open spec fn entry_bytes(table: Seq<u8>, blob: Seq<u8>, k: int) -> Seq<u8> {
    blob.subrange(entry_offset(table, k), entry_offset(table, k) + entry_size(table, k))
}

/// One record of the controller block.
pub open spec fn bess_record(addr: u16, val: u8) -> Seq<u8> {
    le16(addr) + seq![val]
}

/// One entry of the buffer table.
pub open spec fn table_entry(size: nat, offset: nat) -> Seq<u8> {
    le32(size as u32) + le32(offset as u32)
}

impl MbcState {
    /// The value whose write to the enable register reproduces
    /// `ram_enabled`.
    pub open spec fn enable_value(self) -> u8 {
        if self.ram_enabled {
            RAM_ENABLE
        } else {
            0
        }
    }

    /// The value whose write to the mode register reproduces
    /// `banking_mode`.
    pub open spec fn mode_value(self) -> u8 {
        if self.banking_mode == BankingMode::Advanced {
            1
        } else {
            0
        }
    }

    /// The controller block: the control writes that rebuild the
    /// registers. MBC1 has four records. MBC3 has the same four with a zero
    /// in place of the mode, and a fifth that holds the place of a clock
    /// latch. Without a controller there is no block.
    pub open spec fn bess_block(self) -> Option<Seq<u8>> {
        match self.kind {
            MbcKind::Mbc1 => Some(
                bess_record(0x0000, self.enable_value()) + bess_record(0x2000, self.rom_bank_lo)
                    + bess_record(0x4000, self.ram_or_rom_upper) + bess_record(
                    0x6000,
                    self.mode_value(),
                ),
            ),
            MbcKind::Mbc3 => Some(
                bess_record(0x0000, self.enable_value()) + bess_record(0x2000, self.rom_bank_lo)
                    + bess_record(0x4000, self.ram_or_rom_upper) + bess_record(0x6000, 0)
                    + bess_record(0xA000, 0),
            ),
            _ => None,
        }
    }
}

impl BusState {
    /// The blob: the five buffers back to back.
    pub open spec fn buffer_blob(self) -> Seq<u8> {
        self.wram + self.ppu.vram + self.sram + self.ppu.oam + self.hram
    }

    /// The table that describes [`BusState::buffer_blob`]: for each buffer
    /// its size and where it starts in the blob. The two palette entries
    /// have size zero and point at the end of the blob.
    pub open spec fn buffer_table(self) -> Seq<u8> {
        let vram_at = self.wram.len();
        let sram_at = vram_at + self.ppu.vram.len();
        let oam_at = sram_at + self.sram.len();
        let hram_at = oam_at + self.ppu.oam.len();
        let end = hram_at + self.hram.len();
        table_entry(self.wram.len(), 0) + table_entry(self.ppu.vram.len(), vram_at) + table_entry(
            self.sram.len(),
            sram_at,
        ) + table_entry(self.ppu.oam.len(), oam_at) + table_entry(self.hram.len(), hram_at)
            + table_entry(0, end) + table_entry(0, end)
    }

    /// Whether the first five entries of `table` give the sizes of this
    /// bus's buffers, in the order work RAM, video RAM, external RAM, object
    /// attribute memory, high RAM.
    pub open spec fn sizes_match(self, table: Seq<u8>) -> bool {
        &&& entry_size(table, 0) == self.wram.len()
        &&& entry_size(table, 1) == self.ppu.vram.len()
        &&& entry_size(table, 2) == self.sram.len()
        &&& entry_size(table, 3) == self.ppu.oam.len()
        &&& entry_size(table, 4) == self.hram.len()
    }

    /// Whether `table` and `blob` can be restored onto this bus, and if not,
    /// the first reason why not.
    pub open spec fn restore_outcome(self, table: Seq<u8>, blob: Seq<u8>) -> Result<(), RestoreError> {
        if table.len() < TABLE_SIZE {
            Err(RestoreError::TableTooShort)
        } else if !self.sizes_match(table) {
            Err(RestoreError::SizeMismatch)
        } else if !(entry_in_range(table, blob, 0) && entry_in_range(table, blob, 1) && entry_in_range(
            table,
            blob,
            2,
        ) && entry_in_range(table, blob, 3) && entry_in_range(table, blob, 4)) {
            Err(RestoreError::OutOfRange)
        } else {
            Ok(())
        }
    }

    /// The state after a restore: each of the five buffers replaced by the
    /// bytes the table assigns to it. The palette entries are not looked
    /// at.
    pub open spec fn restored(self, table: Seq<u8>, blob: Seq<u8>) -> BusState {
        BusState {
            wram: entry_bytes(table, blob, 0),
            sram: entry_bytes(table, blob, 2),
            hram: entry_bytes(table, blob, 4),
            ppu: PpuState {
                vram: entry_bytes(table, blob, 1),
                oam: entry_bytes(table, blob, 3),
                ..self.ppu
            },
            ..self
        }
    }

    /// The state a replay of `block` ends in, and how it ended. Each
    /// three-byte record is a write through [`BusState::write`], taken in
    /// order. The replay stops before the first record the bus cannot take,
    /// and at a trailing fragment of a record.
    pub open spec fn replay(self, block: Seq<u8>) -> (BusState, Result<(), ReplayError>)
        decreases block.len(),
    {
        if block.len() == 0 {
            (self, Ok(()))
        } else if block.len() < RECORD_SIZE {
            (self, Err(ReplayError::Truncated))
        } else {
            match self.write_fault(le16_at(block, 0) as u16, block[2]) {
                Some(fault) => (self, Err(ReplayError::Refused { fault })),
                None => self.write(le16_at(block, 0) as u16, block[2]).replay(
                    block.skip(RECORD_SIZE as int),
                ),
            }
        }
    }

    /// The state after aggregation: one more table at the end of the
    /// offset table, nothing else touched.
    pub open spec fn with_table_appended(self) -> BusState {
        BusState { buffer_offsets: self.buffer_offsets + self.buffer_table(), ..self }
    }
}

/// Appends `src` to `dst`.
fn append_bytes(dst: &mut Vec<u8>, src: &[u8])
    ensures
        final(dst)@ == old(dst)@ + src@,
{
    dst.extend_from_slice(src);
    assert(dst@ =~= old(dst)@ + src@);
}

/// Appends the table entry for a buffer of `size` bytes at `offset`.
fn append_entry(table: &mut Vec<u8>, size: u32, offset: u32)
    ensures
        final(table)@ == old(table)@ + table_entry(size as nat, offset as nat),
{
    let size_bytes = u32_to_little_endian(size);
    let offset_bytes = u32_to_little_endian(offset);
    append_bytes(table, size_bytes.as_slice());
    append_bytes(table, offset_bytes.as_slice());
    assert(table@ =~= old(table)@ + table_entry(size as nat, offset as nat));
}

/// Overwrites `dst` with the bytes of `src` that start at `at`.
fn copy_into_array<const N: usize>(dst: &mut [u8; N], src: &[u8], at: usize)
    requires
        at + N <= src@.len(),
    ensures
        final(dst)@ == src@.subrange(at as int, at + N),
{
    let len = src.len();
    let mut i: usize = 0;
    while i < N
        invariant
            i <= N,
            len == src@.len(),
            at + N <= len,
            forall|j: int| 0 <= j < i ==> dst@[j] == src@[at + j],
        decreases N - i,
    {
        dst[i] = src[at + i];
        i = i + 1;
    }
    assert(dst@ =~= src@.subrange(at as int, at + N));
}

/// Overwrites `dst` with the bytes of `src` that start at `at`.
fn copy_into_vec(dst: &mut Vec<u8>, src: &[u8], at: usize)
    requires
        at + old(dst)@.len() <= src@.len(),
    ensures
        final(dst)@ == src@.subrange(at as int, at + old(dst)@.len()),
{
    let n = dst.len();
    let len = src.len();
    let mut i: usize = 0;
    while i < n
        invariant
            i <= n,
            n == dst@.len(),
            len == src@.len(),
            at + n <= len,
            forall|j: int| 0 <= j < i ==> dst@[j] == src@[at + j],
        decreases n - i,
    {
        dst[i] = src[at + i];
        i = i + 1;
    }
    assert(dst@ =~= src@.subrange(at as int, at + n));
}

/// Reads size and offset of buffer `k` from the table.
fn read_entry(table: &[u8], k: usize) -> (entry: (u32, u32))
    requires
        k < TABLE_ENTRIES,
        table@.len() >= TABLE_SIZE,
    ensures
        entry.0 == entry_size(table@, k as int),
        entry.1 == entry_offset(table@, k as int),
{
    (
        u32_from_little_endian(table, TABLE_ENTRY_SIZE * k),
        u32_from_little_endian(table, TABLE_ENTRY_SIZE * k + 4),
    )
}

/// Whether a buffer of `size` bytes at `offset` lies inside a blob of
/// `len` bytes.
fn in_range(size: u32, offset: u32, len: usize) -> (ok: bool)
    ensures
        ok == (offset + size <= len),
{
    (offset as u64) + (size as u64) <= len as u64
}

impl Memory {
    /// Overwrites work RAM, video RAM, external RAM, object attribute
    /// memory and high RAM with the bytes `table` assigns to them in
    /// `blob`: the counterpart of [`Memory::aggregate_buffers`].
    ///
    /// `table` is one table as aggregation appends it. Its sizes must be
    /// those of this bus's buffers and its buffers must lie inside `blob`;
    /// otherwise nothing is changed.
    pub fn propogate_buffers(&mut self, table: &[u8], blob: &[u8]) -> (outcome: Result<
        (),
        RestoreError,
    >)
        requires
            old(self).wf(),
        ensures
            final(self).wf(),
            outcome == old(self)@.restore_outcome(table@, blob@),
            outcome is Ok ==> final(self)@ == old(self)@.restored(table@, blob@),
            outcome is Err ==> final(self)@ == old(self)@,
    {
        if table.len() < TABLE_SIZE {
            return Err(RestoreError::TableTooShort);
        }
        let (wram_size, wram_at) = read_entry(table, 0);
        let (vram_size, vram_at) = read_entry(table, 1);
        let (sram_size, sram_at) = read_entry(table, 2);
        let (oam_size, oam_at) = read_entry(table, 3);
        let (hram_size, hram_at) = read_entry(table, 4);
        if wram_size as u64 != WRAM_SIZE as u64 || vram_size as u64 != VRAM_SIZE as u64 || sram_size as u64
            != self.sram.len() as u64 || oam_size as u64 != OAM_SIZE as u64 || hram_size as u64
            != HRAM_SIZE as u64 {
            return Err(RestoreError::SizeMismatch);
        }
        if !(in_range(wram_size, wram_at, blob.len()) && in_range(vram_size, vram_at, blob.len())
            && in_range(sram_size, sram_at, blob.len()) && in_range(oam_size, oam_at, blob.len())
            && in_range(hram_size, hram_at, blob.len())) {
            return Err(RestoreError::OutOfRange);
        }
        copy_into_array(&mut self.wram, blob, wram_at as usize);
        copy_into_array(&mut self.ppu.vram, blob, vram_at as usize);
        copy_into_vec(&mut self.sram, blob, sram_at as usize);
        copy_into_array(&mut self.ppu.oam, blob, oam_at as usize);
        copy_into_array(&mut self.hram, blob, hram_at as usize);
        assert(self@ =~= old(self)@.restored(table@, blob@));
        Ok(())
    }

    /// Replays a controller block: performs the write each record asks
    /// for, in order, through [`Memory::write`]. Stops before the first
    /// record the bus cannot take.
    pub fn replay_bess_mbc_block(&mut self, block: &[u8]) -> (outcome: Result<(), ReplayError>)
        requires
            old(self).wf(),
        ensures
            final(self).wf(),
            (final(self)@, outcome) == old(self)@.replay(block@),
    {
        let mut at: usize = 0;
        assert(block@.skip(0) =~= block@);
        while block.len() - at >= RECORD_SIZE
            invariant
                at <= block@.len(),
                self.wf(),
                old(self)@.replay(block@) == self@.replay(block@.skip(at as int)),
            decreases block@.len() - at,
        {
            let addr = u16_from_little_endian(block, at);
            let val = block[at + 2];
            let ghost rest = block@.skip(at as int);
            assert(le16_at(rest, 0) == le16_at(block@, at as int));
            assert(rest[2] == block@[at + 2]);
            match self.write_fault(addr, val) {
                Some(fault) => {
                    return Err(ReplayError::Refused { fault });
                },
                None => {},
            }
            self.write(addr, val);
            assert(rest.skip(RECORD_SIZE as int) =~= block@.skip(at + RECORD_SIZE));
            at = at + RECORD_SIZE;
        }
        if at < block.len() {
            Err(ReplayError::Truncated)
        } else {
            Ok(())
        }
    }

    /// The controller block for the cartridge in the slot, or `None` when
    /// it has no controller.
    pub fn create_bess_mbc_block(&self) -> (block: Option<Vec<u8>>)
        requires
            self.wf(),
        ensures
            match block {
                Some(bytes) => self@.mbc.bess_block() == Some(bytes@),
                None => self@.mbc.bess_block() is None,
            },
    {
        let enable: u8 = if self.mbc.ram_enabled {
            RAM_ENABLE
        } else {
            0x00
        };
        if self.mbc.kind == MbcKind::Mbc1 {
            let mode: u8 = if self.mbc.banking_mode == BankingMode::Advanced {
                1
            } else {
                0
            };
            let bytes = vec![
                0x00,
                0x00,
                enable,
                0x00,
                0x20,
                self.mbc.rom_bank_lo,
                0x00,
                0x40,
                self.mbc.ram_or_rom_upper,
                0x00,
                0x60,
                mode,
            ];
            assert(bytes@ =~= self@.mbc.bess_block()->Some_0);
            Some(bytes)
        } else if self.mbc.kind == MbcKind::Mbc3 {
            let bytes = vec![
                0x00,
                0x00,
                enable,
                0x00,
                0x20,
                self.mbc.rom_bank_lo,
                0x00,
                0x40,
                self.mbc.ram_or_rom_upper,
                0x00,
                0x60,
                0x00,
                0x00,
                0xA0,
                0x00,
            ];
            assert(bytes@ =~= self@.mbc.bess_block()->Some_0);
            Some(bytes)
        } else {
            None
        }
    }

    /// Collects the five buffers into one blob and appends the table that
    /// describes it to the offset table.
    pub fn aggregate_buffers(&mut self) -> (blob: Vec<u8>)
        requires
            old(self).wf(),
        ensures
            final(self).wf(),
            blob@ == old(self)@.buffer_blob(),
            final(self)@ == old(self)@.with_table_appended(),
    {
        let mut blob: Vec<u8> = Vec::new();
        let ghost table = self.bess_buffer_offsets@;

        append_entry(&mut self.bess_buffer_offsets, WRAM_SIZE as u32, blob.len() as u32);
        append_bytes(&mut blob, self.wram.as_slice());

        append_entry(&mut self.bess_buffer_offsets, VRAM_SIZE as u32, blob.len() as u32);
        append_bytes(&mut blob, self.ppu.vram.as_slice());

        append_entry(&mut self.bess_buffer_offsets, self.sram.len() as u32, blob.len() as u32);
        append_bytes(&mut blob, self.sram.as_slice());

        append_entry(&mut self.bess_buffer_offsets, OAM_SIZE as u32, blob.len() as u32);
        append_bytes(&mut blob, self.ppu.oam.as_slice());

        append_entry(&mut self.bess_buffer_offsets, HRAM_SIZE as u32, blob.len() as u32);
        append_bytes(&mut blob, self.hram.as_slice());

        append_entry(&mut self.bess_buffer_offsets, 0, blob.len() as u32);
        append_entry(&mut self.bess_buffer_offsets, 0, blob.len() as u32);

        proof {
            assert(blob@ =~= old(self)@.buffer_blob());
            assert(self.bess_buffer_offsets@ =~= table + old(self)@.buffer_table());
            assert(self@ =~= old(self)@.with_table_appended());
        }
        blob
    }
}

/// The entry at position `k` of a table reads back as the size and offset
/// it was made from.
pub proof fn lemma_table_entry_at(before: Seq<u8>, size: nat, offset: nat, after: Seq<u8>, k: int)
    requires
        before.len() == TABLE_ENTRY_SIZE * k,
        size <= u32::MAX,
        offset <= u32::MAX,
    ensures
        table_entry(size, offset).len() == TABLE_ENTRY_SIZE,
        entry_size(before + table_entry(size, offset) + after, k) == size,
        entry_offset(before + table_entry(size, offset) + after, k) == offset,
{
    let table = before + table_entry(size, offset) + after;
    lemma_le32_round_trip(size as u32, before, le32(offset as u32) + after);
    lemma_le32_round_trip(offset as u32, before + le32(size as u32), after);
    assert(table =~= before + le32(size as u32) + (le32(offset as u32) + after));
    assert(table =~= (before + le32(size as u32)) + le32(offset as u32) + after);
}

/// Replaying a record the bus can take is the write it asks for, followed
/// by the replay of the rest.
pub proof fn lemma_replay_record(state: BusState, addr: u16, val: u8, rest: Seq<u8>)
    requires
        state.writable(addr, val),
    ensures
        state.replay(bess_record(addr, val) + rest) == state.write(addr, val).replay(rest),
{
    let block = bess_record(addr, val) + rest;
    lemma_le16_round_trip(addr, Seq::empty(), seq![val] + rest);
    assert(block =~= Seq::<u8>::empty() + le16(addr) + (seq![val] + rest));
    assert(block[2] == val);
    assert(block.skip(RECORD_SIZE as int) =~= rest);
}

impl BusState {
    /// The table reads back as the sizes of the five buffers and the
    /// offsets at which the blob holds them.
    pub proof fn lemma_buffer_table_entries(self)
        requires
            self.wf(),
        ensures
            self.buffer_table().len() == TABLE_SIZE,
            entry_size(self.buffer_table(), 0) == self.wram.len(),
            entry_offset(self.buffer_table(), 0) == 0,
            entry_size(self.buffer_table(), 1) == self.ppu.vram.len(),
            entry_offset(self.buffer_table(), 1) == self.wram.len(),
            entry_size(self.buffer_table(), 2) == self.sram.len(),
            entry_offset(self.buffer_table(), 2) == self.wram.len() + self.ppu.vram.len(),
            entry_size(self.buffer_table(), 3) == self.ppu.oam.len(),
            entry_offset(self.buffer_table(), 3) == self.wram.len() + self.ppu.vram.len()
                + self.sram.len(),
            entry_size(self.buffer_table(), 4) == self.hram.len(),
            entry_offset(self.buffer_table(), 4) == self.wram.len() + self.ppu.vram.len()
                + self.sram.len() + self.ppu.oam.len(),
    {
        let table = self.buffer_table();
        let vram_at = self.wram.len();
        let sram_at = vram_at + self.ppu.vram.len();
        let oam_at = sram_at + self.sram.len();
        let hram_at = oam_at + self.ppu.oam.len();
        let end = hram_at + self.hram.len();
        let e0 = table_entry(self.wram.len(), 0);
        let e1 = table_entry(self.ppu.vram.len(), vram_at);
        let e2 = table_entry(self.sram.len(), sram_at);
        let e3 = table_entry(self.ppu.oam.len(), oam_at);
        let e4 = table_entry(self.hram.len(), hram_at);
        let e5 = table_entry(0, end);
        assert(self.sram.len() <= 0x20000);
        assert(e0.len() == 8 && e1.len() == 8 && e2.len() == 8 && e3.len() == 8 && e4.len() == 8
            && e5.len() == 8);
        assert(table.len() == TABLE_SIZE);
        assert(entry_size(table, 0) == self.wram.len() && entry_offset(table, 0) == 0) by {
            let after = e1 + e2 + e3 + e4 + e5 + e5;
            lemma_table_entry_at(Seq::empty(), self.wram.len(), 0, after, 0);
            assert(table =~= Seq::<u8>::empty() + e0 + after);
        }
        assert(entry_size(table, 1) == self.ppu.vram.len() && entry_offset(table, 1) == vram_at) by {
            let after = e2 + e3 + e4 + e5 + e5;
            lemma_table_entry_at(e0, self.ppu.vram.len(), vram_at, after, 1);
            assert(table =~= e0 + e1 + after);
        }
        assert(entry_size(table, 2) == self.sram.len() && entry_offset(table, 2) == sram_at) by {
            let after = e3 + e4 + e5 + e5;
            lemma_table_entry_at(e0 + e1, self.sram.len(), sram_at, after, 2);
            assert(table =~= e0 + e1 + e2 + after);
        }
        assert(entry_size(table, 3) == self.ppu.oam.len() && entry_offset(table, 3) == oam_at) by {
            let after = e4 + e5 + e5;
            lemma_table_entry_at(e0 + e1 + e2, self.ppu.oam.len(), oam_at, after, 3);
            assert(table =~= e0 + e1 + e2 + e3 + after);
        }
        assert(entry_size(table, 4) == self.hram.len() && entry_offset(table, 4) == hram_at) by {
            let after = e5 + e5;
            lemma_table_entry_at(e0 + e1 + e2 + e3, self.hram.len(), hram_at, after, 4);
            assert(table =~= e0 + e1 + e2 + e3 + e4 + after);
        }
    }

    /// Restoring what aggregation produced gives back the five buffers,
    /// byte for byte, on any bus whose external RAM has the same size.
    pub proof fn lemma_buffers_round_trip(self, onto: BusState)
        requires
            self.wf(),
            onto.wf(),
            onto.sram.len() == self.sram.len(),
        ensures
            onto.restore_outcome(self.buffer_table(), self.buffer_blob()) is Ok,
            onto.restored(self.buffer_table(), self.buffer_blob()).wram == self.wram,
            onto.restored(self.buffer_table(), self.buffer_blob()).ppu.vram == self.ppu.vram,
            onto.restored(self.buffer_table(), self.buffer_blob()).sram == self.sram,
            onto.restored(self.buffer_table(), self.buffer_blob()).ppu.oam == self.ppu.oam,
            onto.restored(self.buffer_table(), self.buffer_blob()).hram == self.hram,
            onto.restored(self.buffer_table(), self.buffer_blob()).wf(),
    {
        let table = self.buffer_table();
        let blob = self.buffer_blob();
        self.lemma_buffer_table_entries();
        assert(entry_bytes(table, blob, 0) =~= self.wram);
        assert(entry_bytes(table, blob, 1) =~= self.ppu.vram);
        assert(entry_bytes(table, blob, 2) =~= self.sram);
        assert(entry_bytes(table, blob, 3) =~= self.ppu.oam);
        assert(entry_bytes(table, blob, 4) =~= self.hram);
    }

    /// Replaying the block of an MBC1 onto a bus with an MBC1 restores the
    /// four registers and touches nothing else, provided the saved
    /// registers are within the widths a control write keeps (five bits of
    /// bank, two of the upper register).
    pub proof fn lemma_replay_restores_mbc1(self, onto: BusState)
        requires
            self.mbc.kind == MbcKind::Mbc1,
            onto.mbc.kind == MbcKind::Mbc1,
            self.mbc.rom_bank_lo < 32,
            self.mbc.ram_or_rom_upper < 4,
        ensures
            self.mbc.bess_block() is Some,
            onto.replay(self.mbc.bess_block()->Some_0) == (
                (BusState { mbc: self.mbc, ..onto }),
                Ok::<(), ReplayError>(()),
            ),
    {
        let enable = self.mbc.enable_value();
        let bank = self.mbc.rom_bank_lo;
        let upper = self.mbc.ram_or_rom_upper;
        let mode = self.mbc.mode_value();
        let r1 = bess_record(0x2000, bank) + bess_record(0x4000, upper) + bess_record(0x6000, mode);
        let r2 = bess_record(0x4000, upper) + bess_record(0x6000, mode);
        let r3 = bess_record(0x6000, mode);
        let s1 = onto.write(0x0000, enable);
        let s2 = s1.write(0x2000, bank);
        let s3 = s2.write(0x4000, upper);
        let s4 = s3.write(0x6000, mode);
        let block = self.mbc.bess_block()->Some_0;
        assert(block =~= bess_record(0x0000, enable) + r1);
        assert(r1 =~= bess_record(0x2000, bank) + r2);
        assert(r2 =~= bess_record(0x4000, upper) + r3);
        assert(r3 =~= bess_record(0x6000, mode) + Seq::<u8>::empty());
        lemma_replay_record(onto, 0x0000, enable, r1);
        lemma_replay_record(s1, 0x2000, bank, r2);
        lemma_replay_record(s2, 0x4000, upper, r3);
        lemma_replay_record(s3, 0x6000, mode, Seq::empty());
        assert((0x0Au8 & 0x0F == 0x0A) && !(0x00u8 & 0x0F == 0x0A) && (1u8 & 0x01 == 0x01) && !(0u8
            & 0x01 == 0x01)) by (bit_vector);
        assert(bank < 32 ==> bank & 0x1F == bank) by (bit_vector);
        assert(upper < 4 ==> upper & 0x03 == upper) by (bit_vector);
        assert(s4.mbc == self.mbc);
        assert(s4 =~= (BusState { mbc: self.mbc, ..onto }));
    }

    /// Replaying the block of an MBC3 onto a bus with an MBC3 restores the
    /// enable flag, the bank and the upper register; the banking mode, which
    /// MBC3 has no register for, stays as it is on that bus.
    ///
    /// This holds for a saved bank in 1..=127, the values a control write
    /// can leave there besides zero. The fifth record of the block is a
    /// write of zero to 0xA000: the bus must be able to take it (no clock
    /// register selected, and external RAM present if it is enabled), and
    /// with the RAM enabled it clears the first byte of the bank in view.
    /// Replay the block before the buffers are restored.
    pub proof fn lemma_replay_restores_mbc3(self, onto: BusState)
        requires
            self.mbc.kind == MbcKind::Mbc3,
            onto.mbc.kind == MbcKind::Mbc3,
            1 <= self.mbc.rom_bank_lo < 128,
            self.mbc.ram_or_rom_upper <= 3,
            onto.cartridge_loaded(),
            self.mbc.ram_enabled ==> onto.sram.len() > 0,
        ensures
            self.mbc.bess_block() is Some,
            onto.replay(self.mbc.bess_block()->Some_0).1 is Ok,
            onto.replay(self.mbc.bess_block()->Some_0).0.mbc == (MbcState {
                banking_mode: onto.mbc.banking_mode,
                ..self.mbc
            }),
            onto.replay(self.mbc.bess_block()->Some_0).0 == (BusState {
                mbc: onto.replay(self.mbc.bess_block()->Some_0).0.mbc,
                sram: onto.replay(self.mbc.bess_block()->Some_0).0.sram,
                ..onto
            }),
            !self.mbc.ram_enabled ==> onto.replay(self.mbc.bess_block()->Some_0).0.sram == onto.sram,
    {
        let enable = self.mbc.enable_value();
        let bank = self.mbc.rom_bank_lo;
        let upper = self.mbc.ram_or_rom_upper;
        let r4 = bess_record(0xA000, 0);
        let r3 = bess_record(0x6000, 0) + r4;
        let r2 = bess_record(0x4000, upper) + r3;
        let r1 = bess_record(0x2000, bank) + r2;
        let s1 = onto.write(0x0000, enable);
        let s2 = s1.write(0x2000, bank);
        let s3 = s2.write(0x4000, upper);
        let s4 = s3.write(0x6000, 0);
        let s5 = s4.write(0xA000, 0);
        let block = self.mbc.bess_block()->Some_0;
        assert(block =~= bess_record(0x0000, enable) + r1);
        assert(r4 =~= bess_record(0xA000, 0) + Seq::<u8>::empty());
        assert(bank < 128 ==> bank & 0x7F == bank) by (bit_vector);
        assert(0xA000u16 & 0x1FFF == 0) by (bit_vector);
        lemma_replay_record(onto, 0x0000, enable, r1);
        lemma_replay_record(s1, 0x2000, bank, r2);
        lemma_replay_record(s2, 0x4000, upper, r3);
        lemma_replay_record(s3, 0x6000, 0, r4);
        assert(s4.mbc == (MbcState { banking_mode: onto.mbc.banking_mode, ..self.mbc }));
        assert(s4.writable(0xA000, 0));
        lemma_replay_record(s4, 0xA000, 0, Seq::empty());
        assert(s5 =~= (BusState { mbc: s5.mbc, sram: s5.sram, ..onto }));
    }
}

} // verus!
