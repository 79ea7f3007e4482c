use gb_bus::endian::{u16_from_little_endian, u32_from_little_endian, u32_to_little_endian};
use gb_bus::{AccessFault, BankingMode, Memory, ReplayError, RestoreError};

fn blank_rom(len: usize, mbc: u8, ram: u8) -> Vec<u8> {
    let mut rom = vec![0u8; len];
    rom[0x147] = mbc;
    rom[0x149] = ram;
    rom
}

fn loaded(mbc: u8, ram: u8) -> Memory {
    let mut mem = Memory::new();
    assert!(mem.load_cartridge(blank_rom(0x8000, mbc, ram)).is_ok());
    mem
}

fn fill(mem: &mut Memory, seed: u8) {
    for i in 0..0x2000u16 {
        mem.write(0xC000 + i, (i as u8).wrapping_mul(3).wrapping_add(seed));
        mem.write(0x8000 + i, (i as u8).wrapping_mul(5).wrapping_add(seed));
    }
    for i in 0..0xA0u16 {
        mem.write(0xFE00 + i, (i as u8).wrapping_mul(7).wrapping_add(seed));
    }
    for i in 0..0x7Fu16 {
        mem.write(0xFF80 + i, (i as u8).wrapping_mul(11).wrapping_add(seed));
    }
    if !mem.sram().is_empty() {
        mem.write(0x0000, 0x0A);
        for i in 0..0x2000u16 {
            mem.write(0xA000 + i, (i as u8).wrapping_mul(13).wrapping_add(seed));
        }
    }
}

fn entry(size: u32, offset: u32) -> Vec<u8> {
    let mut bytes = size.to_le_bytes().to_vec();
    bytes.extend_from_slice(&offset.to_le_bytes());
    bytes
}

#[test]
fn little_endian_words() {
    assert_eq!(u32_to_little_endian(0x1234_5678), [0x78, 0x56, 0x34, 0x12]);
    assert_eq!(u32_to_little_endian(0), [0, 0, 0, 0]);
    assert_eq!(u32_to_little_endian(0x2000), [0x00, 0x20, 0x00, 0x00]);
    assert_eq!(u32_to_little_endian(u32::MAX), [0xFF, 0xFF, 0xFF, 0xFF]);
    let bytes = [0xAA, 0x78, 0x56, 0x34, 0x12, 0xBB];
    assert_eq!(u32_from_little_endian(&bytes, 1), 0x1234_5678);
    assert_eq!(u32_from_little_endian(&bytes, 0), 0x3456_78AA);
    assert_eq!(u16_from_little_endian(&bytes, 1), 0x5678);
    assert_eq!(u16_from_little_endian(&[0x00, 0xA0], 0), 0xA000);
    for x in [1u32, 0xFF, 0x100, 0xFFFF, 0x0102_0304, 0x8000_0000] {
        assert_eq!(u32_from_little_endian(&u32_to_little_endian(x), 0), x);
    }
}

#[test]
fn no_controller_has_no_block() {
    assert_eq!(Memory::new().create_bess_mbc_block(), None);
    assert_eq!(loaded(0x00, 0x00).create_bess_mbc_block(), None);
}

#[test]
fn mbc1_block() {
    let mut mem = loaded(0x03, 0x03);
    assert_eq!(
        mem.create_bess_mbc_block(),
        Some(vec![0x00, 0x00, 0x00, 0x00, 0x20, 0x00, 0x00, 0x40, 0x00, 0x00, 0x60, 0x00])
    );
    mem.write(0x0000, 0x0A);
    mem.write(0x2000, 0x15);
    mem.write(0x4000, 0x02);
    mem.write(0x6000, 0x01);
    assert_eq!(
        mem.create_bess_mbc_block(),
        Some(vec![0x00, 0x00, 0x0A, 0x00, 0x20, 0x15, 0x00, 0x40, 0x02, 0x00, 0x60, 0x01])
    );
}

#[test]
fn mbc3_block() {
    let mut mem = loaded(0x13, 0x03);
    mem.write(0x0000, 0x0A);
    mem.write(0x2000, 0x7E);
    mem.write(0x4000, 0x0C);
    assert_eq!(
        mem.create_bess_mbc_block(),
        Some(vec![
            0x00, 0x00, 0x0A, 0x00, 0x20, 0x7E, 0x00, 0x40, 0x0C, 0x00, 0x60, 0x00, 0x00, 0xA0, 0x00
        ])
    );
    mem.write(0x0000, 0x00);
    let block = mem.create_bess_mbc_block().unwrap();
    assert_eq!(block.len(), 15);
    assert_eq!(block[2], 0x00);
}

#[test]
fn aggregate_lays_out_blob_and_table() {
    let mut mem = loaded(0x03, 0x02);
    fill(&mut mem, 1);
    let blob = mem.aggregate_buffers();
    assert_eq!(blob.len(), 0x2000 + 0x2000 + 0x2000 + 0xA0 + 0x7F);
    for i in [0usize, 1, 0x1234, 0x1FFF] {
        assert_eq!(blob[i], mem.read(0xC000 + i as u16));
        assert_eq!(blob[0x2000 + i], mem.read(0x8000 + i as u16));
        assert_eq!(blob[0x4000 + i], mem.read(0xA000 + i as u16));
    }
    for i in [0usize, 0x50, 0x9F] {
        assert_eq!(blob[0x6000 + i], mem.read(0xFE00 + i as u16));
    }
    for i in [0usize, 0x40, 0x7E] {
        assert_eq!(blob[0x60A0 + i], mem.read(0xFF80 + i as u16));
    }
    let mut table = Vec::new();
    table.extend(entry(0x2000, 0));
    table.extend(entry(0x2000, 0x2000));
    table.extend(entry(0x2000, 0x4000));
    table.extend(entry(0xA0, 0x6000));
    table.extend(entry(0x7F, 0x60A0));
    table.extend(entry(0, 0x611F));
    table.extend(entry(0, 0x611F));
    assert_eq!(table.len(), 56);
    assert_eq!(mem.buffer_offsets()[..], table[..]);
}

#[test]
fn aggregate_without_external_ram() {
    let mut mem = Memory::new();
    let blob = mem.aggregate_buffers();
    assert_eq!(blob.len(), 0x2000 + 0x2000 + 0xA0 + 0x7F);
    let table = mem.buffer_offsets().clone();
    assert_eq!(table[16..24], entry(0, 0x4000)[..]);
    assert_eq!(table[24..32], entry(0xA0, 0x4000)[..]);
    assert_eq!(table[32..40], entry(0x7F, 0x40A0)[..]);
    assert_eq!(table[40..48], entry(0, 0x411F)[..]);
    assert_eq!(table[48..56], entry(0, 0x411F)[..]);
}

#[test]
fn aggregate_describes_large_external_ram() {
    let mut mem = loaded(0x03, 0x04);
    let blob = mem.aggregate_buffers();
    assert_eq!(blob.len(), 0x4000 + 0x20000 + 0xA0 + 0x7F);
    let table = mem.buffer_offsets();
    assert_eq!(table[16..24], entry(0x20000, 0x4000)[..]);
    assert_eq!(table[24..32], entry(0xA0, 0x24000)[..]);
    assert_eq!(table[48..56], entry(0, 0x2411F)[..]);
}

#[test]
fn offset_table_grows_with_each_aggregation() {
    let mut mem = loaded(0x03, 0x02);
    mem.aggregate_buffers();
    let first = mem.buffer_offsets().clone();
    mem.write(0xC000, 0x42);
    let blob = mem.aggregate_buffers();
    assert_eq!(blob[0], 0x42);
    assert_eq!(mem.buffer_offsets().len(), 112);
    assert_eq!(mem.buffer_offsets()[..56], first[..]);
    assert_eq!(mem.buffer_offsets()[56..], first[..]);
}

#[test]
fn aggregate_then_restore_round_trips() {
    let mut saved = loaded(0x03, 0x02);
    fill(&mut saved, 0x21);
    let blob = saved.aggregate_buffers();
    let table = saved.buffer_offsets().clone();

    let mut target = loaded(0x03, 0x02);
    fill(&mut target, 0x99);
    target.write(0xFFFF, 0x1F);
    target.write(0x2000, 0x07);
    let registers = target.mbc();
    assert_eq!(target.propogate_buffers(&table, &blob), Ok(()));
    assert_eq!(target.ppu().vram[..], saved.ppu().vram[..]);
    assert_eq!(target.ppu().oam[..], saved.ppu().oam[..]);
    assert_eq!(target.sram()[..], saved.sram()[..]);
    for i in 0..0x2000u16 {
        assert_eq!(target.read(0xC000 + i), saved.read(0xC000 + i));
    }
    for i in 0..0x7Fu16 {
        assert_eq!(target.read(0xFF80 + i), saved.read(0xFF80 + i));
    }
    // Nothing but the buffers is restored.
    assert_eq!(target.read(0xFFFF), 0x1F);
    assert_eq!(target.mbc(), registers);
    assert!(target.buffer_offsets().is_empty());
    assert_eq!(target.aggregate_buffers(), blob);
}

#[test]
fn restore_follows_the_offsets_in_the_table() {
    let mut mem = Memory::new();
    let mut blob = vec![0u8; 0x5000];
    for (i, b) in blob.iter_mut().enumerate() {
        *b = (i % 253) as u8;
    }
    let mut table = Vec::new();
    table.extend(entry(0x2000, 0x3000));
    table.extend(entry(0x2000, 0x0000));
    table.extend(entry(0, 0x5000));
    table.extend(entry(0xA0, 0x2800));
    table.extend(entry(0x7F, 0x2000));
    table.extend(entry(0x1234, 0xFFFF_FFFF));
    table.extend(entry(0xFFFF_FFFF, 0xFFFF_FFFF));
    assert_eq!(mem.propogate_buffers(&table, &blob), Ok(()));
    assert_eq!(mem.read(0xC000), blob[0x3000]);
    assert_eq!(mem.read(0xDFFF), blob[0x4FFF]);
    assert_eq!(mem.read(0x8000), blob[0]);
    assert_eq!(mem.read(0x9FFF), blob[0x1FFF]);
    assert_eq!(mem.read(0xFE00), blob[0x2800]);
    assert_eq!(mem.read(0xFE9F), blob[0x289F]);
    assert_eq!(mem.read(0xFF80), blob[0x2000]);
    assert_eq!(mem.read(0xFFFE), blob[0x207E]);
}

#[test]
fn restore_refuses_a_short_table() {
    let mut saved = Memory::new();
    let blob = saved.aggregate_buffers();
    let table = saved.buffer_offsets().clone();
    let mut mem = Memory::new();
    mem.write(0xC000, 0x31);
    assert_eq!(mem.propogate_buffers(&table[..55], &blob), Err(RestoreError::TableTooShort));
    assert_eq!(mem.propogate_buffers(&[], &blob), Err(RestoreError::TableTooShort));
    assert_eq!(mem.read(0xC000), 0x31);
}

#[test]
fn restore_refuses_foreign_sizes() {
    let mut saved = loaded(0x03, 0x03);
    let blob = saved.aggregate_buffers();
    let table = saved.buffer_offsets().clone();
    let mut mem = loaded(0x03, 0x02);
    mem.write(0xC000, 0x31);
    assert_eq!(mem.propogate_buffers(&table, &blob), Err(RestoreError::SizeMismatch));
    assert_eq!(mem.read(0xC000), 0x31);
    assert_eq!(mem.sram().len(), 0x2000);

    let mut own = loaded(0x03, 0x02);
    let blob = own.aggregate_buffers();
    for k in [0usize, 1, 3, 4] {
        let mut table = own.buffer_offsets().clone();
        table[8 * k] ^= 0x01;
        assert_eq!(mem.propogate_buffers(&table, &blob), Err(RestoreError::SizeMismatch));
    }
    // A mismatched size is reported before a bad offset.
    let mut table = own.buffer_offsets().clone();
    table[0] ^= 0x01;
    table[4 + 3] = 0xFF;
    assert_eq!(mem.propogate_buffers(&table, &blob), Err(RestoreError::SizeMismatch));
}

#[test]
fn restore_refuses_buffers_outside_the_blob() {
    let mut saved = loaded(0x03, 0x02);
    fill(&mut saved, 3);
    let blob = saved.aggregate_buffers();
    let table = saved.buffer_offsets().clone();
    let mut mem = loaded(0x03, 0x02);
    mem.write(0xC000, 0x31);
    assert_eq!(
        mem.propogate_buffers(&table, &blob[..blob.len() - 1]),
        Err(RestoreError::OutOfRange)
    );
    for k in 0..5usize {
        let mut bad = table.clone();
        bad[8 * k + 4..8 * k + 8].copy_from_slice(&0xFFFF_FFF0u32.to_le_bytes());
        assert_eq!(mem.propogate_buffers(&bad, &blob), Err(RestoreError::OutOfRange));
    }
    assert_eq!(mem.read(0xC000), 0x31);
    assert_eq!(mem.read(0x8000), 0x00);
    // The palette entries are not looked at.
    let mut odd = table.clone();
    odd[40..56].copy_from_slice(&[0xFF; 16]);
    assert_eq!(mem.propogate_buffers(&odd, &blob), Ok(()));
    assert_eq!(mem.read(0xC000), saved.read(0xC000));
}

#[test]
fn replay_restores_mbc1_registers() {
    let mut saved = loaded(0x03, 0x03);
    saved.write(0x0000, 0x0A);
    saved.write(0x2000, 0x1B);
    saved.write(0x4000, 0x03);
    saved.write(0x6000, 0x01);
    let block = saved.create_bess_mbc_block().unwrap();

    let mut target = loaded(0x03, 0x03);
    target.write(0x2000, 0x02);
    target.write(0xC000, 0x66);
    assert_eq!(target.replay_bess_mbc_block(&block), Ok(()));
    assert_eq!(target.mbc(), saved.mbc());
    assert_eq!(target.mbc().banking_mode, BankingMode::Advanced);
    assert_eq!(target.read(0xC000), 0x66);
    assert!(target.sram().iter().all(|b| *b == 0));

    // And back to the power-on registers.
    let fresh = loaded(0x03, 0x03).create_bess_mbc_block().unwrap();
    assert_eq!(target.replay_bess_mbc_block(&fresh), Ok(()));
    assert_eq!(target.mbc(), loaded(0x03, 0x03).mbc());
}

#[test]
fn replay_restores_mbc3_registers() {
    let mut saved = loaded(0x13, 0x03);
    saved.write(0x0000, 0x0A);
    saved.write(0x2000, 0x45);
    saved.write(0x4000, 0x02);
    let block = saved.create_bess_mbc_block().unwrap();

    let mut target = loaded(0x13, 0x03);
    target.write(0x0000, 0x0A);
    target.write(0xA000, 0x77);
    target.write(0xA001, 0x78);
    target.write(0x0000, 0x00);
    assert_eq!(target.replay_bess_mbc_block(&block), Ok(()));
    assert_eq!(target.mbc(), saved.mbc());
    // The fifth record is a write of zero to 0xA000.
    assert_eq!(target.sram()[0], 0x00);
    assert_eq!(target.sram()[1], 0x78);
}

#[test]
fn replay_of_a_fresh_mbc3_block_selects_bank_one() {
    let saved = loaded(0x13, 0x00);
    assert_eq!(saved.mbc().rom_bank_lo, 0);
    let block = saved.create_bess_mbc_block().unwrap();
    let mut target = loaded(0x13, 0x00);
    assert_eq!(target.replay_bess_mbc_block(&block), Ok(()));
    assert_eq!(target.mbc().rom_bank_lo, 1);
}

#[test]
fn replay_stops_at_a_clock_register() {
    let mut saved = loaded(0x10, 0x03);
    saved.write(0x2000, 0x05);
    saved.write(0x4000, 0x08);
    let block = saved.create_bess_mbc_block().unwrap();
    let mut target = loaded(0x10, 0x03);
    assert_eq!(
        target.replay_bess_mbc_block(&block),
        Err(ReplayError::Refused { fault: AccessFault::UnsupportedRtc })
    );
    // The records before it were replayed.
    assert_eq!(target.mbc().rom_bank_lo, 0x05);
    assert_eq!(target.mbc().ram_or_rom_upper, 0x08);
}

#[test]
fn replay_stops_at_a_fragment() {
    let mut mem = loaded(0x01, 0x00);
    assert_eq!(mem.replay_bess_mbc_block(&[]), Ok(()));
    assert_eq!(mem.replay_bess_mbc_block(&[0x00]), Err(ReplayError::Truncated));
    assert_eq!(
        mem.replay_bess_mbc_block(&[0x00, 0x20, 0x09, 0x00, 0x40]),
        Err(ReplayError::Truncated)
    );
    assert_eq!(mem.mbc().rom_bank_lo, 0x09);
    assert_eq!(mem.mbc().ram_or_rom_upper, 0x00);
}

#[test]
fn replay_writes_go_through_the_decoder() {
    let mut mem = Memory::new();
    assert_eq!(
        mem.replay_bess_mbc_block(&[0x00, 0xC0, 0x12, 0xFF, 0xFF, 0x1F, 0x80, 0xFF, 0x34]),
        Ok(())
    );
    assert_eq!(mem.read(0xC000), 0x12);
    assert_eq!(mem.read(0xFFFF), 0x1F);
    assert_eq!(mem.read(0xFF80), 0x34);
    // A DMA from a page the bus cannot read is refused.
    assert_eq!(
        mem.replay_bess_mbc_block(&[0x01, 0xC0, 0x56, 0x46, 0xFF, 0x00, 0x02, 0xC0, 0x78]),
        Err(ReplayError::Refused { fault: AccessFault::UnreadableDmaSource })
    );
    assert_eq!(mem.read(0xC001), 0x56);
    assert_eq!(mem.read(0xC002), 0x00);
}
