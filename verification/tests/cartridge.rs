use gb_bus::cartridge::{
    detect_kind, find_multicart_logo, is_loadable_image, is_valid_rom_image, mbc_kind, pad_image,
    sram_size, NINTENDO_LOGO,
};
use gb_bus::mask::{double_to_cover, power_of_two};
use gb_bus::{BankingMode, CartridgeError, MbcKind, Memory};

fn blank_rom(len: usize, mbc: u8, ram: u8) -> Vec<u8> {
    let mut rom = vec![0u8; len];
    rom[0x147] = mbc;
    rom[0x149] = ram;
    rom
}

fn with_logo_at(mut rom: Vec<u8>, at: usize) -> Vec<u8> {
    rom[at..at + 48].copy_from_slice(&NINTENDO_LOGO);
    rom
}

#[test]
fn ram_size_codes() {
    assert_eq!(sram_size(0x00), 0);
    assert_eq!(sram_size(0x01), 0);
    assert_eq!(sram_size(0x02), 0x2000);
    assert_eq!(sram_size(0x03), 0x8000);
    assert_eq!(sram_size(0x04), 0x20000);
    assert_eq!(sram_size(0x05), 0x10000);
    assert_eq!(sram_size(0x06), 0);
    assert_eq!(sram_size(0xFF), 0);
}

#[test]
fn controller_codes() {
    assert_eq!(mbc_kind(0x00), Some(MbcKind::NoMbc));
    for code in 0x01u8..=0x03 {
        assert_eq!(mbc_kind(code), Some(MbcKind::Mbc1));
    }
    for code in 0x0Fu8..=0x13 {
        assert_eq!(mbc_kind(code), Some(MbcKind::Mbc3));
    }
    for code in [0x04u8, 0x05, 0x06, 0x0E, 0x14, 0x19, 0x1B, 0xFC, 0xFF] {
        assert_eq!(mbc_kind(code), None);
    }
}

#[test]
fn rom_image_lengths() {
    assert!(is_valid_rom_image(&vec![0u8; 0x8000]));
    assert!(is_valid_rom_image(&vec![0u8; 0x10000]));
    assert!(is_valid_rom_image(&vec![0u8; 0x100000]));
    assert!(!is_valid_rom_image(&vec![0u8; 0x4000]));
    assert!(!is_valid_rom_image(&vec![0u8; 0x8001]));
    assert!(!is_valid_rom_image(&vec![0u8; 0xC000]));
    assert!(!is_valid_rom_image(&[]));
    assert!(power_of_two(1));
    assert!(power_of_two(0x8000));
    assert!(!power_of_two(0));
    assert!(!power_of_two(0x8001));
    assert!(!power_of_two(0x18000));
}

#[test]
fn loadable_image_lengths() {
    // An image only has to hold its header.
    assert!(is_loadable_image(&blank_rom(0x14A, 0x00, 0x00)));
    assert!(is_loadable_image(&blank_rom(0x150, 0x00, 0x00)));
    assert!(is_loadable_image(&blank_rom(0x150, 0x01, 0x00)));
    assert!(is_loadable_image(&blank_rom(0x7FFF, 0x13, 0x00)));
    assert!(is_loadable_image(&blank_rom(0x8000, 0x00, 0x00)));
    assert!(is_loadable_image(&blank_rom(0x8001, 0x13, 0x00)));
    assert!(is_loadable_image(&blank_rom(0xC000, 0xFF, 0x00)));
    assert!(is_loadable_image(&blank_rom(0x12345, 0x00, 0x00)));
    assert!(!is_loadable_image(&vec![0u8; 0x149]));
    assert!(!is_loadable_image(&vec![0u8; 0x148]));
    assert!(!is_loadable_image(&[]));
}

#[test]
fn load_pads_a_short_image_with_a_controller() {
    let mut image: Vec<u8> = (0..0x4000usize).map(|i| (i % 250) as u8 + 1).collect();
    image[0x147] = 0x01;
    image[0x149] = 0x02;
    let mut mem = Memory::new();
    assert_eq!(mem.load_cartridge(image.clone()), Ok(()));
    assert_eq!(mem.mbc().kind, MbcKind::Mbc1);
    assert_eq!(mem.rom().len(), 0x8000);
    assert_eq!(mem.rom()[..0x4000], image[..]);
    assert_eq!(mem.read(0x3FFF), image[0x3FFF]);
    assert_eq!(mem.read(0x4000), 0x00);
    assert_eq!(mem.sram().len(), 0x2000);
}

#[test]
fn doubling_rounds_up_to_a_power_of_two() {
    assert_eq!(double_to_cover(0x8000, 0), 0x8000);
    assert_eq!(double_to_cover(0x8000, 0x8000), 0x8000);
    assert_eq!(double_to_cover(0x8000, 0x8001), 0x10000);
    assert_eq!(double_to_cover(0x8000, 0xC000), 0x10000);
    assert_eq!(double_to_cover(0x8000, 0x10000), 0x10000);
    assert_eq!(double_to_cover(0x10000, 0x150), 0x10000);
    assert_eq!(double_to_cover(0x10000, 0x10001), 0x20000);
    assert_eq!(double_to_cover(0x8000, 0x7FFF_FFFF), 0x8000_0000);
    assert_eq!(double_to_cover(0x8000, 0x8000_0000), 0x8000_0000);
    assert_eq!(double_to_cover(1, 5), 8);
}

#[test]
fn padding_keeps_the_image_and_adds_zeros() {
    let mut image: Vec<u8> = (0..0xC000usize).map(|i| (i % 255) as u8 + 1).collect();
    let loaded = image.clone();
    pad_image(&mut image);
    assert_eq!(image.len(), 0x10000);
    assert_eq!(image[..0xC000], loaded[..]);
    assert!(image[0xC000..].iter().all(|b| *b == 0));
    // A power-of-two length is kept, but for the controller-less minimum.
    let mut image = blank_rom(0x8000, 0x01, 0x00);
    pad_image(&mut image);
    assert_eq!(image.len(), 0x8000);
    let mut image = blank_rom(0x8000, 0x00, 0x00);
    pad_image(&mut image);
    assert_eq!(image.len(), 0x10000);
    let mut image = blank_rom(0x40000, 0x00, 0x00);
    pad_image(&mut image);
    assert_eq!(image.len(), 0x40000);
}

#[test]
fn load_pads_a_short_plain_image() {
    let mut image: Vec<u8> = (0..0x150usize).map(|i| (i % 200) as u8 + 3).collect();
    image[0x147] = 0x00;
    image[0x149] = 0x00;
    image[0x14F] = 0x9C;
    let mut mem = Memory::new();
    mem.write(0xC000, 0x21);
    mem.write(0xFFFF, 0x1F);
    assert_eq!(mem.load_cartridge(image.clone()), Ok(()));
    assert_eq!(mem.mbc().kind, MbcKind::NoMbc);
    assert_eq!(mem.rom().len(), 0x10000);
    assert_eq!(mem.rom()[..0x150], image[..]);
    assert!(mem.rom()[0x150..].iter().all(|b| *b == 0));
    assert_eq!(mem.read(0x0000), image[0]);
    assert_eq!(mem.read(0x014F), 0x9C);
    assert_eq!(mem.read(0x0150), 0x00);
    assert_eq!(mem.read(0x7FFF), 0x00);
    assert_eq!(mem.read(0xBFFF), 0x00);
    assert_eq!(mem.read(0xC000), 0x21);
    assert_eq!(mem.read(0xFFFF), 0x1F);
    assert_eq!(mem.get_rom_info()[17], 0x9C);
}

#[test]
fn load_pads_every_plain_image_up_to_64k() {
    for len in [0x14Ausize, 0x200, 0x4000, 0x7FFF, 0x8000, 0xC123, 0xFFFF, 0x10000] {
        let mut image = vec![0x5Au8; len];
        image[0x147] = 0x00;
        image[0x149] = 0x00;
        let mut mem = Memory::new();
        assert_eq!(mem.load_cartridge(image.clone()), Ok(()));
        assert_eq!(mem.rom().len(), 0x10000);
        assert_eq!(mem.rom()[..len], image[..]);
        assert!(mem.rom()[len..].iter().all(|b| *b == 0));
    }
}

#[test]
fn load_pads_to_a_power_of_two() {
    for (len, code, stored) in [
        (0x8001usize, 0x01u8, 0x10000usize),
        (0xC000, 0x13, 0x10000),
        (0x18000, 0x00, 0x20000),
        (0x18000, 0x03, 0x20000),
        (0x7_0000, 0x11, 0x8_0000),
        (0x8_0000, 0x01, 0x8_0000),
    ] {
        let mut image: Vec<u8> = (0..len).map(|i| (i % 251) as u8).collect();
        image[0x147] = code;
        image[0x149] = 0x00;
        let mut mem = Memory::new();
        assert_eq!(mem.load_cartridge(image.clone()), Ok(()));
        assert_eq!(mem.rom().len(), stored);
        assert!(power_of_two(mem.rom().len()));
        assert_eq!(mem.rom()[..len], image[..]);
        assert!(mem.rom()[len..].iter().all(|b| *b == 0));
    }
}

#[test]
fn padded_banks_read_as_zero() {
    let mut image: Vec<u8> = (0..0xC000usize).map(|i| (i % 250) as u8 + 1).collect();
    image[0x147] = 0x01;
    image[0x149] = 0x00;
    let mut mem = Memory::new();
    assert_eq!(mem.load_cartridge(image.clone()), Ok(()));
    mem.write(0x2000, 0x02);
    assert_eq!(mem.read(0x4000), image[0x8000]);
    assert_eq!(mem.read(0x7FFF), image[0xBFFF]);
    mem.write(0x2000, 0x03);
    assert_eq!(mem.read(0x4000), 0x00);
    assert_eq!(mem.read(0x7FFF), 0x00);
    // Bank 5 of the four banks kept is bank 1.
    mem.write(0x2000, 0x05);
    assert_eq!(mem.read(0x4000), image[0x4000]);
}

#[test]
fn multicart_scan_runs_on_the_padded_image() {
    // The image ends inside bank 0x10, after the logo.
    let mut image = blank_rom(0x41000, 0x01, 0x00);
    image[0x40104..0x40104 + 48].copy_from_slice(&NINTENDO_LOGO);
    assert!(!find_multicart_logo(&image));
    let mut mem = Memory::new();
    assert_eq!(mem.load_cartridge(image), Err(CartridgeError::UnsupportedMulticart));
    assert!(!mem.cartridge_loaded());
}

#[test]
fn load_decides_the_controller() {
    for (code, kind) in [
        (0x00u8, MbcKind::NoMbc),
        (0x01, MbcKind::Mbc1),
        (0x02, MbcKind::Mbc1),
        (0x03, MbcKind::Mbc1),
        (0x0F, MbcKind::Mbc3),
        (0x10, MbcKind::Mbc3),
        (0x13, MbcKind::Mbc3),
    ] {
        let mut mem = Memory::new();
        assert_eq!(mem.load_cartridge(blank_rom(0x8000, code, 0x00)), Ok(()));
        assert!(mem.cartridge_loaded());
        assert_eq!(mem.mbc().kind, kind);
    }
}

#[test]
fn load_sizes_the_external_ram() {
    for (code, size) in
        [(0x00u8, 0usize), (0x01, 0), (0x02, 0x2000), (0x03, 0x8000), (0x04, 0x20000), (0x05, 0x10000), (0x09, 0)]
    {
        let mut mem = Memory::new();
        assert_eq!(mem.load_cartridge(blank_rom(0x8000, 0x03, code)), Ok(()));
        assert_eq!(mem.sram().len(), size);
        assert!(mem.sram().iter().all(|b| *b == 0));
    }
}

#[test]
fn load_refuses_unknown_controllers() {
    for code in [0x05u8, 0x06, 0x0B, 0x19, 0x1E, 0x20, 0xFF] {
        let mut mem = Memory::new();
        mem.write(0xC000, 0x12);
        assert_eq!(
            mem.load_cartridge(blank_rom(0x8000, code, 0x03)),
            Err(CartridgeError::UnsupportedMbc { code })
        );
        assert!(!mem.cartridge_loaded());
        assert!(mem.sram().is_empty());
        assert_eq!(mem.mbc().kind, MbcKind::NoMbc);
        assert_eq!(mem.read(0xC000), 0x12);
    }
}

#[test]
fn refused_load_keeps_the_cartridge_in_the_slot() {
    let mut mem = Memory::new();
    let mut first = blank_rom(0x8000, 0x01, 0x02);
    first[0x4000] = 0x77;
    assert_eq!(mem.load_cartridge(first.clone()), Ok(()));
    mem.write(0x0000, 0x0A);
    mem.write(0xA000, 0x55);
    assert_eq!(
        mem.load_cartridge(blank_rom(0x10000, 0xFC, 0x03)),
        Err(CartridgeError::UnsupportedMbc { code: 0xFC })
    );
    assert_eq!(mem.rom()[..], first[..]);
    assert_eq!(mem.mbc().kind, MbcKind::Mbc1);
    assert_eq!(mem.sram().len(), 0x2000);
    assert_eq!(mem.read(0xA000), 0x55);
    assert_eq!(mem.read(0x4000), 0x77);
}

#[test]
fn load_refuses_a_multicart() {
    let rom = with_logo_at(blank_rom(0x100000, 0x01, 0x00), 0x40104);
    assert!(find_multicart_logo(&rom));
    assert_eq!(detect_kind(&rom), Some(MbcKind::Mbc1Multicart));
    let mut mem = Memory::new();
    assert_eq!(mem.load_cartridge(rom), Err(CartridgeError::UnsupportedMulticart));
    assert!(!mem.cartridge_loaded());
    assert_eq!(mem.mbc().kind, MbcKind::NoMbc);
}

#[test]
fn multicart_scan_is_for_mbc1_only() {
    let rom = with_logo_at(blank_rom(0x100000, 0x13, 0x00), 0x40104);
    assert!(find_multicart_logo(&rom));
    assert_eq!(detect_kind(&rom), Some(MbcKind::Mbc3));
    let mut mem = Memory::new();
    assert_eq!(mem.load_cartridge(rom), Ok(()));
    assert_eq!(mem.mbc().kind, MbcKind::Mbc3);

    let rom = with_logo_at(blank_rom(0x100000, 0x00, 0x00), 0x40104);
    assert_eq!(detect_kind(&rom), Some(MbcKind::NoMbc));
}

#[test]
fn plain_mbc1_has_no_logo_in_bank_16() {
    let rom = with_logo_at(blank_rom(0x100000, 0x01, 0x00), 0x0104);
    assert!(!find_multicart_logo(&rom));
    assert_eq!(detect_kind(&rom), Some(MbcKind::Mbc1));
    // The logo one bank too high or too low does not count.
    let rom = with_logo_at(blank_rom(0x100000, 0x01, 0x00), 0x44104);
    assert!(!find_multicart_logo(&rom));
    let rom = with_logo_at(blank_rom(0x100000, 0x01, 0x00), 0x3C104);
    assert!(!find_multicart_logo(&rom));
}

#[test]
fn multicart_scan_needs_the_whole_bank() {
    // An image that ends at or below bank 0x10 has nothing to scan.
    assert!(!find_multicart_logo(&blank_rom(0x8000, 0x01, 0x00)));
    assert!(!find_multicart_logo(&blank_rom(0x40000, 0x01, 0x00)));
    let rom = with_logo_at(blank_rom(0x80000, 0x01, 0x00), 0x40104);
    assert!(find_multicart_logo(&rom));
}

#[test]
fn multicart_scan_covers_the_whole_bank() {
    let top = with_logo_at(blank_rom(0x80000, 0x01, 0x00), 0x44000 - 48);
    assert!(find_multicart_logo(&top));
    let second = with_logo_at(blank_rom(0x80000, 0x01, 0x00), 0x40001);
    assert!(find_multicart_logo(&second));
    // The first 48 bytes of the bank are the lowest place for the logo.
    let bottom = with_logo_at(blank_rom(0x80000, 0x01, 0x00), 0x40000);
    assert!(find_multicart_logo(&bottom));
    let mut mem = Memory::new();
    assert_eq!(mem.load_cartridge(bottom), Err(CartridgeError::UnsupportedMulticart));
    // One byte lower the logo starts in bank 0x0F.
    let below = with_logo_at(blank_rom(0x80000, 0x01, 0x00), 0x3FFFF);
    assert!(!find_multicart_logo(&below));
    let above = with_logo_at(blank_rom(0x80000, 0x01, 0x00), 0x44000 - 47);
    assert!(!find_multicart_logo(&above));
}

#[test]
fn multicart_scan_wants_the_logo_complete() {
    let mut rom = with_logo_at(blank_rom(0x80000, 0x01, 0x00), 0x40104);
    rom[0x40104 + 20] ^= 0x01;
    assert!(!find_multicart_logo(&rom));
    let mut rom = with_logo_at(blank_rom(0x80000, 0x01, 0x00), 0x40104);
    rom[0x40104] ^= 0x80;
    assert!(!find_multicart_logo(&rom));
}

#[test]
fn multicart_scan_does_not_back_up() {
    // A byte equal to the logo's last, right above the logo, starts a
    // match that fails on the logo's own last byte, and the scan goes on
    // below it.
    let mut rom = with_logo_at(blank_rom(0x80000, 0x01, 0x00), 0x40104);
    rom[0x40104 + 48] = NINTENDO_LOGO[47];
    assert!(!find_multicart_logo(&rom));
    // Anything else above the logo leaves it found.
    rom[0x40104 + 48] = 0x00;
    assert!(find_multicart_logo(&rom));
    rom[0x40104 + 49] = NINTENDO_LOGO[47];
    assert!(find_multicart_logo(&rom));
}

#[test]
fn load_keeps_registers_and_ram_contents() {
    let mut mem = Memory::new();
    assert_eq!(mem.load_cartridge(blank_rom(0x8000, 0x03, 0x03)), Ok(()));
    mem.write(0x0000, 0x0A);
    mem.write(0x2000, 0x11);
    mem.write(0x4000, 0x02);
    mem.write(0x6000, 0x01);
    mem.write(0xA000, 0x99);
    mem.write(0x4000, 0x00);
    mem.write(0xA001, 0x55);
    mem.write(0xC000, 0x21);
    let registers = mem.mbc();

    assert_eq!(mem.load_cartridge(blank_rom(0x10000, 0x02, 0x02)), Ok(()));
    let after = mem.mbc();
    assert_eq!(after.kind, MbcKind::Mbc1);
    assert_eq!(after.ram_enabled, registers.ram_enabled);
    assert_eq!(after.rom_bank_lo, 0x11);
    assert_eq!(after.ram_or_rom_upper, 0x00);
    assert_eq!(after.banking_mode, BankingMode::Advanced);
    // The external RAM is cut to the new size and keeps what fits.
    assert_eq!(mem.sram().len(), 0x2000);
    assert_eq!(mem.sram()[1], 0x55);
    assert_eq!(mem.read(0xC000), 0x21);

    // Growing again fills with zeros.
    assert_eq!(mem.load_cartridge(blank_rom(0x8000, 0x03, 0x03)), Ok(()));
    assert_eq!(mem.sram().len(), 0x8000);
    assert_eq!(mem.sram()[1], 0x55);
    assert_eq!(mem.sram()[0x4000], 0x00);

    assert_eq!(mem.load_cartridge(blank_rom(0x8000, 0x01, 0x00)), Ok(()));
    assert!(mem.sram().is_empty());
}

#[test]
fn rom_info_is_title_and_checksum() {
    let mut rom = blank_rom(0x8000, 0x00, 0x00);
    for (i, b) in b"POCKET MONSTERS!".iter().enumerate() {
        rom[0x134 + i] = *b;
    }
    rom[0x133] = 0xEE;
    rom[0x144] = 0xDD;
    rom[0x14D] = 0xCC;
    rom[0x14E] = 0x12;
    rom[0x14F] = 0x34;
    rom[0x150] = 0xBB;
    let mut mem = Memory::new();
    assert_eq!(mem.load_cartridge(rom), Ok(()));
    let info = mem.get_rom_info();
    assert_eq!(info.len(), 18);
    assert_eq!(&info[..16], b"POCKET MONSTERS!");
    assert_eq!(&info[16..], &[0x12, 0x34]);
}
