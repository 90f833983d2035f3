use gameboy_dmg_emulator::emulator::cartridge::{Cartridge, MbcType};
use gameboy_dmg_emulator::EmulatorError;

fn make_rom(len: usize, cart_type: u8, ram_code: u8, title: &str) -> Vec<u8> {
    let mut rom = vec![0u8; len];
    let bytes = title.as_bytes();
    let mut i = 0;
    while i < bytes.len() && i < 16 {
        rom[0x134 + i] = bytes[i];
        i += 1;
    }
    rom[0x147] = cart_type;
    rom[0x148] = 0x01;
    rom[0x149] = ram_code;
    let mut checksum: u8 = 0;
    let mut j = 0x134;
    while j < 0x14D {
        checksum = checksum.wrapping_sub(rom[j]).wrapping_sub(1);
        j += 1;
    }
    rom[0x14D] = checksum;
    rom
}

#[test]
fn test_construction_validation() {
    // Shorter than two banks: invalid.
    let short = vec![0u8; 0x7FFF];
    assert!(matches!(Cartridge::new(short), Err(EmulatorError::InvalidRom)));

    // Unknown controller byte: unsupported, carrying the byte.
    let rom = make_rom(0x8000, 0xAB, 0x00, "X");
    assert!(matches!(
        Cartridge::new(rom),
        Err(EmulatorError::UnsupportedCartridge(0xAB))
    ));

    // A plain image constructs with the initial banking state.
    let rom = make_rom(0x8000, 0x00, 0x00, "PLAIN");
    let cart = Cartridge::new(rom).unwrap();
    assert_eq!(cart.mbc_type, MbcType::NoMbc);
    assert_eq!(cart.current_rom_bank, 1);
    assert_eq!(cart.current_ram_bank, 0);
    assert!(!cart.ram_enabled);
    assert_eq!(cart.banking_mode, 0);
    assert_eq!(cart.header.title, "PLAIN");
    assert_eq!(cart.header.cartridge_type, 0x00);
    assert_eq!(cart.header.ram_size, 0x00);
    assert_eq!(cart.ram_data.len(), 0);
}

#[test]
fn test_header_checksum_mismatch_is_not_fatal() {
    // A deliberately wrong checksum byte: construction still succeeds and
    // the mismatch is only reported.
    let mut rom = make_rom(0x8000, 0x01, 0x02, "BADSUM");
    rom[0x14D] = rom[0x14D].wrapping_add(1);
    let cart = Cartridge::new(rom).unwrap();
    assert!(!cart.header_checksum_matches());

    let good = make_rom(0x8000, 0x01, 0x02, "GOODSUM");
    let cart = Cartridge::new(good).unwrap();
    assert!(cart.header_checksum_matches());
}

#[test]
fn test_mbc1_bank_zero_coerced() {
    let rom = make_rom(0x20000, 0x01, 0x02, "MBC1");
    let mut cart = Cartridge::new(rom).unwrap();
    // Writing bank 0 selects bank 1.
    cart.write(0x2000, 0x00);
    assert_eq!(cart.current_rom_bank, 1);
    // Writing bank 5 selects bank 5.
    cart.write(0x2000, 0x05);
    assert_eq!(cart.current_rom_bank, 5);
    // Only the low five bits count.
    cart.write(0x2000, 0x20);
    assert_eq!(cart.current_rom_bank, 1);
}

#[test]
fn test_mbc1_upper_bits_and_mode() {
    let rom = make_rom(0x20000, 0x01, 0x03, "MBC1B");
    let mut cart = Cartridge::new(rom).unwrap();
    cart.write(0x2000, 0x01);
    // ROM-banking mode: the window sets the upper two bank bits.
    cart.write(0x4000, 0x01);
    assert_eq!(cart.current_rom_bank, 0x21);
    // RAM-banking mode: the same window selects the RAM bank.
    cart.write(0x6000, 0x01);
    assert_eq!(cart.banking_mode, 1);
    cart.write(0x4000, 0x02);
    assert_eq!(cart.current_ram_bank, 2);
}

#[test]
fn test_mbc5_bank_zero_honored() {
    let rom = make_rom(0x20000, 0x19, 0x02, "MBC5");
    let mut cart = Cartridge::new(rom).unwrap();
    cart.write(0x2000, 0x05);
    assert_eq!(cart.current_rom_bank, 5);
    // Bank 0 is honored as bank 0: no coercion.
    cart.write(0x2000, 0x00);
    assert_eq!(cart.current_rom_bank, 0);
    // The ninth bank bit arrives through the high window.
    cart.write(0x3000, 0x01);
    assert_eq!(cart.current_rom_bank, 0x100);
}

#[test]
fn test_switchable_window_masks_missing_banks() {
    // Two physical banks; selecting bank 5 lands on bank 5 % 2 == 1.
    let mut rom = make_rom(0x8000, 0x01, 0x00, "MASK");
    rom[0x4000] = 0x77;
    let mut cart = Cartridge::new(rom).unwrap();
    cart.write(0x2000, 0x05);
    assert_eq!(cart.current_rom_bank, 5);
    assert_eq!(cart.read(0x4000), 0x77);
}

#[test]
fn test_rom_bank_zero_window_fixed() {
    let mut rom = make_rom(0x10000, 0x01, 0x00, "FIX");
    rom[0x0042] = 0x99;
    let mut cart = Cartridge::new(rom).unwrap();
    cart.write(0x2000, 0x03);
    assert_eq!(cart.read(0x0042), 0x99);
}

#[test]
fn test_ram_gating_mbc1() {
    let rom = make_rom(0x8000, 0x01, 0x02, "RAM1");
    let mut cart = Cartridge::new(rom).unwrap();
    // Disabled RAM reads as 0xFF and ignores writes.
    assert_eq!(cart.read(0xA123), 0xFF);
    cart.write(0xA123, 0x5A);
    assert_eq!(cart.read(0xA123), 0xFF);
    // Only a low nibble of 0x0A enables.
    cart.write(0x0000, 0x0B);
    assert!(!cart.ram_enabled);
    cart.write(0x0000, 0x0A);
    assert!(cart.ram_enabled);
    cart.write(0xA123, 0x5A);
    assert_eq!(cart.read(0xA123), 0x5A);
    // Disabling again hides the byte but keeps it stored.
    cart.write(0x0000, 0x00);
    assert_eq!(cart.read(0xA123), 0xFF);
    cart.write(0x0000, 0x1A);
    assert_eq!(cart.read(0xA123), 0x5A);
}

#[test]
fn test_ram_gating_mbc3() {
    let rom = make_rom(0x8000, 0x0F, 0x03, "RAM3");
    let mut cart = Cartridge::new(rom).unwrap();
    assert_eq!(cart.mbc_type, MbcType::Mbc3);
    assert_eq!(cart.read(0xA000), 0xFF);
    cart.write(0x0000, 0x0A);
    cart.write(0x4000, 0x02);
    assert_eq!(cart.current_ram_bank, 2);
    cart.write(0xA000, 0x42);
    assert_eq!(cart.read(0xA000), 0x42);
    // Register-select values above three leave the RAM bank alone.
    cart.write(0x4000, 0x08);
    assert_eq!(cart.current_ram_bank, 2);
}

#[test]
fn test_ram_gating_mbc5() {
    let rom = make_rom(0x8000, 0x19, 0x03, "RAM5");
    let mut cart = Cartridge::new(rom).unwrap();
    assert_eq!(cart.read(0xB000), 0xFF);
    cart.write(0x0000, 0x0A);
    cart.write(0x4000, 0x01);
    assert_eq!(cart.current_ram_bank, 1);
    cart.write(0xB000, 0x24);
    assert_eq!(cart.read(0xB000), 0x24);
    // Another bank shows its own storage.
    cart.write(0x4000, 0x00);
    assert_eq!(cart.read(0xB000), 0x00);
}

#[test]
fn test_ram_gating_mbc2() {
    let rom = make_rom(0x8000, 0x05, 0x02, "RAM2");
    let mut cart = Cartridge::new(rom).unwrap();
    assert_eq!(cart.mbc_type, MbcType::Mbc2);
    // Address bit 8 splits the low window: bit clear gates RAM.
    cart.write(0x0000, 0x0A);
    assert!(cart.ram_enabled);
    // Bit set selects the ROM bank, zero coerced to one.
    cart.write(0x0100, 0x00);
    assert_eq!(cart.current_rom_bank, 1);
    cart.write(0x0100, 0x04);
    assert_eq!(cart.current_rom_bank, 4);
    // Built-in RAM stores only the low nibble, in the low 0x200 bytes.
    cart.write(0xA010, 0xAB);
    assert_eq!(cart.read(0xA010), 0x0B);
    cart.write(0xA300, 0x0F);
    assert_eq!(cart.read(0xA300), 0x00);
}

#[test]
fn test_no_controller_ignores_writes() {
    let rom = make_rom(0x8000, 0x00, 0x02, "NONE");
    let mut cart = Cartridge::new(rom).unwrap();
    cart.write(0x0000, 0x0A);
    cart.write(0x2000, 0x05);
    cart.write(0xA000, 0x42);
    assert!(!cart.ram_enabled);
    assert_eq!(cart.current_rom_bank, 1);
    assert_eq!(cart.read(0xA000), 0xFF);
}

#[test]
fn test_small_ram_bounds() {
    // A 2KB RAM declares less than one bank window; accesses past the end
    // read as 0xFF and ignore writes.
    let rom = make_rom(0x8000, 0x01, 0x01, "TINY");
    let mut cart = Cartridge::new(rom).unwrap();
    assert_eq!(cart.ram_data.len(), 0x800);
    cart.write(0x0000, 0x0A);
    cart.write(0xA7FF, 0x31);
    assert_eq!(cart.read(0xA7FF), 0x31);
    cart.write(0xA800, 0x32);
    assert_eq!(cart.read(0xA800), 0xFF);
}

#[test]
fn test_get_info_report() {
    // A synthetic 64KB type-1 image with valid size codes reports the
    // parsed title, the controller family, and the sizes from the codes.
    let rom = make_rom(0x10000, 0x01, 0x02, "TEST");
    let cart = Cartridge::new(rom).unwrap();
    assert_eq!(cart.ram_data.len(), 0x2000);
    assert_eq!(
        cart.get_info(),
        "Title: TEST\nType: Mbc1\nROM Size: 64KB\nRAM Size: 8KB"
    );
}

#[test]
fn test_get_info_unsupported_name() {
    let rom = make_rom(0x8000, 0x00, 0x00, "HOLE");
    let mut cart = Cartridge::new(rom).unwrap();
    assert_eq!(
        cart.get_info(),
        "Title: HOLE\nType: None\nROM Size: 32KB\nRAM Size: 0KB"
    );
    cart.mbc_type = MbcType::Unsupported(30);
    assert_eq!(
        cart.get_info(),
        "Title: HOLE\nType: Unsupported(30)\nROM Size: 32KB\nRAM Size: 0KB"
    );
}

#[test]
fn test_title_utf8_lossy_decoding() {
    // A lone continuation-less lead byte is not valid UTF-8: it decodes to
    // the replacement character, not to the character of equal code.
    let mut rom = make_rom(0x8000, 0x00, 0x00, "");
    rom[0x134] = 0xC3;
    let cart = Cartridge::new(rom).unwrap();
    assert_eq!(cart.header.title, "\u{FFFD}");

    // A valid two-byte sequence decodes to its scalar value.
    let mut rom = make_rom(0x8000, 0x00, 0x00, "");
    rom[0x134] = 0xC3;
    rom[0x135] = 0x89;
    let cart = Cartridge::new(rom).unwrap();
    assert_eq!(cart.header.title, "\u{00C9}");
}

#[test]
fn test_title_full_length() {
    let rom = make_rom(0x8000, 0x00, 0x00, "ABCDEFGHIJKLMNOP");
    let cart = Cartridge::new(rom).unwrap();
    assert_eq!(cart.header.title, "ABCDEFGHIJKLMNOP");
}

#[test]
fn test_header_fields() {
    let mut rom = make_rom(0x8000, 0x03, 0x01, "FIELDS");
    rom[0x14A] = 0x01;
    rom[0x14B] = 0x33;
    rom[0x14C] = 0x02;
    rom[0x14E] = 0x12;
    rom[0x14F] = 0x34;
    let cart = Cartridge::new(rom).unwrap();
    assert_eq!(cart.mbc_type, MbcType::Mbc1);
    assert_eq!(cart.header.destination_code, 0x01);
    assert_eq!(cart.header.old_licensee_code, 0x33);
    assert_eq!(cart.header.mask_rom_version, 0x02);
    assert_eq!(cart.header.global_checksum, 0x1234);
}
