use gbcore::cartridge::{Cartridge, CartridgeError};
use gbcore::mbc::{Mbc, Mbc1, Mbc2, NoMbc, MBC5};

fn banked_rom(banks: usize, size_code: u8) -> Vec<u8> {
    let mut rom = vec![0u8; banks * 0x4000];
    for (i, e) in rom.iter_mut().enumerate() {
        *e = (i / 0x4000) as u8;
    }
    rom[0x148] = size_code;
    rom
}

#[test]
fn mbc1_large_rom_bank_selection() {
    // 2 MiB: 128 banks, size code 6
    let mut mbc = Mbc1::new(banked_rom(128, 6), &[], false);
    for secondary in 0..4u8 {
        mbc.write(0x4000, secondary);
        for value in 0..=255u8 {
            mbc.write(0x2000, value);
            let primary = if value & 0x1f == 0 { 1 } else { value & 0x1f };
            let bank = ((secondary << 5) | primary) as usize % 128;
            assert_eq!(mbc.read(0x4000), bank as u8);
            assert_eq!(mbc.read(0x7fff), bank as u8);
        }
    }
}

#[test]
fn mbc1_bank_number_wraps_at_bank_count() {
    // 512 KiB: 32 banks, size code 4: the secondary register is not used
    let mut mbc = Mbc1::new(banked_rom(32, 4), &[], false);
    mbc.write(0x4000, 3);
    mbc.write(0x2000, 0x1f);
    assert_eq!(mbc.read(0x4000), 0x1f);
    // 1 MiB: 64 banks, size code 5
    let mut mbc = Mbc1::new(banked_rom(64, 5), &[], false);
    mbc.write(0x4000, 3);
    mbc.write(0x2000, 0x05);
    assert_eq!(mbc.read(0x4000), 0x65 % 64);
}

#[test]
fn mbc1_zero_selects_bank_one() {
    let mut mbc = Mbc1::new(banked_rom(128, 6), &[], false);
    mbc.write(0x2000, 7);
    assert_eq!(mbc.read(0x4000), 7);
    mbc.write(0x2000, 0);
    assert_eq!(mbc.read(0x4000), 1);
    mbc.write(0x2000, 0x20);
    assert_eq!(mbc.read(0x4000), 1);
}

#[test]
fn mbc1_mode_switches_low_bank_and_ram_bank() {
    let mut rom = banked_rom(128, 6);
    rom[0x149] = 3;
    let mut mbc = Mbc1::new(rom, &[], false);
    mbc.write(0x0000, 0x0a);
    mbc.write(0x4000, 1);
    assert_eq!(mbc.read(0x0000), 0);
    mbc.write(0xa000, 0x11);
    mbc.write(0x6000, 1);
    assert_eq!(mbc.read(0x0000), 0x20);
    assert_eq!(mbc.read(0xa000), 0x00);
    mbc.write(0xa000, 0x22);
    mbc.write(0x6000, 0);
    assert_eq!(mbc.read(0xa000), 0x11);
    assert_eq!(mbc.ram[0x2000], 0x22);
}

#[test]
fn ram_reads_ff_until_enabled() {
    let mut mbc = Mbc1::new(banked_rom(4, 1), &[], false);
    mbc.write(0xa000, 0x55);
    assert_eq!(mbc.read(0xa000), 0xff);
    mbc.write(0x0000, 0x1a);
    mbc.write(0xa000, 0x55);
    assert_eq!(mbc.read(0xa000), 0x55);
    mbc.write(0x0000, 0x0b);
    assert_eq!(mbc.read(0xa000), 0xff);
}

#[test]
fn mbc1_saves_only_with_battery() {
    let mut with = Mbc1::new(banked_rom(4, 1), &[1, 2, 3], true);
    with.write(0x0000, 0x0a);
    assert_eq!(with.read(0xa000), 1);
    assert_eq!(with.read(0xa002), 3);
    assert_eq!(with.read(0xa003), 0);
    with.write(0xa003, 4);
    let saved = match with.save() {
        Some(bytes) => bytes,
        None => panic!("nothing saved"),
    };
    assert_eq!(saved.len(), 0x8000);
    assert_eq!(&saved[0..5], &[1, 2, 3, 4, 0]);
    let again = Mbc1::new(banked_rom(4, 1), &saved, true);
    assert!(again.ram == with.ram);
    let without = Mbc1::new(banked_rom(4, 1), &[], false);
    assert!(without.save().is_none());
}

#[test]
fn oversized_save_data_is_discarded() {
    let data = vec![7u8; 0x8001];
    let mut mbc = Mbc1::new(banked_rom(4, 1), &data, true);
    mbc.write(0x0000, 0x0a);
    assert_eq!(mbc.read(0xa000), 0);
    assert_eq!(mbc.read(0xbfff), 0);
}

#[test]
fn plain_cartridge() {
    let mut rom = vec![0u8; 0x8000];
    rom[0x1234] = 0x56;
    rom[0x7fff] = 0x78;
    let mut mbc = NoMbc::new(rom);
    assert_eq!(mbc.read(0x1234), 0x56);
    assert_eq!(mbc.read(0x7fff), 0x78);
    mbc.write(0x1234, 0x99);
    assert_eq!(mbc.read(0x1234), 0x56);
    mbc.write(0xa010, 0x42);
    assert_eq!(mbc.read(0xa010), 0x42);
    mbc.update_rtc(1_000_000);
    assert!(mbc.save().is_none());
}

#[test]
fn mbc2_banks_and_half_byte_ram() {
    let mut mbc = Mbc2::new(banked_rom(16, 3), &[], true);
    assert_eq!(mbc.read(0x4000), 1);
    // bit 8 of the address set: bank register
    mbc.write(0x2100, 0x05);
    assert_eq!(mbc.read(0x4000), 5);
    mbc.write(0x0100, 0x10);
    assert_eq!(mbc.read(0x4000), 1);
    // bit 8 clear: RAM enable
    assert_eq!(mbc.read(0xa000), 0xff);
    mbc.write(0x0000, 0x0a);
    mbc.write(0xa001, 0x03);
    assert_eq!(mbc.read(0xa001), 0xf3);
    // the 512 cells repeat
    assert_eq!(mbc.read(0xa201), 0xf3);
    mbc.write(0xa3ff, 0x0c);
    assert_eq!(mbc.read(0xa1ff), 0xfc);
    mbc.write(0x4000, 0x07);
    assert_eq!(mbc.read(0x4000), 1);
    let saved = match mbc.save() {
        Some(bytes) => bytes,
        None => panic!("nothing saved"),
    };
    assert_eq!(saved.len(), 0x200);
    assert_eq!(saved[1], 0x03);
    assert_eq!(saved[0x1ff], 0x0c);
}

#[test]
fn mbc5_nine_bit_bank_and_zero_bank() {
    let mut rom = vec![0u8; 0x80_0000];
    for (i, e) in rom.iter_mut().enumerate() {
        *e = ((i / 0x4000) % 251) as u8;
    }
    rom[0x148] = 8;
    let mut mbc = MBC5::new(rom, &[], false);
    assert_eq!(mbc.read(0x4000), 1);
    mbc.write(0x2000, 0);
    assert_eq!(mbc.read(0x4000), 0);
    mbc.write(0x2000, 0x34);
    mbc.write(0x3000, 0x01);
    assert_eq!(mbc.read(0x4000), (0x134 % 251) as u8);
    mbc.write(0x3000, 0xfe);
    assert_eq!(mbc.read(0x4000), 0x34);
    mbc.write(0x6000, 0xff);
    assert_eq!(mbc.read(0x4000), 0x34);
    // the enable latch looks at the low nibble
    mbc.write(0x0000, 0x3a);
    mbc.write(0x4000, 0x0f);
    mbc.write(0xbfff, 0x77);
    assert_eq!(mbc.read(0xbfff), 0x77);
    assert_eq!(mbc.ram[0x1_ffff], 0x77);
}

#[test]
fn cartridge_types() {
    for (kind, battery) in [(0x01u8, false), (0x02, false), (0x03, true), (0x05, false), (0x06, true), (0x19, false), (0x1a, false), (0x1b, true), (0x1c, false), (0x1d, false), (0x1e, true)] {
        let mut rom = vec![0u8; 0x8000];
        rom[0x147] = kind;
        rom[0x148] = 0;
        let mut cartridge = match Cartridge::new(rom, &[9, 8, 7]) {
            Ok(c) => c,
            Err(_) => panic!("cartridge type {:02x} refused", kind),
        };
        cartridge.write(0x0000, 0x0a);
        assert_eq!(cartridge.read(0xa000) & 0x0f, if battery { 9 } else { 0 });
        assert_eq!(cartridge.save().is_some(), battery);
    }
    // the third controller wants save data of the full size
    for (kind, saves, size) in [(0x0fu8, true, 30usize), (0x10, true, 0x8000 + 30), (0x11, false, 0), (0x12, false, 0), (0x13, true, 0x8000)] {
        let mut rom = vec![0u8; 0x8000];
        rom[0x147] = kind;
        let mut data = vec![0u8; size];
        if kind == 0x10 || kind == 0x13 {
            data[0] = 9;
        }
        let mut cartridge = match Cartridge::new(rom, &data) {
            Ok(c) => c,
            Err(_) => panic!("cartridge type {:02x} refused", kind),
        };
        cartridge.write(0x0000, 0x0a);
        assert_eq!(cartridge.read(0xa000), if kind == 0x10 || kind == 0x13 { 9 } else { 0 });
        assert_eq!(cartridge.save().map(|b| b.len()), if saves { Some(size) } else { None });
    }
}

#[test]
fn unsupported_cartridge_types_are_refused() {
    for kind in [0x04u8, 0x07, 0x08, 0x09, 0x0b, 0x14, 0x18, 0x1f, 0x20, 0x22, 0xfc, 0xff] {
        let mut rom = vec![0u8; 0x8000];
        rom[0x147] = kind;
        match Cartridge::new(rom, &[]) {
            Ok(_) => panic!("cartridge type {:02x} accepted", kind),
            Err(e) => assert_eq!(e, CartridgeError::UnsupportedCartridge(kind)),
        }
    }
}

#[test]
fn cartridge_forwards_to_its_controller() {
    let mut rom = banked_rom(8, 2);
    rom[0x147] = 0x01;
    let mut cartridge = match Cartridge::new(rom, &[]) {
        Ok(c) => c,
        Err(_) => panic!("cartridge refused"),
    };
    assert_eq!(cartridge.read(0x4000), 1);
    cartridge.write(0x2000, 3);
    assert_eq!(cartridge.read(0x4000), 3);
    cartridge.update_rtc(5_000_000);
    assert_eq!(cartridge.read(0x4000), 3);
    assert!(cartridge.save().is_none());
}
