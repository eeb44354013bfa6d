use gbcore::mbc::{Mbc, Mbc1, MBC5};

#[test]
fn test_mbc1() {
    let mut rom = vec![0; 0x20_0000];
    for (i, e) in rom.iter_mut().enumerate() {
        *e = (i / 0x4000) as u8;
    }
    rom[0x148] = 6;
    let ram = [0; 0x8000];
    let mut mbc = Mbc1::new(rom, &ram, false);
    mbc.write(0, 0xa); // enable RAM
    assert_eq!(mbc.read(0x0000), 0);
    assert_eq!(mbc.read(0x4000), 1);
    assert_eq!(mbc.read(0x7fff), 1);
    mbc.write(0x2000, 0);
    assert_eq!(mbc.read(0x4000), 1);
    assert_eq!(mbc.read(0x7fff), 1);
    mbc.write(0x2000, 1);
    assert_eq!(mbc.read(0x4000), 1);
    assert_eq!(mbc.read(0x7fff), 1);
    mbc.write(0x2000, 2);
    assert_eq!(mbc.read(0x4000), 2);
    assert_eq!(mbc.read(0x7fff), 2);

    mbc.write(0x4000, 2);
    assert_eq!(mbc.read(0x4000), 0x42);
    assert_eq!(mbc.read(0x7fff), 0x42);

    mbc.write(0x6000, 1);
    assert_eq!(mbc.read(0xa000), 0x00);

    mbc.write(0x6000, 0);
    assert_eq!(mbc.read(0x4000), 0x42);
    assert_eq!(mbc.read(0x7fff), 0x42);

    mbc.write(0x2000, 5);
    assert_eq!(mbc.read(0x4000), 0x45);
    assert_eq!(mbc.read(0x7fff), 0x45);
}

#[test]
fn test_mbc5() {
    let mut rom = vec![0; 0x4000];
    rom[0x148] = 0x1b;
    let mut ram = [0; 0x2_0000];
    for (i, byte) in ram.iter_mut().enumerate() {
        *byte = (i / 0x2000) as u8;
    }
    let mut mbc = MBC5::new(rom, &ram, false);
    for bank in 0x00..0x10 {
        mbc.write(0x4000, bank);
        assert_eq!(mbc.read(0xa000), 0xff);
    }

    mbc.write(0, 0x0a);
    mbc.write(0x4000, 0);
    assert_eq!(mbc.read(0xa000), 0x00);

    for bank in 0x00..0x10 {
        mbc.write(0x4000, bank);
        assert_eq!(mbc.read(0xa000), bank);
    }
}
