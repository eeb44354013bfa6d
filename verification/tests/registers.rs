use gbcore::registers::Registers;

#[test]
fn test_hl() {
    let mut regs = Registers::new();
    regs.set_hl(0x55aa);
    assert_eq!(regs.h, 0x55);
    assert_eq!(regs.l, 0xaa);
    assert_eq!(regs.get_hl(), 0x55aa);
}

#[test]
fn test_af() {
    let mut regs = Registers::new();
    regs.a = 0x12;
    regs.f.set_from_u8(0xa0);
    assert_eq!(regs.get_af(), 0x12a0);
}

#[test]
fn test_bc() {
    let mut regs = Registers::new();
    regs.set_bc(0x5678);
    assert_eq!(regs.b, 0x56);
    assert_eq!(regs.c, 0x78);
    assert_eq!(regs.get_bc(), 0x5678);
}

#[test]
fn test_de() {
    let mut regs = Registers::new();
    regs.set_de(0xabcd);
    assert_eq!(regs.d, 0xab);
    assert_eq!(regs.e, 0xcd);
    assert_eq!(regs.get_de(), 0xabcd);
}
