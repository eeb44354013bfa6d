use gbcore::instructions::{add_16bit, add_8bit, sub_8bit};

#[test]
pub fn add() {
    let (result, flags) = add_8bit(0x3a, 0xc6, 0);
    assert_eq!(result, 0);
    assert_eq!(flags.as_u8(), 0b10110000);

    let (result, flags) = add_8bit(0x3c, 0xff, 0);
    assert_eq!(result, 0x3b);
    assert_eq!(flags.as_u8(), 0b00110000);

    let (result, flags) = add_8bit(0x3c, 0x12, 0);
    assert_eq!(result, 0x4e);
    assert_eq!(flags.as_u8(), 0);
}

#[test]
pub fn add_carry() {
    let (result, flags) = add_8bit(0xe1, 0x0f, 1);
    assert_eq!(result, 0xf1);
    assert_eq!(flags.as_u8(), 0b00100000);

    let (result, flags) = add_8bit(0xe1, 0x3b, 1);
    assert_eq!(result, 0x1d);
    assert_eq!(flags.as_u8(), 0b00010000);

    let (result, flags) = add_8bit(0xe1, 0x1e, 1);
    assert_eq!(result, 0x00);
    assert_eq!(flags.as_u8(), 0b10110000);
}

#[test]
pub fn sub() {
    let (result, flags) = sub_8bit(0x3e, 0x3e, 0);
    assert_eq!(result, 0);
    assert_eq!(flags.as_u8(), 0b11000000);

    let (result, flags) = sub_8bit(0x3e, 0x0f, 0);
    assert_eq!(result, 0x2f);
    assert_eq!(flags.as_u8(), 0b01100000);

    let (result, flags) = sub_8bit(0x3e, 0x40, 0);
    assert_eq!(result, 0xfe);
    assert_eq!(flags.as_u8(), 0b01010000);
}

#[test]
pub fn sub_carry() {
    let (result, flags) = sub_8bit(0x3b, 0x2a, 1);
    assert_eq!(result, 0x10);
    assert_eq!(flags.as_u8(), 0b01000000);

    let (result, flags) = sub_8bit(0x3b, 0x3a, 1);
    assert_eq!(result, 0x00);
    assert_eq!(flags.as_u8(), 0b11000000);

    let (result, flags) = sub_8bit(0x3b, 0x4f, 1);
    assert_eq!(result, 0xeb);
    assert_eq!(flags.as_u8(), 0b01110000);
}

#[test]
pub fn add16() {
    let (result, flags) = add_16bit(0x8a23, 0x060f);
    assert_eq!(result, 0x9032);
    assert_eq!(flags.as_u8(), 0x20);

    let (result, flags) = add_16bit(0x8a23, 0x8af3);
    assert_eq!(result, 0x1516);
    assert_eq!(flags.as_u8(), 0x10);

    let (result, flags) = add_16bit(0x8a23, 0x0001);
    assert_eq!(result, 0x8a24);
    assert_eq!(flags.as_u8(), 0x00);
}
