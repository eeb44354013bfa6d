use gbcore::instructions::alu::{rotate_left, rotate_right};
use gbcore::instructions::arith::decimal_adjust;
use gbcore::instructions::{add_8bit, sub_8bit};
use gbcore::registers::{Flags, Registers};

#[test]
fn pairs_read_back_what_was_stored() {
    for value in [0x0000u16, 0x0001, 0x00ff, 0x0100, 0x1234, 0x8000, 0xabcd, 0xfffe, 0xffff] {
        let mut regs = Registers::new();
        regs.set_bc(value);
        assert_eq!(regs.get_bc(), value);
        regs.set_de(value);
        assert_eq!(regs.get_de(), value);
        regs.set_hl(value);
        assert_eq!(regs.get_hl(), value);
        regs.set_af(value);
        assert_eq!(regs.get_af(), value & 0xfff0);
        for id in 0..3u8 {
            let mut regs = Registers::new();
            regs.set_reg16_by_id(id, value);
            assert_eq!(regs.get_reg16_by_id(id), value);
        }
    }
}

#[test]
fn every_word_survives_a_pair() {
    let mut regs = Registers::new();
    for value in 0..=0xffffu16 {
        regs.set_hl(value);
        assert_eq!(regs.get_hl(), value);
        regs.set_af(value);
        assert_eq!(regs.get_af(), value & 0xfff0);
    }
}

#[test]
fn flag_register_layout() {
    let mut flags = Flags { z: false, n: false, h: false, c: false };
    assert_eq!(flags.as_u8(), 0x00);
    flags.z = true;
    assert_eq!(flags.as_u8(), 0x80);
    flags.n = true;
    assert_eq!(flags.as_u8(), 0xc0);
    flags.h = true;
    assert_eq!(flags.as_u8(), 0xe0);
    flags.c = true;
    assert_eq!(flags.as_u8(), 0xf0);
    flags.set_from_u8(0x5f);
    assert!(!flags.z && flags.n && !flags.h && flags.c);
    assert_eq!(flags.as_u8(), 0x50);
}

#[test]
fn registers_by_field() {
    let mut regs = Registers::new();
    for (id, value) in [(0u8, 1u8), (1, 2), (2, 3), (3, 4), (4, 5), (5, 6), (7, 8)] {
        regs.set_reg8_by_id(id, value);
    }
    assert_eq!((regs.b, regs.c, regs.d, regs.e, regs.h, regs.l, regs.a), (1, 2, 3, 4, 5, 6, 8));
    for (id, value) in [(0u8, 1u8), (1, 2), (2, 3), (3, 4), (4, 5), (5, 6), (7, 8)] {
        assert_eq!(regs.get_reg8_by_id(id), value);
    }
    regs.f.z = true;
    regs.f.c = false;
    assert!(!regs.get_condition_by_id(0));
    assert!(regs.get_condition_by_id(1));
    assert!(regs.get_condition_by_id(2));
    assert!(!regs.get_condition_by_id(3));
}

#[test]
fn addition_agrees_with_wide_arithmetic() {
    for a in 0..=255u32 {
        for b in 0..=255u32 {
            for cin in 0..=1u32 {
                let (result, flags) = add_8bit(a as u8, b as u8, cin as u8);
                let wide = a + b + cin;
                assert_eq!(result as u32, wide & 0xff);
                assert_eq!(flags.z, wide & 0xff == 0);
                assert!(!flags.n);
                assert_eq!(flags.h, (a & 0xf) + (b & 0xf) + cin > 0xf);
                assert_eq!(flags.c, wide > 0xff);
            }
        }
    }
}

#[test]
fn subtraction_agrees_with_wide_arithmetic() {
    for a in 0..=255i32 {
        for b in 0..=255i32 {
            for cin in 0..=1i32 {
                let (result, flags) = sub_8bit(a as u8, b as u8, cin as u8);
                let wide = a - b - cin;
                assert_eq!(result as i32, wide & 0xff);
                assert_eq!(flags.z, wide & 0xff == 0);
                assert!(flags.n);
                assert_eq!(flags.h, (a & 0xf) - (b & 0xf) - cin < 0);
                assert_eq!(flags.c, wide < 0);
            }
        }
    }
}

#[test]
fn rotations_undo_each_other() {
    for value in 0..=255u8 {
        for carry in [false, true] {
            let (left, flags) = rotate_left(value, carry);
            assert_eq!(flags.c, value & 0x80 != 0);
            let (back, _) = rotate_right(left, flags.c);
            assert_eq!(back, value);
            let (right, flags) = rotate_right(value, carry);
            assert_eq!(flags.c, value & 0x01 != 0);
            let (back, _) = rotate_left(right, flags.c);
            assert_eq!(back, value);
        }
    }
    assert_eq!(rotate_left(0x80, false).0, 0x00);
    assert!(rotate_left(0x80, false).1.z);
    assert_eq!(rotate_left(0x01, true).0, 0x03);
    assert_eq!(rotate_right(0x01, true).0, 0x80);
}

#[test]
fn decimal_adjust_gives_packed_decimal_sums() {
    for x in 0..100u32 {
        for y in 0..100u32 {
            let a = ((x / 10) << 4 | (x % 10)) as u8;
            let b = ((y / 10) << 4 | (y % 10)) as u8;
            let (sum, flags) = add_8bit(a, b, 0);
            let (adjusted, after) = decimal_adjust(sum, flags);
            let expected = (x + y) % 100;
            assert_eq!(adjusted as u32, (expected / 10) << 4 | (expected % 10));
            assert_eq!(after.c, x + y > 99);
            assert_eq!(after.z, expected == 0);
            assert!(!after.h);
        }
    }
}
