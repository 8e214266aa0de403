use chip8::decoder::{mask01, mask11, mask13, mask21, mask22, mask31};
use chip8::registers::Registers;

#[test]
fn test_add() {
    let mut r = Registers::new();
    r.addx(0x0, 5);
    assert_eq!(r.V[0x0], 5);

    r.addx(0x1, 5);
    assert_eq!(r.V[0x1], 5);

    r.addr(0x0, 0x1);
    assert_eq!(r.V[0x0], 10);
}

#[test]
fn test_add_carry() {
    let mut r = Registers::new();
    r.V[0x0] = 0xFF;
    assert_eq!(r.V[0x0], 0xFF);
    assert_eq!(r.V[0xF], 0x00);

    r.V[0x1] = 0x01;
    r.addr(0x0, 0x1);
    assert_eq!(r.V[0x0], 0x00);
    assert_eq!(r.V[0xF], 0x01);
}

#[test]
fn test_sub() {
    let mut r = Registers::new();
    r.V[0x0] = 10;
    r.V[0x1] = 5;
    r.subr(0x0, 0x1);
    assert_eq!(r.V[0x0], 5);
}

#[test]
fn test_sub_borrow() {
    let mut r = Registers::new();
    r.V[0x0] = 0;
    r.V[0x1] = 1;
    r.subr(0x0, 0x1);
    assert_eq!(r.V[0x0], 0xFF);
    assert_eq!(r.V[0xF], 0x00);

    r.V[0x1] = 0xFF;
    r.subr(0x0, 0x1);
    assert_eq!(r.V[0x0], 0x00);
    assert_eq!(r.V[0xF], 0x01);

    r.V[0xF] = 0x00;
    r.V[0x1] = 0x04;
    r.V[0x0] = 0x00;
    r.subr(0x1, 0x0);
    assert_eq!(r.V[0x1], 0x04);
    assert_eq!(r.V[0xF], 0x01);
}

#[test]
fn test_cmp_val() {
    let mut r = Registers::new();
    assert!(r.cmp_val(0x0, 0));
    assert!(!r.cmp_val(0x0, 1));
    r.V[0x0] = 10;
    assert!(r.cmp_val(0x0, 10));
    assert!(!r.cmp_val(0x0, 0));
}

#[test]
fn test_cmp_reg() {
    let mut r = Registers::new();
    r.V[0x0] = 10;
    r.V[0x1] = 5;
    r.V[0x2] = 10;

    assert!(r.cmp_reg(0x0, 0x2));
    assert!(!r.cmp_reg(0x0, 0x1));
    assert!(!r.cmp_reg(0x1, 0x2));
}

#[test]
fn test_mask() {
    let num: u16 = 0xABCD;
    assert_eq!(mask01(num), 0x0A);
    assert_eq!(mask11(num), 0x0B);
    assert_eq!(mask13(num), 0xBCD);
    assert_eq!(mask21(num), 0x0C);
    assert_eq!(mask22(num), 0xCD);
    assert_eq!(mask31(num), 0x0D);
}

#[test]
fn test_rng() {
    let mut r = Registers::new();
    r.rnd_reg(0, 0xFF);
    r.rnd_reg(1, 0xFF);
    r.rnd_reg(2, 0xFF);
    r.rnd_reg(3, 0xFF);
    r.rnd_reg(4, 0xFF);
    println!("{:02x} {:02x} {:02x} {:02x} {:02x}", r.V[0], r.V[1], r.V[2], r.V[3], r.V[4]);

    r.rnd_reg(0, 0x01);
    r.rnd_reg(1, 0x01);
    r.rnd_reg(2, 0x01);
    r.rnd_reg(3, 0x01);
    r.rnd_reg(4, 0x01);
    println!("{:02x} {:02x} {:02x} {:02x} {:02x}", r.V[0], r.V[1], r.V[2], r.V[3], r.V[4]);
}

#[test]
fn random_bytes_follow_the_seed_and_mask() {
    let mut a = Registers::with_seed(42);
    let mut b = Registers::with_seed(42);
    for reg in 0..8u8 {
        a.rnd_reg(reg, 0xFF);
        b.rnd_reg(reg, 0xFF);
    }
    assert_eq!(a.V, b.V);
    a.rnd_reg(3, 0x00);
    assert_eq!(a.V[3], 0);
    for _ in 0..32 {
        a.rnd_reg(5, 0x0F);
        assert!(a.V[5] <= 0x0F);
    }
}

#[test]
fn add_register_sets_carry() {
    let mut r = Registers::new();
    r.V[0] = 0xFF;
    r.V[1] = 0x01;
    r.addr(0, 1);
    assert_eq!(r.V[0], 0x00);
    assert_eq!(r.V[0xF], 1);
}

#[test]
fn add_constant_wraps_without_flag() {
    let mut r = Registers::new();
    r.V[2] = 0xFE;
    r.V[0xF] = 7;
    r.addx(2, 0x03);
    assert_eq!(r.V[2], 0x01);
    assert_eq!(r.V[0xF], 7);
}

#[test]
fn sub_flags_borrow() {
    let mut r = Registers::new();
    r.V[0] = 0x00;
    r.V[1] = 0x01;
    r.subr(0, 1);
    assert_eq!(r.V[0], 0xFF);
    assert_eq!(r.V[0xF], 0);

    r.V[0] = 0x0A;
    r.V[1] = 0x04;
    r.subr(0, 1);
    assert_eq!(r.V[0], 0x06);
    assert_eq!(r.V[0xF], 1);
}

#[test]
fn reverse_sub_subtracts_the_other_way() {
    let mut r = Registers::new();
    r.V[0] = 0x04;
    r.V[1] = 0x0A;
    r.sub2r(0, 1);
    assert_eq!(r.V[0], 0x06);
    assert_eq!(r.V[0xF], 1);

    r.V[0] = 0x05;
    r.V[1] = 0x02;
    r.sub2r(0, 1);
    assert_eq!(r.V[0], 0xFD);
    assert_eq!(r.V[0xF], 0);
}

#[test]
fn shifts_move_the_lost_bit_into_the_flag() {
    let mut r = Registers::new();
    r.V[1] = 0x03;
    r.shr(0, 1);
    assert_eq!(r.V[0], 0x01);
    assert_eq!(r.V[0xF], 1);

    r.V[1] = 0x81;
    r.shl(0, 1);
    assert_eq!(r.V[0], 0x02);
    assert_eq!(r.V[0xF], 1);

    r.V[1] = 0x40;
    r.shl(0, 1);
    assert_eq!(r.V[0], 0x80);
    assert_eq!(r.V[0xF], 0);
}

#[test]
fn bitwise_operations_combine_into_first_register() {
    let mut r = Registers::new();
    r.V[0] = 0b1100;
    r.V[1] = 0b1010;
    r.orr(0, 1);
    assert_eq!(r.V[0], 0b1110);
    r.andr(0, 1);
    assert_eq!(r.V[0], 0b1010);
    r.xorr(0, 1);
    assert_eq!(r.V[0], 0);
}
