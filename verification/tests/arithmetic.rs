use arm_vm::arithmetic::{
    add_with_carry, arith_right, arith_right_with_carry, bit_count, logic_left,
    logic_left_with_carry, logic_right, logic_right_with_carry, rotate_right,
    rotate_right_extend, rotate_right_extend_with_carry, rotate_right_with_carry, sat, sat_q,
    shift, shift_c, signed_sat, signed_sat_q, unsigned_sat, unsigned_sat_q, wrap_i64, ShiftStyle,
};

#[test]
fn logic_left_is_multiplication_modulo_two_to_the_32() {
    let values = [0u32, 1, 0x8000_0001, 0xdead_beef, 0xffff_ffff];
    for v in values {
        for n in 0..32u32 {
            let expected = (((v as u64) << n) % (1u64 << 32)) as u32;
            assert_eq!(logic_left(v, n), expected);
            assert_eq!(logic_left_with_carry(v, n, false).0, expected);
        }
    }
}

#[test]
fn logic_left_carry_is_bit_32_minus_n() {
    let v = 0xa000_0005u32;
    for n in 1..32u32 {
        let bit = (v >> (32 - n)) & 1 == 1;
        assert_eq!(logic_left_with_carry(v, n, false).1, bit);
        assert_eq!(logic_left_with_carry(v, n, true).1, bit);
    }
}

#[test]
fn logic_left_by_zero_keeps_value_and_carry() {
    assert_eq!(logic_left_with_carry(0x1234_5678, 0, true), (0x1234_5678, true));
    assert_eq!(logic_left_with_carry(0x1234_5678, 0, false), (0x1234_5678, false));
}

#[test]
fn logic_left_by_32_and_more() {
    assert_eq!(logic_left_with_carry(0x0000_0001, 32, false), (0, true));
    assert_eq!(logic_left_with_carry(0x0000_0002, 32, true), (0, false));
    assert_eq!(logic_left_with_carry(0xffff_ffff, 33, true), (0, false));
    assert_eq!(logic_left_with_carry(0xffff_ffff, 255, true), (0, false));
}

#[test]
fn logic_right_shifts_in_zeros() {
    assert_eq!(logic_right_with_carry(0x8000_0003, 1, false), (0x4000_0001, true));
    assert_eq!(logic_right_with_carry(0x8000_0002, 1, true), (0x4000_0001, false));
    assert_eq!(logic_right_with_carry(0x8000_0000, 31, false), (1, false));
    assert_eq!(logic_right_with_carry(0x8000_0000, 32, false), (0, true));
    assert_eq!(logic_right_with_carry(0x8000_0000, 33, true), (0, false));
    assert_eq!(logic_right_with_carry(0x1234, 0, true), (0x1234, true));
    assert_eq!(logic_right(0xf0, 4), 0xf);
}

#[test]
fn arith_right_keeps_the_sign() {
    assert_eq!(arith_right_with_carry(0x8000_0000, 1, false), (0xc000_0000, false));
    assert_eq!(arith_right_with_carry(0x8000_0001, 1, false), (0xc000_0000, true));
    assert_eq!(arith_right_with_carry(0x4000_0000, 1, true), (0x2000_0000, false));
    assert_eq!(arith_right_with_carry(0x8000_0000, 31, false), (0xffff_ffff, false));
    assert_eq!(arith_right_with_carry(0x8000_0000, 32, false), (0xffff_ffff, true));
    assert_eq!(arith_right_with_carry(0x7fff_ffff, 32, true), (0, false));
    assert_eq!(arith_right_with_carry(0x8000_0000, 200, false), (0xffff_ffff, true));
    assert_eq!(arith_right_with_carry(0x8765_4321, 0, true), (0x8765_4321, true));
    assert_eq!(arith_right(0xffff_ff00, 4), 0xffff_fff0);
}

#[test]
fn rotate_right_carry_is_top_bit_of_result() {
    assert_eq!(rotate_right_with_carry(0x0000_0001, 1, false), (0x8000_0000, true));
    assert_eq!(rotate_right_with_carry(0x0000_0002, 1, true), (0x0000_0001, false));
    assert_eq!(rotate_right_with_carry(0x1234_5678, 8, false), (0x7812_3456, false));
    assert_eq!(rotate_right_with_carry(0x1234_5678, 40, false), (0x7812_3456, false));
    assert_eq!(rotate_right_with_carry(0x8234_5678, 32, false), (0x8234_5678, true));
    assert_eq!(rotate_right_with_carry(0x1234_5678, 0, true), (0x1234_5678, true));
    assert_eq!(rotate_right(0x1234_5678, 16), 0x5678_1234);
    assert_eq!(rotate_right(0x1234_5678, 0), 0x1234_5678);
}

#[test]
fn rotate_right_thirty_two_times_returns() {
    let values = [0u32, 1, 0x8000_0001, 0xdead_beef, 0xffff_ffff];
    for v in values {
        let mut x = v;
        for _ in 0..32 {
            x = rotate_right(x, 1);
        }
        assert_eq!(x, v);
        for n in 1..32u32 {
            assert_eq!(rotate_right(rotate_right(v, n), 32 - n), v);
        }
    }
}

#[test]
fn rotate_right_extend_round_trips() {
    let values = [0u32, 1, 0x8000_0001, 0xdead_beef, 0xffff_ffff];
    for v in values {
        for c in [false, true] {
            let (r, carry) = rotate_right_extend_with_carry(v, c);
            assert_eq!(r >> 31 == 1, c);
            assert_eq!((r << 1) | (carry as u32), v);
            assert_eq!(rotate_right_extend(v, c), r);
        }
    }
    assert_eq!(rotate_right_extend_with_carry(0x0000_0003, true), (0x8000_0001, true));
    assert_eq!(rotate_right_extend_with_carry(0x0000_0002, false), (0x0000_0001, false));
}

#[test]
fn shift_c_picks_the_primitive() {
    assert_eq!(shift_c(3, ShiftStyle::LSL, 4, false), (48, false));
    assert_eq!(shift_c(48, ShiftStyle::LSR, 4, false), (3, false));
    assert_eq!(shift_c(0x8000_0000, ShiftStyle::ASR, 4, false), (0xf800_0000, false));
    assert_eq!(shift_c(0x0000_00f0, ShiftStyle::ROR, 4, false), (0x0000_000f, false));
    assert_eq!(shift_c(0x0000_0003, ShiftStyle::RRX, 1, true), (0x8000_0001, true));
    assert_eq!(shift(3, ShiftStyle::LSL, 4, false), 48);
}

#[test]
fn shift_c_rotation_by_zero_is_rrx() {
    assert_eq!(shift_c(0x0000_0003, ShiftStyle::ROR, 0, true), (0x8000_0001, true));
    assert_eq!(shift_c(0x0000_0002, ShiftStyle::ROR, 0, false), (0x0000_0001, false));
    assert_eq!(shift(0x0000_0002, ShiftStyle::ROR, 0, true), 0x8000_0001);
}

#[test]
fn shift_c_by_zero_keeps_carry() {
    assert_eq!(shift_c(7, ShiftStyle::LSL, 0, true), (7, true));
    assert_eq!(shift_c(7, ShiftStyle::LSR, 0, true), (7, true));
    assert_eq!(shift_c(7, ShiftStyle::ASR, 0, false), (7, false));
}

#[test]
fn add_with_carry_is_the_textbook_sum() {
    let values = [0u32, 1, 2, 0x7fff_ffff, 0x8000_0000, 0x8000_0001, 0xffff_fffe, 0xffff_ffff];
    for x in values {
        for y in values {
            let (r, c, v) = add_with_carry(x, y, false);
            let wide = x as u64 + y as u64;
            assert_eq!(r, (wide % (1u64 << 32)) as u32);
            assert_eq!(c, wide >= (1u64 << 32));
            let signed = x as i32 as i64 + y as i32 as i64;
            assert_eq!(v, !(-(1i64 << 31)..(1i64 << 31)).contains(&signed));
        }
    }
}

#[test]
fn add_with_carry_keeps_bit_31() {
    assert_eq!(add_with_carry(0x7fff_ffff, 1, false), (0x8000_0000, false, true));
    assert_eq!(add_with_carry(0x8000_0000, 0, false), (0x8000_0000, false, false));
    assert_eq!(add_with_carry(0xffff_ffff, 1, false), (0, true, false));
    assert_eq!(add_with_carry(0xffff_ffff, 0, true), (0, true, false));
    assert_eq!(add_with_carry(0x8000_0000, 0x8000_0000, false), (0, true, true));
    assert_eq!(add_with_carry(0x7fff_ffff, 0, true), (0x8000_0000, false, true));
    assert_eq!(add_with_carry(5, !3u32, true), (2, true, false));
}

#[test]
fn bit_count_counts_set_bits() {
    assert_eq!(bit_count(0), 0);
    assert_eq!(bit_count(1), 1);
    assert_eq!(bit_count(0x8000_0000), 1);
    assert_eq!(bit_count(0xffff_ffff), 32);
    assert_eq!(bit_count(0xdead_beef), 0xdead_beefu32.count_ones());
    assert_eq!(bit_count(0x0f0f_0f0f), 16);
}

#[test]
fn signed_saturation_clamps() {
    assert_eq!(signed_sat_q(127, 8), (127, false));
    assert_eq!(signed_sat_q(128, 8), (127, true));
    assert_eq!(signed_sat_q(-128, 8), (0xffff_ff80, false));
    assert_eq!(signed_sat_q(-129, 8), (0xffff_ff80, true));
    assert_eq!(signed_sat_q(0, 1), (0, false));
    assert_eq!(signed_sat_q(1, 1), (0, true));
    assert_eq!(signed_sat_q(-1, 1), (0xffff_ffff, false));
    assert_eq!(signed_sat_q(i64::MAX, 32), (0x7fff_ffff, true));
    assert_eq!(signed_sat_q(i64::MIN, 32), (0x8000_0000, true));
    assert_eq!(signed_sat_q(-5, 32), (0xffff_fffb, false));
    assert_eq!(signed_sat(40000, 16), 32767);
}

#[test]
fn unsigned_saturation_clamps() {
    assert_eq!(unsigned_sat_q(255, 8), (255, false));
    assert_eq!(unsigned_sat_q(256, 8), (255, true));
    assert_eq!(unsigned_sat_q(-1, 8), (0, true));
    assert_eq!(unsigned_sat_q(0, 0), (0, false));
    assert_eq!(unsigned_sat_q(1, 0), (0, true));
    assert_eq!(unsigned_sat_q(i64::MAX, 32), (0xffff_ffff, true));
    assert_eq!(unsigned_sat_q(0xffff_ffff, 32), (0xffff_ffff, false));
    assert_eq!(unsigned_sat(70000, 16), 65535);
}

#[test]
fn sat_picks_the_kind() {
    assert_eq!(sat_q(300, 8, true), (255, true));
    assert_eq!(sat_q(300, 8, false), (127, true));
    assert_eq!(sat_q(-300, 8, false), (0xffff_ff80, true));
    assert_eq!(sat(-300, 8, true), 0);
    assert_eq!(sat(100, 8, false), 100);
}

#[test]
fn wrap_i64_is_twos_complement() {
    assert_eq!(wrap_i64(-1), 0xffff_ffff);
    assert_eq!(wrap_i64(-12), 0xffff_fff4);
    assert_eq!(wrap_i64(0x1_0000_0005), 5);
    assert_eq!(wrap_i64(0), 0);
}
