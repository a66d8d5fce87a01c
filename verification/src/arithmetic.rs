//! Shifts with carry out, addition with carry, saturation and bit counting.

use vstd::arithmetic::power2::{lemma2_to64, lemma_pow2_strictly_increases, pow2};
use vstd::bits::lemma_u64_shl_is_mul;
use vstd::prelude::*;

verus! {

/// The five ways an operand is shifted or rotated.
#[derive(Clone, Copy, Debug, PartialEq, Eq, Structural)]
pub enum ShiftStyle {
    LSL,
    LSR,
    ASR,
    ROR,
    RRX,
}

/// Logical shift left: zeros come in at the bottom, and the carry is the last
/// bit that left at the top. A shift by zero changes neither.
pub open spec fn lsl_c(value: u32, shift: u32, carry_in: bool) -> (u32, bool) {
    if shift == 0 {
        (value, carry_in)
    } else if shift < 32 {
        (value << shift, (value >> ((32 - shift) as u32)) & 1 == 1)
    } else if shift == 32 {
        (0u32, value & 1 == 1)
    } else {
        (0u32, false)
    }
}

/// Logical shift right: zeros come in at the top, and the carry is the last
/// bit that left at the bottom. A shift by zero changes neither.
pub open spec fn lsr_c(value: u32, shift: u32, carry_in: bool) -> (u32, bool) {
    if shift == 0 {
        (value, carry_in)
    } else if shift < 32 {
        (value >> shift, (value >> ((shift - 1) as u32)) & 1 == 1)
    } else if shift == 32 {
        (0u32, (value >> 31) & 1 == 1)
    } else {
        (0u32, false)
    }
}

/// Whether the word is negative as a two's complement number.
pub open spec fn is_negative(value: u32) -> bool {
    value >= 0x8000_0000
}

/// Arithmetic shift right: copies of the sign bit come in at the top, and the
/// carry is the last bit that left at the bottom. A shift by zero changes
/// neither.
pub open spec fn asr_c(value: u32, shift: u32, carry_in: bool) -> (u32, bool) {
    if shift == 0 {
        (value, carry_in)
    } else if shift < 32 {
        (
            if is_negative(value) {
                (value >> shift) | !(0xffff_ffffu32 >> shift)
            } else {
                value >> shift
            },
            (value >> ((shift - 1) as u32)) & 1 == 1,
        )
    } else {
        (
            if is_negative(value) {
                0xffff_ffffu32
            } else {
                0u32
            },
            is_negative(value),
        )
    }
}

/// Rotation to the right by `shift` modulo 32 places.
pub open spec fn ror(value: u32, shift: u32) -> u32 {
    if shift % 32 == 0 {
        value
    } else {
        (value >> ((shift % 32) as u32)) | (value << ((32 - shift % 32) as u32))
    }
}

/// Rotate right: the carry is the top bit of the result. A rotation by zero
/// changes neither value nor carry.
pub open spec fn ror_c(value: u32, shift: u32, carry_in: bool) -> (u32, bool) {
    if shift == 0 {
        (value, carry_in)
    } else {
        (ror(value, shift), is_negative(ror(value, shift)))
    }
}

/// Rotate right with extend: one place to the right through the carry.
pub open spec fn rrx_c(value: u32, carry_in: bool) -> (u32, bool) {
    (
        if carry_in {
            0x8000_0000u32 | (value >> 1)
        } else {
            value >> 1
        },
        value & 1 == 1,
    )
}

/// A shift of the given style. A rotation by zero places stands for rotate
/// right with extend.
pub open spec fn shift_c_spec(value: u32, style: ShiftStyle, amount: u32, carry_in: bool) -> (
    u32,
    bool,
) {
    match style {
        ShiftStyle::LSL => lsl_c(value, amount, carry_in),
        ShiftStyle::LSR => lsr_c(value, amount, carry_in),
        ShiftStyle::ASR => asr_c(value, amount, carry_in),
        ShiftStyle::ROR => if amount != 0 {
            ror_c(value, amount, carry_in)
        } else {
            rrx_c(value, carry_in)
        },
        ShiftStyle::RRX => rrx_c(value, carry_in),
    }
}

/// Logical shift left with the carry it puts out.
pub fn logic_left_with_carry(value: u32, shift: u32, carry_in: bool) -> (r: (u32, bool))
    ensures
        r == lsl_c(value, shift, carry_in),
        shift < 32 ==> r.0 == ((value as u64) << (shift as u64)) % 0x1_0000_0000,
{
    proof {
        if shift < 32 {
            law_logic_left(value, shift, carry_in);
        }
    }
    if shift == 0 {
        (value, carry_in)
    } else if shift < 32 {
        (value << shift, (value >> (32 - shift)) & 1 == 1)
    } else if shift == 32 {
        (0, value & 1 == 1)
    } else {
        (0, false)
    }
}

/// Logical shift left.
pub fn logic_left(value: u32, shift: u32) -> (r: u32)
    ensures
        r == lsl_c(value, shift, false).0,
{
    logic_left_with_carry(value, shift, false).0
}

/// Logical shift right with the carry it puts out.
pub fn logic_right_with_carry(value: u32, shift: u32, carry_in: bool) -> (r: (u32, bool))
    ensures
        r == lsr_c(value, shift, carry_in),
{
    if shift == 0 {
        (value, carry_in)
    } else if shift < 32 {
        (value >> shift, (value >> (shift - 1)) & 1 == 1)
    } else if shift == 32 {
        (0, (value >> 31) & 1 == 1)
    } else {
        (0, false)
    }
}

/// Logical shift right.
pub fn logic_right(value: u32, shift: u32) -> (r: u32)
    ensures
        r == lsr_c(value, shift, false).0,
{
    logic_right_with_carry(value, shift, false).0
}

/// Arithmetic shift right with the carry it puts out.
pub fn arith_right_with_carry(value: u32, shift: u32, carry_in: bool) -> (r: (u32, bool))
    ensures
        r == asr_c(value, shift, carry_in),
{
    let negative = value >= 0x8000_0000;
    if shift == 0 {
        (value, carry_in)
    } else if shift < 32 {
        (
            if negative {
                (value >> shift) | !(0xffff_ffffu32 >> shift)
            } else {
                value >> shift
            },
            (value >> (shift - 1)) & 1 == 1,
        )
    } else {
        (
            if negative {
                0xffff_ffff
            } else {
                0
            },
            negative,
        )
    }
}

/// Arithmetic shift right.
pub fn arith_right(value: u32, shift: u32) -> (r: u32)
    ensures
        r == asr_c(value, shift, false).0,
{
    arith_right_with_carry(value, shift, false).0
}

/// Rotation to the right with the carry it puts out.
pub fn rotate_right_with_carry(value: u32, shift: u32, carry_in: bool) -> (r: (u32, bool))
    ensures
        r == ror_c(value, shift, carry_in),
{
    if shift == 0 {
        (value, carry_in)
    } else {
        let places = shift % 32;
        let result = if places == 0 {
            value
        } else {
            (value >> places) | (value << (32 - places))
        };
        (result, result >= 0x8000_0000)
    }
}

/// Rotation to the right.
pub fn rotate_right(value: u32, shift: u32) -> (r: u32)
    ensures
        r == ror(value, shift),
{
    rotate_right_with_carry(value, shift, false).0
}

/// Rotation to the right through the carry, by one place, with the carry
/// it puts out.
pub fn rotate_right_extend_with_carry(value: u32, carry_in: bool) -> (r: (u32, bool))
    ensures
        r == rrx_c(value, carry_in),
{
    (
        if carry_in {
            0x8000_0000u32 | (value >> 1)
        } else {
            value >> 1
        },
        value & 1 == 1,
    )
}

/// Rotation to the right through the carry, by one place.
pub fn rotate_right_extend(value: u32, carry_in: bool) -> (r: u32)
    ensures
        r == rrx_c(value, carry_in).0,
{
    rotate_right_extend_with_carry(value, carry_in).0
}

/// A shift of the given style with the carry it puts out.
pub fn shift_c(value: u32, shift_style: ShiftStyle, amount: u32, carry_in: bool) -> (r: (
    u32,
    bool,
))
    ensures
        r == shift_c_spec(value, shift_style, amount, carry_in),
{
    match shift_style {
        ShiftStyle::LSL => logic_left_with_carry(value, amount, carry_in),
        ShiftStyle::LSR => logic_right_with_carry(value, amount, carry_in),
        ShiftStyle::ASR => arith_right_with_carry(value, amount, carry_in),
        ShiftStyle::ROR => {
            if amount != 0 {
                rotate_right_with_carry(value, amount, carry_in)
            } else {
                rotate_right_extend_with_carry(value, carry_in)
            }
        },
        ShiftStyle::RRX => rotate_right_extend_with_carry(value, carry_in),
    }
}

/// A shift of the given style.
pub fn shift(value: u32, shift_style: ShiftStyle, amount: u32, carry_in: bool) -> (r: u32)
    ensures
        r == shift_c_spec(value, shift_style, amount, carry_in).0,
{
    shift_c(value, shift_style, amount, carry_in).0
}

/// A logical shift left by up to 31 places multiplies by two to the power
/// of the shift, modulo 2^32. The carry is bit `32 - shift` of the value,
/// and a shift by zero leaves it as it was.
pub proof fn law_logic_left(value: u32, shift: u32, carry_in: bool)
    requires
        shift <= 31,
    ensures
        lsl_c(value, shift, carry_in).0 == ((value as u64) << (shift as u64)) % 0x1_0000_0000,
        shift >= 1 ==> lsl_c(value, shift, carry_in).1 == ((value >> ((32 - shift) as u32)) & 1
            == 1),
        shift == 0 ==> lsl_c(value, shift, carry_in).1 == carry_in,
{
    assert(shift < 32 ==> value << shift == ((value as u64) << (shift as u64)) % 0x1_0000_0000
        && (shift == 0 ==> value << shift == value)) by (bit_vector);
}

/// `value` rotated right by one place, `times` times over.
pub open spec fn ror_repeated(value: u32, times: nat) -> u32
    decreases times,
{
    if times == 0 {
        value
    } else {
        ror(ror_repeated(value, (times - 1) as nat), 1)
    }
}

proof fn lemma_ror_step(value: u32, k: u32)
    by (bit_vector)
    requires
        k < 32,
    ensures
        ror(ror(value, k), 1) == ror(value, (k + 1) as u32),
{
}

proof fn lemma_ror_repeated(value: u32, times: nat)
    requires
        times <= 32,
    ensures
        ror_repeated(value, times) == ror(value, times as u32),
    decreases times,
{
    if times > 0 {
        lemma_ror_repeated(value, (times - 1) as nat);
        lemma_ror_step(value, (times - 1) as u32);
    }
}

/// Rotating right by one place thirty-two times over gives the value back,
/// and so does one rotation by `n` places followed by one by `32 - n`.
pub proof fn law_rotate_right_returns(value: u32, n: u32)
    requires
        n <= 32,
    ensures
        ror_repeated(value, 32) == value,
        ror(ror(value, n), (32 - n) as u32) == value,
{
    lemma_ror_repeated(value, 32);
    assert(n <= 32 ==> ror(ror(value, n), (32 - n) as u32) == value) by (bit_vector);
}

/// Rotate right with extend loses nothing: the bit that left is the carry
/// out, the carry in is the top bit of the result, and shifting the result
/// back up with the carry out at the bottom gives the value back.
pub proof fn law_rotate_right_extend_returns(value: u32, carry_in: bool)
    ensures
        is_negative(rrx_c(value, carry_in).0) == carry_in,
        (rrx_c(value, carry_in).0 << 1) | (if rrx_c(value, carry_in).1 {
            1u32
        } else {
            0u32
        }) == value,
{
    assert(is_negative(rrx_c(value, carry_in).0) == carry_in && (rrx_c(value, carry_in).0 << 1) | (
    if rrx_c(value, carry_in).1 {
        1u32
    } else {
        0u32
    }) == value) by (bit_vector);
}

/// The word read as a two's complement number.
pub open spec fn signed(value: u32) -> int {
    if value >= 0x8000_0000 {
        value - 0x1_0000_0000
    } else {
        value as int
    }
}

/// The word that stands for `value` modulo 2^32.
pub open spec fn wrap32(value: int) -> u32 {
    (value % 0x1_0000_0000) as u32
}

/// The word that stands for a signed number modulo 2^32.
pub fn wrap_i64(value: i64) -> (r: u32)
    requires
        -0x4000_0000_0000_0000 <= value < 0x4000_0000_0000_0000,
    ensures
        r == wrap32(value as int),
{
    (((value + 0x4000_0000_0000_0000) as u64) % 0x1_0000_0000) as u32
}

/// The sum of two words and a carry: the low 32 bits of the sum, whether the
/// unsigned sum left the 32 bits, and whether the signed sum left them.
pub open spec fn add_with_carry_spec(x: u32, y: u32, carry_in: bool) -> (u32, bool, bool) {
    let c: int = if carry_in { 1 } else { 0 };
    (
        wrap32(x + y + c),
        x + y + c >= 0x1_0000_0000,
        !(-0x8000_0000 <= signed(x) + signed(y) + c < 0x8000_0000),
    )
}

/// Without a carry in, the sum of two words is their sum modulo 2^32, the
/// carry tells that the sum reached 2^32, and the overflow tells that the
/// sum of the two as signed numbers falls outside what a signed word holds.
pub proof fn law_add_with_carry(x: u32, y: u32)
    ensures
        add_with_carry_spec(x, y, false).0 == (x + y) % 0x1_0000_0000,
        add_with_carry_spec(x, y, false).1 <==> x + y >= 0x1_0000_0000,
        add_with_carry_spec(x, y, false).2 <==> !(-0x8000_0000 <= signed(x) + signed(y)
            < 0x8000_0000),
{
}

/// Adds two words and a carry; gives the sum, the carry out and the signed
/// overflow.
pub fn add_with_carry(x: u32, y: u32, carry_in: bool) -> (r: (u32, bool, bool))
    ensures
        r == add_with_carry_spec(x, y, carry_in),
        r.2 == (is_negative(x) == is_negative(y) && is_negative(r.0) != is_negative(x)),
{
    let c: u64 = if carry_in { 1 } else { 0 };
    let sum: u64 = x as u64 + y as u64 + c;
    let carry_out = sum >= 0x1_0000_0000;
    let result: u32 = if carry_out {
        (sum - 0x1_0000_0000) as u32
    } else {
        sum as u32
    };
    let x_negative = x >= 0x8000_0000;
    let y_negative = y >= 0x8000_0000;
    let overflow = x_negative == y_negative && (result >= 0x8000_0000) != x_negative;
    (result, carry_out, overflow)
}

/// How many of the bits below bit `n` are set.
pub open spec fn ones_below(x: u32, n: nat) -> nat
    decreases n,
{
    if n == 0 {
        0
    } else {
        ones_below(x, (n - 1) as nat) + if (x >> ((n - 1) as u32)) & 1 == 1 {
            1nat
        } else {
            0nat
        }
    }
}

/// Counts the bits of a word that are set.
pub fn bit_count(x: u32) -> (r: u32)
    ensures
        r == ones_below(x, 32),
{
    let mut count: u32 = 0;
    let mut i: u32 = 0;
    while i < 32
        invariant
            i <= 32,
            count == ones_below(x, i as nat),
            count <= i,
        decreases 32 - i,
    {
        if (x >> i) & 1 == 1 {
            count += 1;
        }
        i += 1;
    }
    count
}

/// `value` held to the range from `low` to `high`.
pub open spec fn clamp(value: int, low: int, high: int) -> int {
    if value > high {
        high
    } else if value < low {
        low
    } else {
        value
    }
}

/// Saturation to an `n`-bit two's complement number: the nearest value in
/// `-2^(n-1) ..= 2^(n-1) - 1` as a word, and whether that differs from `i`.
pub open spec fn signed_sat_q_spec(i: i64, n: u8) -> (u32, bool) {
    let high = pow2((n - 1) as nat) - 1;
    let low = -(pow2((n - 1) as nat) as int);
    (wrap32(clamp(i as int, low, high)), clamp(i as int, low, high) != i)
}

/// Saturation to an `n`-bit unsigned number: the nearest value in
/// `0 ..= 2^n - 1`, and whether that differs from `i`.
pub open spec fn unsigned_sat_q_spec(i: i64, n: u8) -> (u32, bool) {
    let high = pow2(n as nat) - 1;
    (clamp(i as int, 0, high) as u32, clamp(i as int, 0, high) != i)
}

/// Two to the power `n`, for `n` up to 32.
fn power_of_two(n: u8) -> (r: i64)
    requires
        n <= 32,
    ensures
        r == pow2(n as nat),
        1 <= r <= 0x1_0000_0000,
{
    proof {
        lemma2_to64();
        if n < 32 {
            lemma_pow2_strictly_increases(n as nat, 32);
        }
        lemma_u64_shl_is_mul(1, n as u64);
    }
    (1u64 << (n as u64)) as i64
}

/// Saturates to an `n`-bit signed number and tells whether that changed the
/// value.
pub fn signed_sat_q(i: i64, n: u8) -> (r: (u32, bool))
    requires
        1 <= n <= 32,
    ensures
        r == signed_sat_q_spec(i, n),
{
    let half = power_of_two(n - 1);
    proof {
        lemma2_to64();
        if n < 32 {
            lemma_pow2_strictly_increases((n - 1) as nat, 31);
        }
    }
    let high = half - 1;
    let low = -half;
    let (result, saturated) = if i > high {
        (high, true)
    } else if i < low {
        (low, true)
    } else {
        (i, false)
    };
    if result < 0 {
        ((result + 0x1_0000_0000) as u32, saturated)
    } else {
        (result as u32, saturated)
    }
}

/// Saturates to an `n`-bit unsigned number and tells whether that changed
/// the value.
pub fn unsigned_sat_q(i: i64, n: u8) -> (r: (u32, bool))
    requires
        n <= 32,
    ensures
        r == unsigned_sat_q_spec(i, n),
{
    let high = power_of_two(n) - 1;
    if i > high {
        (high as u32, true)
    } else if i < 0 {
        (0, true)
    } else {
        (i as u32, false)
    }
}

/// Saturates to an `n`-bit signed number.
pub fn signed_sat(i: i64, n: u8) -> (r: u32)
    requires
        1 <= n <= 32,
    ensures
        r == signed_sat_q_spec(i, n).0,
{
    signed_sat_q(i, n).0
}

/// Saturates to an `n`-bit unsigned number.
pub fn unsigned_sat(i: i64, n: u8) -> (r: u32)
    requires
        n <= 32,
    ensures
        r == unsigned_sat_q_spec(i, n).0,
{
    unsigned_sat_q(i, n).0
}

/// Saturation of either kind.
pub open spec fn sat_q_spec(i: i64, n: u8, unsigned: bool) -> (u32, bool) {
    if unsigned {
        unsigned_sat_q_spec(i, n)
    } else {
        signed_sat_q_spec(i, n)
    }
}

/// Saturates to an `n`-bit number, signed or unsigned, and tells whether
/// that changed the value.
pub fn sat_q(i: i64, n: u8, unsigned: bool) -> (r: (u32, bool))
    requires
        n <= 32,
        !unsigned ==> 1 <= n,
    ensures
        r == sat_q_spec(i, n, unsigned),
{
    if unsigned {
        unsigned_sat_q(i, n)
    } else {
        signed_sat_q(i, n)
    }
}

/// Saturates to an `n`-bit number, signed or unsigned.
pub fn sat(i: i64, n: u8, unsigned: bool) -> (r: u32)
    requires
        n <= 32,
        !unsigned ==> 1 <= n,
    ensures
        r == sat_q_spec(i, n, unsigned).0,
{
    if unsigned {
        unsigned_sat(i, n)
    } else {
        signed_sat(i, n)
    }
}

} // verus!
