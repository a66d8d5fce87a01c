//! Bytes, halfwords and signed readings of a word, and what the
//! instructions that rearrange, extend and multiply words compute.

use crate::arithmetic::{ror, rotate_right, signed, wrap32};
use crate::bits::{
    bit, bit_of, field_of, set_bit_range, signed_field_of, view_load, view_load_signed,
    with_field,
};
use crate::instruction::InstructionKind;
use vstd::prelude::*;
use vstd::std_specs::bits::u32_leading_zeros;

verus! {

/// Byte `i` of a word, byte 0 being the least significant.
pub open spec fn byte_of(x: u32, i: int) -> int {
    if i == 0 {
        (x % 0x100) as int
    } else if i == 1 {
        (x / 0x100 % 0x100) as int
    } else if i == 2 {
        (x / 0x1_0000 % 0x100) as int
    } else {
        (x / 0x100_0000) as int
    }
}

/// Halfword `i` of a word, halfword 0 being the lower one.
pub open spec fn half_of(x: u32, i: int) -> int {
    if i == 0 {
        (x % 0x1_0000) as int
    } else {
        (x / 0x1_0000) as int
    }
}

/// An eight-bit value read as a two's complement number.
pub open spec fn s8(v: int) -> int {
    if v >= 0x80 {
        v - 0x100
    } else {
        v
    }
}

/// A sixteen-bit value read as a two's complement number.
pub open spec fn s16(v: int) -> int {
    if v >= 0x8000 {
        v - 0x1_0000
    } else {
        v
    }
}

/// The word whose halfwords are `hi` and `lo`, each taken modulo 2^16.
pub open spec fn pack16(hi: int, lo: int) -> u32 {
    ((hi % 0x1_0000) * 0x1_0000 + lo % 0x1_0000) as u32
}

/// The word whose bytes are `b3` down to `b0`, each taken modulo 2^8.
pub open spec fn pack8(b3: int, b2: int, b1: int, b0: int) -> u32 {
    ((b3 % 0x100) * 0x100_0000 + (b2 % 0x100) * 0x1_0000 + (b1 % 0x100) * 0x100 + b0 % 0x100) as u32
}

/// The 64-bit word that stands for `value` modulo 2^64.
pub open spec fn wrap64(value: int) -> u64 {
    (value % 0x1_0000_0000_0000_0000) as u64
}

pub(crate) fn byte(x: u32, i: usize) -> (r: i64)
    requires
        i < 4,
    ensures
        r == byte_of(x, i as int),
        0 <= r < 0x100,
{
    if i == 0 {
        (x % 0x100) as i64
    } else if i == 1 {
        (x / 0x100 % 0x100) as i64
    } else if i == 2 {
        (x / 0x1_0000 % 0x100) as i64
    } else {
        (x / 0x100_0000) as i64
    }
}

pub(crate) fn half(x: u32, i: usize) -> (r: i64)
    requires
        i < 2,
    ensures
        r == half_of(x, i as int),
        0 <= r < 0x1_0000,
{
    if i == 0 {
        (x % 0x1_0000) as i64
    } else {
        (x / 0x1_0000) as i64
    }
}

pub(crate) fn signed8(v: i64) -> (r: i64)
    requires
        0 <= v < 0x100,
    ensures
        r == s8(v as int),
        -0x80 <= r < 0x80,
{
    if v >= 0x80 {
        v - 0x100
    } else {
        v
    }
}

pub(crate) fn signed16(v: i64) -> (r: i64)
    requires
        0 <= v < 0x1_0000,
    ensures
        r == s16(v as int),
        -0x8000 <= r < 0x8000,
{
    if v >= 0x8000 {
        v - 0x1_0000
    } else {
        v
    }
}

pub(crate) fn signed32(x: u32) -> (r: i64)
    ensures
        r == signed(x),
        -0x8000_0000 <= r < 0x8000_0000,
{
    if x >= 0x8000_0000 {
        x as i64 - 0x1_0000_0000
    } else {
        x as i64
    }
}

/// The product of two numbers of up to 33 bits.
pub(crate) fn mul_wide(x: i64, y: i64) -> (r: i128)
    requires
        -0x1_0000_0000 <= x <= 0x1_0000_0000,
        -0x1_0000_0000 <= y <= 0x1_0000_0000,
    ensures
        r == x * y,
        -0x1_0000_0000_0000_0000 <= r <= 0x1_0000_0000_0000_0000,
{
    proof {
        assert(-0x1_0000_0000_0000_0000 <= x * y <= 0x1_0000_0000_0000_0000) by (nonlinear_arith)
            requires
                -0x1_0000_0000 <= x <= 0x1_0000_0000,
                -0x1_0000_0000 <= y <= 0x1_0000_0000,
        ;
    }
    x as i128 * y as i128
}

/// The word that stands for a number modulo 2^32.
pub(crate) fn wrap(value: i128) -> (r: u32)
    requires
        -0x1_0000_0000_0000_0000_0000 <= value < 0x1_0000_0000_0000_0000_0000,
    ensures
        r == wrap32(value as int),
{
    (((value + 0x1_0000_0000_0000_0000_0000) as u128) % 0x1_0000_0000) as u32
}

/// The 64-bit word that stands for a number modulo 2^64.
pub(crate) fn wrap_long(value: i128) -> (r: u64)
    requires
        -0x1_0000_0000_0000_0000_0000 <= value < 0x1_0000_0000_0000_0000_0000,
    ensures
        r == wrap64(value as int),
{
    (((value + 0x1_0000_0000_0000_0000_0000) as u128) % 0x1_0000_0000_0000_0000) as u64
}

pub(crate) fn make16(hi: i64, lo: i64) -> (r: u32)
    requires
        -0x10_0000 <= hi < 0x10_0000,
        -0x10_0000 <= lo < 0x10_0000,
    ensures
        r == pack16(hi as int, lo as int),
{
    (((hi + 0x10_0000) % 0x1_0000) * 0x1_0000 + (lo + 0x10_0000) % 0x1_0000) as u32
}

pub(crate) fn make8(b3: i64, b2: i64, b1: i64, b0: i64) -> (r: u32)
    requires
        -0x1000 <= b3 < 0x1000,
        -0x1000 <= b2 < 0x1000,
        -0x1000 <= b1 < 0x1000,
        -0x1000 <= b0 < 0x1000,
    ensures
        r == pack8(b3 as int, b2 as int, b1 as int, b0 as int),
{
    (((b3 + 0x1000) % 0x100) * 0x100_0000 + ((b2 + 0x1000) % 0x100) * 0x1_0000 + ((b1 + 0x1000)
        % 0x100) * 0x100 + (b0 + 0x1000) % 0x100) as u32
}

/// The low `n` bits of a word in reverse order, as a number.
pub open spec fn reversed(x: u32, n: nat) -> nat
    decreases n,
{
    if n == 0 {
        0
    } else {
        2 * reversed(x, (n - 1) as nat) + if bit_of(x, n - 1) {
            1nat
        } else {
            0nat
        }
    }
}

/// The word with its 32 bits in reverse order.
pub fn reverse_bits(x: u32) -> (r: u32)
    ensures
        r == reversed(x, 32),
{
    let mut result: u64 = 0;
    let mut bound: u64 = 1;
    let mut i: usize = 0;
    proof {
        vstd::arithmetic::power2::lemma2_to64();
    }
    while i < 32
        invariant
            i <= 32,
            result == reversed(x, i as nat),
            result < bound,
            bound == vstd::arithmetic::power2::pow2(i as nat),
            vstd::arithmetic::power2::pow2(32) == 0x1_0000_0000,
        decreases 32 - i,
    {
        proof {
            vstd::arithmetic::power2::lemma_pow2_unfold((i + 1) as nat);
            vstd::arithmetic::power2::lemma_pow2_strictly_increases(i as nat, 32);
        }
        result = 2 * result + if bit(x, i) { 1 } else { 0 };
        bound = 2 * bound;
        i += 1;
    }
    result as u32
}

/// Whether the instruction computes one word from up to three operand
/// values and stores it in its first operand.
pub open spec fn is_unary(kind: InstructionKind) -> bool {
    matches!(
        kind,
        InstructionKind::CLZ
            | InstructionKind::RBIT
            | InstructionKind::REV
            | InstructionKind::REV16
            | InstructionKind::REVSH
    )
}

/// What the instructions that rearrange one word compute: the number of
/// leading zeros, the bits reversed, the bytes reversed, the bytes of each
/// halfword exchanged, and the low halfword with its bytes exchanged and
/// sign-extended.
pub open spec fn unary_spec(kind: InstructionKind, m: u32) -> u32 {
    match kind {
        InstructionKind::CLZ => u32_leading_zeros(m),
        InstructionKind::RBIT => reversed(m, 32) as u32,
        InstructionKind::REV => pack8(byte_of(m, 0), byte_of(m, 1), byte_of(m, 2), byte_of(m, 3)),
        InstructionKind::REV16 => pack8(
            byte_of(m, 2),
            byte_of(m, 3),
            byte_of(m, 0),
            byte_of(m, 1),
        ),
        InstructionKind::REVSH => wrap32(s8(byte_of(m, 0)) * 0x100 + byte_of(m, 1)),
        _ => 0,
    }
}

/// Computes what an instruction that rearranges one word stores.
pub fn unary(kind: InstructionKind, m: u32) -> (r: u32)
    ensures
        r == unary_spec(kind, m),
{
    match kind {
        InstructionKind::CLZ => m.leading_zeros(),
        InstructionKind::RBIT => reverse_bits(m),
        InstructionKind::REV => make8(byte(m, 0), byte(m, 1), byte(m, 2), byte(m, 3)),
        InstructionKind::REV16 => make8(byte(m, 2), byte(m, 3), byte(m, 0), byte(m, 1)),
        InstructionKind::REVSH => wrap((signed8(byte(m, 0)) * 0x100 + byte(m, 1)) as i128),
        _ => 0,
    }
}

/// Whether the instruction extends a byte or halfword of a rotated word.
pub open spec fn is_extension(kind: InstructionKind) -> bool {
    matches!(
        kind,
        InstructionKind::SXTB
            | InstructionKind::SXTB16
            | InstructionKind::SXTH
            | InstructionKind::UXTB
            | InstructionKind::UXTB16
            | InstructionKind::UXTH
            | InstructionKind::SXTAB
            | InstructionKind::SXTAB16
            | InstructionKind::SXTAH
            | InstructionKind::UXTAB
            | InstructionKind::UXTAB16
            | InstructionKind::UXTAH
    )
}

/// Whether an extension adds its result to another operand.
pub open spec fn extension_adds(kind: InstructionKind) -> bool {
    matches!(
        kind,
        InstructionKind::SXTAB
            | InstructionKind::SXTAB16
            | InstructionKind::SXTAH
            | InstructionKind::UXTAB
            | InstructionKind::UXTAB16
            | InstructionKind::UXTAH
    )
}

/// What an extension computes: `m` is rotated right by `rotation`, then the
/// low byte, the low halfword, or the low byte of each halfword is taken,
/// signed or unsigned, and added to `n`: for the last, halfword by halfword.
/// The plain extensions have `n` zero.
pub open spec fn extension_spec(kind: InstructionKind, n: u32, m: u32, rotation: u32) -> u32 {
    let rotated = ror(m, rotation);
    match kind {
        InstructionKind::SXTB | InstructionKind::SXTAB => wrap32(n + s8(byte_of(rotated, 0))),
        InstructionKind::SXTH | InstructionKind::SXTAH => wrap32(n + s16(half_of(rotated, 0))),
        InstructionKind::UXTB | InstructionKind::UXTAB => wrap32(n + byte_of(rotated, 0)),
        InstructionKind::UXTH | InstructionKind::UXTAH => wrap32(n + half_of(rotated, 0)),
        InstructionKind::SXTB16 | InstructionKind::SXTAB16 => pack16(
            half_of(n, 1) + s8(byte_of(rotated, 2)),
            half_of(n, 0) + s8(byte_of(rotated, 0)),
        ),
        InstructionKind::UXTB16 | InstructionKind::UXTAB16 => pack16(
            half_of(n, 1) + byte_of(rotated, 2),
            half_of(n, 0) + byte_of(rotated, 0),
        ),
        _ => 0,
    }
}

/// Computes what an extension stores.
pub fn extension(kind: InstructionKind, n: u32, m: u32, rotation: u32) -> (r: u32)
    ensures
        r == extension_spec(kind, n, m, rotation),
{
    let rotated = rotate_right(m, rotation);
    match kind {
        InstructionKind::SXTB | InstructionKind::SXTAB => wrap(
            (n as i64 + signed8(byte(rotated, 0))) as i128,
        ),
        InstructionKind::SXTH | InstructionKind::SXTAH => wrap(
            (n as i64 + signed16(half(rotated, 0))) as i128,
        ),
        InstructionKind::UXTB | InstructionKind::UXTAB => wrap(
            (n as i64 + byte(rotated, 0)) as i128,
        ),
        InstructionKind::UXTH | InstructionKind::UXTAH => wrap(
            (n as i64 + half(rotated, 0)) as i128,
        ),
        InstructionKind::SXTB16 | InstructionKind::SXTAB16 => make16(
            half(n, 1) + signed8(byte(rotated, 2)),
            half(n, 0) + signed8(byte(rotated, 0)),
        ),
        InstructionKind::UXTB16 | InstructionKind::UXTAB16 => make16(
            half(n, 1) + byte(rotated, 2),
            half(n, 0) + byte(rotated, 0),
        ),
        _ => 0,
    }
}

/// What the two pack instructions compute: PKHBT takes the bottom halfword
/// of `n` and the top one of `m`, PKHTB the top of `n` and the bottom of `m`.
pub open spec fn pack_spec(kind: InstructionKind, n: u32, m: u32) -> u32 {
    match kind {
        InstructionKind::PKHBT => pack16(half_of(m, 1), half_of(n, 0)),
        InstructionKind::PKHTB => pack16(half_of(n, 1), half_of(m, 0)),
        _ => 0,
    }
}

/// Computes what a pack instruction stores.
pub fn pack(kind: InstructionKind, n: u32, m: u32) -> (r: u32)
    ensures
        r == pack_spec(kind, n, m),
{
    match kind {
        InstructionKind::PKHBT => make16(half(m, 1), half(n, 0)),
        InstructionKind::PKHTB => make16(half(n, 1), half(m, 0)),
        _ => 0,
    }
}

/// The byte that SEL picks: that of `n` where the GE flag of the byte is
/// set, that of `m` where it is not.
pub open spec fn select_byte(ge: u32, n: u32, m: u32, i: int) -> int {
    if bit_of(ge, i) {
        byte_of(n, i)
    } else {
        byte_of(m, i)
    }
}

/// What SEL computes, byte by byte.
pub open spec fn select_spec(ge: u32, n: u32, m: u32) -> u32 {
    pack8(
        select_byte(ge, n, m, 3),
        select_byte(ge, n, m, 2),
        select_byte(ge, n, m, 1),
        select_byte(ge, n, m, 0),
    )
}

/// Computes what SEL stores.
pub fn select(ge: u32, n: u32, m: u32) -> (r: u32)
    ensures
        r == select_spec(ge, n, m),
{
    let b0 = if bit(ge, 0) { byte(n, 0) } else { byte(m, 0) };
    let b1 = if bit(ge, 1) { byte(n, 1) } else { byte(m, 1) };
    let b2 = if bit(ge, 2) { byte(n, 2) } else { byte(m, 2) };
    let b3 = if bit(ge, 3) { byte(n, 3) } else { byte(m, 3) };
    make8(b3, b2, b1, b0)
}

/// The distance between two numbers.
pub open spec fn distance(a: int, b: int) -> int {
    if a >= b {
        a - b
    } else {
        b - a
    }
}

/// The sum of the distances between the bytes of `n` and those of `m`, added
/// to `a`, modulo 2^32.
pub open spec fn sum_of_differences_spec(n: u32, m: u32, a: u32) -> u32 {
    wrap32(
        a + distance(byte_of(n, 0), byte_of(m, 0)) + distance(byte_of(n, 1), byte_of(m, 1))
            + distance(byte_of(n, 2), byte_of(m, 2)) + distance(byte_of(n, 3), byte_of(m, 3)),
    )
}

fn apart(a: i64, b: i64) -> (r: i64)
    requires
        0 <= a < 0x100,
        0 <= b < 0x100,
    ensures
        r == distance(a as int, b as int),
        0 <= r < 0x100,
{
    if a >= b {
        a - b
    } else {
        b - a
    }
}

/// Computes what USAD8 and USADA8 store.
pub fn sum_of_differences(n: u32, m: u32, a: u32) -> (r: u32)
    ensures
        r == sum_of_differences_spec(n, m, a),
{
    wrap(
        (a as i64 + apart(byte(n, 0), byte(m, 0)) + apart(byte(n, 1), byte(m, 1)) + apart(
            byte(n, 2),
            byte(m, 2),
        ) + apart(byte(n, 3), byte(m, 3))) as i128,
    )
}

/// The destination of BFC and BFI: the bits `lsb ..= msb` of `d` replaced by
/// the low bits of `n`. A window that ends above bit 31 ends at bit 31; one
/// that is empty or lies above bit 31 changes nothing.
pub open spec fn insert_spec(d: u32, n: u32, lsb: u32, msb: u32) -> u32 {
    if msb >= lsb && lsb < 32 {
        with_field(d, if msb < 32 { msb as int } else { 31 }, lsb as int, n)
    } else {
        d
    }
}

/// Computes the destination of BFC and BFI.
pub fn insert(d: u32, n: u32, lsb: u32, msb: u32) -> (r: u32)
    ensures
        r == insert_spec(d, n, lsb, msb),
{
    if msb >= lsb && lsb < 32 {
        set_bit_range(d, if msb < 32 { msb as usize } else { 31 }, lsb as usize, n)
    } else {
        d
    }
}

/// The field of `width` bits of `n` from bit `lsb` up, zero-extended or
/// sign-extended; nothing where the field does not lie within the word.
pub open spec fn extract_spec(signed_field: bool, n: u32, lsb: u32, width: u32) -> Option<u32> {
    if 1 <= width && lsb + width <= 32 {
        Some(
            if signed_field {
                signed_field_of(n, lsb + width - 1, lsb as int)
            } else {
                field_of(n, lsb + width - 1, lsb as int)
            },
        )
    } else {
        None
    }
}

/// Computes what SBFX and UBFX store.
pub fn extract(signed_field: bool, n: u32, lsb: u32, width: u32) -> (r: Option<u32>)
    ensures
        r == extract_spec(signed_field, n, lsb, width),
{
    if 1 <= width && width <= 32 && lsb <= 32 - width {
        let lo = lsb as usize;
        let hi = (lsb + width) as usize;
        Some(
            if signed_field {
                view_load_signed(n, lo, hi)
            } else {
                view_load(n, lo, hi)
            },
        )
    } else {
        None
    }
}

/// The destination of MOVT: its top halfword replaced by the low halfword of
/// `imm16`.
pub open spec fn move_top_spec(d: u32, imm16: u32) -> u32 {
    pack16(half_of(imm16, 0), half_of(d, 0))
}

/// Computes the destination of MOVT.
pub fn move_top(d: u32, imm16: u32) -> (r: u32)
    ensures
        r == move_top_spec(d, imm16),
{
    make16(half(imm16, 0), half(d, 0))
}

} // verus!
