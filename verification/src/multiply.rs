//! What the multiply instructions compute.

use crate::arithmetic::{signed, wrap32};
use crate::instruction::InstructionKind;
use crate::words::{
    half, half_of, make16, mul_wide, pack16, s16, signed16, signed32, wrap, wrap64, wrap_long,
};
use vstd::prelude::*;

verus! {

/// Whether a number fits a 32-bit two's complement word.
pub open spec fn fits32(value: int) -> bool {
    -0x8000_0000 <= value < 0x8000_0000
}

/// The second operand of a dual multiply: its halfwords exchanged where
/// `swap` is set.
pub open spec fn swapped(m: u32, swap: bool) -> u32 {
    if swap {
        pack16(half_of(m, 0), half_of(m, 1))
    } else {
        m
    }
}

/// The product of the bottom halfwords of two words, read as signed.
pub open spec fn product_low(n: u32, m: u32) -> int {
    s16(half_of(n, 0)) * s16(half_of(m, 0))
}

/// The product of the top halfwords of two words, read as signed.
pub open spec fn product_high(n: u32, m: u32) -> int {
    s16(half_of(n, 1)) * s16(half_of(m, 1))
}

/// The halfword of a word that a flag picks, read as signed.
pub open spec fn picked(x: u32, high: bool) -> int {
    s16(half_of(x, if high { 1int } else { 0int }))
}

/// One if rounding is asked for, in the place below the top word.
pub open spec fn rounding(round: bool) -> int {
    if round {
        0x8000_0000
    } else {
        0
    }
}

/// Whether the instruction multiplies into one word.
pub open spec fn is_multiply(kind: InstructionKind) -> bool {
    matches!(
        kind,
        InstructionKind::MLA
            | InstructionKind::MLS
            | InstructionKind::SMLA { .. }
            | InstructionKind::SMLAD { .. }
            | InstructionKind::SMLSD { .. }
            | InstructionKind::SMLAW { .. }
            | InstructionKind::SMMLA { .. }
            | InstructionKind::SMMLS { .. }
            | InstructionKind::SMMUL { .. }
            | InstructionKind::SMUAD { .. }
            | InstructionKind::SMUL { .. }
            | InstructionKind::SMULW { .. }
            | InstructionKind::SMUSD { .. }
    )
}

/// Whether a multiply takes an accumulator as its third operand value.
pub open spec fn multiply_accumulates(kind: InstructionKind) -> bool {
    matches!(
        kind,
        InstructionKind::MLA
            | InstructionKind::MLS
            | InstructionKind::SMLA { .. }
            | InstructionKind::SMLAD { .. }
            | InstructionKind::SMLSD { .. }
            | InstructionKind::SMLAW { .. }
            | InstructionKind::SMMLA { .. }
            | InstructionKind::SMMLS { .. }
    )
}

/// The exact number that a multiply computes before it is cut to a word:
/// for the two that keep bits 47 to 16 of a product, and for the three that
/// keep its top word, what is left after the bits below have gone.
pub open spec fn multiply_exact(kind: InstructionKind, n: u32, m: u32, a: u32) -> int {
    match kind {
        InstructionKind::MLA => n * m + a,
        InstructionKind::MLS => a - n * m,
        InstructionKind::SMLA { n_high, m_high } => picked(n, n_high) * picked(m, m_high) + signed(
            a,
        ),
        InstructionKind::SMUL { n_high, m_high } => picked(n, n_high) * picked(m, m_high),
        InstructionKind::SMLAD { m_swap } => product_low(n, swapped(m, m_swap)) + product_high(
            n,
            swapped(m, m_swap),
        ) + signed(a),
        InstructionKind::SMLSD { m_swap } => product_low(n, swapped(m, m_swap)) - product_high(
            n,
            swapped(m, m_swap),
        ) + signed(a),
        InstructionKind::SMUAD { m_swap } => product_low(n, swapped(m, m_swap)) + product_high(
            n,
            swapped(m, m_swap),
        ),
        InstructionKind::SMUSD { m_swap } => product_low(n, swapped(m, m_swap)) - product_high(
            n,
            swapped(m, m_swap),
        ),
        InstructionKind::SMLAW { m_high } => (signed(n) * picked(m, m_high) + signed(a) * 0x1_0000)
            / 0x1_0000,
        InstructionKind::SMULW { m_high } => (signed(n) * picked(m, m_high)) / 0x1_0000,
        InstructionKind::SMMLA { round } => (signed(a) * 0x1_0000_0000 + signed(n) * signed(m)
            + rounding(round)) / 0x1_0000_0000,
        InstructionKind::SMMLS { round } => (signed(a) * 0x1_0000_0000 - signed(n) * signed(m)
            + rounding(round)) / 0x1_0000_0000,
        InstructionKind::SMMUL { round } => (signed(n) * signed(m) + rounding(round))
            / 0x1_0000_0000,
        _ => 0,
    }
}

/// Whether a multiply sets the Q flag where its exact result does not fit a
/// signed word.
pub open spec fn multiply_sets_q(kind: InstructionKind) -> bool {
    matches!(
        kind,
        InstructionKind::SMLA { .. }
            | InstructionKind::SMLAD { .. }
            | InstructionKind::SMLSD { .. }
            | InstructionKind::SMUAD { .. }
            | InstructionKind::SMLAW { .. }
    )
}

/// The word that a multiply computes, and whether it raises the Q flag.
pub open spec fn multiply_spec(kind: InstructionKind, n: u32, m: u32, a: u32) -> (u32, bool) {
    (
        wrap32(multiply_exact(kind, n, m, a)),
        multiply_sets_q(kind) && !fits32(multiply_exact(kind, n, m, a)),
    )
}

fn swap_halves(m: u32, swap: bool) -> (r: u32)
    ensures
        r == swapped(m, swap),
{
    if swap {
        make16(half(m, 0), half(m, 1))
    } else {
        m
    }
}

fn pick(x: u32, high: bool) -> (r: i64)
    ensures
        r == picked(x, high),
        -0x8000 <= r < 0x8000,
{
    signed16(half(x, if high { 1 } else { 0 }))
}

/// A number divided by a power of two, rounded down.
fn floor_div(value: i128, bits: u32) -> (r: i128)
    requires
        bits == 16 || bits == 32,
        -0x1_0000_0000_0000_0000_0000 <= value < 0x1_0000_0000_0000_0000_0000,
    ensures
        bits == 16 ==> r == value / 0x1_0000,
        bits == 32 ==> r == value / 0x1_0000_0000,
        -0x1_0000_0000_0000_0000_0000 <= r < 0x1_0000_0000_0000_0000_0000,
{
    if bits == 16 {
        (value + 0x1_0000_0000_0000_0000_0000) / 0x1_0000 - 0x1_0000_0000_0000_0000
    } else {
        (value + 0x1_0000_0000_0000_0000_0000) / 0x1_0000_0000 - 0x1_0000_0000_0000
    }
}

fn multiply_value(kind: InstructionKind, n: u32, m: u32, a: u32) -> (r: i128)
    ensures
        r == multiply_exact(kind, n, m, a),
        -0x1_0000_0000_0000_0000_0000 <= r < 0x1_0000_0000_0000_0000_0000,
{
    match kind {
        InstructionKind::MLA => mul_wide(n as i64, m as i64) + a as i128,
        InstructionKind::MLS => a as i128 - mul_wide(n as i64, m as i64),
        InstructionKind::SMLA { n_high, m_high } => mul_wide(pick(n, n_high), pick(m, m_high))
            + signed32(a) as i128,
        InstructionKind::SMUL { n_high, m_high } => mul_wide(pick(n, n_high), pick(m, m_high)),
        InstructionKind::SMLAD { m_swap } => {
            let m2 = swap_halves(m, m_swap);
            mul_wide(pick(n, false), pick(m2, false)) + mul_wide(pick(n, true), pick(m2, true))
                + signed32(a) as i128
        },
        InstructionKind::SMLSD { m_swap } => {
            let m2 = swap_halves(m, m_swap);
            mul_wide(pick(n, false), pick(m2, false)) - mul_wide(pick(n, true), pick(m2, true))
                + signed32(a) as i128
        },
        InstructionKind::SMUAD { m_swap } => {
            let m2 = swap_halves(m, m_swap);
            mul_wide(pick(n, false), pick(m2, false)) + mul_wide(pick(n, true), pick(m2, true))
        },
        InstructionKind::SMUSD { m_swap } => {
            let m2 = swap_halves(m, m_swap);
            mul_wide(pick(n, false), pick(m2, false)) - mul_wide(pick(n, true), pick(m2, true))
        },
        InstructionKind::SMLAW { m_high } => floor_div(
            mul_wide(signed32(n), pick(m, m_high)) + signed32(a) as i128 * 0x1_0000,
            16,
        ),
        InstructionKind::SMULW { m_high } => floor_div(mul_wide(signed32(n), pick(m, m_high)), 16),
        InstructionKind::SMMLA { round } => floor_div(
            signed32(a) as i128 * 0x1_0000_0000 + mul_wide(signed32(n), signed32(m)) + (if round {
                0x8000_0000i128
            } else {
                0i128
            }),
            32,
        ),
        InstructionKind::SMMLS { round } => floor_div(
            signed32(a) as i128 * 0x1_0000_0000 - mul_wide(signed32(n), signed32(m)) + (if round {
                0x8000_0000i128
            } else {
                0i128
            }),
            32,
        ),
        InstructionKind::SMMUL { round } => floor_div(
            mul_wide(signed32(n), signed32(m)) + (if round {
                0x8000_0000i128
            } else {
                0i128
            }),
            32,
        ),
        _ => 0,
    }
}

/// Computes the word of a multiply and whether it raises the Q flag.
pub fn multiply(kind: InstructionKind, n: u32, m: u32, a: u32) -> (r: (u32, bool))
    ensures
        r == multiply_spec(kind, n, m, a),
{
    let exact = multiply_value(kind, n, m, a);
    let sets_q = match kind {
        InstructionKind::SMLA { .. }
        | InstructionKind::SMLAD { .. }
        | InstructionKind::SMLSD { .. }
        | InstructionKind::SMUAD { .. }
        | InstructionKind::SMLAW { .. } => true,
        _ => false,
    };
    (wrap(exact), sets_q && !(-0x8000_0000 <= exact && exact < 0x8000_0000))
}

/// Whether the instruction multiplies into a pair of words.
pub open spec fn is_long_multiply(kind: InstructionKind) -> bool {
    matches!(
        kind,
        InstructionKind::SMULL
            | InstructionKind::UMULL
            | InstructionKind::SMLAL
            | InstructionKind::UMLAL
            | InstructionKind::UMAAL
            | InstructionKind::SMLALD { .. }
            | InstructionKind::SMLSLD { .. }
    )
}

/// Whether a long multiply adds to what its destination pair holds.
pub open spec fn long_accumulates(kind: InstructionKind) -> bool {
    matches!(
        kind,
        InstructionKind::SMLAL
            | InstructionKind::UMLAL
            | InstructionKind::UMAAL
            | InstructionKind::SMLALD { .. }
            | InstructionKind::SMLSLD { .. }
    )
}

/// The 64 bits that a long multiply computes from its operand values and
/// from the low and high word that its destination pair holds.
pub open spec fn long_multiply_spec(
    kind: InstructionKind,
    n: u32,
    m: u32,
    lo: u32,
    hi: u32,
) -> u64 {
    match kind {
        InstructionKind::SMULL => wrap64(signed(n) * signed(m)),
        InstructionKind::UMULL => wrap64(n * m),
        InstructionKind::SMLAL => wrap64(signed(n) * signed(m) + hi * 0x1_0000_0000 + lo),
        InstructionKind::UMLAL => wrap64(n * m + hi * 0x1_0000_0000 + lo),
        InstructionKind::UMAAL => wrap64(n * m + hi + lo),
        InstructionKind::SMLALD { m_swap } => wrap64(
            product_low(n, swapped(m, m_swap)) + product_high(n, swapped(m, m_swap)) + hi
                * 0x1_0000_0000 + lo,
        ),
        InstructionKind::SMLSLD { m_swap } => wrap64(
            product_low(n, swapped(m, m_swap)) - product_high(n, swapped(m, m_swap)) + hi
                * 0x1_0000_0000 + lo,
        ),
        _ => 0,
    }
}

/// Computes the 64 bits of a long multiply.
pub fn long_multiply(kind: InstructionKind, n: u32, m: u32, lo: u32, hi: u32) -> (r: u64)
    ensures
        r == long_multiply_spec(kind, n, m, lo, hi),
{
    let acc: i128 = hi as i128 * 0x1_0000_0000 + lo as i128;
    match kind {
        InstructionKind::SMULL => wrap_long(mul_wide(signed32(n), signed32(m))),
        InstructionKind::UMULL => wrap_long(mul_wide(n as i64, m as i64)),
        InstructionKind::SMLAL => wrap_long(mul_wide(signed32(n), signed32(m)) + acc),
        InstructionKind::UMLAL => wrap_long(mul_wide(n as i64, m as i64) + acc),
        InstructionKind::UMAAL => wrap_long(mul_wide(n as i64, m as i64) + hi as i128 + lo as i128),
        InstructionKind::SMLALD { m_swap } => {
            let m2 = swap_halves(m, m_swap);
            wrap_long(
                mul_wide(pick(n, false), pick(m2, false)) + mul_wide(pick(n, true), pick(m2, true))
                    + acc,
            )
        },
        InstructionKind::SMLSLD { m_swap } => {
            let m2 = swap_halves(m, m_swap);
            wrap_long(
                mul_wide(pick(n, false), pick(m2, false)) - mul_wide(pick(n, true), pick(m2, true))
                    + acc,
            )
        },
        _ => 0,
    }
}

} // verus!
