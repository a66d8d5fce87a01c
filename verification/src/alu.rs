//! What the data-processing instructions compute from their operands.

use crate::arithmetic::{
    add_with_carry, add_with_carry_spec, rotate_right_extend_with_carry, rrx_c, shift_c,
    shift_c_spec, wrap32, ShiftStyle,
};
use crate::instruction::InstructionKind;
use vstd::prelude::*;

verus! {

/// Whether the instruction belongs to the data-processing family.
pub open spec fn is_data_processing(kind: InstructionKind) -> bool {
    matches!(
        kind,
        InstructionKind::ADC
            | InstructionKind::ADD
            | InstructionKind::AND
            | InstructionKind::ASR
            | InstructionKind::BIC
            | InstructionKind::EOR
            | InstructionKind::LSL
            | InstructionKind::LSR
            | InstructionKind::MOV
            | InstructionKind::MUL
            | InstructionKind::MVN
            | InstructionKind::ORN
            | InstructionKind::ORR
            | InstructionKind::ROR
            | InstructionKind::RRX
            | InstructionKind::RSB
            | InstructionKind::RSC
            | InstructionKind::SBC
            | InstructionKind::SUB
    )
}

/// The result, carry and overflow of a data-processing instruction on the
/// operand values `n` and `m`. `shifter_carry` is the carry that came with
/// `m`; `c` and `v` are the flags as they stand. The additions and
/// subtractions take carry and overflow from the sum; the logical operations
/// and moves take the shifter carry; the shifts shift `n` by the low eight
/// bits of `m` and take the carry of the shift; a multiplication keeps the
/// carry. All but the additions and subtractions keep the overflow.
pub open spec fn data_processing_spec(
    kind: InstructionKind,
    n: u32,
    m: u32,
    shifter_carry: bool,
    c: bool,
    v: bool,
) -> (u32, bool, bool) {
    match kind {
        InstructionKind::ADC => add_with_carry_spec(n, m, c),
        InstructionKind::ADD => add_with_carry_spec(n, m, false),
        InstructionKind::SUB => add_with_carry_spec(n, !m, true),
        InstructionKind::SBC => add_with_carry_spec(n, !m, c),
        InstructionKind::RSB => add_with_carry_spec(!n, m, true),
        InstructionKind::RSC => add_with_carry_spec(!n, m, c),
        InstructionKind::AND => (n & m, shifter_carry, v),
        InstructionKind::BIC => (n & !m, shifter_carry, v),
        InstructionKind::EOR => (n ^ m, shifter_carry, v),
        InstructionKind::ORN => (n | !m, shifter_carry, v),
        InstructionKind::ORR => (n | m, shifter_carry, v),
        InstructionKind::MOV => (m, shifter_carry, v),
        InstructionKind::MVN => (!m, shifter_carry, v),
        InstructionKind::ASR => (
            shift_c_spec(n, ShiftStyle::ASR, m % 0x100, c).0,
            shift_c_spec(n, ShiftStyle::ASR, m % 0x100, c).1,
            v,
        ),
        InstructionKind::LSL => (
            shift_c_spec(n, ShiftStyle::LSL, m % 0x100, c).0,
            shift_c_spec(n, ShiftStyle::LSL, m % 0x100, c).1,
            v,
        ),
        InstructionKind::LSR => (
            shift_c_spec(n, ShiftStyle::LSR, m % 0x100, c).0,
            shift_c_spec(n, ShiftStyle::LSR, m % 0x100, c).1,
            v,
        ),
        InstructionKind::ROR => (
            shift_c_spec(n, ShiftStyle::ROR, m % 0x100, c).0,
            shift_c_spec(n, ShiftStyle::ROR, m % 0x100, c).1,
            v,
        ),
        InstructionKind::RRX => (rrx_c(m, c).0, rrx_c(m, c).1, v),
        InstructionKind::MUL => (wrap32(n * m), c, v),
        _ => (0, false, false),
    }
}

/// Computes the result, carry and overflow of a data-processing
/// instruction.
pub fn data_processing(
    kind: InstructionKind,
    n: u32,
    m: u32,
    shifter_carry: bool,
    c: bool,
    v: bool,
) -> (r: (u32, bool, bool))
    ensures
        r == data_processing_spec(kind, n, m, shifter_carry, c, v),
{
    match kind {
        InstructionKind::ADC => add_with_carry(n, m, c),
        InstructionKind::ADD => add_with_carry(n, m, false),
        InstructionKind::SUB => add_with_carry(n, !m, true),
        InstructionKind::SBC => add_with_carry(n, !m, c),
        InstructionKind::RSB => add_with_carry(!n, m, true),
        InstructionKind::RSC => add_with_carry(!n, m, c),
        InstructionKind::AND => (n & m, shifter_carry, v),
        InstructionKind::BIC => (n & !m, shifter_carry, v),
        InstructionKind::EOR => (n ^ m, shifter_carry, v),
        InstructionKind::ORN => (n | !m, shifter_carry, v),
        InstructionKind::ORR => (n | m, shifter_carry, v),
        InstructionKind::MOV => (m, shifter_carry, v),
        InstructionKind::MVN => (!m, shifter_carry, v),
        InstructionKind::ASR => {
            let (result, carry) = shift_c(n, ShiftStyle::ASR, m % 0x100, c);
            (result, carry, v)
        },
        InstructionKind::LSL => {
            let (result, carry) = shift_c(n, ShiftStyle::LSL, m % 0x100, c);
            (result, carry, v)
        },
        InstructionKind::LSR => {
            let (result, carry) = shift_c(n, ShiftStyle::LSR, m % 0x100, c);
            (result, carry, v)
        },
        InstructionKind::ROR => {
            let (result, carry) = shift_c(n, ShiftStyle::ROR, m % 0x100, c);
            (result, carry, v)
        },
        InstructionKind::RRX => {
            let (result, carry) = rotate_right_extend_with_carry(m, c);
            (result, carry, v)
        },
        InstructionKind::MUL => (n.wrapping_mul(m), c, v),
        _ => (0, false, false),
    }
}

/// Whether the instruction is one of the four that only set flags.
pub open spec fn is_comparison(kind: InstructionKind) -> bool {
    matches!(
        kind,
        InstructionKind::CMN | InstructionKind::CMP | InstructionKind::TST | InstructionKind::TEQ
    )
}

/// The result, carry and overflow by which a comparison sets the flags: a
/// sum for CMN, a difference for CMP, and for the two tests a logical result
/// with the shifter carry and the overflow as it stands.
pub open spec fn comparison_spec(
    kind: InstructionKind,
    n: u32,
    m: u32,
    shifter_carry: bool,
    v: bool,
) -> (u32, bool, bool) {
    match kind {
        InstructionKind::CMN => add_with_carry_spec(n, m, false),
        InstructionKind::CMP => add_with_carry_spec(n, !m, true),
        InstructionKind::TST => (n & m, shifter_carry, v),
        InstructionKind::TEQ => (n ^ m, shifter_carry, v),
        _ => (0, false, false),
    }
}

/// Computes the result, carry and overflow by which a comparison sets the
/// flags.
pub fn comparison(kind: InstructionKind, n: u32, m: u32, shifter_carry: bool, v: bool) -> (r: (
    u32,
    bool,
    bool,
))
    ensures
        r == comparison_spec(kind, n, m, shifter_carry, v),
{
    match kind {
        InstructionKind::CMN => add_with_carry(n, m, false),
        InstructionKind::CMP => add_with_carry(n, !m, true),
        InstructionKind::TST => (n & m, shifter_carry, v),
        InstructionKind::TEQ => (n ^ m, shifter_carry, v),
        _ => (0, false, false),
    }
}

} // verus!
