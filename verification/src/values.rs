//! The instructions that compute one word from the values of up to three
//! operands and store it in their first operand.

use crate::bits::{bit_range, field_of, set_bit, set_bit_range, with_bit, with_field};
use crate::instruction::InstructionKind;
use crate::multiply::{is_multiply, multiply, multiply_accumulates, multiply_spec};
use crate::parallel::{lanes, lanes_of, lemma_lanes_wf};
use crate::words::{
    extension, extension_adds, extension_spec, extract, extract_spec, is_extension, is_unary, pack,
    pack_spec, select, select_spec, sum_of_differences, sum_of_differences_spec, unary, unary_spec,
};
use vstd::prelude::*;

verus! {

/// How many operands after the first such an instruction reads; zero for
/// every other instruction.
pub open spec fn value_sources(kind: InstructionKind) -> int {
    if is_unary(kind) {
        1
    } else if kind == InstructionKind::PKHBT || kind == InstructionKind::PKHTB || kind
        == InstructionKind::SEL || kind == InstructionKind::USAD8 || lanes_of(kind) is Some {
        2
    } else if kind == InstructionKind::USADA8 || kind == InstructionKind::SBFX || kind
        == InstructionKind::UBFX {
        3
    } else if is_extension(kind) {
        if extension_adds(kind) {
            3
        } else {
            2
        }
    } else if is_multiply(kind) {
        if multiply_accumulates(kind) {
            3
        } else {
            2
        }
    } else {
        0
    }
}

/// The word that such an instruction computes from the operand values `x`,
/// `y` and `z`, taken in the order of the operands, and the status word; or
/// nothing where the values name a bit field that does not lie in a word.
/// SBFX and UBFX take the word, the lowest bit of the field and its width.
pub open spec fn value_spec(kind: InstructionKind, x: u32, y: u32, z: u32, cpsr: u32) -> Option<
    u32,
> {
    if is_unary(kind) {
        Some(unary_spec(kind, x))
    } else if kind == InstructionKind::PKHBT || kind == InstructionKind::PKHTB {
        Some(pack_spec(kind, x, y))
    } else if kind == InstructionKind::SEL {
        Some(select_spec(field_of(cpsr, 19, 16), x, y))
    } else if kind == InstructionKind::USAD8 {
        Some(sum_of_differences_spec(x, y, 0))
    } else if kind == InstructionKind::USADA8 {
        Some(sum_of_differences_spec(x, y, z))
    } else if kind == InstructionKind::SBFX {
        extract_spec(true, x, y, z)
    } else if kind == InstructionKind::UBFX {
        extract_spec(false, x, y, z)
    } else if lanes_of(kind) is Some {
        Some(lanes_of(kind)->0.result(x, y))
    } else if is_extension(kind) {
        if extension_adds(kind) {
            Some(extension_spec(kind, x, y, z))
        } else {
            Some(extension_spec(kind, 0, x, y))
        }
    } else if is_multiply(kind) {
        if multiply_accumulates(kind) {
            Some(multiply_spec(kind, x, y, z).0)
        } else {
            Some(multiply_spec(kind, x, y, 0).0)
        }
    } else {
        None
    }
}

/// The status word after such an instruction. A lane-wise instruction that
/// does not halve sets the GE flags. A multiply that can overflow sets Q
/// where it does. MLA sets N and Z from its result where it sets flags.
/// Every other leaves the status word as it is.
pub open spec fn value_flags(
    kind: InstructionKind,
    x: u32,
    y: u32,
    z: u32,
    setflags: bool,
    cpsr: u32,
) -> u32 {
    if lanes_of(kind) is Some {
        if lanes_of(kind)->0.halve {
            cpsr
        } else {
            with_field(cpsr, 19, 16, lanes_of(kind)->0.ge_flags(x, y))
        }
    } else if kind == InstructionKind::MLA {
        if setflags {
            with_bit(
                with_bit(cpsr, 31, multiply_spec(kind, x, y, z).0 >= 0x8000_0000),
                30,
                multiply_spec(kind, x, y, z).0 == 0,
            )
        } else {
            cpsr
        }
    } else if is_multiply(kind) {
        if multiply_spec(kind, x, y, if multiply_accumulates(kind) { z } else { 0 }).1 {
            with_bit(cpsr, 27, true)
        } else {
            cpsr
        }
    } else {
        cpsr
    }
}

fn unary_kind(kind: InstructionKind) -> (r: bool)
    ensures
        r == is_unary(kind),
{
    match kind {
        InstructionKind::CLZ
        | InstructionKind::RBIT
        | InstructionKind::REV
        | InstructionKind::REV16
        | InstructionKind::REVSH => true,
        _ => false,
    }
}

/// Whether the instruction extends a byte or halfword.
pub fn extends(kind: InstructionKind) -> (r: bool)
    ensures
        r == is_extension(kind),
{
    extension_kind(kind).0
}

/// Whether the instruction extends, and whether it adds as well.
fn extension_kind(kind: InstructionKind) -> (r: (bool, bool))
    ensures
        r.0 == is_extension(kind),
        r.1 == extension_adds(kind),
{
    match kind {
        InstructionKind::SXTB
        | InstructionKind::SXTB16
        | InstructionKind::SXTH
        | InstructionKind::UXTB
        | InstructionKind::UXTB16
        | InstructionKind::UXTH => (true, false),
        InstructionKind::SXTAB
        | InstructionKind::SXTAB16
        | InstructionKind::SXTAH
        | InstructionKind::UXTAB
        | InstructionKind::UXTAB16
        | InstructionKind::UXTAH => (true, true),
        _ => (false, false),
    }
}

/// Whether the instruction multiplies into one word, and whether it
/// accumulates as well.
fn multiply_kind(kind: InstructionKind) -> (r: (bool, bool))
    ensures
        r.0 == is_multiply(kind),
        r.1 == multiply_accumulates(kind),
{
    match kind {
        InstructionKind::MLA
        | InstructionKind::MLS
        | InstructionKind::SMLA { .. }
        | InstructionKind::SMLAD { .. }
        | InstructionKind::SMLSD { .. }
        | InstructionKind::SMLAW { .. }
        | InstructionKind::SMMLA { .. }
        | InstructionKind::SMMLS { .. } => (true, true),
        InstructionKind::SMMUL { .. }
        | InstructionKind::SMUAD { .. }
        | InstructionKind::SMUL { .. }
        | InstructionKind::SMULW { .. }
        | InstructionKind::SMUSD { .. } => (true, false),
        _ => (false, false),
    }
}

/// How many operands after the first the instruction reads.
pub fn sources(kind: InstructionKind) -> (r: u8)
    ensures
        r == value_sources(kind),
{
    let (extends, extension_adds) = extension_kind(kind);
    let (multiplies, accumulates) = multiply_kind(kind);
    if unary_kind(kind) {
        1
    } else if matches!(
        kind,
        InstructionKind::PKHBT
            | InstructionKind::PKHTB
            | InstructionKind::SEL
            | InstructionKind::USAD8
    ) || lanes(kind).is_some() {
        2
    } else if matches!(
        kind,
        InstructionKind::USADA8 | InstructionKind::SBFX | InstructionKind::UBFX
    ) {
        3
    } else if extends {
        if extension_adds {
            3
        } else {
            2
        }
    } else if multiplies {
        if accumulates {
            3
        } else {
            2
        }
    } else {
        0
    }
}

/// Computes the word that the instruction stores in its first operand.
pub fn value(kind: InstructionKind, x: u32, y: u32, z: u32, cpsr: u32) -> (r: Option<u32>)
    ensures
        r == value_spec(kind, x, y, z, cpsr),
{
    let (extends, extension_adds) = extension_kind(kind);
    let (multiplies, accumulates) = multiply_kind(kind);
    proof {
        lemma_lanes_wf(kind);
    }
    if unary_kind(kind) {
        Some(unary(kind, x))
    } else if matches!(kind, InstructionKind::PKHBT | InstructionKind::PKHTB) {
        Some(pack(kind, x, y))
    } else if matches!(kind, InstructionKind::SEL) {
        Some(select(bit_range(cpsr, 19, 16), x, y))
    } else if matches!(kind, InstructionKind::USAD8) {
        Some(sum_of_differences(x, y, 0))
    } else if matches!(kind, InstructionKind::USADA8) {
        Some(sum_of_differences(x, y, z))
    } else if matches!(kind, InstructionKind::SBFX) {
        extract(true, x, y, z)
    } else if matches!(kind, InstructionKind::UBFX) {
        extract(false, x, y, z)
    } else if let Some(l) = lanes(kind) {
        Some(l.compute(x, y))
    } else if extends {
        if extension_adds {
            Some(extension(kind, x, y, z))
        } else {
            Some(extension(kind, 0, x, y))
        }
    } else if multiplies {
        if accumulates {
            Some(multiply(kind, x, y, z).0)
        } else {
            Some(multiply(kind, x, y, 0).0)
        }
    } else {
        None
    }
}

/// Computes the status word that the instruction leaves.
pub fn flags(kind: InstructionKind, x: u32, y: u32, z: u32, setflags: bool, cpsr: u32) -> (r: u32)
    ensures
        r == value_flags(kind, x, y, z, setflags, cpsr),
{
    let (multiplies, accumulates) = multiply_kind(kind);
    proof {
        lemma_lanes_wf(kind);
    }
    if let Some(l) = lanes(kind) {
        if l.halve {
            cpsr
        } else {
            set_bit_range(cpsr, 19, 16, l.compute_ge(x, y))
        }
    } else if matches!(kind, InstructionKind::MLA) {
        if setflags {
            let result = multiply(kind, x, y, z).0;
            set_bit(set_bit(cpsr, 31, result >= 0x8000_0000), 30, result == 0)
        } else {
            cpsr
        }
    } else if multiplies {
        if multiply(kind, x, y, if accumulates { z } else { 0 }).1 {
            set_bit(cpsr, 27, true)
        } else {
            cpsr
        }
    } else {
        cpsr
    }
}

} // verus!
