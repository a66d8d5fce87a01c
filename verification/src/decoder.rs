//! The instruction decoder of the `yaxpeax-arm` crate, asked for one part of
//! a decoded instruction at a time, and the instruction that the parts make.
//!
//! The decoder is a function of the bytes and of the instruction set alone.
//! Every executable function in the first half of this file calls it on the
//! same bytes and hands out one part of what it found; Verus takes their
//! contracts on trust.

use crate::arithmetic::ShiftStyle;
use crate::instruction::{Condition, Instruction, InstructionKind, Offset, Operand, Shift};
use vstd::prelude::*;
use yaxpeax_arch::{Decoder, U8Reader};
use yaxpeax_arm::armv7;

verus! {

/// An operand as the decoder found it.
pub enum Found {
    /// An operand that is a register, a value or a memory place whose offset
    /// is no shifted register. A branch offset holds the decoder's count and
    /// a status mask the decoder's number.
    Plain(Operand),
    /// An operand that holds a shifted register. `shift` tells whether the
    /// amount is in a register, the number of the shift style, the register
    /// that is shifted, and the amount or the register that holds it.
    /// `indexed` is there where the shifted register is the offset of a
    /// memory place: whether it is applied before the access, the base
    /// register, whether it is added, and whether the base is written back.
    Shifted { indexed: Option<(bool, u8, bool, bool)>, shift: (bool, u8, u8, u8) },
    /// Any other operand, and an empty slot.
    Other,
}

/// An instruction as the decoder found it.
pub struct Decoded {
    /// The number of the condition, the S flag, whether the encoding is a
    /// Thumb one, and whether it is 32 bits wide.
    pub head: (u8, bool, bool, bool),
    pub kind: InstructionKind,
    /// The four operand slots.
    pub operands: Seq<Found>,
}

/// What the decoder of `yaxpeax-arm` for ARMv7 makes of the bytes of one
/// instruction, in Thumb mode or not; nothing where it rejects them.
pub uninterp spec fn decoded(bytes: Seq<u8>, thumb: bool) -> Option<Decoded>;

/// Which of the functions below knows an instruction kind: a number from 1
/// to 17, or 0 for a kind that none of them knows.
pub open spec fn kind_group(kind: InstructionKind) -> int {
    match kind {
        InstructionKind::AND
        | InstructionKind::EOR
        | InstructionKind::SUB
        | InstructionKind::RSB
        | InstructionKind::ADD
        | InstructionKind::ADC
        | InstructionKind::SBC
        | InstructionKind::RSC
        | InstructionKind::ORR => 1,
        InstructionKind::MOV
        | InstructionKind::BIC
        | InstructionKind::MVN
        | InstructionKind::LSL
        | InstructionKind::LSR
        | InstructionKind::ASR
        | InstructionKind::RRX
        | InstructionKind::ROR
        | InstructionKind::ORN => 2,
        InstructionKind::MUL
        | InstructionKind::TST
        | InstructionKind::TEQ
        | InstructionKind::CMP
        | InstructionKind::CMN
        | InstructionKind::B
        | InstructionKind::BL
        | InstructionKind::BLX
        | InstructionKind::BX => 3,
        InstructionKind::ADR
        | InstructionKind::CBZ
        | InstructionKind::CBNZ
        | InstructionKind::TBB
        | InstructionKind::TBH
        | InstructionKind::IT
        | InstructionKind::MSR
        | InstructionKind::MRS
        | InstructionKind::NOP => 4,
        InstructionKind::LEAVEX
        | InstructionKind::BKPT
        | InstructionKind::LDR
        | InstructionKind::LDRB
        | InstructionKind::LDRBT
        | InstructionKind::LDRH
        | InstructionKind::LDRHT
        | InstructionKind::LDRSB
        | InstructionKind::LDRSBT => 5,
        InstructionKind::LDRSH
        | InstructionKind::LDRSHT
        | InstructionKind::LDRT
        | InstructionKind::STR
        | InstructionKind::STRB
        | InstructionKind::STRBT
        | InstructionKind::STRH
        | InstructionKind::STRHT
        | InstructionKind::STRT => 6,
        InstructionKind::LDRD
        | InstructionKind::STRD
        | InstructionKind::SWP
        | InstructionKind::SWPB
        | InstructionKind::LDM { .. }
        | InstructionKind::STM { .. }
        | InstructionKind::POP
        | InstructionKind::PUSH => 7,
        InstructionKind::CLZ
        | InstructionKind::RBIT
        | InstructionKind::REV
        | InstructionKind::REV16
        | InstructionKind::REVSH
        | InstructionKind::BFC
        | InstructionKind::BFI
        | InstructionKind::MOVT
        | InstructionKind::SBFX => 8,
        InstructionKind::UBFX
        | InstructionKind::PKHBT
        | InstructionKind::PKHTB
        | InstructionKind::SEL
        | InstructionKind::USAD8
        | InstructionKind::USADA8
        | InstructionKind::SXTB
        | InstructionKind::SXTB16
        | InstructionKind::SXTH => 9,
        InstructionKind::UXTB
        | InstructionKind::UXTB16
        | InstructionKind::UXTH
        | InstructionKind::SXTAB
        | InstructionKind::SXTAB16
        | InstructionKind::SXTAH
        | InstructionKind::UXTAB
        | InstructionKind::UXTAB16
        | InstructionKind::UXTAH => 10,
        InstructionKind::SADD16
        | InstructionKind::SADD8
        | InstructionKind::SASX
        | InstructionKind::SSAX
        | InstructionKind::SSUB16
        | InstructionKind::SSUB8
        | InstructionKind::UADD16
        | InstructionKind::UADD8
        | InstructionKind::UASX => 11,
        InstructionKind::USAX
        | InstructionKind::USUB16
        | InstructionKind::USUB8
        | InstructionKind::SHADD16
        | InstructionKind::SHADD8
        | InstructionKind::SHASX
        | InstructionKind::SHSAX
        | InstructionKind::SHSUB16
        | InstructionKind::SHSUB8 => 12,
        InstructionKind::UHADD16
        | InstructionKind::UHADD8
        | InstructionKind::UHASX
        | InstructionKind::UHSAX
        | InstructionKind::UHSUB16
        | InstructionKind::UHSUB8
        | InstructionKind::MLA
        | InstructionKind::MLS
        | InstructionKind::UMAAL => 13,
        InstructionKind::SMLA { .. }
        | InstructionKind::SMUL { .. }
        | InstructionKind::SMLAW { .. }
        | InstructionKind::SMULW { .. } => 14,
        InstructionKind::SMLAD { m_swap: false }
        | InstructionKind::SMLSD { m_swap: false }
        | InstructionKind::SMUAD { m_swap: false }
        | InstructionKind::SMUSD { m_swap: false } => 17,
        InstructionKind::SMMLA { round: false }
        | InstructionKind::SMMLA { round: true }
        | InstructionKind::SMMLS { round: false }
        | InstructionKind::SMMLS { round: true }
        | InstructionKind::SMMUL { round: false }
        | InstructionKind::SMULL
        | InstructionKind::UMULL => 15,
        InstructionKind::SMLAL
        | InstructionKind::UMLAL
        | InstructionKind::SMLALD { .. }
        | InstructionKind::SMLSLD { .. } => 16,
        _ => 0,
    }
}

/// Which of the functions below knows a plain operand: 1 for registers, 2
/// for values and status registers, 3 for branch offsets and status masks,
/// 4 for memory places that are indexed after the access, 5 for those
/// indexed before it, 0 for any other.
pub open spec fn plain_group(operand: Operand) -> int {
    match operand {
        Operand::Register { .. }
        | Operand::RegWBack { .. }
        | Operand::RegList { .. }
        | Operand::RegDeref { .. } => 1,
        Operand::Immediate { .. } | Operand::APSR | Operand::SPSR | Operand::CPSR => 2,
        Operand::BranchOffset { .. }
        | Operand::BranchThumbOffset { .. }
        | Operand::StatusRegMask { .. } => 3,
        Operand::RegDerefPostindexed { offset: Offset::Imm { .. }, .. }
        | Operand::RegDerefPostindexed { offset: Offset::Reg { .. }, .. } => 4,
        Operand::RegDerefPreindexed { offset: Offset::Imm { .. }, .. }
        | Operand::RegDerefPreindexed { offset: Offset::Reg { .. }, .. } => 5,
        _ => 0,
    }
}

/// The head of what was decoded.
pub open spec fn head_found(d: Option<Decoded>) -> Option<(u8, bool, bool, bool)> {
    match d {
        Some(d) => Some(d.head),
        None => None,
    }
}

/// The kind of what was decoded, where it belongs to the given group.
pub open spec fn kind_found(d: Option<Decoded>, group: int) -> Option<InstructionKind> {
    match d {
        Some(d) => if kind_group(d.kind) == group {
            Some(d.kind)
        } else {
            None
        },
        None => None,
    }
}

/// Operand `i` of what was decoded, where it is a plain one of the given
/// group.
pub open spec fn plain_found(d: Option<Decoded>, i: int, group: int) -> Option<Operand> {
    match d {
        Some(d) => match d.operands[i] {
            Found::Plain(operand) => if plain_group(operand) == group {
                Some(operand)
            } else {
                None
            },
            _ => None,
        },
        None => None,
    }
}

/// The shift by a constant in operand `i` of what was decoded, where it
/// holds one: the style, the register that is shifted, the amount.
pub open spec fn constant_shift_found(d: Option<Decoded>, i: int) -> Option<(u8, u8, u8)> {
    match d {
        Some(d) => match d.operands[i] {
            Found::Shifted { shift, .. } => if !shift.0 {
                Some((shift.1, shift.2, shift.3))
            } else {
                None
            },
            _ => None,
        },
        None => None,
    }
}

/// The shift by a register in operand `i` of what was decoded, where it
/// holds one: the style, the register that is shifted, the register that
/// holds the amount.
pub open spec fn register_shift_found(d: Option<Decoded>, i: int) -> Option<(u8, u8, u8)> {
    match d {
        Some(d) => match d.operands[i] {
            Found::Shifted { shift, .. } => if shift.0 {
                Some((shift.1, shift.2, shift.3))
            } else {
                None
            },
            _ => None,
        },
        None => None,
    }
}

/// The indexing of operand `i` of what was decoded, where it is a memory
/// place whose offset is a shifted register.
pub open spec fn indexed_found(d: Option<Decoded>, i: int) -> Option<(bool, u8, bool, bool)> {
    match d {
        Some(d) => match d.operands[i] {
            Found::Shifted { indexed, .. } => indexed,
            _ => None,
        },
        None => None,
    }
}

/// Calls `InstDecoder::decode` of `yaxpeax-arm` on a `U8Reader` over the
/// bytes and gives the condition as a number, the S flag, and the flags
/// `thumb` and `wide` of the instruction; nothing where decoding fails.
#[verifier::external_body]
fn decode_head(bytes: &[u8], thumb: bool) -> (r: Option<(u8, bool, bool, bool)>)
    ensures
        r == head_found(decoded(bytes@, thumb)),
{
    let mut decoder = armv7::InstDecoder::armv7();
    decoder.set_thumb_mode(thumb);
    let found = decoder.decode(&mut U8Reader::new(bytes)).ok()?;
    Some((found.condition as u8, found.s, found.thumb, found.wide))
}

/// Calls `InstDecoder::decode` of `yaxpeax-arm` on the bytes and tells the
/// opcodes of the logic and addition apart; nothing for any other opcode and
/// where decoding fails.
#[verifier::external_body]
fn decode_kind_1(bytes: &[u8], thumb: bool) -> (r: Option<InstructionKind>)
    ensures
        r == kind_found(decoded(bytes@, thumb), 1),
{
    let mut decoder = armv7::InstDecoder::armv7();
    decoder.set_thumb_mode(thumb);
    match decoder.decode(&mut U8Reader::new(bytes)).ok()?.opcode {
        armv7::Opcode::AND => Some(InstructionKind::AND),
        armv7::Opcode::EOR => Some(InstructionKind::EOR),
        armv7::Opcode::SUB => Some(InstructionKind::SUB),
        armv7::Opcode::RSB => Some(InstructionKind::RSB),
        armv7::Opcode::ADD => Some(InstructionKind::ADD),
        armv7::Opcode::ADC => Some(InstructionKind::ADC),
        armv7::Opcode::SBC => Some(InstructionKind::SBC),
        armv7::Opcode::RSC => Some(InstructionKind::RSC),
        armv7::Opcode::ORR => Some(InstructionKind::ORR),
        _ => None,
    }
}

/// Calls `InstDecoder::decode` of `yaxpeax-arm` on the bytes and tells the
/// opcodes of the moves and shifts apart; nothing for any other opcode and
/// where decoding fails.
#[verifier::external_body]
fn decode_kind_2(bytes: &[u8], thumb: bool) -> (r: Option<InstructionKind>)
    ensures
        r == kind_found(decoded(bytes@, thumb), 2),
{
    let mut decoder = armv7::InstDecoder::armv7();
    decoder.set_thumb_mode(thumb);
    match decoder.decode(&mut U8Reader::new(bytes)).ok()?.opcode {
        armv7::Opcode::MOV => Some(InstructionKind::MOV),
        armv7::Opcode::BIC => Some(InstructionKind::BIC),
        armv7::Opcode::MVN => Some(InstructionKind::MVN),
        armv7::Opcode::LSL => Some(InstructionKind::LSL),
        armv7::Opcode::LSR => Some(InstructionKind::LSR),
        armv7::Opcode::ASR => Some(InstructionKind::ASR),
        armv7::Opcode::RRX => Some(InstructionKind::RRX),
        armv7::Opcode::ROR => Some(InstructionKind::ROR),
        armv7::Opcode::ORN => Some(InstructionKind::ORN),
        _ => None,
    }
}

/// Calls `InstDecoder::decode` of `yaxpeax-arm` on the bytes and tells the
/// opcodes of the comparisons and jumps apart; nothing for any other opcode
/// and where decoding fails.
#[verifier::external_body]
fn decode_kind_3(bytes: &[u8], thumb: bool) -> (r: Option<InstructionKind>)
    ensures
        r == kind_found(decoded(bytes@, thumb), 3),
{
    let mut decoder = armv7::InstDecoder::armv7();
    decoder.set_thumb_mode(thumb);
    match decoder.decode(&mut U8Reader::new(bytes)).ok()?.opcode {
        armv7::Opcode::MUL => Some(InstructionKind::MUL),
        armv7::Opcode::TST => Some(InstructionKind::TST),
        armv7::Opcode::TEQ => Some(InstructionKind::TEQ),
        armv7::Opcode::CMP => Some(InstructionKind::CMP),
        armv7::Opcode::CMN => Some(InstructionKind::CMN),
        armv7::Opcode::B => Some(InstructionKind::B),
        armv7::Opcode::BL => Some(InstructionKind::BL),
        armv7::Opcode::BLX => Some(InstructionKind::BLX),
        armv7::Opcode::BX => Some(InstructionKind::BX),
        _ => None,
    }
}

/// Calls `InstDecoder::decode` of `yaxpeax-arm` on the bytes and tells the
/// opcodes of the branches on values and status moves apart; nothing for any
/// other opcode and where decoding fails.
#[verifier::external_body]
fn decode_kind_4(bytes: &[u8], thumb: bool) -> (r: Option<InstructionKind>)
    ensures
        r == kind_found(decoded(bytes@, thumb), 4),
{
    let mut decoder = armv7::InstDecoder::armv7();
    decoder.set_thumb_mode(thumb);
    match decoder.decode(&mut U8Reader::new(bytes)).ok()?.opcode {
        armv7::Opcode::ADR => Some(InstructionKind::ADR),
        armv7::Opcode::CBZ => Some(InstructionKind::CBZ),
        armv7::Opcode::CBNZ => Some(InstructionKind::CBNZ),
        armv7::Opcode::TBB => Some(InstructionKind::TBB),
        armv7::Opcode::TBH => Some(InstructionKind::TBH),
        armv7::Opcode::IT => Some(InstructionKind::IT),
        armv7::Opcode::MSR => Some(InstructionKind::MSR),
        armv7::Opcode::MRS => Some(InstructionKind::MRS),
        armv7::Opcode::NOP => Some(InstructionKind::NOP),
        _ => None,
    }
}

/// Calls `InstDecoder::decode` of `yaxpeax-arm` on the bytes and tells the
/// opcodes of the loads apart; nothing for any other opcode and where decoding
/// fails.
#[verifier::external_body]
fn decode_kind_5(bytes: &[u8], thumb: bool) -> (r: Option<InstructionKind>)
    ensures
        r == kind_found(decoded(bytes@, thumb), 5),
{
    let mut decoder = armv7::InstDecoder::armv7();
    decoder.set_thumb_mode(thumb);
    match decoder.decode(&mut U8Reader::new(bytes)).ok()?.opcode {
        armv7::Opcode::LEAVEX => Some(InstructionKind::LEAVEX),
        armv7::Opcode::BKPT => Some(InstructionKind::BKPT),
        armv7::Opcode::LDR => Some(InstructionKind::LDR),
        armv7::Opcode::LDRB => Some(InstructionKind::LDRB),
        armv7::Opcode::LDRBT => Some(InstructionKind::LDRBT),
        armv7::Opcode::LDRH => Some(InstructionKind::LDRH),
        armv7::Opcode::LDRHT => Some(InstructionKind::LDRHT),
        armv7::Opcode::LDRSB => Some(InstructionKind::LDRSB),
        armv7::Opcode::LDRSBT => Some(InstructionKind::LDRSBT),
        _ => None,
    }
}

/// Calls `InstDecoder::decode` of `yaxpeax-arm` on the bytes and tells the
/// opcodes of the loads and stores apart; nothing for any other opcode and
/// where decoding fails.
#[verifier::external_body]
fn decode_kind_6(bytes: &[u8], thumb: bool) -> (r: Option<InstructionKind>)
    ensures
        r == kind_found(decoded(bytes@, thumb), 6),
{
    let mut decoder = armv7::InstDecoder::armv7();
    decoder.set_thumb_mode(thumb);
    match decoder.decode(&mut U8Reader::new(bytes)).ok()?.opcode {
        armv7::Opcode::LDRSH => Some(InstructionKind::LDRSH),
        armv7::Opcode::LDRSHT => Some(InstructionKind::LDRSHT),
        armv7::Opcode::LDRT => Some(InstructionKind::LDRT),
        armv7::Opcode::STR => Some(InstructionKind::STR),
        armv7::Opcode::STRB => Some(InstructionKind::STRB),
        armv7::Opcode::STRBT => Some(InstructionKind::STRBT),
        armv7::Opcode::STRH => Some(InstructionKind::STRH),
        armv7::Opcode::STRHT => Some(InstructionKind::STRHT),
        armv7::Opcode::STRT => Some(InstructionKind::STRT),
        _ => None,
    }
}

/// Calls `InstDecoder::decode` of `yaxpeax-arm` on the bytes and tells the
/// opcodes of the transfers of several words apart; nothing for any other
/// opcode and where decoding fails.
#[verifier::external_body]
fn decode_kind_7(bytes: &[u8], thumb: bool) -> (r: Option<InstructionKind>)
    ensures
        r == kind_found(decoded(bytes@, thumb), 7),
{
    let mut decoder = armv7::InstDecoder::armv7();
    decoder.set_thumb_mode(thumb);
    match decoder.decode(&mut U8Reader::new(bytes)).ok()?.opcode {
        armv7::Opcode::LDRD => Some(InstructionKind::LDRD),
        armv7::Opcode::STRD => Some(InstructionKind::STRD),
        armv7::Opcode::SWP => Some(InstructionKind::SWP),
        armv7::Opcode::SWPB => Some(InstructionKind::SWPB),
        armv7::Opcode::LDM(add, pre, _, _) => Some(InstructionKind::LDM { add, pre }),
        armv7::Opcode::STM(add, pre, _, _) => Some(InstructionKind::STM { add, pre }),
        armv7::Opcode::POP => Some(InstructionKind::POP),
        armv7::Opcode::PUSH => Some(InstructionKind::PUSH),
        _ => None,
    }
}

/// Calls `InstDecoder::decode` of `yaxpeax-arm` on the bytes and tells the
/// opcodes of the bit rearrangements apart; nothing for any other opcode and
/// where decoding fails.
#[verifier::external_body]
fn decode_kind_8(bytes: &[u8], thumb: bool) -> (r: Option<InstructionKind>)
    ensures
        r == kind_found(decoded(bytes@, thumb), 8),
{
    let mut decoder = armv7::InstDecoder::armv7();
    decoder.set_thumb_mode(thumb);
    match decoder.decode(&mut U8Reader::new(bytes)).ok()?.opcode {
        armv7::Opcode::CLZ => Some(InstructionKind::CLZ),
        armv7::Opcode::RBIT => Some(InstructionKind::RBIT),
        armv7::Opcode::REV => Some(InstructionKind::REV),
        armv7::Opcode::REV16 => Some(InstructionKind::REV16),
        armv7::Opcode::REVSH => Some(InstructionKind::REVSH),
        armv7::Opcode::BFC => Some(InstructionKind::BFC),
        armv7::Opcode::BFI => Some(InstructionKind::BFI),
        armv7::Opcode::MOVT => Some(InstructionKind::MOVT),
        armv7::Opcode::SBFX => Some(InstructionKind::SBFX),
        _ => None,
    }
}

/// Calls `InstDecoder::decode` of `yaxpeax-arm` on the bytes and tells the
/// opcodes of the selections and signed extensions apart; nothing for any
/// other opcode and where decoding fails.
#[verifier::external_body]
fn decode_kind_9(bytes: &[u8], thumb: bool) -> (r: Option<InstructionKind>)
    ensures
        r == kind_found(decoded(bytes@, thumb), 9),
{
    let mut decoder = armv7::InstDecoder::armv7();
    decoder.set_thumb_mode(thumb);
    match decoder.decode(&mut U8Reader::new(bytes)).ok()?.opcode {
        armv7::Opcode::UBFX => Some(InstructionKind::UBFX),
        armv7::Opcode::PKHBT => Some(InstructionKind::PKHBT),
        armv7::Opcode::PKHTB => Some(InstructionKind::PKHTB),
        armv7::Opcode::SEL => Some(InstructionKind::SEL),
        armv7::Opcode::USAD8 => Some(InstructionKind::USAD8),
        armv7::Opcode::USADA8 => Some(InstructionKind::USADA8),
        armv7::Opcode::SXTB => Some(InstructionKind::SXTB),
        armv7::Opcode::SXTB16 => Some(InstructionKind::SXTB16),
        armv7::Opcode::SXTH => Some(InstructionKind::SXTH),
        _ => None,
    }
}

/// Calls `InstDecoder::decode` of `yaxpeax-arm` on the bytes and tells the
/// opcodes of the extensions apart; nothing for any other opcode and where
/// decoding fails.
#[verifier::external_body]
fn decode_kind_10(bytes: &[u8], thumb: bool) -> (r: Option<InstructionKind>)
    ensures
        r == kind_found(decoded(bytes@, thumb), 10),
{
    let mut decoder = armv7::InstDecoder::armv7();
    decoder.set_thumb_mode(thumb);
    match decoder.decode(&mut U8Reader::new(bytes)).ok()?.opcode {
        armv7::Opcode::UXTB => Some(InstructionKind::UXTB),
        armv7::Opcode::UXTB16 => Some(InstructionKind::UXTB16),
        armv7::Opcode::UXTH => Some(InstructionKind::UXTH),
        armv7::Opcode::SXTAB => Some(InstructionKind::SXTAB),
        armv7::Opcode::SXTAB16 => Some(InstructionKind::SXTAB16),
        armv7::Opcode::SXTAH => Some(InstructionKind::SXTAH),
        armv7::Opcode::UXTAB => Some(InstructionKind::UXTAB),
        armv7::Opcode::UXTAB16 => Some(InstructionKind::UXTAB16),
        armv7::Opcode::UXTAH => Some(InstructionKind::UXTAH),
        _ => None,
    }
}

/// Calls `InstDecoder::decode` of `yaxpeax-arm` on the bytes and tells the
/// opcodes of the lane-wise additions apart; nothing for any other opcode and
/// where decoding fails.
#[verifier::external_body]
fn decode_kind_11(bytes: &[u8], thumb: bool) -> (r: Option<InstructionKind>)
    ensures
        r == kind_found(decoded(bytes@, thumb), 11),
{
    let mut decoder = armv7::InstDecoder::armv7();
    decoder.set_thumb_mode(thumb);
    match decoder.decode(&mut U8Reader::new(bytes)).ok()?.opcode {
        armv7::Opcode::SADD16 => Some(InstructionKind::SADD16),
        armv7::Opcode::SADD8 => Some(InstructionKind::SADD8),
        armv7::Opcode::SASX => Some(InstructionKind::SASX),
        armv7::Opcode::SSAX => Some(InstructionKind::SSAX),
        armv7::Opcode::SSUB16 => Some(InstructionKind::SSUB16),
        armv7::Opcode::SSUB8 => Some(InstructionKind::SSUB8),
        armv7::Opcode::UADD16 => Some(InstructionKind::UADD16),
        armv7::Opcode::UADD8 => Some(InstructionKind::UADD8),
        armv7::Opcode::UASX => Some(InstructionKind::UASX),
        _ => None,
    }
}

/// Calls `InstDecoder::decode` of `yaxpeax-arm` on the bytes and tells the
/// opcodes of the lane-wise subtractions and halvings apart; nothing for any
/// other opcode and where decoding fails.
#[verifier::external_body]
fn decode_kind_12(bytes: &[u8], thumb: bool) -> (r: Option<InstructionKind>)
    ensures
        r == kind_found(decoded(bytes@, thumb), 12),
{
    let mut decoder = armv7::InstDecoder::armv7();
    decoder.set_thumb_mode(thumb);
    match decoder.decode(&mut U8Reader::new(bytes)).ok()?.opcode {
        armv7::Opcode::USAX => Some(InstructionKind::USAX),
        armv7::Opcode::USUB16 => Some(InstructionKind::USUB16),
        armv7::Opcode::USUB8 => Some(InstructionKind::USUB8),
        armv7::Opcode::SHADD16 => Some(InstructionKind::SHADD16),
        armv7::Opcode::SHADD8 => Some(InstructionKind::SHADD8),
        armv7::Opcode::SHASX => Some(InstructionKind::SHASX),
        armv7::Opcode::SHSAX => Some(InstructionKind::SHSAX),
        armv7::Opcode::SHSUB16 => Some(InstructionKind::SHSUB16),
        armv7::Opcode::SHSUB8 => Some(InstructionKind::SHSUB8),
        _ => None,
    }
}

/// Calls `InstDecoder::decode` of `yaxpeax-arm` on the bytes and tells the
/// opcodes of the unsigned halvings and multiplications apart; nothing for any
/// other opcode and where decoding fails.
#[verifier::external_body]
fn decode_kind_13(bytes: &[u8], thumb: bool) -> (r: Option<InstructionKind>)
    ensures
        r == kind_found(decoded(bytes@, thumb), 13),
{
    let mut decoder = armv7::InstDecoder::armv7();
    decoder.set_thumb_mode(thumb);
    match decoder.decode(&mut U8Reader::new(bytes)).ok()?.opcode {
        armv7::Opcode::UHADD16 => Some(InstructionKind::UHADD16),
        armv7::Opcode::UHADD8 => Some(InstructionKind::UHADD8),
        armv7::Opcode::UHASX => Some(InstructionKind::UHASX),
        armv7::Opcode::UHSAX => Some(InstructionKind::UHSAX),
        armv7::Opcode::UHSUB16 => Some(InstructionKind::UHSUB16),
        armv7::Opcode::UHSUB8 => Some(InstructionKind::UHSUB8),
        armv7::Opcode::MLA => Some(InstructionKind::MLA),
        armv7::Opcode::MLS => Some(InstructionKind::MLS),
        armv7::Opcode::UMAAL => Some(InstructionKind::UMAAL),
        _ => None,
    }
}

/// Calls `InstDecoder::decode` of `yaxpeax-arm` on the bytes and tells the
/// opcodes of the halfword multiplications apart; nothing for any other opcode
/// and where decoding fails.
#[verifier::external_body]
fn decode_kind_14(bytes: &[u8], thumb: bool) -> (r: Option<InstructionKind>)
    ensures
        r == kind_found(decoded(bytes@, thumb), 14),
{
    let mut decoder = armv7::InstDecoder::armv7();
    decoder.set_thumb_mode(thumb);
    match decoder.decode(&mut U8Reader::new(bytes)).ok()?.opcode {
        armv7::Opcode::SMLA(n_high, m_high) => Some(InstructionKind::SMLA { n_high, m_high }),
        armv7::Opcode::SMUL(n_high, m_high) => Some(InstructionKind::SMUL { n_high, m_high }),
        armv7::Opcode::SMLAW(m_high) => Some(InstructionKind::SMLAW { m_high }),
        armv7::Opcode::SMULW(m_high) => Some(InstructionKind::SMULW { m_high }),
        _ => None,
    }
}

/// Calls `InstDecoder::decode` of `yaxpeax-arm` on the bytes and tells the
/// opcodes of the dual multiplications apart; nothing for any other opcode and
/// where decoding fails.
#[verifier::external_body]
fn decode_kind_17(bytes: &[u8], thumb: bool) -> (r: Option<InstructionKind>)
    ensures
        r == kind_found(decoded(bytes@, thumb), 17),
{
    let mut decoder = armv7::InstDecoder::armv7();
    decoder.set_thumb_mode(thumb);
    match decoder.decode(&mut U8Reader::new(bytes)).ok()?.opcode {
        armv7::Opcode::SMLAD => Some(InstructionKind::SMLAD { m_swap: false }),
        armv7::Opcode::SMLSD => Some(InstructionKind::SMLSD { m_swap: false }),
        armv7::Opcode::SMUAD => Some(InstructionKind::SMUAD { m_swap: false }),
        armv7::Opcode::SMUSD => Some(InstructionKind::SMUSD { m_swap: false }),
        _ => None,
    }
}

/// Calls `InstDecoder::decode` of `yaxpeax-arm` on the bytes and tells the
/// opcodes of the top-word and long multiplications apart; nothing for any
/// other opcode and where decoding fails.
#[verifier::external_body]
fn decode_kind_15(bytes: &[u8], thumb: bool) -> (r: Option<InstructionKind>)
    ensures
        r == kind_found(decoded(bytes@, thumb), 15),
{
    let mut decoder = armv7::InstDecoder::armv7();
    decoder.set_thumb_mode(thumb);
    match decoder.decode(&mut U8Reader::new(bytes)).ok()?.opcode {
        armv7::Opcode::SMMLA => Some(InstructionKind::SMMLA { round: false }),
        armv7::Opcode::SMMLAR => Some(InstructionKind::SMMLA { round: true }),
        armv7::Opcode::SMMLS => Some(InstructionKind::SMMLS { round: false }),
        armv7::Opcode::SMMLSR => Some(InstructionKind::SMMLS { round: true }),
        armv7::Opcode::SMMUL => Some(InstructionKind::SMMUL { round: false }),
        armv7::Opcode::SMULL => Some(InstructionKind::SMULL),
        armv7::Opcode::UMULL => Some(InstructionKind::UMULL),
        _ => None,
    }
}

/// Calls `InstDecoder::decode` of `yaxpeax-arm` on the bytes and tells the
/// opcodes of the long accumulations apart; nothing for any other opcode and
/// where decoding fails.
#[verifier::external_body]
fn decode_kind_16(bytes: &[u8], thumb: bool) -> (r: Option<InstructionKind>)
    ensures
        r == kind_found(decoded(bytes@, thumb), 16),
{
    let mut decoder = armv7::InstDecoder::armv7();
    decoder.set_thumb_mode(thumb);
    match decoder.decode(&mut U8Reader::new(bytes)).ok()?.opcode {
        armv7::Opcode::SMLAL => Some(InstructionKind::SMLAL),
        armv7::Opcode::UMLAL => Some(InstructionKind::UMLAL),
        armv7::Opcode::SMLALD(m_swap) => Some(InstructionKind::SMLALD { m_swap }),
        armv7::Opcode::SMLSLD(m_swap) => Some(InstructionKind::SMLSLD { m_swap }),
        _ => None,
    }
}

/// Calls `InstDecoder::decode` of `yaxpeax-arm` on the bytes and gives
/// operand `i` where it is a register or a register list, with the number
/// that `Reg::number` gives for a register.
#[verifier::external_body]
fn decode_operand_1(bytes: &[u8], thumb: bool, i: usize) -> (r: Option<Operand>)
    requires
        i < 4,
    ensures
        r == plain_found(decoded(bytes@, thumb), i as int, 1),
{
    let mut decoder = armv7::InstDecoder::armv7();
    decoder.set_thumb_mode(thumb);
    match decoder.decode(&mut U8Reader::new(bytes)).ok()?.operands[i] {
        armv7::Operand::Reg(r) => Some(Operand::Register { reg_index: r.number() as usize }),
        armv7::Operand::RegWBack(r, wback) => {
            Some(Operand::RegWBack { reg_index: r.number() as usize, wback })
        },
        armv7::Operand::RegList(registers) => Some(Operand::RegList { registers }),
        armv7::Operand::RegDeref(r) => Some(Operand::RegDeref { reg_index: r.number() as usize }),
        _ => None,
    }
}

/// Calls `InstDecoder::decode` of `yaxpeax-arm` on the bytes and gives
/// operand `i` where it is an immediate, a rotation or a status register.
#[verifier::external_body]
fn decode_operand_2(bytes: &[u8], thumb: bool, i: usize) -> (r: Option<Operand>)
    requires
        i < 4,
    ensures
        r == plain_found(decoded(bytes@, thumb), i as int, 2),
{
    let mut decoder = armv7::InstDecoder::armv7();
    decoder.set_thumb_mode(thumb);
    match decoder.decode(&mut U8Reader::new(bytes)).ok()?.operands[i] {
        armv7::Operand::Imm12(value) => Some(Operand::Immediate { value: value as u32 }),
        armv7::Operand::Imm32(value) => Some(Operand::Immediate { value }),
        armv7::Operand::Ror(places) => Some(Operand::Immediate { value: places as u32 }),
        armv7::Operand::APSR => Some(Operand::APSR),
        armv7::Operand::SPSR => Some(Operand::SPSR),
        armv7::Operand::CPSR => Some(Operand::CPSR),
        _ => None,
    }
}

/// Calls `InstDecoder::decode` of `yaxpeax-arm` on the bytes and gives
/// operand `i` where it is a branch offset, with the decoder's count, or a
/// status mask, with the decoder's number.
#[verifier::external_body]
fn decode_operand_3(bytes: &[u8], thumb: bool, i: usize) -> (r: Option<Operand>)
    requires
        i < 4,
    ensures
        r == plain_found(decoded(bytes@, thumb), i as int, 3),
{
    let mut decoder = armv7::InstDecoder::armv7();
    decoder.set_thumb_mode(thumb);
    match decoder.decode(&mut U8Reader::new(bytes)).ok()?.operands[i] {
        armv7::Operand::BranchOffset(words) => Some(Operand::BranchOffset { words }),
        armv7::Operand::BranchThumbOffset(halfwords) => {
            Some(Operand::BranchThumbOffset { halfwords })
        },
        armv7::Operand::StatusRegMask(mask) => Some(Operand::StatusRegMask { mask: mask as u8 }),
        _ => None,
    }
}

/// Calls `InstDecoder::decode` of `yaxpeax-arm` on the bytes and gives
/// operand `i` where it is a memory place indexed after the access by an
/// immediate or a register.
#[verifier::external_body]
fn decode_operand_4(bytes: &[u8], thumb: bool, i: usize) -> (r: Option<Operand>)
    requires
        i < 4,
    ensures
        r == plain_found(decoded(bytes@, thumb), i as int, 4),
{
    let mut decoder = armv7::InstDecoder::armv7();
    decoder.set_thumb_mode(thumb);
    let (r, offset, add, wback) =
        match decoder.decode(&mut U8Reader::new(bytes)).ok()?.operands[i] {
            armv7::Operand::RegDerefPostindexOffset(r, value, add, wback) => {
                (r, Offset::Imm { value: value as u32 }, add, wback)
            },
            armv7::Operand::RegDerefPostindexReg(r, m, add, wback) => {
                (r, Offset::Reg { reg_index: m.number() as usize }, add, wback)
            },
            _ => return None,
        };
    Some(Operand::RegDerefPostindexed { reg_index: r.number() as usize, offset, add, wback })
}

/// Calls `InstDecoder::decode` of `yaxpeax-arm` on the bytes and gives
/// operand `i` where it is a memory place indexed before the access by an
/// immediate or a register.
#[verifier::external_body]
fn decode_operand_5(bytes: &[u8], thumb: bool, i: usize) -> (r: Option<Operand>)
    requires
        i < 4,
    ensures
        r == plain_found(decoded(bytes@, thumb), i as int, 5),
{
    let mut decoder = armv7::InstDecoder::armv7();
    decoder.set_thumb_mode(thumb);
    let (r, offset, add, wback) =
        match decoder.decode(&mut U8Reader::new(bytes)).ok()?.operands[i] {
            armv7::Operand::RegDerefPreindexOffset(r, value, add, wback) => {
                (r, Offset::Imm { value: value as u32 }, add, wback)
            },
            armv7::Operand::RegDerefPreindexReg(r, m, add, wback) => {
                (r, Offset::Reg { reg_index: m.number() as usize }, add, wback)
            },
            _ => return None,
        };
    Some(Operand::RegDerefPreindexed { reg_index: r.number() as usize, offset, add, wback })
}

/// Calls `InstDecoder::decode` of `yaxpeax-arm` on the bytes and, where
/// operand `i` holds a register shifted by a constant, `RegShift::into_shift`
/// on it: gives the shift style as a number, the number of the register
/// that is shifted, and the amount that `RegImmShift::imm` gives.
#[verifier::external_body]
fn decode_shift_constant(bytes: &[u8], thumb: bool, i: usize) -> (r: Option<(u8, u8, u8)>)
    requires
        i < 4,
    ensures
        r == constant_shift_found(decoded(bytes@, thumb), i as int),
{
    let mut decoder = armv7::InstDecoder::armv7();
    decoder.set_thumb_mode(thumb);
    let (armv7::Operand::RegShift(shift)
    | armv7::Operand::RegDerefPostindexRegShift(_, shift, _, _)
    | armv7::Operand::RegDerefPreindexRegShift(_, shift, _, _)) =
        decoder.decode(&mut U8Reader::new(bytes)).ok()?.operands[i]
    else {
        return None;
    };
    match shift.into_shift() {
        armv7::RegShiftStyle::RegImm(s) => Some((s.stype() as u8, s.shiftee().number(), s.imm())),
        _ => None,
    }
}

/// Calls `InstDecoder::decode` of `yaxpeax-arm` on the bytes and, where
/// operand `i` holds a register shifted by a register, `RegShift::into_shift`
/// on it: gives the shift style as a number, the number of the register
/// that is shifted, and the number of the register that holds the amount.
#[verifier::external_body]
fn decode_shift_register(bytes: &[u8], thumb: bool, i: usize) -> (r: Option<(u8, u8, u8)>)
    requires
        i < 4,
    ensures
        r == register_shift_found(decoded(bytes@, thumb), i as int),
{
    let mut decoder = armv7::InstDecoder::armv7();
    decoder.set_thumb_mode(thumb);
    let (armv7::Operand::RegShift(shift)
    | armv7::Operand::RegDerefPostindexRegShift(_, shift, _, _)
    | armv7::Operand::RegDerefPreindexRegShift(_, shift, _, _)) =
        decoder.decode(&mut U8Reader::new(bytes)).ok()?.operands[i]
    else {
        return None;
    };
    match shift.into_shift() {
        armv7::RegShiftStyle::RegReg(s) => {
            Some((s.stype() as u8, s.shiftee().number(), s.shifter().number()))
        },
        _ => None,
    }
}

/// Calls `InstDecoder::decode` of `yaxpeax-arm` on the bytes and, where
/// operand `i` is a memory place whose offset is a shifted register, gives
/// whether it is indexed before the access, the number of the base
/// register, whether the offset is added, and whether the base is written
/// back.
#[verifier::external_body]
fn decode_indexed(bytes: &[u8], thumb: bool, i: usize) -> (r: Option<(bool, u8, bool, bool)>)
    requires
        i < 4,
    ensures
        r == indexed_found(decoded(bytes@, thumb), i as int),
{
    let mut decoder = armv7::InstDecoder::armv7();
    decoder.set_thumb_mode(thumb);
    match decoder.decode(&mut U8Reader::new(bytes)).ok()?.operands[i] {
        armv7::Operand::RegDerefPostindexRegShift(r, _, add, wback) => {
            Some((false, r.number(), add, wback))
        },
        armv7::Operand::RegDerefPreindexRegShift(r, _, add, wback) => {
            Some((true, r.number(), add, wback))
        },
        _ => None,
    }
}

/// The shift style that a number stands for: 0 LSL, 1 LSR, 2 ASR, 3 ROR,
/// and any other RRX.
pub open spec fn style_of_number(n: u8) -> ShiftStyle {
    if n == 0 {
        ShiftStyle::LSL
    } else if n == 1 {
        ShiftStyle::LSR
    } else if n == 2 {
        ShiftStyle::ASR
    } else if n == 3 {
        ShiftStyle::ROR
    } else {
        ShiftStyle::RRX
    }
}

/// The status mask that the decoder's number stands for. The decoder has a
/// number of its own, 32, for the flags N, Z, C and V alone; a write through
/// it reaches the flags field, whose mask is 1000. Every other number is the
/// mask itself.
pub open spec fn status_mask_spec(number: u8) -> u8 {
    if number == 32 {
        0b1000
    } else {
        number
    }
}

/// Whether an instruction sets flags: its S flag says so, but a 16-bit
/// Thumb instruction inside an IT block leaves the flags alone.
pub open spec fn sets_flags_spec(s: bool, thumb: bool, wide: bool, in_it_block: bool) -> bool {
    s && !(thumb && !wide && in_it_block)
}

/// The register and the shift that the parts of a shifted register make.
pub open spec fn shift_of(parts: (bool, u8, u8, u8)) -> (usize, Shift) {
    if parts.0 {
        (
            parts.2 as usize,
            Shift::Reg { style: style_of_number(parts.1), reg_index: parts.3 as usize },
        )
    } else {
        (parts.2 as usize, Shift::Imm { style: style_of_number(parts.1), amount: parts.3 })
    }
}

/// The operand that the machine makes of one that the decoder found. A
/// plain operand is taken as it is, but for the number of a status mask. A
/// shifted register is put together from its parts. What the machine has
/// no operand for is an empty slot.
pub open spec fn operand_of(found: Found) -> Operand {
    match found {
        Found::Plain(operand) => if plain_group(operand) >= 1 {
            match operand {
                Operand::StatusRegMask { mask } => Operand::StatusRegMask {
                    mask: status_mask_spec(mask),
                },
                _ => operand,
            }
        } else {
            Operand::Nothing
        },
        Found::Shifted { indexed, shift } => match indexed {
            None => Operand::RegWithShift {
                reg_index: shift_of(shift).0,
                shift: shift_of(shift).1,
            },
            Some(place) => if place.0 {
                Operand::RegDerefPreindexed {
                    reg_index: place.1 as usize,
                    offset: Offset::RegShift {
                        reg_index: shift_of(shift).0,
                        shift: shift_of(shift).1,
                    },
                    add: place.2,
                    wback: place.3,
                }
            } else {
                Operand::RegDerefPostindexed {
                    reg_index: place.1 as usize,
                    offset: Offset::RegShift {
                        reg_index: shift_of(shift).0,
                        shift: shift_of(shift).1,
                    },
                    add: place.2,
                    wback: place.3,
                }
            },
        },
        Found::Other => Operand::Nothing,
    }
}

/// The kind that the machine makes of what the decoder found: the kind
/// itself where the machine carries it out, and else `Invalid`.
pub open spec fn kind_of(d: Decoded) -> InstructionKind {
    if kind_group(d.kind) >= 1 {
        d.kind
    } else {
        InstructionKind::Invalid
    }
}

/// The instruction that the machine makes of what the decoder found, inside
/// an IT block or outside one.
pub open spec fn instruction_of(d: Decoded, in_it_block: bool) -> Instruction {
    Instruction {
        cond: Condition::parse_spec(d.head.0),
        setflags: sets_flags_spec(d.head.1, d.head.2, d.head.3, in_it_block),
        kind: kind_of(d),
        operands: [
            operand_of(d.operands[0]),
            operand_of(d.operands[1]),
            operand_of(d.operands[2]),
            operand_of(d.operands[3]),
        ],
    }
}

/// The instruction that the bytes encode; nothing where the decoder rejects
/// them.
pub open spec fn decode_bytes_spec(bytes: Seq<u8>, thumb: bool, in_it_block: bool) -> Option<
    Instruction,
> {
    match decoded(bytes, thumb) {
        Some(d) => Some(instruction_of(d, in_it_block)),
        None => None,
    }
}

/// The shift style that a number stands for.
pub fn style_from(n: u8) -> (r: ShiftStyle)
    ensures
        r == style_of_number(n),
{
    if n == 0 {
        ShiftStyle::LSL
    } else if n == 1 {
        ShiftStyle::LSR
    } else if n == 2 {
        ShiftStyle::ASR
    } else if n == 3 {
        ShiftStyle::ROR
    } else {
        ShiftStyle::RRX
    }
}

/// The status mask that the decoder's number stands for.
pub fn status_mask(number: u8) -> (r: u8)
    ensures
        r == status_mask_spec(number),
{
    if number == 32 {
        0b1000
    } else {
        number
    }
}

/// Whether an instruction sets flags, given its S flag, its encoding and
/// whether an IT block is under way.
pub fn sets_flags(s: bool, thumb: bool, wide: bool, in_it_block: bool) -> (r: bool)
    ensures
        r == sets_flags_spec(s, thumb, wide, in_it_block),
{
    s && !(thumb && !wide && in_it_block)
}

/// The register and the shift that the parts of a shifted register make.
pub fn shift_from(parts: (bool, u8, u8, u8)) -> (r: (usize, Shift))
    ensures
        r == shift_of(parts),
{
    if parts.0 {
        (parts.2 as usize, Shift::Reg { style: style_from(parts.1), reg_index: parts.3 as usize })
    } else {
        (parts.2 as usize, Shift::Imm { style: style_from(parts.1), amount: parts.3 })
    }
}

/// Asks the decoder for the kind of the instruction, group by group.
fn kind(bytes: &[u8], thumb: bool) -> (r: InstructionKind)
    requires
        decoded(bytes@, thumb) is Some,
    ensures
        r == kind_of(decoded(bytes@, thumb)->0),
{
    if let Some(kind) = decode_kind_1(bytes, thumb) {
        return kind;
    }
    if let Some(kind) = decode_kind_2(bytes, thumb) {
        return kind;
    }
    if let Some(kind) = decode_kind_3(bytes, thumb) {
        return kind;
    }
    if let Some(kind) = decode_kind_4(bytes, thumb) {
        return kind;
    }
    if let Some(kind) = decode_kind_5(bytes, thumb) {
        return kind;
    }
    if let Some(kind) = decode_kind_6(bytes, thumb) {
        return kind;
    }
    if let Some(kind) = decode_kind_7(bytes, thumb) {
        return kind;
    }
    if let Some(kind) = decode_kind_8(bytes, thumb) {
        return kind;
    }
    if let Some(kind) = decode_kind_9(bytes, thumb) {
        return kind;
    }
    if let Some(kind) = decode_kind_10(bytes, thumb) {
        return kind;
    }
    if let Some(kind) = decode_kind_11(bytes, thumb) {
        return kind;
    }
    if let Some(kind) = decode_kind_12(bytes, thumb) {
        return kind;
    }
    if let Some(kind) = decode_kind_13(bytes, thumb) {
        return kind;
    }
    if let Some(kind) = decode_kind_14(bytes, thumb) {
        return kind;
    }
    if let Some(kind) = decode_kind_15(bytes, thumb) {
        return kind;
    }
    if let Some(kind) = decode_kind_16(bytes, thumb) {
        return kind;
    }
    if let Some(kind) = decode_kind_17(bytes, thumb) {
        return kind;
    }
    InstructionKind::Invalid
}

/// Asks the decoder for operand `i` of the instruction, group by group.
fn operand(bytes: &[u8], thumb: bool, i: usize) -> (r: Operand)
    requires
        i < 4,
        decoded(bytes@, thumb) is Some,
    ensures
        r == operand_of(decoded(bytes@, thumb)->0.operands[i as int]),
{
    if let Some(found) = decode_operand_1(bytes, thumb, i) {
        return found;
    }
    if let Some(found) = decode_operand_2(bytes, thumb, i) {
        return found;
    }
    if let Some(found) = decode_operand_3(bytes, thumb, i) {
        return match found {
            Operand::StatusRegMask { mask } => Operand::StatusRegMask { mask: status_mask(mask) },
            _ => found,
        };
    }
    if let Some(found) = decode_operand_4(bytes, thumb, i) {
        return found;
    }
    if let Some(found) = decode_operand_5(bytes, thumb, i) {
        return found;
    }
    let parts = match decode_shift_constant(bytes, thumb, i) {
        Some(parts) => (false, parts.0, parts.1, parts.2),
        None => match decode_shift_register(bytes, thumb, i) {
            Some(parts) => (true, parts.0, parts.1, parts.2),
            None => {
                return Operand::Nothing;
            },
        },
    };
    let (reg_index, shift) = shift_from(parts);
    match decode_indexed(bytes, thumb, i) {
        None => Operand::RegWithShift { reg_index, shift },
        Some(place) => {
            let offset = Offset::RegShift { reg_index, shift };
            if place.0 {
                Operand::RegDerefPreindexed {
                    reg_index: place.1 as usize,
                    offset,
                    add: place.2,
                    wback: place.3,
                }
            } else {
                Operand::RegDerefPostindexed {
                    reg_index: place.1 as usize,
                    offset,
                    add: place.2,
                    wback: place.3,
                }
            }
        },
    }
}

/// Decodes the bytes of one instruction, in Thumb mode or not, inside an IT
/// block or outside one.
pub fn decode_bytes(bytes: &[u8], thumb: bool, in_it_block: bool) -> (r: Option<Instruction>)
    ensures
        r == decode_bytes_spec(bytes@, thumb, in_it_block),
{
    let head = decode_head(bytes, thumb)?;
    Some(
        Instruction {
            cond: Condition::parse(head.0),
            setflags: sets_flags(head.1, head.2, head.3, in_it_block),
            kind: kind(bytes, thumb),
            operands: [
                operand(bytes, thumb, 0),
                operand(bytes, thumb, 1),
                operand(bytes, thumb, 2),
                operand(bytes, thumb, 3),
            ],
        },
    )
}

} // verus!
