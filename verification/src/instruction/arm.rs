//! The ARM encodings of ADC and ADD.

use crate::bits::{bit_of, field_of, view_bit, view_load};
use crate::instruction::{
    arm_expand_imm_c_spec, instruction_spec, lemma_small_fields, register, Condition, Instruction,
    InstructionKind, Operand, ParseError, Shift,
};
use crate::machine::{Machine, State};
use vstd::prelude::*;

verus! {

/// The condition in the top four bits of an ARM encoding.
pub open spec fn arm_condition(word: u32) -> Condition {
    Condition::parse_spec(field_of(word, 31, 28) as u8)
}

/// The register in bits 3 to 0, shifted by the constant in bits 11 to 7 in
/// the way that bits 6 and 5 name.
pub open spec fn arm_shifted(word: u32) -> Operand {
    Operand::RegWithShift {
        reg_index: field_of(word, 3, 0) as usize,
        shift: Shift::decode_spec(field_of(word, 6, 5), field_of(word, 11, 7)),
    }
}

/// The register in bits 3 to 0, shifted by the register in bits 11 to 8 in
/// the way that bits 6 and 5 name.
pub open spec fn arm_shifted_by_register(word: u32) -> Operand {
    Operand::RegWithShift {
        reg_index: field_of(word, 3, 0) as usize,
        shift: Shift::Reg {
            style: Shift::style_of(field_of(word, 6, 5)),
            reg_index: field_of(word, 11, 8) as usize,
        },
    }
}

/// The modified immediate in bits 11 to 0, expanded.
pub open spec fn arm_immediate(s: State, word: u32) -> Operand {
    Operand::Immediate { value: arm_expand_imm_c_spec(field_of(word, 11, 0) as u16, s.c()).0 }
}

/// An ARM data-processing instruction with Rd in bits 15 to 12, the S bit in
/// bit 20 and the given first and second source.
pub open spec fn arm_instruction(
    word: u32,
    kind: InstructionKind,
    operand1: Operand,
    operand2: Operand,
) -> Instruction {
    instruction_spec(
        arm_condition(word),
        bit_of(word, 20),
        kind,
        register(field_of(word, 15, 12)),
        operand1,
        operand2,
    )
}

/// Whether an encoding names the PC as destination and sets flags, which
/// belongs to another instruction.
pub open spec fn writes_pc_with_flags(word: u32) -> bool {
    field_of(word, 15, 12) == 15 && bit_of(word, 20)
}

/// `ADC{S}<c> <Rd>, <Rn>, #<const>`: cond 0010101 S Rn Rd imm12.
pub open spec fn arm_adc_immediate(s: State, word: u32) -> Option<Instruction> {
    if field_of(word, 27, 21) == 0b0010101 && !writes_pc_with_flags(word) {
        Some(
            arm_instruction(
                word,
                InstructionKind::ADC,
                register(field_of(word, 19, 16)),
                arm_immediate(s, word),
            ),
        )
    } else {
        None
    }
}

/// `ADC{S}<c> <Rd>, <Rn>, <Rm>{, <shift>}`: cond 0000101 S Rn Rd imm5 type 0 Rm.
pub open spec fn arm_adc_register(word: u32) -> Option<Instruction> {
    if field_of(word, 27, 21) == 0b0000101 && !bit_of(word, 4) && !writes_pc_with_flags(word) {
        Some(
            arm_instruction(
                word,
                InstructionKind::ADC,
                register(field_of(word, 19, 16)),
                arm_shifted(word),
            ),
        )
    } else {
        None
    }
}

/// `ADC{S}<c> <Rd>, <Rn>, <Rm>, <type> <Rs>`: cond 0000101 S Rn Rd Rs 0 type 1 Rm.
pub open spec fn arm_adc_shifted_register(word: u32) -> Option<Instruction> {
    if field_of(word, 27, 21) == 0b0000101 && !bit_of(word, 7) && bit_of(word, 4) {
        Some(
            arm_instruction(
                word,
                InstructionKind::ADC,
                register(field_of(word, 19, 16)),
                arm_shifted_by_register(word),
            ),
        )
    } else {
        None
    }
}

/// `ADD{S}<c> <Rd>, <Rn>, #<const>`: cond 0010100 S Rn Rd imm12, unless Rn is
/// the PC without S (ADR), Rn is the SP, or Rd is the PC with S.
pub open spec fn arm_add_immediate(s: State, word: u32) -> Option<Instruction> {
    if field_of(word, 27, 21) == 0b0010100 && !(field_of(word, 19, 16) == 15 && !bit_of(word, 20)
        || field_of(word, 19, 16) == 13 || writes_pc_with_flags(word)) {
        Some(
            arm_instruction(
                word,
                InstructionKind::ADD,
                register(field_of(word, 19, 16)),
                arm_immediate(s, word),
            ),
        )
    } else {
        None
    }
}

/// `ADD{S}<c> <Rd>, <Rn>, <Rm>{, <shift>}`: cond 0000100 S Rn Rd imm5 type 0 Rm,
/// unless Rd is the PC with S or Rn is the SP.
pub open spec fn arm_add_register(word: u32) -> Option<Instruction> {
    if field_of(word, 27, 21) == 0b0000100 && !bit_of(word, 4) && !(writes_pc_with_flags(word)
        || field_of(word, 19, 16) == 13) {
        Some(
            arm_instruction(
                word,
                InstructionKind::ADD,
                register(field_of(word, 19, 16)),
                arm_shifted(word),
            ),
        )
    } else {
        None
    }
}

/// `ADD{S}<c> <Rd>, <Rn>, <Rm>, <type> <Rs>`: cond 0000100 S Rn Rd Rs 0 type 1 Rm.
pub open spec fn arm_add_shifted_register(word: u32) -> Option<Instruction> {
    if field_of(word, 27, 21) == 0b0000100 && !bit_of(word, 7) && bit_of(word, 4) {
        Some(
            arm_instruction(
                word,
                InstructionKind::ADD,
                register(field_of(word, 19, 16)),
                arm_shifted_by_register(word),
            ),
        )
    } else {
        None
    }
}

/// `ADD{S}<c> <Rd>, SP, #<const>`: cond 0010100 S 1101 Rd imm12, unless Rd is
/// the PC with S.
pub open spec fn arm_add_sp_immediate(s: State, word: u32) -> Option<Instruction> {
    if field_of(word, 27, 21) == 0b0010100 && field_of(word, 19, 16) == 13
        && !writes_pc_with_flags(word) {
        Some(arm_instruction(word, InstructionKind::ADD, register(13), arm_immediate(s, word)))
    } else {
        None
    }
}

/// `ADD{S}<c> <Rd>, SP, <Rm>{, <shift>}`: cond 0000100 S 1101 Rd imm5 type 0 Rm,
/// unless Rd is the PC with S.
pub open spec fn arm_add_sp_register(word: u32) -> Option<Instruction> {
    if field_of(word, 27, 21) == 0b0000100 && field_of(word, 19, 16) == 13 && !bit_of(word, 4)
        && !writes_pc_with_flags(word) {
        Some(arm_instruction(word, InstructionKind::ADD, register(13), arm_shifted(word)))
    } else {
        None
    }
}

/// The first of two results that is one.
pub open spec fn or_else(first: Option<Instruction>, second: Option<Instruction>) -> Option<
    Instruction,
> {
    if first is Some {
        first
    } else {
        second
    }
}

/// The instruction that an ARM word encodes: the first of the encodings
/// above that the word matches, in the order in which they stand. An
/// encoding whose exception applies does not match, and the word goes on to
/// the next. The carry flag goes into the expansion of an immediate.
pub open spec fn parse_arm_spec(s: State, word: u32) -> Result<Instruction, ParseError> {
    let found = or_else(
        arm_adc_immediate(s, word),
        or_else(
            arm_adc_register(word),
            or_else(
                arm_adc_shifted_register(word),
                or_else(
                    arm_add_immediate(s, word),
                    or_else(
                        arm_add_register(word),
                        or_else(
                            arm_add_shifted_register(word),
                            or_else(arm_add_sp_immediate(s, word), arm_add_sp_register(word)),
                        ),
                    ),
                ),
            ),
        ),
    );
    match found {
        Some(instruction) => Ok(instruction),
        None => Err(ParseError::NotArm),
    }
}

fn condition_of(word: u32) -> (r: Condition)
    ensures
        r == arm_condition(word),
{
    proof {
        lemma_small_fields(word);
    }
    Condition::parse(view_load(word, 28, 32) as u8)
}

fn shifted(word: u32) -> (r: Operand)
    ensures
        r == arm_shifted(word),
        r.wf(),
{
    proof {
        lemma_small_fields(word);
    }
    Operand::RegWithShift {
        reg_index: view_load(word, 0, 4) as usize,
        shift: Shift::decode(view_load(word, 5, 7), view_load(word, 7, 12)),
    }
}

fn shifted_by_register(word: u32) -> (r: Operand)
    ensures
        r == arm_shifted_by_register(word),
        r.wf(),
{
    proof {
        lemma_small_fields(word);
    }
    Operand::RegWithShift {
        reg_index: view_load(word, 0, 4) as usize,
        shift: Shift::decode_reg(view_load(word, 5, 7), view_load(word, 8, 12) as usize),
    }
}

fn data_processing(word: u32, kind: InstructionKind, operand1: Operand, operand2: Operand) -> (r:
    Instruction)
    requires
        operand1.wf(),
        operand2.wf(),
    ensures
        r == arm_instruction(word, kind, operand1, operand2),
        r.wf(),
{
    proof {
        lemma_small_fields(word);
    }
    Instruction::new(
        condition_of(word),
        view_bit(word, 20),
        kind,
        Operand::Register { reg_index: view_load(word, 12, 16) as usize },
        operand1,
        operand2,
    )
}

impl Machine {
    fn immediate(&self, word: u32) -> (r: Operand)
        ensures
            r == arm_immediate(self@, word),
            r.wf(),
    {
        proof {
            lemma_small_fields(word);
        }
        Operand::Immediate { value: self.arm_expand_imm(view_load(word, 0, 12) as u16) }
    }

    /// Decodes an ARM word.
    pub fn parse_arm(&self, instruction: u32) -> (r: Result<Instruction, ParseError>)
        ensures
            r == parse_arm_spec(self@, instruction),
            r is Ok ==> r->Ok_0.wf(),
    {
        let word = instruction;
        proof {
            lemma_small_fields(word);
        }
        let family = view_load(word, 21, 28);
        let d = view_load(word, 12, 16);
        let n = view_load(word, 16, 20);
        let s = view_bit(word, 20);
        let first = Operand::Register { reg_index: n as usize };
        let sp = Operand::Register { reg_index: 13 };
        if family == 0b0010101 && !(d == 0b1111 && s) {
            return Ok(data_processing(word, InstructionKind::ADC, first, self.immediate(word)));
        }
        if family == 0b0000101 && !view_bit(word, 4) && !(d == 0b1111 && s) {
            return Ok(data_processing(word, InstructionKind::ADC, first, shifted(word)));
        }
        if family == 0b0000101 && !view_bit(word, 7) && view_bit(word, 4) {
            return Ok(
                data_processing(word, InstructionKind::ADC, first, shifted_by_register(word)),
            );
        }
        if family == 0b0010100 && !(n == 0b1111 && !s || n == 0b1101 || d == 0b1111 && s) {
            return Ok(data_processing(word, InstructionKind::ADD, first, self.immediate(word)));
        }
        if family == 0b0000100 && !view_bit(word, 4) && !(d == 0b1111 && s || n == 0b1101) {
            return Ok(data_processing(word, InstructionKind::ADD, first, shifted(word)));
        }
        if family == 0b0000100 && !view_bit(word, 7) && view_bit(word, 4) {
            return Ok(
                data_processing(word, InstructionKind::ADD, first, shifted_by_register(word)),
            );
        }
        if family == 0b0010100 && n == 0b1101 && !(d == 0b1111 && s) {
            return Ok(data_processing(word, InstructionKind::ADD, sp, self.immediate(word)));
        }
        if family == 0b0000100 && n == 0b1101 && !view_bit(word, 4) && !(d == 0b1111 && s) {
            return Ok(data_processing(word, InstructionKind::ADD, sp, shifted(word)));
        }
        Err(ParseError::NotArm)
    }
}

} // verus!
