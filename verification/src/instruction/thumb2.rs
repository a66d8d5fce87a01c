//! The 32-bit Thumb encodings of ADC and ADD. The first halfword of an
//! encoding stands in the upper half of the word.

use crate::bits::{bit_of, field_of, view_bit, view_load};
use crate::instruction::arm::or_else;
use crate::instruction::{
    instruction_spec, lemma_small_fields, register, thumb_expand_imm_c_spec, Condition,
    Instruction, InstructionKind, Operand, ParseError, Shift,
};
use crate::machine::{Machine, State};
use vstd::prelude::*;

verus! {

/// The twelve bits i:imm3:imm8 that bits 26, 14 to 12 and 7 to 0 hold.
pub open spec fn thumb2_imm12(word: u32) -> u32 {
    ((if bit_of(word, 26) { 0x800int } else { 0int }) + field_of(word, 14, 12) * 0x100 + field_of(
        word,
        7,
        0,
    )) as u32
}

/// The modified immediate i:imm3:imm8, expanded.
pub open spec fn thumb2_immediate(s: State, word: u32) -> Operand {
    Operand::Immediate { value: thumb_expand_imm_c_spec(thumb2_imm12(word) as u16, s.c()).0 }
}

/// The register in bits 3 to 0, shifted by the constant imm3:imm2 in bits
/// 14 to 12 and 7 to 6 in the way that bits 5 and 4 name.
pub open spec fn thumb2_shifted(word: u32) -> Operand {
    Operand::RegWithShift {
        reg_index: field_of(word, 3, 0) as usize,
        shift: Shift::decode_spec(
            field_of(word, 5, 4),
            (field_of(word, 14, 12) * 4 + field_of(word, 7, 6)) as u32,
        ),
    }
}

/// A 32-bit Thumb data-processing instruction with Rd in bits 11 to 8.
pub open spec fn thumb2_instruction(
    word: u32,
    setflags: bool,
    kind: InstructionKind,
    operand1: Operand,
    operand2: Operand,
) -> Instruction {
    instruction_spec(
        Condition::AL,
        setflags,
        kind,
        register(field_of(word, 11, 8)),
        operand1,
        operand2,
    )
}

/// Whether an encoding names the PC as destination and sets flags, which
/// belongs to a comparison.
pub open spec fn compares(word: u32) -> bool {
    field_of(word, 11, 8) == 15 && bit_of(word, 20)
}

/// `ADC{S}<c> <Rd>, <Rn>, #<const>`: 11110 i 0 1010 S Rn 0 imm3 Rd imm8.
pub open spec fn thumb2_adc_immediate(s: State, word: u32) -> Option<Instruction> {
    if field_of(word, 31, 27) == 0b11110 && field_of(word, 25, 21) == 0b01010 && !bit_of(word, 15) {
        Some(
            thumb2_instruction(
                word,
                bit_of(word, 20),
                InstructionKind::ADC,
                register(field_of(word, 19, 16)),
                thumb2_immediate(s, word),
            ),
        )
    } else {
        None
    }
}

/// `ADC{S}<c>.W <Rd>, <Rn>, <Rm>{, <shift>}`: 11101011010 S Rn (0) imm3 Rd imm2 type Rm.
pub open spec fn thumb2_adc_register(word: u32) -> Option<Instruction> {
    if field_of(word, 31, 21) == 0b11101011010 && !bit_of(word, 15) {
        Some(
            thumb2_instruction(
                word,
                bit_of(word, 20),
                InstructionKind::ADC,
                register(field_of(word, 19, 16)),
                thumb2_shifted(word),
            ),
        )
    } else {
        None
    }
}

/// `ADD{S}<c>.W <Rd>, <Rn>, #<const>`: 11110 i 0 1000 S Rn 0 imm3 Rd imm8,
/// unless it compares or Rn is the SP.
pub open spec fn thumb2_add_immediate(s: State, word: u32) -> Option<Instruction> {
    if field_of(word, 31, 27) == 0b11110 && field_of(word, 25, 21) == 0b01000 && !bit_of(word, 15)
        && !(compares(word) || field_of(word, 19, 16) == 13) {
        Some(
            thumb2_instruction(
                word,
                bit_of(word, 20),
                InstructionKind::ADD,
                register(field_of(word, 19, 16)),
                thumb2_immediate(s, word),
            ),
        )
    } else {
        None
    }
}

/// `ADDW<c> <Rd>, <Rn>, #<imm12>`: 11110 i 1 0000 0 Rn 0 imm3 Rd imm8, unless
/// Rn is the PC or the SP.
pub open spec fn thumb2_add_wide_immediate(word: u32) -> Option<Instruction> {
    if field_of(word, 31, 27) == 0b11110 && field_of(word, 25, 20) == 0b100000 && !bit_of(
        word,
        15,
    ) && !(field_of(word, 19, 16) == 15 || field_of(word, 19, 16) == 13) {
        Some(
            thumb2_instruction(
                word,
                false,
                InstructionKind::ADD,
                register(field_of(word, 19, 16)),
                Operand::Immediate { value: thumb2_imm12(word) },
            ),
        )
    } else {
        None
    }
}

/// `ADD{S}<c>.W <Rd>, <Rn>, <Rm>{, <shift>}`: 11101011000 S Rn (0) imm3 Rd imm2
/// type Rm, unless it compares or Rn is the SP.
pub open spec fn thumb2_add_register(word: u32) -> Option<Instruction> {
    if field_of(word, 31, 21) == 0b11101011000 && !bit_of(word, 15) && !(compares(word)
        || field_of(word, 19, 16) == 13) {
        Some(
            thumb2_instruction(
                word,
                bit_of(word, 20),
                InstructionKind::ADD,
                register(field_of(word, 19, 16)),
                thumb2_shifted(word),
            ),
        )
    } else {
        None
    }
}

/// `ADD{S}<c>.W <Rd>, SP, #<const>`: 11110 i 0 1000 S 1101 0 imm3 Rd imm8,
/// unless it compares.
pub open spec fn thumb2_add_sp_immediate(s: State, word: u32) -> Option<Instruction> {
    if field_of(word, 31, 27) == 0b11110 && field_of(word, 25, 21) == 0b01000 && field_of(
        word,
        19,
        15,
    ) == 0b11010 && !compares(word) {
        Some(
            thumb2_instruction(
                word,
                bit_of(word, 20),
                InstructionKind::ADD,
                register(13),
                thumb2_immediate(s, word),
            ),
        )
    } else {
        None
    }
}

/// `ADDW<c> <Rd>, SP, #<imm12>`: 11110 i 1 0000 0 1101 0 imm3 Rd imm8.
pub open spec fn thumb2_add_sp_wide_immediate(word: u32) -> Option<Instruction> {
    if field_of(word, 31, 27) == 0b11110 && field_of(word, 25, 15) == 0b10000011010 {
        Some(
            thumb2_instruction(
                word,
                false,
                InstructionKind::ADD,
                register(13),
                Operand::Immediate { value: thumb2_imm12(word) },
            ),
        )
    } else {
        None
    }
}

/// `ADD{S}<c>.W <Rd>, SP, <Rm>{, <shift>}`: 11101011000 S 1101 (0) imm3 Rd imm2
/// type Rm, unless it compares.
pub open spec fn thumb2_add_sp_register(word: u32) -> Option<Instruction> {
    if field_of(word, 31, 21) == 0b11101011000 && field_of(word, 19, 15) == 0b11010 && !compares(
        word,
    ) {
        Some(
            thumb2_instruction(
                word,
                bit_of(word, 20),
                InstructionKind::ADD,
                register(13),
                thumb2_shifted(word),
            ),
        )
    } else {
        None
    }
}

/// The instruction that a 32-bit Thumb word encodes: the first of the
/// encodings above that it matches, in the order in which they stand.
pub open spec fn parse_thumb2_spec(s: State, word: u32) -> Result<Instruction, ParseError> {
    let found = or_else(
        thumb2_adc_immediate(s, word),
        or_else(
            thumb2_adc_register(word),
            or_else(
                thumb2_add_immediate(s, word),
                or_else(
                    thumb2_add_wide_immediate(word),
                    or_else(
                        thumb2_add_register(word),
                        or_else(
                            thumb2_add_sp_immediate(s, word),
                            or_else(
                                thumb2_add_sp_wide_immediate(word),
                                thumb2_add_sp_register(word),
                            ),
                        ),
                    ),
                ),
            ),
        ),
    );
    match found {
        Some(instruction) => Ok(instruction),
        None => Err(ParseError::NotThumb2),
    }
}

fn imm12(word: u32) -> (r: u32)
    ensures
        r == thumb2_imm12(word),
        r < 0x1000,
{
    proof {
        lemma_small_fields(word);
    }
    (if view_bit(word, 26) { 0x800 } else { 0 }) + view_load(word, 12, 15) * 0x100 + view_load(
        word,
        0,
        8,
    )
}

fn shifted(word: u32) -> (r: Operand)
    ensures
        r == thumb2_shifted(word),
        r.wf(),
{
    proof {
        lemma_small_fields(word);
    }
    Operand::RegWithShift {
        reg_index: view_load(word, 0, 4) as usize,
        shift: Shift::decode(
            view_load(word, 4, 6),
            view_load(word, 12, 15) * 4 + view_load(word, 6, 8),
        ),
    }
}

fn data_processing(
    word: u32,
    setflags: bool,
    kind: InstructionKind,
    operand1: Operand,
    operand2: Operand,
) -> (r: Instruction)
    requires
        operand1.wf(),
        operand2.wf(),
    ensures
        r == thumb2_instruction(word, setflags, kind, operand1, operand2),
        r.wf(),
{
    proof {
        lemma_small_fields(word);
    }
    Instruction::new(
        Condition::AL,
        setflags,
        kind,
        Operand::Register { reg_index: view_load(word, 8, 12) as usize },
        operand1,
        operand2,
    )
}

impl Machine {
    fn thumb2_value(&self, word: u32) -> (r: Operand)
        ensures
            r == thumb2_immediate(self@, word),
            r.wf(),
    {
        Operand::Immediate { value: self.thumb_expand_imm(imm12(word) as u16) }
    }

    /// Decodes a 32-bit Thumb encoding.
    pub fn parse_thumb2(&self, instruction: u32) -> (r: Result<Instruction, ParseError>)
        ensures
            r == parse_thumb2_spec(self@, instruction),
            r is Ok ==> r->Ok_0.wf(),
    {
        let word = instruction;
        proof {
            lemma_small_fields(word);
        }
        let top = view_load(word, 27, 32);
        let d = view_load(word, 8, 12);
        let n = view_load(word, 16, 20);
        let s = view_bit(word, 20);
        let first = Operand::Register { reg_index: n as usize };
        let sp = Operand::Register { reg_index: 13 };
        if top == 0b11110 && view_load(word, 21, 26) == 0b01010 && !view_bit(word, 15) {
            return Ok(
                data_processing(word, s, InstructionKind::ADC, first, self.thumb2_value(word)),
            );
        }
        if view_load(word, 21, 32) == 0b11101011010 && !view_bit(word, 15) {
            return Ok(data_processing(word, s, InstructionKind::ADC, first, shifted(word)));
        }
        if top == 0b11110 && view_load(word, 21, 26) == 0b01000 && !view_bit(word, 15) {
            if !(d == 0b1111 && s || n == 0b1101) {
                return Ok(
                    data_processing(word, s, InstructionKind::ADD, first, self.thumb2_value(word)),
                );
            }
        }
        if top == 0b11110 && view_load(word, 20, 26) == 0b100000 && !view_bit(word, 15) {
            if !(n == 0b1111 || n == 0b1101) {
                return Ok(
                    data_processing(
                        word,
                        false,
                        InstructionKind::ADD,
                        first,
                        Operand::Immediate { value: imm12(word) },
                    ),
                );
            }
        }
        if view_load(word, 21, 32) == 0b11101011000 && !view_bit(word, 15) {
            if !(d == 0b1111 && s || n == 0b1101) {
                return Ok(data_processing(word, s, InstructionKind::ADD, first, shifted(word)));
            }
        }
        if top == 0b11110 && view_load(word, 21, 26) == 0b01000 && view_load(word, 15, 20)
            == 0b11010 {
            if !(d == 0b1111 && s) {
                return Ok(
                    data_processing(word, s, InstructionKind::ADD, sp, self.thumb2_value(word)),
                );
            }
        }
        if top == 0b11110 && view_load(word, 15, 26) == 0b10000011010 {
            return Ok(
                data_processing(
                    word,
                    false,
                    InstructionKind::ADD,
                    sp,
                    Operand::Immediate { value: imm12(word) },
                ),
            );
        }
        if view_load(word, 21, 32) == 0b11101011000 && view_load(word, 15, 20) == 0b11010 {
            if !(d == 0b1111 && s) {
                return Ok(data_processing(word, s, InstructionKind::ADD, sp, shifted(word)));
            }
        }
        Err(ParseError::NotThumb2)
    }
}

} // verus!
