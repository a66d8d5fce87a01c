//! The 16-bit Thumb encodings of ADC and ADD.

use crate::bits::{bit_of, field_of, view_bit, view_load};
use crate::cpu::it_of;
use crate::instruction::arm::or_else;
use crate::instruction::{
    instruction_spec, lemma_small_fields, register, unshifted, Condition, Instruction,
    InstructionKind, Operand, ParseError, Shift,
};
use crate::arithmetic::ShiftStyle;
use crate::machine::{Machine, State};
use vstd::prelude::*;

verus! {

/// A 16-bit Thumb instruction: it carries no condition of its own.
pub open spec fn thumb_instruction(
    setflags: bool,
    kind: InstructionKind,
    dest: Operand,
    operand1: Operand,
    operand2: Operand,
) -> Instruction {
    instruction_spec(Condition::AL, setflags, kind, dest, operand1, operand2)
}

/// Whether a 16-bit arithmetic instruction sets flags: outside an IT block
/// it does, inside one it does not.
pub open spec fn outside_it(s: State) -> bool {
    !(it_of(s.cpsr) % 16 != 0)
}

/// The register that a fourth bit, bit 7, and bits 2 to 0 name.
pub open spec fn wide_register(word: u32) -> u32 {
    ((if bit_of(word, 7) { 8int } else { 0int }) + field_of(word, 2, 0)) as u32
}

/// `ADCS <Rdn>, <Rm>`: 0100000101 Rm Rdn.
pub open spec fn thumb_adc_register(s: State, word: u32) -> Option<Instruction> {
    if field_of(word, 15, 6) == 0b0100000101 {
        Some(
            thumb_instruction(
                outside_it(s),
                InstructionKind::ADC,
                register(field_of(word, 2, 0)),
                register(field_of(word, 2, 0)),
                unshifted(field_of(word, 5, 3)),
            ),
        )
    } else {
        None
    }
}

/// `ADDS <Rd>, <Rn>, #<imm3>`: 0001110 imm3 Rn Rd.
pub open spec fn thumb_add_immediate3(s: State, word: u32) -> Option<Instruction> {
    if field_of(word, 15, 9) == 0b0001110 {
        Some(
            thumb_instruction(
                outside_it(s),
                InstructionKind::ADD,
                register(field_of(word, 2, 0)),
                register(field_of(word, 5, 3)),
                Operand::Immediate { value: field_of(word, 8, 6) },
            ),
        )
    } else {
        None
    }
}

/// `ADDS <Rdn>, #<imm8>`: 00110 Rdn imm8.
pub open spec fn thumb_add_immediate8(s: State, word: u32) -> Option<Instruction> {
    if field_of(word, 15, 11) == 0b00110 {
        Some(
            thumb_instruction(
                outside_it(s),
                InstructionKind::ADD,
                register(field_of(word, 10, 8)),
                register(field_of(word, 10, 8)),
                Operand::Immediate { value: field_of(word, 7, 0) },
            ),
        )
    } else {
        None
    }
}

/// `ADDS <Rd>, <Rn>, <Rm>`: 0001100 Rm Rn Rd.
pub open spec fn thumb_add_register(s: State, word: u32) -> Option<Instruction> {
    if field_of(word, 15, 9) == 0b0001100 {
        Some(
            thumb_instruction(
                outside_it(s),
                InstructionKind::ADD,
                register(field_of(word, 2, 0)),
                register(field_of(word, 5, 3)),
                unshifted(field_of(word, 8, 6)),
            ),
        )
    } else {
        None
    }
}

/// `ADD <Rdn>, <Rm>`: 01000100 DN Rm Rdn, unless either register is the SP.
pub open spec fn thumb_add_high_register(word: u32) -> Option<Instruction> {
    if field_of(word, 15, 8) == 0b01000100 && !(wide_register(word) == 13 || field_of(word, 6, 3)
        == 13) {
        Some(
            thumb_instruction(
                false,
                InstructionKind::ADD,
                register(wide_register(word)),
                register(wide_register(word)),
                unshifted(field_of(word, 6, 3)),
            ),
        )
    } else {
        None
    }
}

/// `ADD <Rd>, SP, #<imm>`: 10101 Rd imm8, the immediate counting words.
pub open spec fn thumb_add_sp_immediate(word: u32) -> Option<Instruction> {
    if field_of(word, 15, 11) == 0b10101 {
        Some(
            thumb_instruction(
                false,
                InstructionKind::ADD,
                register(field_of(word, 10, 8)),
                register(13),
                Operand::Immediate { value: (field_of(word, 7, 0) * 4) as u32 },
            ),
        )
    } else {
        None
    }
}

/// `ADD SP, SP, #<imm>`: 101100000 imm7, the immediate counting words.
pub open spec fn thumb_add_sp_sp_immediate(word: u32) -> Option<Instruction> {
    if field_of(word, 15, 7) == 0b101100000 {
        Some(
            thumb_instruction(
                false,
                InstructionKind::ADD,
                register(13),
                register(13),
                Operand::Immediate { value: (field_of(word, 6, 0) * 4) as u32 },
            ),
        )
    } else {
        None
    }
}

/// `ADD <Rdm>, SP, <Rdm>`: 01000100 DM 1101 Rdm.
pub open spec fn thumb_add_sp_register(word: u32) -> Option<Instruction> {
    if field_of(word, 15, 8) == 0b01000100 && field_of(word, 6, 3) == 0b1101 {
        Some(
            thumb_instruction(
                false,
                InstructionKind::ADD,
                register(wide_register(word)),
                register(13),
                unshifted(wide_register(word)),
            ),
        )
    } else {
        None
    }
}

/// `ADD SP, <Rm>`: 010001001 Rm 101, unless Rm is the SP.
pub open spec fn thumb_add_sp_sp_register(word: u32) -> Option<Instruction> {
    if field_of(word, 15, 7) == 0b010001001 && field_of(word, 2, 0) == 0b101 && field_of(
        word,
        6,
        3,
    ) != 13 {
        Some(
            thumb_instruction(
                false,
                InstructionKind::ADD,
                register(13),
                register(13),
                unshifted(field_of(word, 6, 3)),
            ),
        )
    } else {
        None
    }
}

/// The instruction that a Thumb halfword encodes: the first of the
/// encodings above that it matches, in the order in which they stand.
pub open spec fn parse_thumb_spec(s: State, halfword: u16) -> Result<Instruction, ParseError> {
    let word = halfword as u32;
    let found = or_else(
        thumb_adc_register(s, word),
        or_else(
            thumb_add_immediate3(s, word),
            or_else(
                thumb_add_immediate8(s, word),
                or_else(
                    thumb_add_register(s, word),
                    or_else(
                        thumb_add_high_register(word),
                        or_else(
                            thumb_add_sp_immediate(word),
                            or_else(
                                thumb_add_sp_sp_immediate(word),
                                or_else(
                                    thumb_add_sp_register(word),
                                    thumb_add_sp_sp_register(word),
                                ),
                            ),
                        ),
                    ),
                ),
            ),
        ),
    );
    match found {
        Some(instruction) => Ok(instruction),
        None => Err(ParseError::NotThumb),
    }
}

fn reg(index: u32) -> (r: Operand)
    requires
        index < 16,
    ensures
        r == register(index),
        r.wf(),
{
    Operand::Register { reg_index: index as usize }
}

fn plain(index: u32) -> (r: Operand)
    requires
        index < 16,
    ensures
        r == unshifted(index),
        r.wf(),
{
    Operand::RegWithShift {
        reg_index: index as usize,
        shift: Shift::Imm { style: ShiftStyle::LSL, amount: 0 },
    }
}

fn wide(word: u32) -> (r: u32)
    ensures
        r == wide_register(word),
        r < 16,
{
    proof {
        lemma_small_fields(word);
    }
    (if view_bit(word, 7) { 8 } else { 0 }) + view_load(word, 0, 3)
}

impl Machine {
    /// Decodes a 16-bit Thumb encoding.
    pub fn parse_thumb(&self, instruction: u16) -> (r: Result<Instruction, ParseError>)
        ensures
            r == parse_thumb_spec(self@, instruction),
            r is Ok ==> r->Ok_0.wf(),
    {
        let word = instruction as u32;
        proof {
            lemma_small_fields(word);
        }
        let al = Condition::AL;
        let flags = !self.in_it_block();
        let sp = reg(13);
        if view_load(word, 6, 16) == 0b0100000101 {
            let dn = reg(view_load(word, 0, 3));
            return Ok(
                Instruction::new(
                    al,
                    flags,
                    InstructionKind::ADC,
                    dn,
                    dn,
                    plain(view_load(word, 3, 6)),
                ),
            );
        }
        if view_load(word, 9, 16) == 0b0001110 {
            return Ok(
                Instruction::new(
                    al,
                    flags,
                    InstructionKind::ADD,
                    reg(view_load(word, 0, 3)),
                    reg(view_load(word, 3, 6)),
                    Operand::Immediate { value: view_load(word, 6, 9) },
                ),
            );
        }
        if view_load(word, 11, 16) == 0b00110 {
            let dn = reg(view_load(word, 8, 11));
            return Ok(
                Instruction::new(
                    al,
                    flags,
                    InstructionKind::ADD,
                    dn,
                    dn,
                    Operand::Immediate { value: view_load(word, 0, 8) },
                ),
            );
        }
        if view_load(word, 9, 16) == 0b0001100 {
            return Ok(
                Instruction::new(
                    al,
                    flags,
                    InstructionKind::ADD,
                    reg(view_load(word, 0, 3)),
                    reg(view_load(word, 3, 6)),
                    plain(view_load(word, 6, 9)),
                ),
            );
        }
        if view_load(word, 8, 16) == 0b01000100 {
            let d = wide(word);
            let m = view_load(word, 3, 7);
            if !(d == 0b1101 || m == 0b1101) {
                return Ok(
                    Instruction::new(al, false, InstructionKind::ADD, reg(d), reg(d), plain(m)),
                );
            }
        }
        if view_load(word, 11, 16) == 0b10101 {
            return Ok(
                Instruction::new(
                    al,
                    false,
                    InstructionKind::ADD,
                    reg(view_load(word, 8, 11)),
                    sp,
                    Operand::Immediate { value: view_load(word, 0, 8) * 4 },
                ),
            );
        }
        if view_load(word, 7, 16) == 0b101100000 {
            return Ok(
                Instruction::new(
                    al,
                    false,
                    InstructionKind::ADD,
                    sp,
                    sp,
                    Operand::Immediate { value: view_load(word, 0, 7) * 4 },
                ),
            );
        }
        if view_load(word, 8, 16) == 0b01000100 && view_load(word, 3, 7) == 0b1101 {
            let d = wide(word);
            return Ok(Instruction::new(al, false, InstructionKind::ADD, reg(d), sp, plain(d)));
        }
        if view_load(word, 7, 16) == 0b010001001 && view_load(word, 0, 3) == 0b101 {
            let m = view_load(word, 3, 7);
            if m != 0b1101 {
                return Ok(Instruction::new(al, false, InstructionKind::ADD, sp, sp, plain(m)));
            }
        }
        Err(ParseError::NotThumb)
    }
}

} // verus!
