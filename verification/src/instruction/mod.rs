//! Instructions as the machine carries them out, and the decoding of the
//! encodings that this crate reads itself.

pub mod arm;
pub mod thumb;
pub mod thumb2;

use crate::arithmetic::{ror_c, rotate_right_with_carry, ShiftStyle};
use crate::bits::{field_of, view_load};
use crate::machine::Machine;
use vstd::prelude::*;

verus! {

#[derive(Clone, Copy, Debug, PartialEq, Eq, Structural)]
/// Why a decoder found no instruction: none of the encodings that it reads
/// matched.
pub enum ParseError {
    NotThumb,
    NotThumb2,
    NotArm,
}

/// How far and in which way a register operand is shifted.
#[derive(Clone, Copy, Debug, PartialEq, Eq, Structural)]
pub enum Shift {
    /// By a constant number of places.
    Imm { style: ShiftStyle, amount: u8 },
    /// By the low eight bits of a register.
    Reg { style: ShiftStyle, reg_index: usize },
}

/// What is added to or taken from the base register of a memory operand.
#[derive(Clone, Copy, Debug, PartialEq, Eq, Structural)]
pub enum Offset {
    Imm { value: u32 },
    Reg { reg_index: usize },
    RegShift { reg_index: usize, shift: Shift },
}

#[derive(Clone, Copy, Debug, PartialEq, Eq, Structural)]
/// An operand of an instruction.
pub enum Operand {
    /// An operand slot that the instruction does not use.
    Nothing,
    Immediate { value: u32 },
    Register { reg_index: usize },
    RegWithShift { reg_index: usize, shift: Shift },
    /// A base register that is written back where `wback` is set.
    RegWBack { reg_index: usize, wback: bool },
    /// A set of registers, bit `i` standing for register `i`.
    RegList { registers: u16 },
    /// A branch target, counted in words as the decoder counts it: the
    /// target lies one word less than the count beyond the PC value.
    BranchOffset { words: i32 },
    /// A branch target, counted in halfwords as the decoder counts it: the
    /// target lies one halfword less than the count beyond the PC value.
    BranchThumbOffset { halfwords: i32 },
    /// The memory at the address that a register holds.
    RegDeref { reg_index: usize },
    /// The memory at base plus or minus offset; with `wback` the base
    /// register takes that address.
    RegDerefPreindexed { reg_index: usize, offset: Offset, add: bool, wback: bool },
    /// The memory at base; with `wback` the base register then moves by the
    /// offset.
    RegDerefPostindexed { reg_index: usize, offset: Offset, add: bool, wback: bool },
    /// The fields of a status register that a write reaches: bit 3 the flags,
    /// bit 2 GE, bit 1 the extension byte, bit 0 the control byte; bit 4 set
    /// means the saved status register.
    StatusRegMask { mask: u8 },
    APSR,
    CPSR,
    SPSR,
}

#[derive(Clone, Copy, Debug, PartialEq, Eq, Structural)]
/// The condition under which an instruction is carried out.
pub enum Condition {
    EQ,
    NE,
    CS,
    CC,
    MI,
    PL,
    VS,
    VC,
    HI,
    LS,
    GE,
    LT,
    GT,
    LE,
    AL,
}

#[derive(Clone, Copy, Debug)]
/// A decoded instruction: what it does, under which condition, whether it
/// sets flags, and up to four operands.
pub struct Instruction {
    pub cond: Condition,
    pub setflags: bool,
    pub kind: InstructionKind,
    pub operands: [Operand; 4],
}

#[derive(Clone, Copy, Debug, PartialEq, Eq, Structural)]
/// What an instruction does.
pub enum InstructionKind {
    ADC,
    ADD,
    ADR,
    AND,
    ASR,
    B,
    BFC,
    BFI,
    BIC,
    BKPT,
    BL,
    BLX,
    BX,
    BXJ,
    CBNZ,
    CBZ,
    CDP,
    CLREX,
    CLZ,
    CMN,
    CMP,
    CPS,
    CSDB,
    DBG,
    DMB,
    DSB,
    ENTERX,
    EOR,
    ERET,
    HINT,
    HVC,
    ISB,
    IT,
    Invalid,
    LDC,
    /// Load multiple: upwards where `add`, the address stepped before each
    /// load where `pre`.
    LDM { add: bool, pre: bool },
    LDR,
    LDRB,
    LDRBT,
    LDRD,
    LDREX,
    LDRH,
    LDRHT,
    LDRSB,
    LDRSBT,
    LDRSH,
    LDRSHT,
    LDRT,
    LEAVEX,
    LSL,
    LSR,
    MCR,
    MCRR,
    MLA,
    MLS,
    MOV,
    MOVT,
    MRC,
    MRRC,
    MRS,
    MSR,
    MUL,
    MVN,
    NOP,
    ORN,
    ORR,
    PKHBT,
    PKHTB,
    PLD,
    PLI,
    POP,
    PUSH,
    QADD,
    QADD16,
    QADD8,
    QASX,
    QDADD,
    QDSUB,
    QSAX,
    QSUB,
    QSUB16,
    QSUB8,
    RBIT,
    REV,
    REV16,
    REVSH,
    RFE,
    ROR,
    RRX,
    RSB,
    RSC,
    SADD16,
    SADD8,
    SASX,
    SBC,
    SBFX,
    SDIV,
    SEL,
    SETEND,
    SEV,
    SHADD16,
    SHADD8,
    SHASX,
    SHSAX,
    SHSUB16,
    SHSUB8,
    SMC,
    /// Signed multiply accumulate of two halfwords, the top ones where set.
    SMLA { n_high: bool, m_high: bool },
    SMLAD { m_swap: bool },
    SMLAL,
    SMLALD { m_swap: bool },
    SMLAW { m_high: bool },
    SMLSD { m_swap: bool },
    SMLSLD { m_swap: bool },
    SMMLA { round: bool },
    SMMLS { round: bool },
    SMMUL { round: bool },
    SMUAD { m_swap: bool },
    SMUL { n_high: bool, m_high: bool },
    SMULL,
    SMULW { m_high: bool },
    SMUSD { m_swap: bool },
    SRS,
    SSAT,
    SSAT16,
    SSAX,
    SSUB16,
    SSUB8,
    STC,
    /// Store multiple, with `add` and `pre` as for a load.
    STM { add: bool, pre: bool },
    STR,
    STRB,
    STRBT,
    STRD,
    STREX,
    STRH,
    STRHT,
    STRT,
    SUB,
    SVC,
    SWP,
    SWPB,
    SXTAB,
    SXTAB16,
    SXTAH,
    SXTB,
    SXTB16,
    SXTH,
    TBB,
    TBH,
    TEQ,
    TST,
    UADD16,
    UADD8,
    UASX,
    UBFX,
    UDF,
    UDIV,
    UHADD16,
    UHADD8,
    UHASX,
    UHSAX,
    UHSUB16,
    UHSUB8,
    UMAAL,
    UMLAL,
    UMULL,
    UQADD16,
    UQADD8,
    UQASX,
    UQSAX,
    UQSUB16,
    UQSUB8,
    USAD8,
    USADA8,
    USAT,
    USAT16,
    USAX,
    USUB16,
    USUB8,
    UXTAB,
    UXTAB16,
    UXTAH,
    UXTB,
    UXTB16,
    UXTH,
    WFE,
    WFI,
    YIELD,
}

impl Shift {
    /// Whether the register that a shift names exists.
    pub open spec fn wf(self) -> bool {
        match self {
            Shift::Imm { .. } => true,
            Shift::Reg { reg_index, .. } => reg_index < 16,
        }
    }

    /// Whether every register that is named exists.
    pub fn is_wf(&self) -> (r: bool)
        ensures
            r == self.wf(),
    {
        match self {
            Shift::Imm { .. } => true,
            Shift::Reg { reg_index, .. } => *reg_index < 16,
        }
    }

    /// A constant shift as the two type bits and the five amount bits of an
    /// encoding give it: an amount of zero stands for 32 in the two right
    /// shifts and for rotate right with extend in a rotation.
    pub open spec fn decode_spec(kind: u32, imm5: u32) -> Shift {
        if kind == 0 {
            Shift::Imm { style: ShiftStyle::LSL, amount: imm5 as u8 }
        } else if kind == 1 {
            Shift::Imm { style: ShiftStyle::LSR, amount: if imm5 == 0 { 32u8 } else { imm5 as u8 } }
        } else if kind == 2 {
            Shift::Imm { style: ShiftStyle::ASR, amount: if imm5 == 0 { 32u8 } else { imm5 as u8 } }
        } else if imm5 == 0 {
            Shift::Imm { style: ShiftStyle::RRX, amount: 1 }
        } else {
            Shift::Imm { style: ShiftStyle::ROR, amount: imm5 as u8 }
        }
    }

    /// Decodes a constant shift.
    pub fn decode(kind: u32, imm5: u32) -> (r: Shift)
        requires
            kind < 4,
            imm5 < 32,
        ensures
            r == Shift::decode_spec(kind, imm5),
    {
        if kind == 0 {
            Shift::Imm { style: ShiftStyle::LSL, amount: imm5 as u8 }
        } else if kind == 1 {
            Shift::Imm { style: ShiftStyle::LSR, amount: if imm5 == 0 { 32u8 } else { imm5 as u8 } }
        } else if kind == 2 {
            Shift::Imm { style: ShiftStyle::ASR, amount: if imm5 == 0 { 32u8 } else { imm5 as u8 } }
        } else if imm5 == 0 {
            Shift::Imm { style: ShiftStyle::RRX, amount: 1 }
        } else {
            Shift::Imm { style: ShiftStyle::ROR, amount: imm5 as u8 }
        }
    }

    /// The style that two type bits stand for.
    pub open spec fn style_of(kind: u32) -> ShiftStyle {
        if kind == 0 {
            ShiftStyle::LSL
        } else if kind == 1 {
            ShiftStyle::LSR
        } else if kind == 2 {
            ShiftStyle::ASR
        } else {
            ShiftStyle::ROR
        }
    }

    /// A shift by a register as the two type bits of an encoding give it.
    pub fn decode_reg(kind: u32, reg_index: usize) -> (r: Shift)
        requires
            kind < 4,
        ensures
            r == (Shift::Reg { style: Shift::style_of(kind), reg_index }),
    {
        let style = if kind == 0 {
            ShiftStyle::LSL
        } else if kind == 1 {
            ShiftStyle::LSR
        } else if kind == 2 {
            ShiftStyle::ASR
        } else {
            ShiftStyle::ROR
        };
        Shift::Reg { style, reg_index }
    }
}

impl Offset {
    /// Whether every register that the offset names exists.
    pub open spec fn wf(self) -> bool {
        match self {
            Offset::Imm { .. } => true,
            Offset::Reg { reg_index } => reg_index < 16,
            Offset::RegShift { reg_index, shift } => reg_index < 16 && shift.wf(),
        }
    }

    /// Whether every register that is named exists.
    pub fn is_wf(&self) -> (r: bool)
        ensures
            r == self.wf(),
    {
        match self {
            Offset::Imm { .. } => true,
            Offset::Reg { reg_index } => *reg_index < 16,
            Offset::RegShift { reg_index, shift } => *reg_index < 16 && shift.is_wf(),
        }
    }
}

impl Operand {
    /// Whether every register that the operand names exists.
    pub open spec fn wf(self) -> bool {
        match self {
            Operand::Register { reg_index } => reg_index < 16,
            Operand::RegWithShift { reg_index, shift } => reg_index < 16 && shift.wf(),
            Operand::RegWBack { reg_index, .. } => reg_index < 16,
            Operand::RegDeref { reg_index } => reg_index < 16,
            Operand::RegDerefPreindexed { reg_index, offset, .. } => reg_index < 16 && offset.wf(),
            Operand::RegDerefPostindexed { reg_index, offset, .. } => reg_index < 16 && offset.wf(),
            _ => true,
        }
    }

    /// Whether every register that is named exists.
    pub fn is_wf(&self) -> (r: bool)
        ensures
            r == self.wf(),
    {
        match self {
            Operand::Register { reg_index } => *reg_index < 16,
            Operand::RegWithShift { reg_index, shift } => *reg_index < 16 && shift.is_wf(),
            Operand::RegWBack { reg_index, .. } => *reg_index < 16,
            Operand::RegDeref { reg_index } => *reg_index < 16,
            Operand::RegDerefPreindexed { reg_index, offset, .. } => *reg_index < 16
                && offset.is_wf(),
            Operand::RegDerefPostindexed { reg_index, offset, .. } => *reg_index < 16
                && offset.is_wf(),
            _ => true,
        }
    }
}

impl Instruction {
    /// Whether every register that the instruction names exists.
    pub open spec fn wf(self) -> bool {
        self.operands@[0].wf() && self.operands@[1].wf() && self.operands@[2].wf()
            && self.operands@[3].wf()
    }

    /// Whether every register that is named exists.
    pub fn is_wf(&self) -> (r: bool)
        ensures
            r == self.wf(),
    {
        self.operands[0].is_wf() && self.operands[1].is_wf() && self.operands[2].is_wf()
            && self.operands[3].is_wf()
    }
}

impl Condition {
    /// The condition that four bits of an encoding stand for. Both 1110 and
    /// 1111 stand for always.
    pub open spec fn parse_spec(cond: u8) -> Condition {
        if cond == 0 {
            Condition::EQ
        } else if cond == 1 {
            Condition::NE
        } else if cond == 2 {
            Condition::CS
        } else if cond == 3 {
            Condition::CC
        } else if cond == 4 {
            Condition::MI
        } else if cond == 5 {
            Condition::PL
        } else if cond == 6 {
            Condition::VS
        } else if cond == 7 {
            Condition::VC
        } else if cond == 8 {
            Condition::HI
        } else if cond == 9 {
            Condition::LS
        } else if cond == 10 {
            Condition::GE
        } else if cond == 11 {
            Condition::LT
        } else if cond == 12 {
            Condition::GT
        } else if cond == 13 {
            Condition::LE
        } else {
            Condition::AL
        }
    }

    /// The four bits that stand for the condition.
    pub open spec fn code_spec(self) -> u8 {
        match self {
            Condition::EQ => 0,
            Condition::NE => 1,
            Condition::CS => 2,
            Condition::CC => 3,
            Condition::MI => 4,
            Condition::PL => 5,
            Condition::VS => 6,
            Condition::VC => 7,
            Condition::HI => 8,
            Condition::LS => 9,
            Condition::GE => 10,
            Condition::LT => 11,
            Condition::GT => 12,
            Condition::LE => 13,
            Condition::AL => 14,
        }
    }

    /// The condition that four bits of an encoding stand for.
    pub fn parse(cond: u8) -> (r: Condition)
        ensures
            r == Condition::parse_spec(cond),
            cond < 15 ==> r.code_spec() == cond,
    {
        match cond {
            0b0000 => Condition::EQ,
            0b0001 => Condition::NE,
            0b0010 => Condition::CS,
            0b0011 => Condition::CC,
            0b0100 => Condition::MI,
            0b0101 => Condition::PL,
            0b0110 => Condition::VS,
            0b0111 => Condition::VC,
            0b1000 => Condition::HI,
            0b1001 => Condition::LS,
            0b1010 => Condition::GE,
            0b1011 => Condition::LT,
            0b1100 => Condition::GT,
            0b1101 => Condition::LE,
            _ => Condition::AL,
        }
    }

    /// The four bits that stand for the condition.
    pub fn code(&self) -> (r: u8)
        ensures
            r == self.code_spec(),
            r < 15,
            Condition::parse_spec(r) == *self,
    {
        match self {
            Condition::EQ => 0,
            Condition::NE => 1,
            Condition::CS => 2,
            Condition::CC => 3,
            Condition::MI => 4,
            Condition::PL => 5,
            Condition::VS => 6,
            Condition::VC => 7,
            Condition::HI => 8,
            Condition::LS => 9,
            Condition::GE => 10,
            Condition::LT => 11,
            Condition::GT => 12,
            Condition::LE => 13,
            Condition::AL => 14,
        }
    }
}

/// The expansion of a modified immediate of an ARM encoding: the low eight
/// bits rotated right by twice the value of the high four, with the carry
/// that the rotation puts out. A rotation by zero leaves the carry as it is.
pub open spec fn arm_expand_imm_c_spec(imm12: u16, carry_in: bool) -> (u32, bool) {
    ror_c(field_of(imm12 as u32, 7, 0), (2 * field_of(imm12 as u32, 11, 8)) as u32, carry_in)
}

/// The expansion of a modified immediate of a Thumb encoding. With the top
/// two bits zero, the next two pick a pattern of the low eight bits XY:
/// 000000XY, 00XY00XY, XY00XY00 or XYXYXYXY, and the carry stays. Otherwise
/// the low seven bits under a leading one are rotated right by the value of
/// the top five bits, with the carry that the rotation puts out.
pub open spec fn thumb_expand_imm_c_spec(imm12: u16, carry_in: bool) -> (u32, bool) {
    let imm8 = field_of(imm12 as u32, 7, 0);
    if field_of(imm12 as u32, 11, 10) == 0 {
        let pattern = field_of(imm12 as u32, 9, 8);
        (
            if pattern == 0 {
                imm8
            } else if pattern == 1 {
                (imm8 << 16) | imm8
            } else if pattern == 2 {
                (imm8 << 24) | (imm8 << 8)
            } else {
                (imm8 << 24) | (imm8 << 16) | (imm8 << 8) | imm8
            },
            carry_in,
        )
    } else {
        ror_c((1u32 << 7) | field_of(imm12 as u32, 6, 0), field_of(imm12 as u32, 11, 7), carry_in)
    }
}

/// An instruction with three operands.
pub open spec fn instruction_spec(
    cond: Condition,
    setflags: bool,
    kind: InstructionKind,
    dest: Operand,
    operand1: Operand,
    operand2: Operand,
) -> Instruction {
    Instruction { cond, setflags, kind, operands: [dest, operand1, operand2, Operand::Nothing] }
}

/// A register operand.
pub open spec fn register(reg_index: u32) -> Operand {
    Operand::Register { reg_index: reg_index as usize }
}

/// A register operand that is not shifted.
pub open spec fn unshifted(reg_index: u32) -> Operand {
    Operand::RegWithShift {
        reg_index: reg_index as usize,
        shift: Shift::Imm { style: ShiftStyle::LSL, amount: 0 },
    }
}

impl Instruction {
    /// An instruction with three operands.
    pub fn new(
        cond: Condition,
        setflags: bool,
        kind: InstructionKind,
        dest: Operand,
        operand1: Operand,
        operand2: Operand,
    ) -> (r: Instruction)
        ensures
            r == instruction_spec(cond, setflags, kind, dest, operand1, operand2),
    {
        Instruction { cond, setflags, kind, operands: [dest, operand1, operand2, Operand::Nothing] }
    }
}

impl Machine {
    /// Expands a modified immediate of a Thumb encoding.
    pub fn thumb_expand_imm(&self, imm12: u16) -> (r: u32)
        ensures
            r == thumb_expand_imm_c_spec(imm12, self@.c()).0,
    {
        self.thumb_expand_imm_c(imm12, self.cpu.apsr().c()).0
    }

    /// Expands a modified immediate of a Thumb encoding, with the carry.
    pub fn thumb_expand_imm_c(&self, imm12: u16, carry_in: bool) -> (r: (u32, bool))
        ensures
            r == thumb_expand_imm_c_spec(imm12, carry_in),
    {
        let imm12 = imm12 as u32;
        let imm0_7 = view_load(imm12, 0, 8);
        if view_load(imm12, 10, 12) == 0 {
            let pattern = view_load(imm12, 8, 10);
            let imm32 = if pattern == 0 {
                imm0_7
            } else if pattern == 1 {
                (imm0_7 << 16) | imm0_7
            } else if pattern == 2 {
                (imm0_7 << 24) | (imm0_7 << 8)
            } else {
                (imm0_7 << 24) | (imm0_7 << 16) | (imm0_7 << 8) | imm0_7
            };
            (imm32, carry_in)
        } else {
            let unrotated_value = (1u32 << 7) | view_load(imm12, 0, 7);
            rotate_right_with_carry(unrotated_value, view_load(imm12, 7, 12), carry_in)
        }
    }

    /// Expands a modified immediate of an ARM encoding.
    pub fn arm_expand_imm(&self, imm12: u16) -> (r: u32)
        ensures
            r == arm_expand_imm_c_spec(imm12, self@.c()).0,
    {
        self.arm_expand_imm_c(imm12, self.cpu.apsr().c()).0
    }

    /// Expands a modified immediate of an ARM encoding, with the carry.
    pub fn arm_expand_imm_c(&self, imm12: u16, carry_in: bool) -> (r: (u32, bool))
        ensures
            r == arm_expand_imm_c_spec(imm12, carry_in),
    {
        let imm12 = imm12 as u32;
        let unrotated_value = view_load(imm12, 0, 8);
        proof {
            lemma_small_fields(imm12);
        }
        rotate_right_with_carry(unrotated_value, 2 * view_load(imm12, 8, 12), carry_in)
    }
}

/// How large the fields of an encoding can be.
pub proof fn lemma_small_fields(word: u32)
    by (bit_vector)
    ensures
        field_of(word, 31, 28) < 16,
        field_of(word, 19, 16) < 16,
        field_of(word, 15, 12) < 16,
        field_of(word, 11, 8) < 16,
        field_of(word, 6, 3) < 16,
        field_of(word, 3, 0) < 16,
        field_of(word, 14, 12) < 8,
        field_of(word, 10, 8) < 8,
        field_of(word, 8, 6) < 8,
        field_of(word, 5, 3) < 8,
        field_of(word, 2, 0) < 8,
        field_of(word, 7, 6) < 4,
        field_of(word, 6, 5) < 4,
        field_of(word, 5, 4) < 4,
        field_of(word, 11, 7) < 32,
        field_of(word, 11, 0) < 0x1000,
        field_of(word, 7, 0) < 0x100,
        field_of(word, 6, 0) < 0x80,
{
}

} // verus!
