use arm_vm::arithmetic::ShiftStyle;
use arm_vm::decoder::{decode_bytes, sets_flags, shift_from, status_mask, style_from};
use arm_vm::instruction::{Condition, InstructionKind, Offset, Operand, Shift};

const N: Operand = Operand::Nothing;

fn reg(i: usize) -> Operand {
    Operand::Register { reg_index: i }
}

fn imm(value: u32) -> Operand {
    Operand::Immediate { value }
}

fn arm(word: u32) -> (Condition, bool, InstructionKind, [Operand; 4]) {
    let i = decode_bytes(&word.to_le_bytes(), false, false).unwrap();
    (i.cond, i.setflags, i.kind, i.operands)
}

fn kind(word: u32) -> InstructionKind {
    arm(word).2
}

#[test]
fn decoder_tells_every_family_apart() {
    let table = [
        (0xe081_0002u32, InstructionKind::ADD),
        (0xe1e0_0001, InstructionKind::MVN),
        (0xe151_0002, InstructionKind::CMP),
        (0xe003_0291, InstructionKind::MUL),
        (0xe10f_0000, InstructionKind::MRS),
        (0xe5d1_0000, InstructionKind::LDRB),
        (0xe120_0070, InstructionKind::BKPT),
        (0xe1c1_00b0, InstructionKind::STRH),
        (0xe1d1_00f0, InstructionKind::LDRSH),
        (0xe102_0091, InstructionKind::SWP),
        (0xe16f_0f11, InstructionKind::CLZ),
        (0xe34a_0bcd, InstructionKind::MOVT),
        (0xe020_3291, InstructionKind::MLA),
        (0xe060_3291, InstructionKind::MLS),
        (0xe100_3281, InstructionKind::SMLA { n_high: false, m_high: false }),
        (0xe160_02e1, InstructionKind::SMUL { n_high: true, m_high: true }),
        (0xe0c1_0392, InstructionKind::SMULL),
        (0xe081_0392, InstructionKind::UMULL),
        (0xe0e1_0392, InstructionKind::SMLAL),
        (0xe0a1_0392, InstructionKind::UMLAL),
        (0xe12f_ff11, InstructionKind::BX),
        (0xe12f_ff31, InstructionKind::BLX),
        (0xeb00_0000, InstructionKind::BL),
        (0xee00_0000, InstructionKind::Invalid),
    ];
    let mut wrong = Vec::new();
    for (word, expected) in table {
        match decode_bytes(&word.to_le_bytes(), false, false) {
            Some(i) if i.kind == expected => {}
            other => wrong.push(format!("{:08x} {:?}", word, other.map(|i| i.kind))),
        }
    }
    let thumb = [
        (0xfa91_f081u32, InstructionKind::REV),
        (0xfaa1_f082, InstructionKind::SEL),
        (0xfa4f_f081, InstructionKind::SXTB),
        (0xfa5f_f081, InstructionKind::UXTB),
        (0xfa51_f082, InstructionKind::UXTAB),
        (0xfa91_f002, InstructionKind::SADD16),
        (0xfa81_f042, InstructionKind::UADD8),
        (0xfa91_f022, InstructionKind::SHADD16),
        (0xfac1_f042, InstructionKind::USUB8),
        (0xfa81_f062, InstructionKind::UHADD8),
        (0xfb51_f002, InstructionKind::SMMUL { round: false }),
        (0xfb21_f002, InstructionKind::SMUAD { m_swap: false }),
        (0xf3c1_0044, InstructionKind::UBFX),
    ];
    for (word, expected) in thumb {
        let first = ((word >> 16) as u16).to_le_bytes();
        let second = (word as u16).to_le_bytes();
        match decode_bytes(&[first[0], first[1], second[0], second[1]], true, false) {
            Some(i) if i.kind == expected => {}
            other => wrong.push(format!("{:08x} {:?}", word, other.map(|i| i.kind))),
        }
    }
    let narrow = [
        (0xbf00u16, InstructionKind::NOP),
        (0xbf08, InstructionKind::IT),
        (0xb506, InstructionKind::PUSH),
        (0xbd10, InstructionKind::POP),
        (0xb119, InstructionKind::CBZ),
        (0xba08, InstructionKind::REV),
        (0x4708, InstructionKind::BX),
    ];
    for (halfword, expected) in narrow {
        match decode_bytes(&halfword.to_le_bytes(), true, false) {
            Some(i) if i.kind == expected => {}
            other => wrong.push(format!("{:04x} {:?}", halfword, other.map(|i| i.kind))),
        }
    }
    assert_eq!(wrong, Vec::<String>::new());
}

#[test]
fn decoder_rejects_what_is_no_instruction() {
    assert!(decode_bytes(&[0xff, 0xff, 0xff, 0xff], false, false).is_none());
    assert!(decode_bytes(&[0xff, 0xff, 0xff, 0xff], true, false).is_none());
    assert!(decode_bytes(&[0xf0, 0x00, 0xf0, 0xe7], false, false).is_none());
    assert!(decode_bytes(&[], false, false).is_none());
    assert!(decode_bytes(&[0x01, 0x00, 0x80], false, false).is_none());
    assert!(decode_bytes(&[0x01], true, false).is_none());
}

#[test]
fn decoder_gives_condition_and_flags() {
    assert_eq!(arm(0xe280_0001), (Condition::AL, false, InstructionKind::ADD, [reg(0), reg(0), imm(1), N]));
    assert_eq!(arm(0x1290_0001).0, Condition::NE);
    assert!(arm(0x1290_0001).1);
    assert_eq!(arm(0xd1a0_0001).0, Condition::LE);
    let narrow = decode_bytes(&[0x01, 0x20], true, false).unwrap();
    assert!(narrow.setflags);
    let narrow = decode_bytes(&[0x01, 0x20], true, true).unwrap();
    assert!(!narrow.setflags);
    let wide = decode_bytes(&[0x11, 0xf1, 0x01, 0x02], true, true).unwrap();
    assert!(wide.setflags);
    assert_eq!(wide.kind, InstructionKind::ADD);
    assert!(sets_flags(true, false, false, true));
    assert!(sets_flags(true, true, true, true));
    assert!(!sets_flags(true, true, false, true));
    assert!(sets_flags(true, true, false, false));
    assert!(!sets_flags(false, false, false, false));
}

#[test]
fn decoder_gives_plain_operands() {
    let mut wrong = Vec::new();
    let table = [
        (
            0xe8b1_0006u32,
            InstructionKind::LDM { add: true, pre: false },
            [Operand::RegWBack { reg_index: 1, wback: true }, Operand::RegList { registers: 6 }, N, N],
        ),
        (
            0xe901_0006,
            InstructionKind::STM { add: false, pre: true },
            [Operand::RegWBack { reg_index: 1, wback: false }, Operand::RegList { registers: 6 }, N, N],
        ),
        (
            0xe102_0091,
            InstructionKind::SWP,
            [reg(0), reg(1), Operand::RegDeref { reg_index: 2 }, N],
        ),
        (0xe10f_0000, InstructionKind::MRS, [reg(0), Operand::CPSR, N, N]),
        (0xe14f_0000, InstructionKind::MRS, [reg(0), Operand::SPSR, N, N]),
        (0xeaff_fffc, InstructionKind::B, [Operand::BranchOffset { words: -2 }, N, N, N]),
        (0xea00_0000, InstructionKind::B, [Operand::BranchOffset { words: 2 }, N, N, N]),
        (
            0xe129_f000,
            InstructionKind::MSR,
            [Operand::StatusRegMask { mask: 0b1001 }, reg(0), N, N],
        ),
        (
            0xe169_f000,
            InstructionKind::MSR,
            [Operand::StatusRegMask { mask: 0b11001 }, reg(0), N, N],
        ),
    ];
    for (word, kind, operands) in table {
        let found = arm(word);
        if found.2 != kind || found.3 != operands {
            wrong.push(format!("{:08x} {:?} {:?}", word, found.2, found.3));
        }
    }
    let narrow = [
        (0xb506u16, [Operand::RegList { registers: 0x4006 }, N, N, N]),
        (0xbd10, [Operand::RegList { registers: 0x8010 }, N, N, N]),
        (0xb119, [reg(1), Operand::BranchThumbOffset { halfwords: 4 }, N, N]),
        (0xbf08, [imm(0), imm(8), N, N]),
    ];
    for (halfword, operands) in narrow {
        let found = decode_bytes(&halfword.to_le_bytes(), true, false).unwrap();
        if found.operands != operands {
            wrong.push(format!("{:04x} {:?}", halfword, found.operands));
        }
    }
    assert_eq!(wrong, Vec::<String>::new());
    assert_eq!(status_mask(32), 0b1000);
    assert_eq!(status_mask(0b1001), 0b1001);
    assert_eq!(status_mask(0b11111), 0b11111);
}

#[test]
fn decoder_gives_memory_operands() {
    let post = |offset, add| Operand::RegDerefPostindexed { reg_index: 1, offset, add, wback: false };
    let pre = |offset, add, wback| Operand::RegDerefPreindexed { reg_index: 1, offset, add, wback };
    let mut wrong = Vec::new();
    let table = [
        (0xe491_0004u32, post(Offset::Imm { value: 4 }, true)),
        (0xe411_0004, post(Offset::Imm { value: 4 }, false)),
        (0xe5b1_0004, pre(Offset::Imm { value: 4 }, true, true)),
        (0xe511_0004, pre(Offset::Imm { value: 4 }, false, false)),
        (
            0xe791_0002,
            pre(
                Offset::RegShift {
                    reg_index: 2,
                    shift: Shift::Imm { style: ShiftStyle::LSL, amount: 0 },
                },
                true,
                false,
            ),
        ),
        (
            0xe791_0102,
            pre(
                Offset::RegShift {
                    reg_index: 2,
                    shift: Shift::Imm { style: ShiftStyle::LSL, amount: 2 },
                },
                true,
                false,
            ),
        ),
        (
            0xe611_01c2,
            post(
                Offset::RegShift {
                    reg_index: 2,
                    shift: Shift::Imm { style: ShiftStyle::ASR, amount: 3 },
                },
                false,
            ),
        ),
    ];
    for (word, expected) in table {
        let found = arm(word).3[1];
        let same = match (found, expected) {
            (
                Operand::RegDerefPostindexed { reg_index: a, offset: b, add: c, .. },
                Operand::RegDerefPostindexed { reg_index: x, offset: y, add: z, .. },
            ) => a == x && b == y && c == z,
            _ => found == expected,
        };
        if !same {
            wrong.push(format!("{:08x} {:?}", word, found));
        }
    }
    let register_offset = decode_bytes(&[0x88, 0x58], true, false).unwrap();
    assert_eq!(register_offset.kind, InstructionKind::LDR);
    if register_offset.operands[1]
        != (Operand::RegDerefPreindexed {
            reg_index: 1,
            offset: Offset::Reg { reg_index: 2 },
            add: true,
            wback: false,
        })
    {
        wrong.push(format!("5888 {:?}", register_offset.operands));
    }
    assert_eq!(wrong, Vec::<String>::new());
}

#[test]
fn decoder_gives_shifted_registers() {
    let by = |style, amount| Operand::RegWithShift { reg_index: 2, shift: Shift::Imm { style, amount } };
    let mut wrong = Vec::new();
    let table = [
        (0xe081_0202u32, by(ShiftStyle::LSL, 4)),
        (0xe081_0022, by(ShiftStyle::LSR, 32)),
        (0xe081_00c2, by(ShiftStyle::ASR, 1)),
        (0xe081_0fe2, by(ShiftStyle::ROR, 31)),
        (0xe081_0062, by(ShiftStyle::RRX, 0)),
        (
            0xe081_0312,
            Operand::RegWithShift {
                reg_index: 2,
                shift: Shift::Reg { style: ShiftStyle::LSL, reg_index: 3 },
            },
        ),
        (
            0xe081_0472,
            Operand::RegWithShift {
                reg_index: 2,
                shift: Shift::Reg { style: ShiftStyle::ROR, reg_index: 4 },
            },
        ),
    ];
    for (word, expected) in table {
        let found = arm(word).3[2];
        if found != expected {
            wrong.push(format!("{:08x} {:?}", word, found));
        }
    }
    assert_eq!(wrong, Vec::<String>::new());
    assert_eq!(style_from(0), ShiftStyle::LSL);
    assert_eq!(style_from(1), ShiftStyle::LSR);
    assert_eq!(style_from(2), ShiftStyle::ASR);
    assert_eq!(style_from(3), ShiftStyle::ROR);
    assert_eq!(style_from(4), ShiftStyle::RRX);
    assert_eq!(
        shift_from((true, 1, 2, 3)),
        (2, Shift::Reg { style: ShiftStyle::LSR, reg_index: 3 })
    );
    assert_eq!(
        shift_from((false, 2, 5, 31)),
        (5, Shift::Imm { style: ShiftStyle::ASR, amount: 31 })
    );
}
