use arm_vm::arithmetic::ShiftStyle;
use arm_vm::cpu::InstrSet;
use arm_vm::instruction::{Condition, Instruction, InstructionKind, Offset, Operand, Shift};
use arm_vm::machine::Machine;
use arm_vm::vmerror::VMError;

const N: Operand = Operand::Nothing;

fn reg(i: usize) -> Operand {
    Operand::Register { reg_index: i }
}

fn imm(value: u32) -> Operand {
    Operand::Immediate { value }
}

fn shifted(i: usize, style: ShiftStyle, amount: u8) -> Operand {
    Operand::RegWithShift { reg_index: i, shift: Shift::Imm { style, amount } }
}

fn inst(kind: InstructionKind, operands: [Operand; 4]) -> Instruction {
    Instruction { cond: Condition::AL, setflags: false, kind, operands }
}

fn insts(kind: InstructionKind, operands: [Operand; 4]) -> Instruction {
    Instruction { cond: Condition::AL, setflags: true, kind, operands }
}

fn machine(regs: &[(usize, u32)]) -> Machine {
    let mut m = Machine::default();
    for (i, v) in regs {
        m.cpu.regs[*i] = *v;
    }
    m
}

/// Runs `kind r0, r1, r2` on the given values of r1 and r2 and gives r0.
fn three(kind: InstructionKind, n: u32, m: u32) -> (u32, Machine) {
    let mut machine = machine(&[(1, n), (2, m)]);
    assert_eq!(machine.execute(inst(kind, [reg(0), reg(1), reg(2), N])), Ok(()));
    (machine.cpu.regs[0], machine)
}

/// Runs `kind r0, r1, r2, r3` on the given values of r1, r2 and r3.
fn four(kind: InstructionKind, n: u32, m: u32, a: u32) -> (u32, Machine) {
    let mut machine = machine(&[(1, n), (2, m), (3, a)]);
    assert_eq!(machine.execute(inst(kind, [reg(0), reg(1), reg(2), reg(3)])), Ok(()));
    (machine.cpu.regs[0], machine)
}

#[test]
fn addition_and_subtraction() {
    assert_eq!(three(InstructionKind::ADD, 2, 3).0, 5);
    assert_eq!(three(InstructionKind::ADD, 0xffff_ffff, 2).0, 1);
    assert_eq!(three(InstructionKind::SUB, 5, 3).0, 2);
    assert_eq!(three(InstructionKind::SUB, 3, 5).0, 0xffff_fffe);
    assert_eq!(three(InstructionKind::RSB, 3, 10).0, 7);
    assert_eq!(three(InstructionKind::ADC, 1, 2).0, 3);
    assert_eq!(three(InstructionKind::SBC, 5, 3).0, 1);
    assert_eq!(three(InstructionKind::RSC, 3, 10).0, 6);
    let mut m = machine(&[(1, 1), (2, 2)]);
    m.cpu.cpsr.set_c(true);
    assert_eq!(m.execute(inst(InstructionKind::ADC, [reg(0), reg(1), reg(2), N])), Ok(()));
    assert_eq!(m.cpu.regs[0], 4);
    assert_eq!(m.execute(inst(InstructionKind::SBC, [reg(0), reg(2), reg(1), N])), Ok(()));
    assert_eq!(m.cpu.regs[0], 1);
    assert_eq!(m.execute(inst(InstructionKind::RSC, [reg(0), reg(1), reg(2), N])), Ok(()));
    assert_eq!(m.cpu.regs[0], 1);
    assert_eq!(m.cpu.cpsr.0, 0x2000_01d3);
}

#[test]
fn subtraction_flags() {
    let mut m = machine(&[(1, 5), (2, 3)]);
    assert_eq!(m.execute(insts(InstructionKind::SUB, [reg(0), reg(1), reg(2), N])), Ok(()));
    assert_eq!((m.cpu.regs[0], m.cpu.cpsr.0), (2, 0x2000_01d3));
    assert_eq!(m.execute(insts(InstructionKind::SUB, [reg(0), reg(2), reg(1), N])), Ok(()));
    assert_eq!((m.cpu.regs[0], m.cpu.cpsr.0), (0xffff_fffe, 0x8000_01d3));
    assert_eq!(m.execute(insts(InstructionKind::SUB, [reg(0), reg(1), reg(1), N])), Ok(()));
    assert_eq!((m.cpu.regs[0], m.cpu.cpsr.0), (0, 0x6000_01d3));
    let mut m = machine(&[(1, 0x8000_0000), (2, 1)]);
    assert_eq!(m.execute(insts(InstructionKind::SUB, [reg(0), reg(1), reg(2), N])), Ok(()));
    assert_eq!((m.cpu.regs[0], m.cpu.cpsr.0), (0x7fff_ffff, 0x3000_01d3));
}

#[test]
fn logical_operations() {
    let (n, m) = (0xf0f0_f0f0, 0x0ff0_0ff0);
    assert_eq!(three(InstructionKind::AND, n, m).0, 0x00f0_00f0);
    assert_eq!(three(InstructionKind::EOR, n, m).0, 0xff00_ff00);
    assert_eq!(three(InstructionKind::ORR, n, m).0, 0xfff0_fff0);
    assert_eq!(three(InstructionKind::BIC, n, m).0, 0xf000_f000);
    assert_eq!(three(InstructionKind::ORN, n, m).0, 0xf0ff_f0ff);
    let mut machine = machine(&[(2, m)]);
    assert_eq!(machine.execute(inst(InstructionKind::MOV, [reg(0), reg(2), N, N])), Ok(()));
    assert_eq!(machine.cpu.regs[0], m);
    assert_eq!(machine.execute(inst(InstructionKind::MVN, [reg(0), reg(2), N, N])), Ok(()));
    assert_eq!(machine.cpu.regs[0], 0xf00f_f00f);
    assert_eq!(machine.cpu.cpsr.0, 0x1d3);
}

#[test]
fn logical_flags_take_the_shifter_carry() {
    let mut m = machine(&[(1, 0xffff_ffff), (2, 0x8000_0001)]);
    let and = insts(InstructionKind::AND, [reg(0), reg(1), shifted(2, ShiftStyle::LSL, 1), N]);
    assert_eq!(m.execute(and), Ok(()));
    assert_eq!((m.cpu.regs[0], m.cpu.cpsr.0), (2, 0x2000_01d3));
    assert_eq!(m.execute(insts(InstructionKind::AND, [reg(0), reg(1), imm(0), N])), Ok(()));
    assert_eq!((m.cpu.regs[0], m.cpu.cpsr.0), (0, 0x6000_01d3));
    let mvn = insts(InstructionKind::MVN, [reg(0), shifted(2, ShiftStyle::LSR, 2), N, N]);
    assert_eq!(m.execute(mvn), Ok(()));
    assert_eq!((m.cpu.regs[0], m.cpu.cpsr.0), (0xdfff_ffff, 0x8000_01d3));
    m.cpu.cpsr.set_v(true);
    assert_eq!(m.execute(insts(InstructionKind::MOV, [reg(0), imm(0), N, N])), Ok(()));
    assert_eq!((m.cpu.regs[0], m.cpu.cpsr.0), (0, 0x5000_01d3));
}

#[test]
fn two_operand_form_uses_the_first_as_source() {
    let mut m = machine(&[(1, 7), (2, 3)]);
    assert_eq!(m.execute(inst(InstructionKind::ADD, [reg(1), reg(2), N, N])), Ok(()));
    assert_eq!(m.cpu.regs[1], 10);
    assert_eq!(m.execute(inst(InstructionKind::SUB, [reg(1), imm(4), N, N])), Ok(()));
    assert_eq!(m.cpu.regs[1], 6);
}

#[test]
fn shift_instructions() {
    assert_eq!(three(InstructionKind::LSL, 1, 0x104).0, 16);
    assert_eq!(three(InstructionKind::LSR, 0x80, 4).0, 8);
    assert_eq!(three(InstructionKind::ASR, 0x8000_0000, 4).0, 0xf800_0000);
    assert_eq!(three(InstructionKind::ROR, 0xf, 4).0, 0xf000_0000);
    assert_eq!(three(InstructionKind::LSL, 1, 32).0, 0);
    assert_eq!(three(InstructionKind::LSL, 1, 0x100).0, 1);
    let mut m = machine(&[(1, 1), (2, 32)]);
    assert_eq!(m.execute(insts(InstructionKind::LSL, [reg(0), reg(1), reg(2), N])), Ok(()));
    assert_eq!((m.cpu.regs[0], m.cpu.cpsr.0), (0, 0x6000_01d3));
    let mut m = machine(&[(1, 3)]);
    assert_eq!(m.execute(insts(InstructionKind::LSR, [reg(0), reg(1), imm(1), N])), Ok(()));
    assert_eq!((m.cpu.regs[0], m.cpu.cpsr.0), (1, 0x2000_01d3));
    assert_eq!(m.execute(insts(InstructionKind::RRX, [reg(0), reg(1), N, N])), Ok(()));
    assert_eq!((m.cpu.regs[0], m.cpu.cpsr.0), (0x8000_0001, 0xa000_01d3));
    assert_eq!(m.execute(insts(InstructionKind::ROR, [reg(0), reg(1), imm(0), N])), Ok(()));
    assert_eq!((m.cpu.regs[0], m.cpu.cpsr.0), (0x8000_0001, 0xa000_01d3));
}

#[test]
fn multiplication_wraps_and_keeps_carry() {
    assert_eq!(three(InstructionKind::MUL, 7, 6).0, 42);
    assert_eq!(three(InstructionKind::MUL, 0x1_0000, 0x1_0000).0, 0);
    assert_eq!(three(InstructionKind::MUL, 0xffff_ffff, 0xffff_ffff).0, 1);
    let mut m = machine(&[(1, 0x1_0000), (2, 0x1_0000)]);
    m.cpu.cpsr.set_c(true);
    m.cpu.cpsr.set_v(true);
    assert_eq!(m.execute(insts(InstructionKind::MUL, [reg(0), reg(1), reg(2), N])), Ok(()));
    assert_eq!((m.cpu.regs[0], m.cpu.cpsr.0), (0, 0x7000_01d3));
    let mut m = machine(&[(1, 0xffff_ffff), (2, 2)]);
    assert_eq!(m.execute(insts(InstructionKind::MUL, [reg(0), reg(1), reg(2), N])), Ok(()));
    assert_eq!((m.cpu.regs[0], m.cpu.cpsr.0), (0xffff_fffe, 0x8000_01d3));
}

#[test]
fn result_for_the_pc_is_a_jump_and_keeps_flags() {
    let mut m = machine(&[(1, 0x101)]);
    assert_eq!(m.execute(insts(InstructionKind::MOV, [reg(15), reg(1), N, N])), Ok(()));
    assert_eq!(m.cpu.regs[15], 0x100);
    assert_eq!(m.current_instr_set(), InstrSet::Thumb);
    assert_eq!(m.cpu.cpsr.0, 0x1d3 | 0x20);
    let mut m = machine(&[(1, 0x200)]);
    m.mark = 0x100;
    assert_eq!(m.execute(inst(InstructionKind::ADD, [reg(15), reg(15), reg(1), N])), Ok(()));
    assert_eq!(m.cpu.regs[15], 0x308);
    assert_eq!(m.cpu.cpsr.0, 0x1d3);
}

#[test]
fn destination_must_be_a_register() {
    let mut m = machine(&[(1, 1), (2, 2)]);
    assert_eq!(
        m.execute(inst(InstructionKind::ADD, [imm(0), reg(1), reg(2), N])),
        Err(VMError::Unimplemented)
    );
    assert_eq!(
        m.execute(inst(InstructionKind::ADD, [reg(0), reg(1), Operand::APSR, N])),
        Ok(())
    );
    assert_eq!(
        m.execute(inst(InstructionKind::ADD, [N, N, N, N])),
        Err(VMError::Unimplemented)
    );
    assert_eq!(
        m.execute(inst(InstructionKind::ADR, [imm(0), imm(4), N, N])),
        Err(VMError::Unimplemented)
    );
}

#[test]
fn comparisons_always_set_flags() {
    let cmp = |kind, n: u32, m: u32| {
        let mut machine = machine(&[(1, n), (2, m)]);
        assert_eq!(machine.execute(inst(kind, [reg(1), reg(2), N, N])), Ok(()));
        assert_eq!(machine.cpu.regs[0], 0);
        machine.cpu.cpsr.0
    };
    assert_eq!(cmp(InstructionKind::CMP, 5, 5), 0x6000_01d3);
    assert_eq!(cmp(InstructionKind::CMP, 1, 2), 0x8000_01d3);
    assert_eq!(cmp(InstructionKind::CMP, 2, 1), 0x2000_01d3);
    assert_eq!(cmp(InstructionKind::CMP, 0x8000_0000, 1), 0x3000_01d3);
    assert_eq!(cmp(InstructionKind::CMN, 0xffff_ffff, 1), 0x6000_01d3);
    assert_eq!(cmp(InstructionKind::CMN, 0x7fff_ffff, 1), 0x9000_01d3);
    assert_eq!(cmp(InstructionKind::TST, 0xf0, 0x0f), 0x4000_01d3);
    assert_eq!(cmp(InstructionKind::TST, 0x8000_0000, 0xffff_ffff), 0x8000_01d3);
    assert_eq!(cmp(InstructionKind::TEQ, 0x1234, 0x1234), 0x4000_01d3);
    assert_eq!(cmp(InstructionKind::TEQ, 0x8000_0000, 0), 0x8000_01d3);
    let mut m = machine(&[(1, 0), (2, 1)]);
    m.cpu.cpsr.set_v(true);
    let teq = inst(InstructionKind::TEQ, [reg(1), shifted(2, ShiftStyle::LSR, 1), N, N]);
    assert_eq!(m.execute(teq), Ok(()));
    assert_eq!(m.cpu.cpsr.0, 0x7000_01d3);
}

#[test]
fn bit_rearrangements() {
    let one = |kind, m: u32| {
        let mut machine = machine(&[(1, m)]);
        assert_eq!(machine.execute(inst(kind, [reg(0), reg(1), N, N])), Ok(()));
        machine.cpu.regs[0]
    };
    assert_eq!(one(InstructionKind::CLZ, 0), 32);
    assert_eq!(one(InstructionKind::CLZ, 1), 31);
    assert_eq!(one(InstructionKind::CLZ, 0x8000_0000), 0);
    assert_eq!(one(InstructionKind::CLZ, 0x0001_0000), 15);
    assert_eq!(one(InstructionKind::RBIT, 1), 0x8000_0000);
    assert_eq!(one(InstructionKind::RBIT, 0x1234_5678), 0x1e6a_2c48);
    assert_eq!(one(InstructionKind::RBIT, 0xffff_ffff), 0xffff_ffff);
    assert_eq!(one(InstructionKind::REV, 0x1234_5678), 0x7856_3412);
    assert_eq!(one(InstructionKind::REV16, 0x1234_5678), 0x3412_7856);
    assert_eq!(one(InstructionKind::REVSH, 0x1234_5680), 0xffff_8056);
    assert_eq!(one(InstructionKind::REVSH, 0xffff_1234), 0x0000_3412);
}

#[test]
fn bit_fields() {
    let field = |kind, d: u32, n: u32, c: u32, e: u32| {
        let mut machine = machine(&[(0, d), (1, n)]);
        let r = machine.execute(inst(kind, [reg(0), reg(1), imm(c), imm(e)]));
        (r, machine.cpu.regs[0])
    };
    assert_eq!(field(InstructionKind::BFC, 0xffff_ffff, 0, 4, 11), (Ok(()), 0xffff_f00f));
    assert_eq!(field(InstructionKind::BFC, 0xffff_ffff, 0, 0, 31), (Ok(()), 0));
    assert_eq!(field(InstructionKind::BFC, 0xffff_ffff, 0, 7, 7), (Ok(()), 0xffff_ff7f));
    assert_eq!(field(InstructionKind::BFC, 0xffff_ffff, 0, 8, 7), (Ok(()), 0xffff_ffff));
    assert_eq!(field(InstructionKind::BFC, 0xffff_ffff, 0, 28, 40), (Ok(()), 0x0fff_ffff));
    assert_eq!(field(InstructionKind::BFC, 0xffff_ffff, 0, 32, 40), (Ok(()), 0xffff_ffff));
    assert_eq!(field(InstructionKind::BFI, 0, 0xabc, 8, 15), (Ok(()), 0x0000_bc00));
    assert_eq!(field(InstructionKind::BFI, 0xffff_ffff, 0, 8, 15), (Ok(()), 0xffff_00ff));
    assert_eq!(field(InstructionKind::BFI, 0x1111_1111, 0xf, 4, 3), (Ok(()), 0x1111_1111));
    assert_eq!(field(InstructionKind::UBFX, 9, 0x0000_0f80, 7, 5), (Ok(()), 0x1f));
    assert_eq!(field(InstructionKind::SBFX, 9, 0x0000_0f80, 7, 5), (Ok(()), 0xffff_ffff));
    assert_eq!(field(InstructionKind::SBFX, 9, 0x0000_0780, 7, 5), (Ok(()), 0xf));
    assert_eq!(field(InstructionKind::SBFX, 9, 0x8765_4321, 0, 32), (Ok(()), 0x8765_4321));
    assert_eq!(field(InstructionKind::UBFX, 9, 0x8765_4321, 28, 4), (Ok(()), 8));
    assert_eq!(field(InstructionKind::SBFX, 9, 0x8765_4321, 28, 4), (Ok(()), 0xffff_fff8));
    assert_eq!(field(InstructionKind::UBFX, 9, 0x8765_4321, 0, 1), (Ok(()), 1));
    assert_eq!(field(InstructionKind::SBFX, 9, 0x8765_4321, 0, 1), (Ok(()), 0xffff_ffff));
    let out_of_word = (Err(VMError::Unimplemented), 9);
    assert_eq!(field(InstructionKind::UBFX, 9, 0x8765_4321, 28, 5), out_of_word);
    assert_eq!(field(InstructionKind::SBFX, 9, 0x8765_4321, 0, 33), out_of_word);
    assert_eq!(field(InstructionKind::UBFX, 9, 0x8765_4321, 4, 0), out_of_word);
    assert_eq!(field(InstructionKind::UBFX, 9, 0x8765_4321, 32, 1), out_of_word);
    let mut m = machine(&[(0, 0x1234_5678)]);
    assert_eq!(m.execute(inst(InstructionKind::MOVT, [reg(0), imm(0xabcd), N, N])), Ok(()));
    assert_eq!(m.cpu.regs[0], 0xabcd_5678);
    assert_eq!(m.execute(inst(InstructionKind::MOVT, [reg(0), imm(0xffff_0001), N, N])), Ok(()));
    assert_eq!(m.cpu.regs[0], 0x0001_5678);
}

#[test]
fn packing_selecting_and_summing() {
    assert_eq!(three(InstructionKind::PKHBT, 0x1111_2222, 0x3333_4444).0, 0x3333_2222);
    assert_eq!(three(InstructionKind::PKHTB, 0x1111_2222, 0x3333_4444).0, 0x1111_4444);
    let mut m = machine(&[(1, 0x1122_3344), (2, 0xaabb_ccdd)]);
    m.cpu.cpsr.set_ge(0b0101);
    assert_eq!(m.execute(inst(InstructionKind::SEL, [reg(0), reg(1), reg(2), N])), Ok(()));
    assert_eq!(m.cpu.regs[0], 0xaa22_cc44);
    m.cpu.cpsr.set_ge(0b1010);
    assert_eq!(m.execute(inst(InstructionKind::SEL, [reg(0), reg(1), reg(2), N])), Ok(()));
    assert_eq!(m.cpu.regs[0], 0x11bb_33dd);
    assert_eq!(three(InstructionKind::USAD8, 0x0102_0304, 0x0403_0201).0, 8);
    assert_eq!(three(InstructionKind::USAD8, 0xff00_ff00, 0x00ff_00ff).0, 1020);
    assert_eq!(four(InstructionKind::USADA8, 0x0102_0304, 0x0403_0201, 0xffff_fffc).0, 4);
    assert_eq!(four(InstructionKind::USADA8, 0x0102_0304, 0x0403_0201, 100).0, 108);
}

#[test]
fn extensions() {
    let ext = |kind, m: u32, rotation: u32| {
        let mut machine = machine(&[(1, m)]);
        assert_eq!(machine.execute(inst(kind, [reg(0), reg(1), imm(rotation), N])), Ok(()));
        machine.cpu.regs[0]
    };
    assert_eq!(ext(InstructionKind::SXTB, 0x1234_5680, 0), 0xffff_ff80);
    assert_eq!(ext(InstructionKind::SXTB, 0x1234_5680, 8), 0x56);
    assert_eq!(ext(InstructionKind::UXTB, 0x1234_5680, 0), 0x80);
    assert_eq!(ext(InstructionKind::UXTB, 0x1234_5680, 16), 0x34);
    assert_eq!(ext(InstructionKind::UXTB, 0x1234_5680, 24), 0x12);
    assert_eq!(ext(InstructionKind::SXTH, 0x1234_ff80, 0), 0xffff_ff80);
    assert_eq!(ext(InstructionKind::UXTH, 0x1234_ff80, 0), 0xff80);
    assert_eq!(ext(InstructionKind::UXTH, 0x8012_3456, 24), 0x5680);
    assert_eq!(ext(InstructionKind::SXTH, 0x8012_3456, 8), 0x1234);
    assert_eq!(ext(InstructionKind::SXTB16, 0x0080_0080, 0), 0xff80_ff80);
    assert_eq!(ext(InstructionKind::UXTB16, 0x1280_3480, 0), 0x0080_0080);
    assert_eq!(ext(InstructionKind::UXTB16, 0x1280_3480, 8), 0x0012_0034);
    let add = |kind, n: u32, m: u32, rotation: u32| {
        let mut machine = machine(&[(1, n), (2, m)]);
        assert_eq!(machine.execute(inst(kind, [reg(0), reg(1), reg(2), imm(rotation)])), Ok(()));
        machine.cpu.regs[0]
    };
    assert_eq!(add(InstructionKind::SXTAB, 0x10, 0xff, 0), 0xf);
    assert_eq!(add(InstructionKind::UXTAB, 0x10, 0xff, 0), 0x10f);
    assert_eq!(add(InstructionKind::UXTAB, 0xffff_ffff, 1, 0), 0);
    assert_eq!(add(InstructionKind::SXTAH, 0x1_0000, 0x8000, 0), 0x8000);
    assert_eq!(add(InstructionKind::UXTAH, 1, 0xffff, 0), 0x1_0000);
    assert_eq!(add(InstructionKind::UXTAH, 1, 0xff00_00ff, 24), 0x1_0000);
    assert_eq!(add(InstructionKind::SXTAB16, 0x0001_0001, 0x00ff_00ff, 0), 0);
    assert_eq!(add(InstructionKind::UXTAB16, 0xffff_0001, 0x0001_0002, 0), 0x0000_0003);
}

#[test]
fn extension_without_rotation_operand() {
    let mut m = machine(&[(1, 0x1234_5680), (2, 0x0000_00ff)]);
    assert_eq!(m.execute(inst(InstructionKind::SXTB, [reg(0), reg(1), N, N])), Ok(()));
    assert_eq!(m.cpu.regs[0], 0xffff_ff80);
    assert_eq!(m.execute(inst(InstructionKind::UXTH, [reg(0), reg(1), N, N])), Ok(()));
    assert_eq!(m.cpu.regs[0], 0x5680);
    assert_eq!(m.execute(inst(InstructionKind::UXTAB, [reg(0), reg(1), reg(2), N])), Ok(()));
    assert_eq!(m.cpu.regs[0], 0x1234_577f);
    assert_eq!(
        m.execute(inst(InstructionKind::UXTAB, [reg(0), reg(1), N, N])),
        Err(VMError::Unimplemented)
    );
    assert_eq!(
        m.execute(inst(InstructionKind::SXTB, [reg(0), N, N, N])),
        Err(VMError::Unimplemented)
    );
    assert_eq!(m.source(inst(InstructionKind::SXTB, [reg(0), reg(1), N, N]), 2), Ok(0));
    assert_eq!(
        m.source(inst(InstructionKind::CLZ, [reg(0), N, N, N]), 1),
        Err(VMError::Unimplemented)
    );
}

#[test]
fn lane_wise_arithmetic() {
    let cases = [
        (InstructionKind::SADD16, 0x7fff_0001u32, 0x0001_ffffu32, 0x8000_0000u32, 0b1111u32),
        (InstructionKind::UADD16, 0xffff_0001, 0x0001_0002, 0x0000_0003, 0b1100),
        (InstructionKind::SADD8, 0x7f80_ff01, 0x0180_0102, 0x8000_0003, 0b1011),
        (InstructionKind::UADD8, 0xff80_ff01, 0x0180_0102, 0x0000_0003, 0b1110),
        (InstructionKind::SASX, 0x0005_0003, 0x0002_0004, 0x0009_0001, 0b1111),
        (InstructionKind::UASX, 0xffff_0003, 0x0004_0001, 0x0000_ffff, 0b1100),
        (InstructionKind::SSAX, 0x0005_0003, 0x0002_0004, 0x0001_0005, 0b1111),
        (InstructionKind::USAX, 0x0001_ffff, 0x0002_0001, 0x0000_0001, 0b1111),
        (InstructionKind::SSUB16, 0x0005_8000, 0x0006_0001, 0xffff_7fff, 0b0000),
        (InstructionKind::USUB16, 0x0005_0001, 0x0006_0001, 0xffff_0000, 0b0011),
        (InstructionKind::SSUB8, 0x0580_0a01, 0x0601_0502, 0xff7f_05ff, 0b0010),
        (InstructionKind::USUB8, 0x0580_0a01, 0x0601_0502, 0xff7f_05ff, 0b0110),
    ];
    for (kind, n, m, result, ge) in cases {
        let (r, machine) = three(kind, n, m);
        assert_eq!(r, result);
        assert_eq!(machine.cpu.cpsr.ge(), ge);
        assert_eq!(machine.cpu.cpsr.0 & !0x000f_0000, 0x1d3);
    }
}

#[test]
fn halving_lane_wise_arithmetic_keeps_ge() {
    let cases = [
        (InstructionKind::SHADD16, 0x7fff_8000u32, 0x7fff_8000u32, 0x7fff_8000u32),
        (InstructionKind::UHADD16, 0xffff_8001, 0xffff_8000, 0xffff_8000),
        (InstructionKind::SHADD8, 0x7f80_ff03, 0x7f80_ff04, 0x7f80_ff03),
        (InstructionKind::UHADD8, 0xff80_ff03, 0xff80_ff04, 0xff80_ff03),
        (InstructionKind::SHSUB16, 0x8000_0003, 0x7fff_0006, 0x8000_fffe),
        (InstructionKind::UHSUB16, 0x0000_0003, 0xffff_0006, 0x8000_fffe),
        (InstructionKind::SHSUB8, 0x807f_0003, 0x7f80_0006, 0x807f_00fe),
        (InstructionKind::UHSUB8, 0x00ff_0003, 0xff00_0006, 0x807f_00fe),
        (InstructionKind::SHASX, 0x0005_0003, 0x0002_0004, 0x0004_0000),
        (InstructionKind::UHASX, 0xffff_0003, 0x0004_0001, 0x8000_ffff),
        (InstructionKind::SHSAX, 0x0005_0003, 0x0002_0004, 0x0000_0002),
        (InstructionKind::UHSAX, 0x0001_ffff, 0x0002_0001, 0x0000_8000),
    ];
    for (kind, n, m, result) in cases {
        let mut machine = machine(&[(1, n), (2, m)]);
        machine.cpu.cpsr.set_ge(0b1010);
        assert_eq!(machine.execute(inst(kind, [reg(0), reg(1), reg(2), N])), Ok(()));
        assert_eq!(machine.cpu.regs[0], result);
        assert_eq!(machine.cpu.cpsr.0, 0x000a_01d3);
    }
}

#[test]
fn multiply_accumulate() {
    let q = |m: &Machine| m.cpu.cpsr.q();
    let (r, m) = four(InstructionKind::MLA, 0xffff_ffff, 0xffff_ffff, 5);
    assert_eq!((r, q(&m)), (6, false));
    let (r, m) = four(InstructionKind::MLS, 3, 4, 5);
    assert_eq!((r, q(&m)), (0xffff_fff9, false));
    let low = InstructionKind::SMLA { n_high: false, m_high: false };
    let (r, m) = four(low, 0x0002_7fff, 0xfffe_7fff, 0x7fff_ffff);
    assert_eq!((r, q(&m)), (0xbfff_0000, true));
    let high = InstructionKind::SMLA { n_high: true, m_high: true };
    let (r, m) = four(high, 0x0002_7fff, 0xfffe_7fff, 10);
    assert_eq!((r, q(&m)), (6, false));
    let (r, m) = four(InstructionKind::SMLAD { m_swap: false }, 0x0002_0003, 0x0004_0005, 1);
    assert_eq!((r, q(&m)), (0x18, false));
    let (r, m) = four(InstructionKind::SMLAD { m_swap: true }, 0x0002_0003, 0x0004_0005, 1);
    assert_eq!((r, q(&m)), (0x17, false));
    let (r, m) =
        four(InstructionKind::SMLAD { m_swap: false }, 0x8000_8000, 0x8000_8000, 0x7fff_ffff);
    assert_eq!((r, q(&m)), (0xffff_ffff, true));
    let (r, m) = four(InstructionKind::SMLSD { m_swap: false }, 0x0002_0003, 0x0004_0005, 1);
    assert_eq!((r, q(&m)), (8, false));
    let (r, m) = four(InstructionKind::SMLSD { m_swap: true }, 0x0002_0003, 0x0004_0005, 1);
    assert_eq!((r, q(&m)), (3, false));
    let (r, m) = four(InstructionKind::SMLAW { m_high: false }, 0x0001_0000, 0x0000_0003, 5);
    assert_eq!((r, q(&m)), (8, false));
    let (r, m) = four(InstructionKind::SMLAW { m_high: true }, 0xffff_0000, 0x0003_0000, 5);
    assert_eq!((r, q(&m)), (2, false));
    let (r, m) =
        four(InstructionKind::SMLAW { m_high: true }, 0x7fff_ffff, 0x7fff_0000, 0x7fff_ffff);
    assert_eq!((r, q(&m)), (0xbfff_7ffe, true));
    let (r, _) = four(InstructionKind::SMMLA { round: false }, 0x4000_0000, 4, 7);
    assert_eq!(r, 8);
    let (r, _) = four(InstructionKind::SMMLA { round: false }, 0xffff_ffff, 1, 0);
    assert_eq!(r, 0xffff_ffff);
    let (r, _) = four(InstructionKind::SMMLS { round: false }, 0x4000_0000, 4, 7);
    assert_eq!(r, 6);
    let (r, _) = four(InstructionKind::SMMLS { round: false }, 1, 1, 7);
    assert_eq!(r, 6);
    let (r, _) = four(InstructionKind::SMMLS { round: true }, 1, 1, 7);
    assert_eq!(r, 7);
}

#[test]
fn multiply_without_accumulate() {
    let q = |m: &Machine| m.cpu.cpsr.q();
    let (r, m) = three(InstructionKind::SMUL { n_high: true, m_high: false }, 0x8000_ffff, 0x8000_ffff);
    assert_eq!((r, q(&m)), (0x8000, false));
    let (r, m) = three(InstructionKind::SMUL { n_high: true, m_high: true }, 0x8000_ffff, 0x8000_ffff);
    assert_eq!((r, q(&m)), (0x4000_0000, false));
    let (r, m) = three(InstructionKind::SMUAD { m_swap: false }, 0x8000_8000, 0x8000_8000);
    assert_eq!((r, q(&m)), (0x8000_0000, true));
    let (r, m) = three(InstructionKind::SMUAD { m_swap: true }, 0x0002_0003, 0x0004_0005);
    assert_eq!((r, q(&m)), (0x16, false));
    let (r, m) = three(InstructionKind::SMUSD { m_swap: false }, 0x0002_0003, 0x0004_0005);
    assert_eq!((r, q(&m)), (7, false));
    let (r, _) = three(InstructionKind::SMULW { m_high: false }, 0x0001_8000, 0x0000_ffff);
    assert_eq!(r, 0xffff_fffe);
    let (r, _) = three(InstructionKind::SMMUL { round: false }, 0x4000_0000, 6);
    assert_eq!(r, 1);
    let (r, _) = three(InstructionKind::SMMUL { round: true }, 0x4000_0000, 6);
    assert_eq!(r, 2);
    let (r, _) = three(InstructionKind::SMMUL { round: false }, 0x8000_0000, 1);
    assert_eq!(r, 0xffff_ffff);
}

#[test]
fn q_flag_is_sticky() {
    let mut m = machine(&[(1, 0x7fff), (2, 0x7fff), (3, 0x7fff_ffff)]);
    let smla = inst(
        InstructionKind::SMLA { n_high: false, m_high: false },
        [reg(0), reg(1), reg(2), reg(3)],
    );
    assert_eq!(m.execute(smla), Ok(()));
    assert!(m.cpu.cpsr.q());
    assert_eq!(m.cpu.cpsr.0, 0x0800_01d3);
    m.cpu.regs[3] = 0;
    assert_eq!(m.execute(smla), Ok(()));
    assert_eq!(m.cpu.regs[0], 0x3fff_0001);
    assert!(m.cpu.cpsr.q());
}

#[test]
fn multiply_accumulate_flags() {
    let mut m = machine(&[(1, 0), (2, 5), (3, 0)]);
    assert_eq!(m.execute(insts(InstructionKind::MLA, [reg(0), reg(1), reg(2), reg(3)])), Ok(()));
    assert_eq!((m.cpu.regs[0], m.cpu.cpsr.0), (0, 0x4000_01d3));
    m.cpu.regs[3] = 0x8000_0000;
    assert_eq!(m.execute(insts(InstructionKind::MLA, [reg(0), reg(1), reg(2), reg(3)])), Ok(()));
    assert_eq!((m.cpu.regs[0], m.cpu.cpsr.0), (0x8000_0000, 0x8000_01d3));
    assert_eq!(m.execute(inst(InstructionKind::MLA, [reg(0), reg(1), reg(2), reg(1)])), Ok(()));
    assert_eq!((m.cpu.regs[0], m.cpu.cpsr.0), (0, 0x8000_01d3));
}

#[test]
fn long_multiplies() {
    let long = |kind, n: u32, m: u32, lo: u32, hi: u32| {
        let mut machine = machine(&[(0, lo), (1, hi), (2, n), (3, m)]);
        assert_eq!(machine.execute(inst(kind, [reg(0), reg(1), reg(2), reg(3)])), Ok(()));
        assert_eq!(machine.cpu.cpsr.0, 0x1d3);
        (machine.cpu.regs[0], machine.cpu.regs[1])
    };
    assert_eq!(long(InstructionKind::SMULL, 0xffff_ffff, 2, 9, 9), (0xffff_fffe, 0xffff_ffff));
    assert_eq!(long(InstructionKind::SMULL, 0x8000_0000, 0x8000_0000, 9, 9), (0, 0x4000_0000));
    assert_eq!(long(InstructionKind::UMULL, 0xffff_ffff, 0xffff_ffff, 9, 9), (1, 0xffff_fffe));
    assert_eq!(long(InstructionKind::SMLAL, 0xffff_ffff, 1, 0, 1), (0xffff_ffff, 0));
    assert_eq!(long(InstructionKind::SMLAL, 2, 3, 0xffff_ffff, 0xffff_ffff), (5, 0));
    assert_eq!(
        long(InstructionKind::UMLAL, 0xffff_ffff, 0xffff_ffff, 0xffff_ffff, 0xffff_ffff),
        (0, 0xffff_fffe)
    );
    assert_eq!(
        long(InstructionKind::UMAAL, 0xffff_ffff, 0xffff_ffff, 0xffff_ffff, 0xffff_ffff),
        (0xffff_ffff, 0xffff_ffff)
    );
    assert_eq!(
        long(InstructionKind::SMLALD { m_swap: false }, 0x0002_0003, 0x0004_0005, 0xffff_fff0, 0),
        (7, 1)
    );
    assert_eq!(
        long(InstructionKind::SMLALD { m_swap: true }, 0x0002_0003, 0x0004_0005, 1, 0),
        (0x17, 0)
    );
    assert_eq!(
        long(InstructionKind::SMLSLD { m_swap: false }, 0x0002_0003, 0x0004_0005, 0, 0),
        (7, 0)
    );
    assert_eq!(
        long(InstructionKind::SMLSLD { m_swap: true }, 0x0002_0003, 0x0004_0005, 0, 0),
        (2, 0)
    );
}

#[test]
fn long_multiply_flags() {
    let mut m = machine(&[(2, 0), (3, 5)]);
    assert_eq!(m.execute(insts(InstructionKind::UMULL, [reg(0), reg(1), reg(2), reg(3)])), Ok(()));
    assert_eq!(m.cpu.cpsr.0, 0x4000_01d3);
    m.cpu.regs[2] = 0xffff_ffff;
    assert_eq!(m.execute(insts(InstructionKind::SMULL, [reg(0), reg(1), reg(2), reg(3)])), Ok(()));
    assert_eq!((m.cpu.regs[0], m.cpu.regs[1]), (0xffff_fffb, 0xffff_ffff));
    assert_eq!(m.cpu.cpsr.0, 0x8000_01d3);
    assert_eq!(m.execute(insts(InstructionKind::UMULL, [reg(0), reg(1), reg(2), reg(3)])), Ok(()));
    assert_eq!((m.cpu.regs[0], m.cpu.regs[1]), (0xffff_fffb, 4));
    assert_eq!(m.cpu.cpsr.0, 0x0000_01d3);
    m.cpu.cpsr.set_z(true);
    assert_eq!(m.execute(insts(InstructionKind::UMAAL, [reg(0), reg(1), reg(2), reg(3)])), Ok(()));
    assert_eq!(m.cpu.cpsr.0, 0x4000_01d3);
}

#[test]
fn status_moves() {
    let mut m = machine(&[(1, 0xf00f_0000)]);
    m.cpu.cpsr.0 = 0x9001_01d3;
    m.cpu.spsr.0 = 0x55;
    assert_eq!(m.execute(inst(InstructionKind::MRS, [reg(0), Operand::APSR, N, N])), Ok(()));
    assert_eq!(m.cpu.regs[0], 0x9001_0000);
    assert_eq!(m.execute(inst(InstructionKind::MRS, [reg(0), Operand::CPSR, N, N])), Ok(()));
    assert_eq!(m.cpu.regs[0], 0x9001_01d3);
    assert_eq!(m.execute(inst(InstructionKind::MRS, [reg(0), Operand::SPSR, N, N])), Ok(()));
    assert_eq!(m.cpu.regs[0], 0x55);
    let flags = Operand::StatusRegMask { mask: 0b1100 };
    assert_eq!(m.execute(inst(InstructionKind::MSR, [flags, reg(1), N, N])), Ok(()));
    assert_eq!(m.cpu.cpsr.0, 0xf00f_01d3);
    assert_eq!(m.execute(inst(InstructionKind::MSR, [flags, imm(0), N, N])), Ok(()));
    assert_eq!(m.cpu.cpsr.0, 0x0000_01d3);
    let control = Operand::StatusRegMask { mask: 0b0001 };
    assert_eq!(m.execute(inst(InstructionKind::MSR, [control, imm(0x10), N, N])), Ok(()));
    assert_eq!(m.cpu.cpsr.0, 0x0000_0150);
    assert_eq!(m.execute(inst(InstructionKind::MSR, [control, imm(0x9f), N, N])), Ok(()));
    assert_eq!(m.cpu.cpsr.0, 0x0000_0150);
    let saved = Operand::StatusRegMask { mask: 0b11001 };
    assert_eq!(m.execute(inst(InstructionKind::MSR, [saved, imm(0xabcd_ef12), N, N])), Ok(()));
    assert_eq!(m.cpu.spsr.0, 0xab00_0012);
}

#[test]
fn what_the_machine_does_not_carry_out() {
    let kinds = [
        InstructionKind::BXJ,
        InstructionKind::CDP,
        InstructionKind::CLREX,
        InstructionKind::CPS,
        InstructionKind::CSDB,
        InstructionKind::DBG,
        InstructionKind::DMB,
        InstructionKind::DSB,
        InstructionKind::ENTERX,
        InstructionKind::ERET,
        InstructionKind::HINT,
        InstructionKind::HVC,
        InstructionKind::ISB,
        InstructionKind::Invalid,
        InstructionKind::LDC,
        InstructionKind::LDREX,
        InstructionKind::MCR,
        InstructionKind::MCRR,
        InstructionKind::MRC,
        InstructionKind::MRRC,
        InstructionKind::PLD,
        InstructionKind::PLI,
        InstructionKind::QADD,
        InstructionKind::QADD16,
        InstructionKind::QADD8,
        InstructionKind::QASX,
        InstructionKind::QDADD,
        InstructionKind::QDSUB,
        InstructionKind::QSAX,
        InstructionKind::QSUB,
        InstructionKind::QSUB16,
        InstructionKind::QSUB8,
        InstructionKind::RFE,
        InstructionKind::SDIV,
        InstructionKind::SETEND,
        InstructionKind::SEV,
        InstructionKind::SMC,
        InstructionKind::SRS,
        InstructionKind::SSAT,
        InstructionKind::SSAT16,
        InstructionKind::STC,
        InstructionKind::STREX,
        InstructionKind::SVC,
        InstructionKind::UDF,
        InstructionKind::UDIV,
        InstructionKind::UQADD16,
        InstructionKind::UQADD8,
        InstructionKind::UQASX,
        InstructionKind::UQSAX,
        InstructionKind::UQSUB16,
        InstructionKind::UQSUB8,
        InstructionKind::USAT,
        InstructionKind::USAT16,
        InstructionKind::WFE,
        InstructionKind::WFI,
        InstructionKind::YIELD,
    ];
    for kind in kinds {
        let mut m = machine(&[(1, 1), (2, 2)]);
        assert_eq!(
            m.execute(inst(kind, [reg(0), reg(1), reg(2), N])),
            Err(VMError::Unimplemented)
        );
        assert_eq!(m.cpu.regs[0], 0);
        assert_eq!(m.cpu.cpsr.0, 0x1d3);
    }
}

#[test]
fn instructions_without_effect() {
    for kind in [InstructionKind::NOP, InstructionKind::LEAVEX, InstructionKind::BKPT] {
        let mut m = machine(&[(1, 1), (2, 2), (15, 0x40)]);
        assert_eq!(m.execute(inst(kind, [reg(0), reg(1), reg(2), N])), Ok(()));
        assert_eq!(m.cpu.regs[0], 0);
        assert_eq!(m.cpu.regs[15], 0x40);
        assert_eq!(m.cpu.cpsr.0, 0x1d3);
    }
}

#[test]
fn failed_condition_changes_nothing() {
    let mut m = machine(&[(1, 1), (2, 2)]);
    m.cpu.cpsr.set_z(true);
    let mut add = insts(InstructionKind::ADD, [reg(0), reg(1), reg(2), N]);
    add.cond = Condition::NE;
    assert_eq!(m.execute(add), Ok(()));
    assert_eq!(m.cpu.regs, machine(&[(1, 1), (2, 2)]).cpu.regs);
    assert_eq!(m.cpu.cpsr.0, 0x4000_01d3);
    let mut bad = inst(InstructionKind::QADD, [N, N, N, N]);
    bad.cond = Condition::NE;
    assert_eq!(m.execute(bad), Ok(()));
    let mut load = inst(InstructionKind::LDR, [reg(0), Operand::RegDeref { reg_index: 3 }, N, N]);
    load.cond = Condition::MI;
    m.cpu.regs[3] = 0xffff_fff0;
    assert_eq!(m.execute(load), Ok(()));
    assert_eq!(m.cpu.regs[0], 0);
    add.cond = Condition::EQ;
    assert_eq!(m.execute(add), Ok(()));
    assert_eq!(m.cpu.regs[0], 3);
    assert_eq!(m.cpu.cpsr.0, 0x0000_01d3);
}

#[test]
fn clear_s_bit_keeps_the_flags() {
    let kinds = [
        InstructionKind::ADD,
        InstructionKind::SUB,
        InstructionKind::AND,
        InstructionKind::MOV,
        InstructionKind::MUL,
        InstructionKind::LSL,
        InstructionKind::MLA,
        InstructionKind::UMULL,
        InstructionKind::CLZ,
        InstructionKind::SHADD16,
        InstructionKind::SEL,
        InstructionKind::PKHBT,
        InstructionKind::LDR,
        InstructionKind::BX,
    ];
    for flags in [0u32, 0xf80f_0000, 0x5005_0000] {
        for kind in kinds {
            let mut m = machine(&[(1, 0x8000_0000), (2, 0x8000_0000), (3, 0x100)]);
            m.cpu.cpsr.0 = 0x1d3 | flags;
            let ops = match kind {
                InstructionKind::LDR => [reg(0), Operand::RegDeref { reg_index: 3 }, N, N],
                InstructionKind::BX => [reg(3), N, N, N],
                InstructionKind::MOV | InstructionKind::CLZ => [reg(0), reg(1), N, N],
                _ => [reg(0), reg(1), reg(2), reg(3)],
            };
            assert_eq!(m.execute(inst(kind, ops)), Ok(()));
            assert_eq!(m.cpu.cpsr.0 & 0xf80f_0000, flags);
        }
    }
}

#[test]
fn memory_failure_ends_the_instruction() {
    let mut m = machine(&[(1, 0xffff_0000), (2, 7)]);
    let deref = Operand::RegDerefPostindexed {
        reg_index: 1,
        offset: Offset::Imm { value: 4 },
        add: true,
        wback: true,
    };
    assert_eq!(
        m.execute(inst(InstructionKind::LDR, [reg(0), deref, N, N])),
        Err(VMError::BusError)
    );
    assert_eq!((m.cpu.regs[0], m.cpu.regs[1]), (0, 0xffff_0000));
    assert_eq!(
        m.execute(inst(InstructionKind::STR, [reg(2), deref, N, N])),
        Err(VMError::BusError)
    );
    assert_eq!(m.cpu.regs[1], 0xffff_0000);
    m.cpu.regs[1] = 102400;
    assert_eq!(
        m.execute(inst(InstructionKind::LDRB, [reg(0), deref, N, N])),
        Err(VMError::NonBlockError)
    );
    assert_eq!(m.serial.outgoing, vec![0xaa]);
}
