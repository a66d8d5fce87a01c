use arm_vm::arithmetic::ShiftStyle;
use arm_vm::cpu::InstrSet;
use arm_vm::executor::transfer::Width;
use arm_vm::instruction::{Condition, Instruction, InstructionKind, Offset, Operand, Shift};
use arm_vm::machine::Machine;
use arm_vm::vmerror::VMError;

const N: Operand = Operand::Nothing;

fn reg(i: usize) -> Operand {
    Operand::Register { reg_index: i }
}

fn imm(value: u32) -> Operand {
    Operand::Immediate { value }
}

fn at(i: usize) -> Operand {
    Operand::RegDeref { reg_index: i }
}

fn pre(base: usize, value: u32, add: bool, wback: bool) -> Operand {
    Operand::RegDerefPreindexed { reg_index: base, offset: Offset::Imm { value }, add, wback }
}

fn post(base: usize, value: u32, add: bool, wback: bool) -> Operand {
    Operand::RegDerefPostindexed { reg_index: base, offset: Offset::Imm { value }, add, wback }
}

fn inst(kind: InstructionKind, operands: [Operand; 4]) -> Instruction {
    Instruction { cond: Condition::AL, setflags: false, kind, operands }
}

fn machine(regs: &[(usize, u32)]) -> Machine {
    let mut m = Machine::default();
    for (i, v) in regs {
        m.cpu.regs[*i] = *v;
    }
    m
}

fn thumb(mark: u32) -> Machine {
    let mut m = Machine::default();
    m.select_instr_set(InstrSet::Thumb);
    m.mark = mark;
    m.cpu.regs[15] = mark + 2;
    m
}

fn arm(mark: u32) -> Machine {
    let mut m = Machine::default();
    m.mark = mark;
    m.cpu.regs[15] = mark + 4;
    m
}

#[test]
fn branch_adds_the_offset_to_the_pc_value() {
    let mut m = arm(0x100);
    let forward = inst(InstructionKind::B, [Operand::BranchOffset { words: 2 }, N, N, N]);
    assert_eq!(m.execute(forward), Ok(()));
    assert_eq!(m.cpu.regs[15], 0x10c);
    let mut m = arm(4);
    let back = inst(InstructionKind::B, [Operand::BranchOffset { words: -2 }, N, N, N]);
    assert_eq!(m.execute(back), Ok(()));
    assert_eq!(m.cpu.regs[15], 0);
    let mut m = thumb(0x100);
    let short = inst(InstructionKind::B, [Operand::BranchThumbOffset { halfwords: -2 }, N, N, N]);
    assert_eq!(m.execute(short), Ok(()));
    assert_eq!(m.cpu.regs[15], 0xfe);
    assert_eq!(m.current_instr_set(), InstrSet::Thumb);
    let mut m = arm(0x100);
    assert_eq!(m.execute(inst(InstructionKind::B, [imm(0x13), N, N, N])), Ok(()));
    assert_eq!(m.cpu.regs[15], 0x118);
}

#[test]
fn branch_with_link_in_arm_state() {
    let mut m = arm(0x100);
    let bl = inst(InstructionKind::BL, [Operand::BranchOffset { words: 0x10 }, N, N, N]);
    assert_eq!(m.execute(bl), Ok(()));
    assert_eq!(m.cpu.regs[14], 0x104);
    assert_eq!(m.cpu.regs[15], 0x144);
    assert_eq!(m.current_instr_set(), InstrSet::Arm);
    let mut m = arm(0x100);
    let blx = inst(InstructionKind::BLX, [Operand::BranchThumbOffset { halfwords: 3 }, N, N, N]);
    assert_eq!(m.execute(blx), Ok(()));
    assert_eq!(m.cpu.regs[14], 0x104);
    assert_eq!(m.cpu.regs[15], 0x10c);
    assert_eq!(m.current_instr_set(), InstrSet::Thumb);
}

#[test]
fn branch_with_link_in_thumb_state() {
    let mut m = thumb(0x102);
    let bl = inst(InstructionKind::BL, [Operand::BranchThumbOffset { halfwords: 8 }, N, N, N]);
    assert_eq!(m.execute(bl), Ok(()));
    assert_eq!(m.cpu.regs[14], 0x107);
    assert_eq!(m.cpu.regs[15], 0x114);
    assert_eq!(m.current_instr_set(), InstrSet::Thumb);
    let mut m = thumb(0x102);
    let blx = inst(InstructionKind::BLX, [Operand::BranchOffset { words: 4 }, N, N, N]);
    assert_eq!(m.execute(blx), Ok(()));
    assert_eq!(m.cpu.regs[14], 0x107);
    assert_eq!(m.cpu.regs[15], 0x110);
    assert_eq!(m.current_instr_set(), InstrSet::Arm);
}

#[test]
fn branch_with_link_to_a_register() {
    let mut m = arm(0x100);
    m.cpu.regs[1] = 0x201;
    assert_eq!(m.execute(inst(InstructionKind::BLX, [reg(1), N, N, N])), Ok(()));
    assert_eq!(m.cpu.regs[14], 0x104);
    assert_eq!(m.cpu.regs[15], 0x200);
    assert_eq!(m.current_instr_set(), InstrSet::Thumb);
    let mut m = thumb(0x100);
    m.cpu.regs[1] = 0x300;
    assert_eq!(m.execute(inst(InstructionKind::BLX, [reg(1), N, N, N])), Ok(()));
    assert_eq!(m.cpu.regs[14], 0x103);
    assert_eq!(m.cpu.regs[15], 0x300);
    assert_eq!(m.current_instr_set(), InstrSet::Arm);
    let mut m = arm(0x100);
    m.cpu.regs[14] = 0x400;
    assert_eq!(m.execute(inst(InstructionKind::BLX, [reg(14), N, N, N])), Ok(()));
    assert_eq!(m.cpu.regs[14], 0x104);
    assert_eq!(m.cpu.regs[15], 0x400);
    let mut m = arm(0x100);
    assert_eq!(
        m.execute(inst(InstructionKind::BL, [at(1), N, N, N])),
        Err(VMError::Unimplemented)
    );
}

#[test]
fn branch_and_exchange() {
    let mut m = arm(0x100);
    m.cpu.regs[1] = 0x201;
    assert_eq!(m.execute(inst(InstructionKind::BX, [reg(1), N, N, N])), Ok(()));
    assert_eq!((m.cpu.regs[15], m.current_instr_set()), (0x200, InstrSet::Thumb));
    m.cpu.regs[1] = 0x300;
    assert_eq!(m.execute(inst(InstructionKind::BX, [reg(1), N, N, N])), Ok(()));
    assert_eq!((m.cpu.regs[15], m.current_instr_set()), (0x300, InstrSet::Arm));
    m.cpu.regs[1] = 0x402;
    assert_eq!(m.execute(inst(InstructionKind::BX, [reg(1), N, N, N])), Ok(()));
    assert_eq!((m.cpu.regs[15], m.current_instr_set()), (0x300, InstrSet::Arm));
    assert_eq!(m.cpu.regs[14], 0);
}

#[test]
fn compare_and_branch_ignores_conditions() {
    let offset = Operand::BranchThumbOffset { halfwords: 4 };
    let mut m = thumb(0x100);
    let mut cbz = inst(InstructionKind::CBZ, [reg(1), offset, N, N]);
    cbz.cond = Condition::NE;
    m.cpu.cpsr.set_z(true);
    assert_eq!(m.execute(cbz), Ok(()));
    assert_eq!(m.cpu.regs[15], 0x10a);
    let mut m = thumb(0x100);
    m.cpu.regs[1] = 5;
    assert_eq!(m.execute(cbz), Ok(()));
    assert_eq!(m.cpu.regs[15], 0x102);
    let cbnz = inst(InstructionKind::CBNZ, [reg(1), offset, N, N]);
    assert_eq!(m.execute(cbnz), Ok(()));
    assert_eq!(m.cpu.regs[15], 0x10a);
    let mut m = thumb(0x100);
    assert_eq!(m.execute(cbnz), Ok(()));
    assert_eq!(m.cpu.regs[15], 0x102);
    assert_eq!(m.cpu.cpsr.0, 0x1d3 | 0x20);
}

#[test]
fn table_branches() {
    let mut m = thumb(0x100);
    m.cpu.regs[1] = 0x400;
    m.cpu.regs[2] = 3;
    m.write_memory(0x403, 5).unwrap();
    m.write_memory_halfword(0x406, 0x123).unwrap();
    let byte_entry = Operand::RegDerefPreindexed {
        reg_index: 1,
        offset: Offset::Reg { reg_index: 2 },
        add: true,
        wback: false,
    };
    assert_eq!(m.execute(inst(InstructionKind::TBB, [byte_entry, N, N, N])), Ok(()));
    assert_eq!(m.cpu.regs[15], 0x104 + 10);
    let mut m2 = thumb(0x100);
    m2.cpu.regs[1] = 0x400;
    m2.cpu.regs[2] = 3;
    m2.write_memory_halfword(0x406, 0x123).unwrap();
    let halfword_entry = Operand::RegDerefPreindexed {
        reg_index: 1,
        offset: Offset::RegShift {
            reg_index: 2,
            shift: Shift::Imm { style: ShiftStyle::LSL, amount: 1 },
        },
        add: true,
        wback: false,
    };
    assert_eq!(m2.execute(inst(InstructionKind::TBH, [halfword_entry, N, N, N])), Ok(()));
    assert_eq!(m2.cpu.regs[15], 0x104 + 0x246);
    let mut m3 = thumb(0x100);
    m3.cpu.regs[1] = 0x403;
    m3.write_memory(0x403, 0xff).unwrap();
    assert_eq!(m3.execute(inst(InstructionKind::TBB, [reg(1), N, N, N])), Ok(()));
    assert_eq!(m3.cpu.regs[15], 0x104 + 0x1fe);
    assert_eq!(m3.cpu.regs[1], 0x403);
}

#[test]
fn address_of_a_label() {
    let mut m = thumb(0x102);
    assert_eq!(m.execute(inst(InstructionKind::ADR, [reg(0), imm(16), N, N])), Ok(()));
    assert_eq!(m.cpu.regs[0], 0x114);
    let mut m = arm(0x100);
    assert_eq!(m.execute(inst(InstructionKind::ADR, [reg(0), imm(0xffff_fff8), N, N])), Ok(()));
    assert_eq!(m.cpu.regs[0], 0x100);
    assert_eq!(m.execute(inst(InstructionKind::ADR, [reg(15), imm(0x11), N, N])), Ok(()));
    assert_eq!((m.cpu.regs[15], m.current_instr_set()), (0x118, InstrSet::Thumb));
}

#[test]
fn loads_by_width() {
    let mut m = machine(&[(1, 0x100)]);
    m.write_memory_word(0x100, 0x8765_c3f2).unwrap();
    let load = |m: &mut Machine, kind| {
        assert_eq!(m.execute(inst(kind, [reg(0), at(1), N, N])), Ok(()));
        m.cpu.regs[0]
    };
    assert_eq!(load(&mut m, InstructionKind::LDR), 0x8765_c3f2);
    assert_eq!(load(&mut m, InstructionKind::LDRT), 0x8765_c3f2);
    assert_eq!(load(&mut m, InstructionKind::LDRB), 0xf2);
    assert_eq!(load(&mut m, InstructionKind::LDRBT), 0xf2);
    assert_eq!(load(&mut m, InstructionKind::LDRSB), 0xffff_fff2);
    assert_eq!(load(&mut m, InstructionKind::LDRSBT), 0xffff_fff2);
    assert_eq!(load(&mut m, InstructionKind::LDRH), 0xc3f2);
    assert_eq!(load(&mut m, InstructionKind::LDRHT), 0xc3f2);
    assert_eq!(load(&mut m, InstructionKind::LDRSH), 0xffff_c3f2);
    assert_eq!(load(&mut m, InstructionKind::LDRSHT), 0xffff_c3f2);
    m.write_memory_word(0x100, 0x0000_7f7f).unwrap();
    assert_eq!(load(&mut m, InstructionKind::LDRSB), 0x7f);
    assert_eq!(load(&mut m, InstructionKind::LDRSH), 0x7f7f);
    assert_eq!(m.load(Width::SignedByte, 0x100), Ok(0x7f));
    assert_eq!(m.load(Width::Halfword, 0x101), Ok(0x007f));
}

#[test]
fn byte_load_at_the_end_of_memory() {
    let mut m = machine(&[(1, 102399)]);
    m.write_memory(102399, 0x80).unwrap();
    assert_eq!(m.execute(inst(InstructionKind::LDRB, [reg(0), at(1), N, N])), Ok(()));
    assert_eq!(m.cpu.regs[0], 0x80);
    assert!(m.serial.outgoing.is_empty());
}

#[test]
fn loads_with_indexing_and_writeback() {
    let mut m = machine(&[(1, 0x100)]);
    m.write_memory_word(0x0fc, 0x1111_1111).unwrap();
    m.write_memory_word(0x100, 0x2222_2222).unwrap();
    m.write_memory_word(0x104, 0x3333_3333).unwrap();
    assert_eq!(m.execute(inst(InstructionKind::LDR, [reg(0), pre(1, 4, true, false), N, N])), Ok(()));
    assert_eq!((m.cpu.regs[0], m.cpu.regs[1]), (0x3333_3333, 0x100));
    assert_eq!(m.execute(inst(InstructionKind::LDR, [reg(0), pre(1, 4, true, true), N, N])), Ok(()));
    assert_eq!((m.cpu.regs[0], m.cpu.regs[1]), (0x3333_3333, 0x104));
    assert_eq!(m.execute(inst(InstructionKind::LDR, [reg(0), pre(1, 8, false, true), N, N])), Ok(()));
    assert_eq!((m.cpu.regs[0], m.cpu.regs[1]), (0x1111_1111, 0xfc));
    assert_eq!(m.execute(inst(InstructionKind::LDR, [reg(0), post(1, 4, true, true), N, N])), Ok(()));
    assert_eq!((m.cpu.regs[0], m.cpu.regs[1]), (0x1111_1111, 0x100));
    assert_eq!(m.execute(inst(InstructionKind::LDR, [reg(0), post(1, 4, false, true), N, N])), Ok(()));
    assert_eq!((m.cpu.regs[0], m.cpu.regs[1]), (0x2222_2222, 0xfc));
    assert_eq!(m.execute(inst(InstructionKind::LDR, [reg(0), post(1, 4, true, false), N, N])), Ok(()));
    assert_eq!((m.cpu.regs[0], m.cpu.regs[1]), (0x1111_1111, 0xfc));
}

#[test]
fn load_into_the_pc_is_a_jump() {
    let mut m = machine(&[(1, 0x100)]);
    m.write_memory_word(0x100, 0x0000_0201).unwrap();
    assert_eq!(m.execute(inst(InstructionKind::LDR, [reg(15), post(1, 4, true, true), N, N])), Ok(()));
    assert_eq!((m.cpu.regs[15], m.current_instr_set()), (0x200, InstrSet::Thumb));
    assert_eq!(m.cpu.regs[1], 0x104);
    let mut m = machine(&[(1, 0x100)]);
    assert_eq!(
        m.execute(inst(InstructionKind::LDR, [imm(0), at(1), N, N])),
        Err(VMError::Unimplemented)
    );
    assert_eq!(
        m.execute(inst(InstructionKind::LDR, [reg(0), reg(1), N, N])),
        Err(VMError::Unimplemented)
    );
}

#[test]
fn stores_by_width() {
    let mut m = machine(&[(1, 0x100), (2, 0x1234_5678)]);
    m.write_memory_word(0x100, 0xffff_ffff).unwrap();
    assert_eq!(m.execute(inst(InstructionKind::STRB, [reg(2), at(1), N, N])), Ok(()));
    assert_eq!(m.read_memory_word(0x100), Ok(0xffff_ff78));
    assert_eq!(m.execute(inst(InstructionKind::STRH, [reg(2), at(1), N, N])), Ok(()));
    assert_eq!(m.read_memory_word(0x100), Ok(0xffff_5678));
    assert_eq!(m.execute(inst(InstructionKind::STR, [reg(2), at(1), N, N])), Ok(()));
    assert_eq!(m.read_memory_word(0x100), Ok(0x1234_5678));
    assert_eq!(m.execute(inst(InstructionKind::STRT, [reg(1), pre(1, 4, true, true), N, N])), Ok(()));
    assert_eq!(m.read_memory_word(0x104), Ok(0x100));
    assert_eq!(m.cpu.regs[1], 0x104);
    assert_eq!(m.execute(inst(InstructionKind::STRBT, [imm(0xabcd), post(1, 1, false, true), N, N])), Ok(()));
    assert_eq!(m.read_memory_word(0x104), Ok(0x1cd));
    assert_eq!(m.cpu.regs[1], 0x103);
    assert_eq!(m.execute(inst(InstructionKind::STRHT, [imm(0xabcd), at(1), N, N])), Ok(()));
    assert_eq!(m.read_memory_word(0x100), Ok(0xcd34_5678));
    assert_eq!(m.read_memory(0x104), Ok(0xab));
    assert_eq!(m.store(Width::Byte, 0x300, 0x1ff), Ok(()));
    assert_eq!(m.read_memory_word(0x300), Ok(0xff));
}

#[test]
fn pc_is_stored_as_its_value() {
    let mut m = arm(0x100);
    m.cpu.regs[1] = 0x200;
    assert_eq!(m.execute(inst(InstructionKind::STR, [reg(15), at(1), N, N])), Ok(()));
    assert_eq!(m.read_memory_word(0x200), Ok(0x108));
}

#[test]
fn dual_loads_and_stores() {
    let mut m = machine(&[(1, 0x100), (2, 0xaaaa_aaaa), (3, 0xbbbb_bbbb)]);
    let strd = inst(InstructionKind::STRD, [reg(2), reg(3), pre(1, 8, true, true), N]);
    assert_eq!(m.execute(strd), Ok(()));
    assert_eq!(m.read_memory_word(0x108), Ok(0xaaaa_aaaa));
    assert_eq!(m.read_memory_word(0x10c), Ok(0xbbbb_bbbb));
    assert_eq!(m.cpu.regs[1], 0x108);
    let ldrd = inst(InstructionKind::LDRD, [reg(4), reg(5), post(1, 8, false, true), N]);
    assert_eq!(m.execute(ldrd), Ok(()));
    assert_eq!((m.cpu.regs[4], m.cpu.regs[5], m.cpu.regs[1]), (0xaaaa_aaaa, 0xbbbb_bbbb, 0x100));
    let mut m = machine(&[(1, 102400 + 1048576 - 4)]);
    m.serial.receive(0x55);
    m.serial.receive(0x01);
    m.serial.receive(0xff);
    assert_eq!(
        m.execute(inst(InstructionKind::LDRD, [reg(4), reg(5), at(1), N])),
        Err(VMError::NonBlockError)
    );
    assert_eq!(
        m.execute(inst(InstructionKind::LDRD, [reg(4), reg(5), reg(1), N])),
        Err(VMError::Unimplemented)
    );
}

#[test]
fn swaps() {
    let mut m = machine(&[(1, 0x1122_3344), (2, 0x100)]);
    m.write_memory_word(0x100, 0xaabb_ccdd).unwrap();
    assert_eq!(m.execute(inst(InstructionKind::SWP, [reg(0), reg(1), reg(2), N])), Ok(()));
    assert_eq!(m.cpu.regs[0], 0xaabb_ccdd);
    assert_eq!(m.read_memory_word(0x100), Ok(0x1122_3344));
    assert_eq!(m.execute(inst(InstructionKind::SWPB, [reg(0), reg(1), at(2), N])), Ok(()));
    assert_eq!(m.cpu.regs[0], 0x44);
    assert_eq!(m.read_memory_word(0x100), Ok(0x1122_3344));
    m.cpu.regs[1] = 0xff;
    assert_eq!(m.execute(inst(InstructionKind::SWPB, [reg(0), reg(1), at(2), N])), Ok(()));
    assert_eq!(m.cpu.regs[0], 0x44);
    assert_eq!(m.read_memory_word(0x100), Ok(0x1122_33ff));
    m.cpu.regs[2] = 0x101;
    m.write_memory_word(0x101, 0x0403_0201).unwrap();
    assert_eq!(m.execute(inst(InstructionKind::SWP, [reg(0), reg(1), reg(2), N])), Ok(()));
    assert_eq!(m.cpu.regs[0], 0x0104_0302);
    assert_eq!(m.read_memory_word(0x101), Ok(0xff));
    assert_eq!(m.operand_address(at(2)), Ok(0x101));
    assert_eq!(m.operand_address(reg(2)), Ok(0x101));
    assert_eq!(m.operand_address(imm(7)), Ok(7));
}

fn base(i: usize, wback: bool) -> Operand {
    Operand::RegWBack { reg_index: i, wback }
}

fn list(registers: u16) -> Operand {
    Operand::RegList { registers }
}

fn table() -> Machine {
    let mut m = machine(&[(0, 0x108)]);
    for i in 0..8u32 {
        m.write_memory_word(0x100 + 4 * i, 0x10 + i).unwrap();
    }
    m
}

#[test]
fn load_multiple_in_each_direction() {
    let run = |add, pre| {
        let mut m = table();
        let ldm = inst(InstructionKind::LDM { add, pre }, [base(0, true), list(0b0110), N, N]);
        assert_eq!(m.execute(ldm), Ok(()));
        (m.cpu.regs[1], m.cpu.regs[2], m.cpu.regs[0])
    };
    assert_eq!(run(true, false), (0x12, 0x13, 0x110));
    assert_eq!(run(true, true), (0x13, 0x14, 0x110));
    assert_eq!(run(false, false), (0x12, 0x11, 0x100));
    assert_eq!(run(false, true), (0x11, 0x10, 0x100));
    let mut m = table();
    let ldm =
        inst(InstructionKind::LDM { add: true, pre: false }, [base(0, false), list(0b0110), N, N]);
    assert_eq!(m.execute(ldm), Ok(()));
    assert_eq!((m.cpu.regs[1], m.cpu.regs[2], m.cpu.regs[0]), (0x12, 0x13, 0x108));
    let mut m = table();
    let none = inst(InstructionKind::LDM { add: true, pre: true }, [base(0, true), list(0), N, N]);
    assert_eq!(m.execute(none), Ok(()));
    assert_eq!(m.cpu.regs[0], 0x108);
}

#[test]
fn load_multiple_with_the_pc() {
    let mut m = table();
    m.write_memory_word(0x10c, 0x0000_0301).unwrap();
    let ldm = inst(
        InstructionKind::LDM { add: true, pre: false },
        [base(0, true), list(0x8002), N, N],
    );
    assert_eq!(m.execute(ldm), Ok(()));
    assert_eq!(m.cpu.regs[1], 0x12);
    assert_eq!((m.cpu.regs[15], m.current_instr_set()), (0x300, InstrSet::Thumb));
    assert_eq!(m.cpu.regs[0], 0x110);
}

#[test]
fn load_multiple_stops_at_a_failure() {
    let mut m = machine(&[(0, 102400 - 4)]);
    m.write_memory_word(102400 - 4, 0x77).unwrap();
    let ldm = inst(
        InstructionKind::LDM { add: true, pre: false },
        [base(0, true), list(0b1110), N, N],
    );
    assert_eq!(m.execute(ldm), Err(VMError::NonBlockError));
    assert_eq!((m.cpu.regs[1], m.cpu.regs[2], m.cpu.regs[3]), (0x77, 0, 0));
    assert_eq!(m.cpu.regs[0], 102400 - 4);
}

#[test]
fn store_multiple_in_each_direction() {
    let run = |add, pre| {
        let mut m = machine(&[(0, 0x108), (1, 0xa1), (2, 0xa2)]);
        let stm = inst(InstructionKind::STM { add, pre }, [base(0, true), list(0b0110), N, N]);
        assert_eq!(m.execute(stm), Ok(()));
        let words: Vec<u32> =
            (0..5).map(|i| m.read_memory_word(0x100 + 4 * i).unwrap()).collect();
        (words, m.cpu.regs[0])
    };
    assert_eq!(run(true, false), (vec![0, 0, 0xa1, 0xa2, 0], 0x110));
    assert_eq!(run(true, true), (vec![0, 0, 0, 0xa1, 0xa2], 0x110));
    assert_eq!(run(false, false), (vec![0, 0xa2, 0xa1, 0, 0], 0x100));
    assert_eq!(run(false, true), (vec![0xa2, 0xa1, 0, 0, 0], 0x100));
}

#[test]
fn multiple_needs_a_base() {
    let mut m = machine(&[(0, 0x108)]);
    let bad = inst(
        InstructionKind::LDM { add: true, pre: false },
        [Operand::Nothing, list(0b0110), N, N],
    );
    assert_eq!(m.execute(bad), Err(VMError::Unimplemented));
    assert_eq!(m.cpu.regs, machine(&[(0, 0x108)]).cpu.regs);
}

#[test]
fn store_multiple_stores_the_pc_value() {
    let mut m = arm(0x40);
    m.cpu.regs[0] = 0x108;
    m.cpu.regs[14] = 0xee;
    let stm = inst(
        InstructionKind::STM { add: true, pre: false },
        [base(0, false), list(0xc000), N, N],
    );
    assert_eq!(m.execute(stm), Ok(()));
    assert_eq!(m.read_memory_word(0x108), Ok(0xee));
    assert_eq!(m.read_memory_word(0x10c), Ok(0x48));
    assert_eq!(m.cpu.regs[0], 0x108);
}

#[test]
fn load_multiple_over_its_own_base() {
    let mut m = table();
    let ldm = inst(
        InstructionKind::LDM { add: true, pre: false },
        [base(0, true), list(0b0011), N, N],
    );
    assert_eq!(m.execute(ldm), Ok(()));
    assert_eq!(m.cpu.regs[1], 0x13);
    assert_eq!(m.cpu.regs[0], 0x110);
}

#[test]
fn push_and_pop() {
    let mut m = machine(&[(13, 0x200), (1, 0x11), (2, 0x22), (14, 0xee)]);
    let push = inst(InstructionKind::PUSH, [list(0x4006), N, N, N]);
    assert_eq!(m.execute(push), Ok(()));
    assert_eq!(m.cpu.regs[13], 0x1f4);
    assert_eq!(m.read_memory_word(0x1f4), Ok(0x11));
    assert_eq!(m.read_memory_word(0x1f8), Ok(0x22));
    assert_eq!(m.read_memory_word(0x1fc), Ok(0xee));
    m.cpu.regs[1] = 0;
    m.cpu.regs[2] = 0;
    m.cpu.regs[14] = 0;
    let pop = inst(InstructionKind::POP, [list(0x4006), N, N, N]);
    assert_eq!(m.execute(pop), Ok(()));
    assert_eq!((m.cpu.regs[1], m.cpu.regs[2], m.cpu.regs[14]), (0x11, 0x22, 0xee));
    assert_eq!(m.cpu.regs[13], 0x200);
}

#[test]
fn pop_into_the_pc_is_a_jump() {
    let mut m = machine(&[(13, 0x1f8)]);
    m.write_memory_word(0x1f8, 0x44).unwrap();
    m.write_memory_word(0x1fc, 0x501).unwrap();
    let pop = inst(InstructionKind::POP, [list(0x8010), N, N, N]);
    assert_eq!(m.execute(pop), Ok(()));
    assert_eq!(m.cpu.regs[4], 0x44);
    assert_eq!((m.cpu.regs[15], m.current_instr_set()), (0x500, InstrSet::Thumb));
    assert_eq!(m.cpu.regs[13], 0x200);
}

#[test]
fn push_below_zero_is_a_bus_error() {
    let mut m = machine(&[(13, 0), (1, 0x11)]);
    let push = inst(InstructionKind::PUSH, [list(0b10), N, N, N]);
    assert_eq!(m.execute(push), Err(VMError::BusError));
    assert_eq!(m.cpu.regs[13], 0);
}
