use arm_vm::cpu::InstrSet;
use arm_vm::fetch::Attempt;
use arm_vm::instruction::{Condition, Instruction, InstructionKind, Operand};
use arm_vm::machine::Machine;
use arm_vm::vmerror::VMError;

const N: Operand = Operand::Nothing;

fn reg(i: usize) -> Operand {
    Operand::Register { reg_index: i }
}

fn imm(value: u32) -> Operand {
    Operand::Immediate { value }
}

fn inst(kind: InstructionKind, operands: [Operand; 4]) -> Instruction {
    Instruction { cond: Condition::AL, setflags: false, kind, operands }
}

/// Executes an instruction as the one that begins at the PC: marks the PC
/// and moves it past the instruction first.
fn step_with(m: &mut Machine, size: u32, instruction: Instruction) -> Result<(), VMError> {
    m.mark();
    let next = m.cpu.regs[15].wrapping_add(size);
    m.branch_to(next);
    m.execute(instruction)
}

#[test]
fn infinite_loop_counts_up() {
    let mut m = Machine::default();
    m.write_memory_n(0, &[0x01, 0x00, 0x80, 0xe2, 0xfc, 0xff, 0xff, 0xea]).unwrap();
    for count in 1..=120u32 {
        assert_eq!(m.cpu.regs[15], 0);
        assert_eq!(m.step(), Ok(()));
        assert_eq!(m.cpu.regs[0], count);
        assert_eq!(m.cpu.regs[15], 4);
        assert_eq!(m.step(), Ok(()));
        assert_eq!(m.cpu.regs[0], count);
        assert_eq!(m.cpu.regs[15], 0);
        assert_eq!(m.current_instr_set(), InstrSet::Arm);
    }
    assert_eq!(m.run(201), Ok(()));
    assert_eq!(m.cpu.regs[0], 221);
    assert_eq!(m.cpu.regs[15], 4);
    assert_eq!(m.cpu.cpsr.0, 0x1d3);
    assert!(m.serial.outgoing.is_empty());
}

#[test]
fn thumb_it_block_from_bytes() {
    for z in [true, false] {
        let mut m = Machine::default();
        m.select_instr_set(InstrSet::Thumb);
        m.cpu.cpsr.set_z(z);
        m.write_memory_n(0, &[0x08, 0xbf, 0x01, 0x20, 0x02, 0x21]).unwrap();
        assert_eq!(m.step(), Ok(()));
        assert!(m.in_it_block());
        assert_eq!(m.cpu.it_state().0, 0x08);
        assert_eq!(m.step(), Ok(()));
        assert!(!m.in_it_block());
        assert_eq!(m.cpu.regs[0], if z { 1 } else { 0 });
        assert_eq!(m.cpu.cpsr.z(), z);
        assert_eq!(m.step(), Ok(()));
        assert_eq!(m.cpu.regs[1], 2);
        assert!(!m.cpu.cpsr.z());
        assert_eq!(m.cpu.regs[15], 6);
    }
}

#[test]
fn store_then_load_from_bytes() {
    let mut m = Machine::default();
    m.write_memory_word(0, 0xe581_2000).unwrap();
    m.write_memory_word(4, 0xe591_3000).unwrap();
    m.cpu.regs[1] = 0x100;
    m.cpu.regs[2] = 0xdead_beef;
    assert_eq!(m.run(2), Ok(()));
    assert_eq!(m.cpu.regs[3], 0xdead_beef);
    assert_eq!(&m.memory.data[0x100..0x104], &[0xef, 0xbe, 0xad, 0xde]);
    assert_eq!(m.cpu.regs[1], 0x100);
    assert_eq!(m.cpu.regs[15], 8);
}

#[test]
fn adds_sets_carry_and_zero() {
    let mut m = Machine::default();
    m.write_memory_word(0, 0xe091_0002).unwrap();
    m.cpu.regs[1] = 0xffff_ffff;
    m.cpu.regs[2] = 1;
    assert_eq!(m.run(1), Ok(()));
    assert_eq!(m.cpu.regs[0], 0);
    assert!(m.cpu.cpsr.c());
    assert!(m.cpu.cpsr.z());
    assert!(!m.cpu.cpsr.n());
    assert!(!m.cpu.cpsr.v());
    assert_eq!(m.cpu.regs[15], 4);
}

#[test]
fn adds_sets_overflow() {
    let mut m = Machine::default();
    m.write_memory_word(0, 0xe091_0002).unwrap();
    m.cpu.regs[1] = 0x7fff_ffff;
    m.cpu.regs[2] = 1;
    assert_eq!(m.step(), Ok(()));
    assert_eq!(m.cpu.regs[0], 0x8000_0000);
    assert!(m.cpu.cpsr.n());
    assert!(!m.cpu.cpsr.z());
    assert!(!m.cpu.cpsr.c());
    assert!(m.cpu.cpsr.v());
}

#[test]
fn add_with_shifted_register() {
    let mut m = Machine::default();
    m.write_memory_word(0, 0xe081_0202).unwrap();
    m.cpu.regs[1] = 2;
    m.cpu.regs[2] = 3;
    assert_eq!(m.step(), Ok(()));
    assert_eq!(m.cpu.regs[0], 50);
    assert_eq!(m.cpu.cpsr.0, 0x1d3);
}

fn it_then_move(z: bool) -> Machine {
    let mut m = Machine::default();
    m.select_instr_set(InstrSet::Thumb);
    m.cpu.cpsr.set_z(z);
    let it = inst(InstructionKind::IT, [imm(0), imm(0b1000), N, N]);
    assert_eq!(step_with(&mut m, 2, it), Ok(()));
    assert!(m.in_it_block());
    assert_eq!(m.cpu.it_state().0, 0x08);
    let mov = inst(InstructionKind::MOV, [reg(0), imm(1), N, N]);
    assert_eq!(step_with(&mut m, 2, mov), Ok(()));
    assert!(!m.in_it_block());
    assert_eq!(m.cpu.it_state().0, 0);
    assert_eq!(m.cpu.regs[15], 4);
    m
}

#[test]
fn it_block_of_one_with_condition_met() {
    let m = it_then_move(true);
    assert_eq!(m.cpu.regs[0], 1);
    assert!(m.cpu.cpsr.z());
}

#[test]
fn it_block_of_one_with_condition_not_met() {
    let m = it_then_move(false);
    assert_eq!(m.cpu.regs[0], 0);
    assert!(!m.cpu.cpsr.z());
}

#[test]
fn it_block_then_else() {
    for z in [true, false] {
        let mut m = Machine::default();
        m.select_instr_set(InstrSet::Thumb);
        m.cpu.cpsr.set_z(z);
        let ite = inst(InstructionKind::IT, [imm(0), imm(0b1100), N, N]);
        assert_eq!(step_with(&mut m, 2, ite), Ok(()));
        assert_eq!(m.cpu.it_state().0, 0x0c);
        let then = inst(InstructionKind::MOV, [reg(0), imm(1), N, N]);
        assert_eq!(step_with(&mut m, 2, then), Ok(()));
        assert_eq!(m.cpu.it_state().0, 0x18);
        assert!(m.in_it_block());
        let otherwise = inst(InstructionKind::MOV, [reg(1), imm(1), N, N]);
        assert_eq!(step_with(&mut m, 2, otherwise), Ok(()));
        assert_eq!(m.cpu.it_state().0, 0);
        assert!(!m.in_it_block());
        assert_eq!((m.cpu.regs[0], m.cpu.regs[1]), if z { (1, 0) } else { (0, 1) });
        let after = inst(InstructionKind::MOV, [reg(2), imm(1), N, N]);
        assert_eq!(step_with(&mut m, 2, after), Ok(()));
        assert_eq!(m.cpu.regs[2], 1);
    }
}

#[test]
fn it_block_of_four() {
    let mut m = Machine::default();
    m.select_instr_set(InstrSet::Thumb);
    let it = inst(InstructionKind::IT, [imm(1), imm(0b1111), N, N]);
    assert_eq!(step_with(&mut m, 2, it), Ok(()));
    let expected = [0x1f, 0x1e, 0x1c, 0x18, 0x00];
    for i in 0..4 {
        assert_eq!(m.cpu.it_state().0, expected[i]);
        assert!(m.in_it_block());
        let mut mov = inst(InstructionKind::MOV, [reg(i), imm(7), N, N]);
        mov.cond = Condition::EQ;
        assert_eq!(step_with(&mut m, 2, mov), Ok(()));
    }
    assert_eq!(m.cpu.it_state().0, 0);
    assert_eq!(&m.cpu.regs[0..4], &[7, 7, 7, 7]);
}

#[test]
fn failed_instruction_keeps_the_it_state() {
    let mut m = Machine::default();
    m.select_instr_set(InstrSet::Thumb);
    m.cpu.cpsr.set_z(true);
    m.cpu.cpsr.set_it(0x08);
    let bad = inst(InstructionKind::QADD, [reg(0), reg(1), reg(2), N]);
    assert_eq!(step_with(&mut m, 2, bad), Err(VMError::Unimplemented));
    assert_eq!(m.cpu.it_state().0, 0x08);
    let bkpt = inst(InstructionKind::BKPT, [N, N, N, N]);
    assert_eq!(step_with(&mut m, 2, bkpt), Ok(()));
    assert_eq!(m.cpu.it_state().0, 0x08);
}

#[test]
fn store_then_load_round_trip() {
    let mut m = Machine::default();
    m.cpu.regs[1] = 0x100;
    m.cpu.regs[2] = 0xdead_beef;
    let str = inst(InstructionKind::STR, [reg(2), Operand::RegDeref { reg_index: 1 }, N, N]);
    let ldr = inst(InstructionKind::LDR, [reg(3), Operand::RegDeref { reg_index: 1 }, N, N]);
    assert_eq!(step_with(&mut m, 4, str), Ok(()));
    assert_eq!(step_with(&mut m, 4, ldr), Ok(()));
    assert_eq!(m.cpu.regs[3], 0xdead_beef);
    assert_eq!(&m.memory.data[0x100..0x104], &[0xef, 0xbe, 0xad, 0xde]);
    assert_eq!(m.cpu.regs[15], 8);
}

#[test]
fn run_stops_at_the_first_failure() {
    let mut m = Machine::default();
    m.write_memory_word(0, 0xe280_0001).unwrap();
    m.write_memory_word(4, 0xe280_0002).unwrap();
    m.write_memory_word(8, 0xe7f0_00f0).unwrap();
    assert_eq!(m.run(0), Ok(()));
    assert_eq!(m.cpu.regs[15], 0);
    assert_eq!(m.run(10), Err(VMError::DecodeError));
    assert_eq!(m.cpu.regs[0], 3);
    assert_eq!(m.cpu.regs[15], 12);
    assert_eq!(m.mark, 8);
}

#[test]
fn run_in_thumb_state() {
    let mut m = Machine::default();
    m.select_instr_set(InstrSet::Thumb);
    m.write_memory_halfword(0, 0x3005).unwrap();
    m.write_memory_halfword(2, 0xf100).unwrap();
    m.write_memory_halfword(4, 0x0103).unwrap();
    m.write_memory_halfword(6, 0x4408).unwrap();
    assert_eq!(m.run(3), Ok(()));
    assert_eq!(m.cpu.regs[0], 13);
    assert_eq!(m.cpu.regs[1], 8);
    assert_eq!(m.cpu.regs[15], 8);
    assert_eq!(m.cpu.cpsr.0, 0x1d3 | 0x20);
}

#[test]
fn run_reads_code_from_remote_memory() {
    let mut m = Machine::default();
    m.branch_to(102400);
    for byte in [0x01u8, 0x00, 0x80, 0xe2] {
        m.serial.receive(0x55);
        m.serial.receive(byte);
        m.serial.receive(0xff);
    }
    assert_eq!(m.step(), Ok(()));
    assert_eq!(m.cpu.regs[0], 1);
    assert_eq!(m.cpu.regs[15], 102404);
    assert_eq!(m.serial.outgoing.len(), 4 * 7);
    assert_eq!(m.step(), Err(VMError::NonBlockError));
}

#[test]
fn attempt_waits_for_the_host_and_changes_nothing_meanwhile() {
    let mut m = Machine::default();
    // SWP R0, R1, [R2] on the word that lies across the end of local memory.
    m.write_memory_word(0, 0xe102_0091).unwrap();
    m.cpu.regs[1] = 0x4433_2211;
    m.cpu.regs[2] = 102400 - 2;
    m.write_memory(102400 - 2, 0xaa).unwrap();
    m.write_memory(102400 - 1, 0xbb).unwrap();
    let reply = [0x55, 0xcc, 0xff, 0x55, 0xdd, 0xff, 0x55, 0x55];
    for heard in 0..reply.len() {
        assert!(matches!(m.attempt(&reply[..heard]), Attempt::Starved));
        assert_eq!(m.cpu.regs[0], 0);
        assert_eq!(m.cpu.regs[15], 0);
        assert_eq!(m.read_memory(102400 - 2), Ok(0xaa));
        assert_eq!(m.read_memory(102400 - 1), Ok(0xbb));
    }
    assert!(matches!(m.attempt(&reply), Attempt::Done(Ok(()))));
    assert_eq!(m.cpu.regs[0], 0xbbaa_ddcc);
    assert_eq!(m.cpu.regs[15], 4);
    assert_eq!(m.read_memory(102400 - 2), Ok(0x11));
    assert_eq!(m.read_memory(102400 - 1), Ok(0x22));
    assert_eq!(
        m.serial.outgoing,
        vec![
            0xaa, 1, 0, 0, 0, 0, 0xff, 0xaa, 1, 1, 0, 0, 0, 0xff, 0xaa, 2, 0, 0, 0, 0, 0x33, 0xff,
            0xaa, 2, 1, 0, 0, 0, 0x44, 0xff
        ]
    );
}

#[test]
fn attempt_without_the_host_is_a_step() {
    let mut m = Machine::default();
    m.write_memory_word(0, 0xe280_0001).unwrap();
    assert!(matches!(m.attempt(&[]), Attempt::Done(Ok(()))));
    assert_eq!(m.cpu.regs[0], 1);
    m.write_memory_word(4, 0xffff_ffff).unwrap();
    assert!(matches!(m.attempt(&[]), Attempt::Done(Err(VMError::DecodeError))));
    assert_eq!(m.cpu.regs[15], 8);
}
