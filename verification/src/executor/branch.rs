//! Branches.

use crate::cpu::{InstrSet, iset_value, LR_INDEX, with_iset};
use crate::executor::transfer::{load_spec, operand_address_spec, Width};
use crate::instruction::{Instruction, InstructionKind, Operand};
use crate::machine::{
    align_spec, alu_write_pc_spec, branch_write_pc_spec, bw_write_pc_spec, Machine, read_spec,
    State, write_spec,
};
use crate::vmerror::VMError;
use vstd::prelude::*;

verus! {

/// A value with its lowest bit set.
pub open spec fn low_bit_set(value: u32) -> u32 {
    (value - value % 2 + 1) as u32
}

/// The instruction set that a branch with link and exchange by an offset
/// goes to: the other one of ARM and Thumb.
pub open spec fn exchanged(iset: InstrSet) -> InstrSet {
    match iset {
        InstrSet::Arm => InstrSet::Thumb,
        InstrSet::Thumb => InstrSet::Arm,
        other => other,
    }
}

/// Whether the instruction is a branch that is subject to its condition.
pub open spec fn is_branch(kind: InstructionKind) -> bool {
    matches!(
        kind,
        InstructionKind::B
            | InstructionKind::BL
            | InstructionKind::BLX
            | InstructionKind::BX
            | InstructionKind::ADR
    )
}

/// A branch. B jumps to the PC value plus its offset and keeps the
/// instruction set. BX jumps to the value of its operand, which picks the
/// instruction set. BL and BLX put the return address into LR: the PC value
/// less 4 in ARM state; in any other state the PC value with its low bit
/// set, taken 2 lower first where the target is in a register. With a
/// register they then jump as BX does. With an offset BL keeps the
/// instruction set and BLX changes to the other one, and the target is the
/// PC value plus the offset, the PC value brought down to a word boundary
/// first where the target is ARM code. ADR stores the PC value, brought
/// down to a word boundary, plus its second operand in the register that is
/// its first operand, which for the PC is a jump.
#[verifier::opaque]
pub open spec fn branch_step(s: State, inst: Instruction) -> (State, Result<(), VMError>) {
    match inst.kind {
        InstructionKind::B => {
            let (s1, r) = read_spec(s, inst.operands@[0]);
            match r {
                Err(e) => (s1, Err(e)),
                Ok(imm32) => branch_write_pc_spec(s1, s1.pc_value().wrapping_add(imm32)),
            }
        },
        InstructionKind::BX => {
            let (s1, r) = read_spec(s, inst.operands@[0]);
            match r {
                Err(e) => (s1, Err(e)),
                Ok(target) => bw_write_pc_spec(s1, target),
            }
        },
        InstructionKind::ADR => {
            let (s1, r) = read_spec(s, inst.operands@[1]);
            match r {
                Err(e) => (s1, Err(e)),
                Ok(n) => match inst.operands@[0] {
                    Operand::Register { reg_index } => if reg_index == 15 {
                        alu_write_pc_spec(s1, align_spec(s1.pc_value(), 4).wrapping_add(n))
                    } else {
                        write_spec(
                            s1,
                            inst.operands@[0],
                            align_spec(s1.pc_value(), 4).wrapping_add(n),
                        )
                    },
                    _ => (s1, Err(VMError::Unimplemented)),
                },
            }
        },
        _ => match inst.operands@[0] {
            Operand::Register { reg_index } => {
                let target = s.reg(reg_index as int);
                let lr = if s.instr_set() == InstrSet::Arm {
                    s.pc_value().wrapping_sub(4)
                } else {
                    low_bit_set(s.pc_value().wrapping_sub(2))
                };
                bw_write_pc_spec(s.with_reg(14, lr), target)
            },
            Operand::BranchOffset { .. }
            | Operand::BranchThumbOffset { .. }
            | Operand::Immediate { .. } => {
                let (s1, r) = read_spec(s, inst.operands@[0]);
                match r {
                    Err(e) => (s1, Err(e)),
                    Ok(imm32) => {
                        let pc = s1.pc_value();
                        let lr = if s1.instr_set() == InstrSet::Arm {
                            pc.wrapping_sub(4)
                        } else {
                            low_bit_set(pc)
                        };
                        let target_set = if inst.kind == InstructionKind::BLX {
                            exchanged(s1.instr_set())
                        } else {
                            s1.instr_set()
                        };
                        let target = if target_set == InstrSet::Arm {
                            align_spec(pc, 4).wrapping_add(imm32)
                        } else {
                            pc.wrapping_add(imm32)
                        };
                        let s2 = s1.with_reg(14, lr);
                        branch_write_pc_spec(
                            s2.with_cpsr(with_iset(s2.cpsr, iset_value(target_set))),
                            target,
                        )
                    },
                }
            },
            _ => (s, Err(VMError::Unimplemented)),
        },
    }
}

/// Compare and branch: where the first operand is zero for CBZ, or is not
/// for CBNZ, a jump to the PC value plus the second operand; else nothing.
#[verifier::opaque]
pub open spec fn compare_branch_step(s: State, inst: Instruction) -> (State, Result<(), VMError>) {
    let (s1, rn) = read_spec(s, inst.operands@[0]);
    match rn {
        Err(e) => (s1, Err(e)),
        Ok(n) => {
            let (s2, rm) = read_spec(s1, inst.operands@[1]);
            match rm {
                Err(e) => (s2, Err(e)),
                Ok(m) => if (n == 0) == (inst.kind == InstructionKind::CBZ) {
                    branch_write_pc_spec(s2, s2.pc_value().wrapping_add(m))
                } else {
                    (s2, Ok(()))
                },
            }
        },
    }
}

/// A table branch: the byte (TBB) or halfword (TBH) at the address that
/// the operand gives is doubled and added to the PC value, and that is
/// where the jump goes.
#[verifier::opaque]
pub open spec fn table_branch_step(s: State, inst: Instruction) -> (State, Result<(), VMError>) {
    let (s1, r1) = operand_address_spec(s, inst.operands@[0]);
    match r1 {
        Err(e) => (s1, Err(e)),
        Ok(address) => {
            let (s2, r2) = load_spec(
                s1,
                if inst.kind == InstructionKind::TBB {
                    Width::Byte
                } else {
                    Width::Halfword
                },
                address,
            );
            match r2 {
                Err(e) => (s2, Err(e)),
                Ok(entry) => branch_write_pc_spec(
                    s2,
                    s2.pc_value().wrapping_add((2 * entry) as u32),
                ),
            }
        },
    }
}

impl Machine {
    /// Carries out a branch or ADR.
    pub(crate) fn execute_branch(&mut self, inst: Instruction) -> (r: Result<(), VMError>)
        requires
            inst.wf(),
            is_branch(inst.kind),
        ensures
            (final(self)@, r) == branch_step(old(self)@, inst),
    {
        reveal(branch_step);
        match inst.kind {
            InstructionKind::B => {
                let imm32 = self.read(inst.operands[0])?;
                self.branch_write_pc(self.pc_value().wrapping_add(imm32))
            },
            InstructionKind::BX => {
                let target = self.read(inst.operands[0])?;
                self.bw_write_pc(target)
            },
            InstructionKind::ADR => {
                let n = self.read(inst.operands[1])?;
                let result = self.align(self.pc_value(), 4).wrapping_add(n);
                match inst.operands[0] {
                    Operand::Register { reg_index } => {
                        if reg_index == 15 {
                            self.alu_write_pc(result)
                        } else {
                            self.write(inst.operands[0], result)
                        }
                    },
                    _ => Err(VMError::Unimplemented),
                }
            },
            _ => match inst.operands[0] {
                Operand::Register { reg_index } => {
                    let target = self.reg(reg_index);
                    let pc = self.pc_value();
                    if let InstrSet::Arm = self.current_instr_set() {
                        self.cpu.regs[LR_INDEX] = pc.wrapping_sub(4);
                    } else {
                        let below = pc.wrapping_sub(2);
                        self.cpu.regs[LR_INDEX] = below - below % 2 + 1;
                    }
                    self.bw_write_pc(target)
                },
                Operand::BranchOffset { .. }
                | Operand::BranchThumbOffset { .. }
                | Operand::Immediate { .. } => {
                    let imm32 = self.read(inst.operands[0])?;
                    let pc = self.pc_value();
                    let current = self.current_instr_set();
                    if let InstrSet::Arm = current {
                        self.cpu.regs[LR_INDEX] = pc.wrapping_sub(4);
                    } else {
                        self.cpu.regs[LR_INDEX] = pc - pc % 2 + 1;
                    }
                    let target_set = if let InstructionKind::BLX = inst.kind {
                        match current {
                            InstrSet::Arm => InstrSet::Thumb,
                            InstrSet::Thumb => InstrSet::Arm,
                            other => other,
                        }
                    } else {
                        current
                    };
                    let target = if let InstrSet::Arm = target_set {
                        self.align(pc, 4).wrapping_add(imm32)
                    } else {
                        pc.wrapping_add(imm32)
                    };
                    self.select_instr_set(target_set);
                    self.branch_write_pc(target)
                },
                _ => Err(VMError::Unimplemented),
            },
        }
    }

    /// Carries out a compare and branch.
    pub(crate) fn execute_compare_branch(&mut self, inst: Instruction) -> (r: Result<(), VMError>)
        requires
            inst.wf(),
        ensures
            (final(self)@, r) == compare_branch_step(old(self)@, inst),
    {
        reveal(compare_branch_step);
        let on_zero = matches!(inst.kind, InstructionKind::CBZ);
        let n = self.read(inst.operands[0])?;
        let m = self.read(inst.operands[1])?;
        if (n == 0) == on_zero {
            self.branch_write_pc(self.pc_value().wrapping_add(m))
        } else {
            Ok(())
        }
    }

    /// Carries out a table branch.
    pub(crate) fn execute_table_branch(&mut self, inst: Instruction) -> (r: Result<(), VMError>)
        requires
            inst.wf(),
        ensures
            (final(self)@, r) == table_branch_step(old(self)@, inst),
    {
        reveal(table_branch_step);
        let address = self.operand_address(inst.operands[0])?;
        let width = if let InstructionKind::TBB = inst.kind {
            Width::Byte
        } else {
            Width::Halfword
        };
        let entry = self.load(width, address)?;
        self.branch_write_pc(self.pc_value().wrapping_add(2 * entry))
    }
}

} // verus!
