//! What executing an instruction does to the machine.

pub mod branch;
pub mod compute;
pub mod multiple;
pub mod transfer;

use crate::alu::{is_comparison, is_data_processing};
use crate::bits::with_bit;
use crate::cpu::{it_of, with_it};
use crate::executor::branch::{branch_step, compare_branch_step, is_branch, table_branch_step};
use crate::executor::compute::{
    comparison_step, data_processing_step, insertion_step, is_insertion, long_multiply_step,
    value_step,
};
use crate::executor::multiple::{multiple_step, stack_step};
use crate::executor::transfer::{
    load_dual_step, load_step, load_width, store_dual_step, store_step, store_width, swap_step,
};
use crate::instruction::{Condition, Instruction, InstructionKind};
use crate::machine::{condition_holds, Machine, read_spec, State, write_spec};
use crate::multiply::is_long_multiply;
use crate::parallel::lanes_of;
use crate::values::{sources, value_sources};
use crate::vmerror::VMError;
use vstd::prelude::*;

verus! {

/// The status word with N, Z, C and V set from a result: N its top bit, Z
/// whether it is zero, C and V as given.
pub open spec fn with_nzcv(cpsr: u32, result: u32, carry: bool, overflow: bool) -> u32 {
    with_bit(
        with_bit(with_bit(with_bit(cpsr, 31, result >= 0x8000_0000), 30, result == 0), 29, carry),
        28,
        overflow,
    )
}

/// The status word with N and Z set from a result.
pub open spec fn with_nz(cpsr: u32, negative: bool, zero: bool) -> u32 {
    with_bit(with_bit(cpsr, 31, negative), 30, zero)
}

/// A move between a register and a status register: the first operand
/// takes the value of the second.
#[verifier::opaque]
pub open spec fn transfer_step(s: State, inst: Instruction) -> (State, Result<(), VMError>) {
    let (s1, r) = read_spec(s, inst.operands@[1]);
    match r {
        Err(e) => (s1, Err(e)),
        Ok(value) => write_spec(s1, inst.operands@[0], value),
    }
}

/// The IT state that an IT instruction sets up: the condition in the high
/// four bits, the mask in the low four.
pub open spec fn it_value(firstcond: u32, mask: u32) -> u8 {
    ((firstcond % 16) * 16 + mask % 16) as u8
}

/// An IT instruction: the IT state takes the condition and the mask that
/// the two operands give.
#[verifier::opaque]
pub open spec fn it_step(s: State, inst: Instruction) -> (State, Result<(), VMError>) {
    let (s1, rf) = read_spec(s, inst.operands@[0]);
    match rf {
        Err(e) => (s1, Err(e)),
        Ok(firstcond) => {
            let (s2, rm) = read_spec(s1, inst.operands@[1]);
            match rm {
                Err(e) => (s2, Err(e)),
                Ok(mask) => (s2.with_cpsr(with_it(s2.cpsr, it_value(firstcond, mask))), Ok(())),
            }
        },
    }
}

/// What an instruction does once its condition has passed. An instruction
/// that the machine does not carry out fails and changes nothing.
pub open spec fn perform_spec(s: State, inst: Instruction) -> (State, Result<(), VMError>) {
    if is_data_processing(inst.kind) {
        data_processing_step(s, inst)
    } else if is_comparison(inst.kind) {
        comparison_step(s, inst)
    } else if value_sources(inst.kind) >= 1 {
        value_step(s, inst)
    } else if is_insertion(inst.kind) {
        insertion_step(s, inst)
    } else if is_long_multiply(inst.kind) {
        long_multiply_step(s, inst)
    } else if is_branch(inst.kind) {
        branch_step(s, inst)
    } else if load_width(inst.kind) is Some {
        load_step(s, inst)
    } else if store_width(inst.kind) is Some {
        store_step(s, inst)
    } else {
        match inst.kind {
            InstructionKind::LDRD => load_dual_step(s, inst),
            InstructionKind::STRD => store_dual_step(s, inst),
            InstructionKind::SWP | InstructionKind::SWPB => swap_step(s, inst),
            InstructionKind::TBB | InstructionKind::TBH => table_branch_step(s, inst),
            InstructionKind::LDM { .. } | InstructionKind::STM { .. } => multiple_step(s, inst),
            InstructionKind::POP | InstructionKind::PUSH => stack_step(s, inst),
            InstructionKind::MRS | InstructionKind::MSR => transfer_step(s, inst),
            InstructionKind::IT => it_step(s, inst),
            InstructionKind::CBZ | InstructionKind::CBNZ => compare_branch_step(s, inst),
            InstructionKind::NOP | InstructionKind::LEAVEX | InstructionKind::BKPT => (
                s,
                Ok(()),
            ),
            _ => (s, Err(VMError::Unimplemented)),
        }
    }
}

/// Whether an IT block is under way.
pub open spec fn in_it_block_spec(s: State) -> bool {
    it_of(s.cpsr) % 16 != 0
}

/// The IT state one instruction on: the low five bits move up by one place,
/// and once the low three bits were zero the block is over and all is zero.
pub open spec fn it_advance(it: u8) -> u8 {
    if it % 8 == 0 {
        0
    } else {
        ((it / 32) * 32 + (it % 16) * 2) as u8
    }
}

/// The condition that governs an instruction: inside an IT block the one
/// that the IT state holds, outside it the one that the instruction carries.
pub open spec fn governing_condition(s: State, inst: Instruction) -> Condition {
    if in_it_block_spec(s) {
        Condition::parse_spec(it_of(s.cpsr) / 16)
    } else {
        inst.cond
    }
}

/// The state with its IT state moved one instruction on.
pub open spec fn advanced(s: State) -> State {
    s.with_cpsr(with_it(s.cpsr, it_advance(it_of(s.cpsr))))
}

/// What executing an instruction does. BKPT does nothing, and a compare and
/// branch is carried out, whatever the flags are. Any other instruction is
/// carried out where its governing condition holds and skipped where not.
/// Inside an IT block the IT state then moves on, unless the instruction
/// failed or was itself an IT instruction.
pub open spec fn execute_spec(s: State, inst: Instruction) -> (State, Result<(), VMError>) {
    if inst.kind == InstructionKind::BKPT {
        (s, Ok(()))
    } else if inst.kind == InstructionKind::CBZ || inst.kind == InstructionKind::CBNZ {
        compare_branch_step(s, inst)
    } else {
        let (s1, r) = if condition_holds(s.cpsr, governing_condition(s, inst)) {
            perform_spec(s, inst)
        } else {
            (s, Ok(()))
        };
        match r {
            Err(e) => (s1, Err(e)),
            Ok(_) => if in_it_block_spec(s) && inst.kind != InstructionKind::IT {
                (advanced(s1), Ok(()))
            } else {
                (s1, Ok(()))
            },
        }
    }
}

/// No lane-wise instruction belongs to another family.
proof fn lemma_lanes_kinds(kind: InstructionKind)
    ensures
        lanes_of(kind) is Some ==> !is_data_processing(kind) && !is_comparison(kind)
            && !is_insertion(kind) && !is_long_multiply(kind) && !is_branch(kind),
{
}

impl Machine {
    /// Sets N, Z, C and V from a result.
    pub fn set_nzcv(&mut self, result: u32, carry: bool, overflow: bool)
        ensures
            final(self)@ == old(self)@.with_cpsr(
                with_nzcv(old(self)@.cpsr, result, carry, overflow),
            ),
    {
        let mut apsr = self.cpu.apsr_mut();
        apsr.set_n(result >= 0x8000_0000);
        apsr.set_z(result == 0);
        apsr.set_c(carry);
        apsr.set_v(overflow);
    }

    /// Sets N and Z.
    pub fn set_nz(&mut self, negative: bool, zero: bool)
        ensures
            final(self)@ == old(self)@.with_cpsr(with_nz(old(self)@.cpsr, negative, zero)),
    {
        let mut apsr = self.cpu.apsr_mut();
        apsr.set_n(negative);
        apsr.set_z(zero);
    }

    /// Carries out a move from or to a status register.
    pub(crate) fn execute_transfer(&mut self, inst: Instruction) -> (r: Result<(), VMError>)
        requires
            inst.wf(),
        ensures
            (final(self)@, r) == transfer_step(old(self)@, inst),
    {
        reveal(transfer_step);
        let value = self.read(inst.operands[1])?;
        self.write(inst.operands[0], value)
    }

    /// Carries out an IT instruction.
    pub(crate) fn execute_it(&mut self, inst: Instruction) -> (r: Result<(), VMError>)
        requires
            inst.wf(),
        ensures
            (final(self)@, r) == it_step(old(self)@, inst),
    {
        reveal(it_step);
        let firstcond = self.read(inst.operands[0])?;
        let mask = self.read(inst.operands[1])?;
        self.cpu.it_state_mut().set_value(((firstcond % 16) * 16 + mask % 16) as u8);
        Ok(())
    }

    /// Carries an instruction out, whatever its condition is.
    pub fn perform(&mut self, inst: Instruction) -> (r: Result<(), VMError>)
        requires
            inst.wf(),
        ensures
            (final(self)@, r) == perform_spec(old(self)@, inst),
    {
        proof {
            lemma_lanes_kinds(inst.kind);
        }
        match inst.kind {
            InstructionKind::ADC
            | InstructionKind::ADD
            | InstructionKind::AND
            | InstructionKind::ASR
            | InstructionKind::BIC
            | InstructionKind::EOR
            | InstructionKind::LSL
            | InstructionKind::LSR
            | InstructionKind::MOV
            | InstructionKind::MUL
            | InstructionKind::MVN
            | InstructionKind::ORN
            | InstructionKind::ORR
            | InstructionKind::ROR
            | InstructionKind::RRX
            | InstructionKind::RSB
            | InstructionKind::RSC
            | InstructionKind::SBC
            | InstructionKind::SUB => self.execute_data_processing(inst),
            InstructionKind::CMN
            | InstructionKind::CMP
            | InstructionKind::TST
            | InstructionKind::TEQ => self.execute_comparison(inst),
            InstructionKind::BFC | InstructionKind::BFI | InstructionKind::MOVT => {
                self.execute_insertion(inst)
            },
            InstructionKind::SMULL
            | InstructionKind::UMULL
            | InstructionKind::SMLAL
            | InstructionKind::UMLAL
            | InstructionKind::UMAAL
            | InstructionKind::SMLALD { .. }
            | InstructionKind::SMLSLD { .. } => self.execute_long_multiply(inst),
            InstructionKind::B
            | InstructionKind::BL
            | InstructionKind::BLX
            | InstructionKind::BX
            | InstructionKind::ADR => self.execute_branch(inst),
            InstructionKind::LDR
            | InstructionKind::LDRB
            | InstructionKind::LDRBT
            | InstructionKind::LDRH
            | InstructionKind::LDRHT
            | InstructionKind::LDRSB
            | InstructionKind::LDRSBT
            | InstructionKind::LDRSH
            | InstructionKind::LDRSHT
            | InstructionKind::LDRT => self.execute_load(inst),
            InstructionKind::STR
            | InstructionKind::STRB
            | InstructionKind::STRBT
            | InstructionKind::STRH
            | InstructionKind::STRHT
            | InstructionKind::STRT => self.execute_store(inst),
            InstructionKind::LDRD => self.execute_load_dual(inst),
            InstructionKind::STRD => self.execute_store_dual(inst),
            InstructionKind::SWP | InstructionKind::SWPB => self.execute_swap(inst),
            InstructionKind::TBB | InstructionKind::TBH => self.execute_table_branch(inst),
            InstructionKind::LDM { .. } | InstructionKind::STM { .. } => {
                self.execute_multiple(inst)
            },
            InstructionKind::POP | InstructionKind::PUSH => self.execute_stack(inst),
            InstructionKind::MRS | InstructionKind::MSR => self.execute_transfer(inst),
            InstructionKind::IT => self.execute_it(inst),
            InstructionKind::CBZ | InstructionKind::CBNZ => self.execute_compare_branch(inst),
            InstructionKind::NOP | InstructionKind::LEAVEX | InstructionKind::BKPT => Ok(()),
            _ => {
                if sources(inst.kind) >= 1 {
                    self.execute_value(inst)
                } else {
                    Err(VMError::Unimplemented)
                }
            },
        }
    }

    /// Moves the IT state one instruction on.
    pub fn advance_it(&mut self)
        ensures
            final(self)@ == advanced(old(self)@),
    {
        let it = self.cpu.it_state().0;
        let next: u8 = if it % 8 == 0 {
            0
        } else {
            (it / 32) * 32 + (it % 16) * 2
        };
        self.cpu.it_state_mut().set_value(next);
    }

    /// Executes an instruction.
    pub fn execute(&mut self, inst: Instruction) -> (r: Result<(), VMError>)
        requires
            inst.wf(),
        ensures
            (final(self)@, r) == execute_spec(old(self)@, inst),
    {
        match inst.kind {
            InstructionKind::BKPT => {
                return Ok(());
            },
            InstructionKind::CBNZ | InstructionKind::CBZ => {
                return self.execute_compare_branch(inst);
            },
            _ => {},
        }
        let in_it = self.in_it_block();
        let condition = if in_it {
            Condition::parse(self.cpu.it_state().0 / 16)
        } else {
            inst.cond
        };
        if self.condition_passed(condition) {
            self.perform(inst)?;
        }
        if in_it {
            if let InstructionKind::IT = inst.kind {
            } else {
                self.advance_it();
            }
        }
        Ok(())
    }
}

} // verus!
