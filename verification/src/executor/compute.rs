//! The instructions that compute: data processing, comparisons, and all
//! that store one word or a pair of words made from the values of their
//! operands.

use crate::alu::{
    comparison, comparison_spec, data_processing, data_processing_spec, is_comparison,
    is_data_processing,
};
use crate::executor::{with_nz, with_nzcv};
use crate::instruction::{Instruction, InstructionKind, Operand};
use crate::machine::{
    alu_write_pc_spec, Machine, read_spec, read_with_carry_spec, State, write_spec,
};
use crate::multiply::{is_long_multiply, long_accumulates, long_multiply, long_multiply_spec};
use crate::values::{extends, flags, sources, value, value_flags, value_sources, value_spec};
use crate::vmerror::VMError;
use crate::words::{insert, insert_spec, is_extension, move_top, move_top_spec};
use vstd::prelude::*;

verus! {

/// A data-processing instruction. With two operands the first is both
/// destination and first source. The result goes to the destination
/// register; where that is the PC it is a jump and the flags stay. Otherwise
/// the flags follow the result where the instruction sets flags.
#[verifier::opaque]
pub open spec fn data_processing_step(s: State, inst: Instruction) -> (State, Result<(), VMError>) {
    let two = inst.operands@[2] == Operand::Nothing;
    let d = inst.operands@[0];
    let n_op = if two { inst.operands@[0] } else { inst.operands@[1] };
    let m_op = if two { inst.operands@[1] } else { inst.operands@[2] };
    let (s1, rn) = read_spec(s, n_op);
    match rn {
        Err(e) => (s1, Err(e)),
        Ok(n) => {
            let (s2, rm) = read_with_carry_spec(s1, m_op);
            match rm {
                Err(e) => (s2, Err(e)),
                Ok(mc) => {
                    let (result, carry, overflow) = data_processing_spec(
                        inst.kind,
                        n,
                        mc.0,
                        mc.1,
                        s2.c(),
                        s2.v(),
                    );
                    match d {
                        Operand::Register { reg_index } => if reg_index == 15 {
                            alu_write_pc_spec(s2, result)
                        } else {
                            let (s3, r) = write_spec(s2, d, result);
                            match r {
                                Err(e) => (s3, Err(e)),
                                Ok(_) => if inst.setflags {
                                    (
                                        s3.with_cpsr(with_nzcv(s3.cpsr, result, carry, overflow)),
                                        Ok(()),
                                    )
                                } else {
                                    (s3, Ok(()))
                                },
                            }
                        },
                        _ => (s2, Err(VMError::Unimplemented)),
                    }
                },
            }
        },
    }
}

/// A comparison: the flags follow the result, and nothing else changes.
#[verifier::opaque]
pub open spec fn comparison_step(s: State, inst: Instruction) -> (State, Result<(), VMError>) {
    let (s1, rn) = read_spec(s, inst.operands@[0]);
    match rn {
        Err(e) => (s1, Err(e)),
        Ok(n) => {
            let (s2, rm) = read_with_carry_spec(s1, inst.operands@[1]);
            match rm {
                Err(e) => (s2, Err(e)),
                Ok(mc) => {
                    let (result, carry, overflow) = comparison_spec(
                        inst.kind,
                        n,
                        mc.0,
                        mc.1,
                        s2.v(),
                    );
                    (s2.with_cpsr(with_nzcv(s2.cpsr, result, carry, overflow)), Ok(()))
                },
            }
        },
    }
}

/// The value of source operand `k` of an instruction that computes one
/// word. The rotation of an extension, its last source, is zero where the
/// operand is absent.
pub open spec fn source_spec(s: State, inst: Instruction, k: int) -> (State, Result<u32, VMError>) {
    if is_extension(inst.kind) && k == value_sources(inst.kind) && inst.operands@[k]
        == Operand::Nothing {
        (s, Ok(0u32))
    } else {
        read_spec(s, inst.operands@[k])
    }
}

/// An instruction that computes one word: it reads as many operands after
/// the first as it has sources, in their order, stores the word it computes
/// in the first operand, and then sets what flags it sets. Values that name
/// no bit field stop it.
#[verifier::opaque]
pub open spec fn value_step(s: State, inst: Instruction) -> (State, Result<(), VMError>) {
    let (s1, rx) = source_spec(s, inst, 1);
    match rx {
        Err(e) => (s1, Err(e)),
        Ok(x) => {
            let (s2, ry) = if value_sources(inst.kind) >= 2 {
                source_spec(s1, inst, 2)
            } else {
                (s1, Ok(0u32))
            };
            match ry {
                Err(e) => (s2, Err(e)),
                Ok(y) => {
                    let (s3, rz) = if value_sources(inst.kind) >= 3 {
                        source_spec(s2, inst, 3)
                    } else {
                        (s2, Ok(0u32))
                    };
                    match rz {
                        Err(e) => (s3, Err(e)),
                        Ok(z) => match value_spec(inst.kind, x, y, z, s3.cpsr) {
                            None => (s3, Err(VMError::Unimplemented)),
                            Some(result) => {
                                let (s4, r) = write_spec(s3, inst.operands@[0], result);
                                match r {
                                    Err(e) => (s4, Err(e)),
                                    Ok(_) => (
                                        s4.with_cpsr(
                                            value_flags(inst.kind, x, y, z, inst.setflags, s4.cpsr),
                                        ),
                                        Ok(()),
                                    ),
                                }
                            },
                        },
                    }
                },
            }
        },
    }
}

/// Whether the instruction replaces part of its destination.
pub open spec fn is_insertion(kind: InstructionKind) -> bool {
    matches!(kind, InstructionKind::BFC | InstructionKind::BFI | InstructionKind::MOVT)
}

/// An instruction that replaces part of its destination. BFC and BFI take
/// the lowest and the highest bit of a window from their third and fourth
/// operand; BFC clears the window and BFI fills it from the low bits of the
/// second operand, and a window whose highest bit lies below its lowest
/// leaves everything as it is. MOVT puts the low halfword of its second
/// operand into the top halfword.
#[verifier::opaque]
pub open spec fn insertion_step(s: State, inst: Instruction) -> (State, Result<(), VMError>) {
    let d = inst.operands@[0];
    if inst.kind == InstructionKind::MOVT {
        let (s1, ri) = read_spec(s, inst.operands@[1]);
        match ri {
            Err(e) => (s1, Err(e)),
            Ok(imm16) => {
                let (s2, rd) = read_spec(s1, d);
                match rd {
                    Err(e) => (s2, Err(e)),
                    Ok(old) => write_spec(s2, d, move_top_spec(old, imm16)),
                }
            },
        }
    } else {
        let (s0, rn) = if inst.kind == InstructionKind::BFI {
            read_spec(s, inst.operands@[1])
        } else {
            (s, Ok(0u32))
        };
        match rn {
            Err(e) => (s0, Err(e)),
            Ok(n) => {
                let (s1, rl) = read_spec(s0, inst.operands@[2]);
                match rl {
                    Err(e) => (s1, Err(e)),
                    Ok(lsb) => {
                        let (s2, rm) = read_spec(s1, inst.operands@[3]);
                        match rm {
                            Err(e) => (s2, Err(e)),
                            Ok(msb) => if msb >= lsb {
                                let (s3, rd) = read_spec(s2, d);
                                match rd {
                                    Err(e) => (s3, Err(e)),
                                    Ok(old) => write_spec(s3, d, insert_spec(old, n, lsb, msb)),
                                }
                            } else {
                                (s2, Ok(()))
                            },
                        }
                    },
                }
            },
        }
    }
}

/// The status word with N and Z set from 64 bits where the instruction sets
/// flags: N the top bit, Z whether all are zero.
pub open spec fn long_flags(cpsr: u32, result: u64, setflags: bool) -> u32 {
    if setflags {
        with_nz(cpsr, result >= 0x8000_0000_0000_0000, result == 0)
    } else {
        cpsr
    }
}

/// Whether a long multiply can set N and Z.
pub open spec fn long_sets_flags(kind: InstructionKind) -> bool {
    matches!(
        kind,
        InstructionKind::SMULL
            | InstructionKind::UMULL
            | InstructionKind::SMLAL
            | InstructionKind::UMLAL
    )
}

/// A multiply into a pair of registers: the first operand takes the low
/// word, the second the high word; the third and fourth are multiplied. One
/// that accumulates reads the pair first.
#[verifier::opaque]
pub open spec fn long_multiply_step(s: State, inst: Instruction) -> (State, Result<(), VMError>) {
    let dlo = inst.operands@[0];
    let dhi = inst.operands@[1];
    let (s1, rn) = read_spec(s, inst.operands@[2]);
    match rn {
        Err(e) => (s1, Err(e)),
        Ok(n) => {
            let (s2, rm) = read_spec(s1, inst.operands@[3]);
            match rm {
                Err(e) => (s2, Err(e)),
                Ok(m) => {
                    let (s3, rl) = if long_accumulates(inst.kind) {
                        read_spec(s2, dlo)
                    } else {
                        (s2, Ok(0u32))
                    };
                    match rl {
                        Err(e) => (s3, Err(e)),
                        Ok(lo) => {
                            let (s4, rh) = if long_accumulates(inst.kind) {
                                read_spec(s3, dhi)
                            } else {
                                (s3, Ok(0u32))
                            };
                            match rh {
                                Err(e) => (s4, Err(e)),
                                Ok(hi) => {
                                    let result = long_multiply_spec(inst.kind, n, m, lo, hi);
                                    let (s5, r5) = write_spec(
                                        s4,
                                        dlo,
                                        (result % 0x1_0000_0000) as u32,
                                    );
                                    match r5 {
                                        Err(e) => (s5, Err(e)),
                                        Ok(_) => {
                                            let (s6, r6) = write_spec(
                                                s5,
                                                dhi,
                                                (result / 0x1_0000_0000) as u32,
                                            );
                                            match r6 {
                                                Err(e) => (s6, Err(e)),
                                                Ok(_) => (
                                                    s6.with_cpsr(
                                                        long_flags(
                                                            s6.cpsr,
                                                            result,
                                                            inst.setflags && long_sets_flags(
                                                                inst.kind,
                                                            ),
                                                        ),
                                                    ),
                                                    Ok(()),
                                                ),
                                            }
                                        },
                                    }
                                },
                            }
                        },
                    }
                },
            }
        },
    }
}

impl Machine {
    /// Carries out a data-processing instruction.
    pub(crate) fn execute_data_processing(&mut self, inst: Instruction) -> (r: Result<(), VMError>)
        requires
            inst.wf(),
            is_data_processing(inst.kind),
        ensures
            (final(self)@, r) == data_processing_step(old(self)@, inst),
    {
        reveal(data_processing_step);
        let d = inst.operands[0];
        let n;
        let m;
        if let Operand::Nothing = inst.operands[2] {
            n = inst.operands[0];
            m = inst.operands[1];
        } else {
            n = inst.operands[1];
            m = inst.operands[2];
        }
        let n = self.read(n)?;
        let (m, shifter_carry) = self.read_with_carry(m)?;
        let apsr = self.cpu.apsr();
        let (result, carry, overflow) = data_processing(
            inst.kind,
            n,
            m,
            shifter_carry,
            apsr.c(),
            apsr.v(),
        );
        match d {
            Operand::Register { reg_index } => {
                if reg_index == 15 {
                    self.alu_write_pc(result)
                } else {
                    self.write(d, result)?;
                    if inst.setflags {
                        self.set_nzcv(result, carry, overflow);
                    }
                    Ok(())
                }
            },
            _ => Err(VMError::Unimplemented),
        }
    }

    /// Carries out a comparison.
    pub(crate) fn execute_comparison(&mut self, inst: Instruction) -> (r: Result<(), VMError>)
        requires
            inst.wf(),
            is_comparison(inst.kind),
        ensures
            (final(self)@, r) == comparison_step(old(self)@, inst),
    {
        reveal(comparison_step);
        let n = self.read(inst.operands[0])?;
        let (m, shifter_carry) = self.read_with_carry(inst.operands[1])?;
        let (result, carry, overflow) = comparison(
            inst.kind,
            n,
            m,
            shifter_carry,
            self.cpu.apsr().v(),
        );
        self.set_nzcv(result, carry, overflow);
        Ok(())
    }

    /// Reads source operand `k` of an instruction that computes one word.
    pub fn source(&mut self, inst: Instruction, k: usize) -> (r: Result<u32, VMError>)
        requires
            inst.wf(),
            1 <= k <= 3,
        ensures
            (final(self)@, r) == source_spec(old(self)@, inst, k as int),
    {
        if let Operand::Nothing = inst.operands[k] {
            if extends(inst.kind) && k == sources(inst.kind) as usize {
                return Ok(0);
            }
        }
        self.read(inst.operands[k])
    }

    /// Carries out an instruction that computes one word.
    pub(crate) fn execute_value(&mut self, inst: Instruction) -> (r: Result<(), VMError>)
        requires
            inst.wf(),
            value_sources(inst.kind) >= 1,
        ensures
            (final(self)@, r) == value_step(old(self)@, inst),
    {
        reveal(value_step);
        let count = sources(inst.kind);
        let x = self.source(inst, 1)?;
        let y = if count >= 2 {
            self.source(inst, 2)?
        } else {
            0
        };
        let z = if count >= 3 {
            self.source(inst, 3)?
        } else {
            0
        };
        match value(inst.kind, x, y, z, self.cpu.cpsr.0) {
            None => Err(VMError::Unimplemented),
            Some(result) => {
                self.write(inst.operands[0], result)?;
                self.cpu.cpsr.0 = flags(inst.kind, x, y, z, inst.setflags, self.cpu.cpsr.0);
                Ok(())
            },
        }
    }

    /// Carries out BFC, BFI or MOVT.
    pub(crate) fn execute_insertion(&mut self, inst: Instruction) -> (r: Result<(), VMError>)
        requires
            inst.wf(),
            is_insertion(inst.kind),
        ensures
            (final(self)@, r) == insertion_step(old(self)@, inst),
    {
        reveal(insertion_step);
        let d = inst.operands[0];
        if let InstructionKind::MOVT = inst.kind {
            let imm16 = self.read(inst.operands[1])?;
            let old = self.read(d)?;
            self.write(d, move_top(old, imm16))
        } else {
            let n = if let InstructionKind::BFI = inst.kind {
                self.read(inst.operands[1])?
            } else {
                0
            };
            let lsb = self.read(inst.operands[2])?;
            let msb = self.read(inst.operands[3])?;
            if msb >= lsb {
                let old = self.read(d)?;
                self.write(d, insert(old, n, lsb, msb))
            } else {
                Ok(())
            }
        }
    }

    /// Carries out a multiply into a pair of registers.
    pub(crate) fn execute_long_multiply(&mut self, inst: Instruction) -> (r: Result<(), VMError>)
        requires
            inst.wf(),
            is_long_multiply(inst.kind),
        ensures
            (final(self)@, r) == long_multiply_step(old(self)@, inst),
    {
        reveal(long_multiply_step);
        let dlo = inst.operands[0];
        let dhi = inst.operands[1];
        let n = self.read(inst.operands[2])?;
        let m = self.read(inst.operands[3])?;
        let accumulates = match inst.kind {
            InstructionKind::SMLAL
            | InstructionKind::UMLAL
            | InstructionKind::UMAAL
            | InstructionKind::SMLALD { .. }
            | InstructionKind::SMLSLD { .. } => true,
            _ => false,
        };
        let lo = if accumulates {
            self.read(dlo)?
        } else {
            0
        };
        let hi = if accumulates {
            self.read(dhi)?
        } else {
            0
        };
        let result = long_multiply(inst.kind, n, m, lo, hi);
        self.write(dlo, (result % 0x1_0000_0000) as u32)?;
        self.write(dhi, (result / 0x1_0000_0000) as u32)?;
        let sets = match inst.kind {
            InstructionKind::SMULL
            | InstructionKind::UMULL
            | InstructionKind::SMLAL
            | InstructionKind::UMLAL => true,
            _ => false,
        };
        if inst.setflags && sets {
            self.set_nz(result >= 0x8000_0000_0000_0000, result == 0);
        }
        Ok(())
    }
}

} // verus!
