//! Loads and stores of several registers, and the stack.

use crate::bits::{bit, bit_of};
use crate::cpu::SP_INDEX;
use crate::instruction::{Instruction, InstructionKind};
use crate::machine::{load_write_pc_spec, Machine, read_spec, State, write_spec};
use crate::memory::{read_word_spec, write_word_spec};
use crate::vmerror::VMError;
use vstd::prelude::*;

verus! {

/// Loading, in rising order, the registers below `count` that the bits of
/// `registers` name. The address moves by `step` for each register, before
/// the load where `pre` is set and after it where not. A word for the PC is
/// a jump that may change the instruction set. The result holds the address
/// after the last load that was made; the first failure ends it.
pub open spec fn load_registers_spec(
    s: State,
    registers: u32,
    address: u32,
    step: u32,
    pre: bool,
    count: nat,
) -> (State, u32, Result<(), VMError>)
    decreases count,
{
    if count == 0 {
        (s, address, Ok(()))
    } else {
        let (s1, a1, r1) = load_registers_spec(
            s,
            registers,
            address,
            step,
            pre,
            (count - 1) as nat,
        );
        match r1 {
            Err(e) => (s1, a1, Err(e)),
            Ok(_) => if !bit_of(registers, count - 1) {
                (s1, a1, Ok(()))
            } else {
                let (s2, rw) = read_word_spec(
                    s1,
                    if pre {
                        a1.wrapping_add(step)
                    } else {
                        a1
                    },
                );
                match rw {
                    Err(e) => (s2, a1, Err(e)),
                    Ok(word) => {
                        let (s3, r3) = if count - 1 == 15 {
                            load_write_pc_spec(s2, word)
                        } else {
                            (s2.with_reg(count - 1, word), Ok(()))
                        };
                        match r3 {
                            Err(e) => (s3, a1, Err(e)),
                            Ok(_) => (s3, a1.wrapping_add(step), Ok(())),
                        }
                    },
                }
            },
        }
    }
}

/// Storing, in rising order, the registers below `count` that the bits of
/// `registers` name, with the address moving as for a load.
pub open spec fn store_registers_spec(
    s: State,
    registers: u32,
    address: u32,
    step: u32,
    pre: bool,
    count: nat,
) -> (State, u32, Result<(), VMError>)
    decreases count,
{
    if count == 0 {
        (s, address, Ok(()))
    } else {
        let (s1, a1, r1) = store_registers_spec(
            s,
            registers,
            address,
            step,
            pre,
            (count - 1) as nat,
        );
        match r1 {
            Err(e) => (s1, a1, Err(e)),
            Ok(_) => if !bit_of(registers, count - 1) {
                (s1, a1, Ok(()))
            } else {
                let (s2, r2) = write_word_spec(
                    s1,
                    if pre {
                        a1.wrapping_add(step)
                    } else {
                        a1
                    },
                    s1.reg(count - 1),
                );
                match r2 {
                    Err(e) => (s2, a1, Err(e)),
                    Ok(_) => (s2, a1.wrapping_add(step), Ok(())),
                }
            },
        }
    }
}

/// Pushing, from register 15 downwards, the topmost `count` registers that
/// the bits of `registers` name: for each the address goes down by four and
/// the register is stored there.
pub open spec fn push_registers_spec(s: State, registers: u32, address: u32, count: nat) -> (
    State,
    u32,
    Result<(), VMError>,
)
    decreases count,
{
    if count == 0 {
        (s, address, Ok(()))
    } else {
        let (s1, a1, r1) = push_registers_spec(s, registers, address, (count - 1) as nat);
        match r1 {
            Err(e) => (s1, a1, Err(e)),
            Ok(_) => if !bit_of(registers, 16 - count) {
                (s1, a1, Ok(()))
            } else {
                let (s2, r2) = write_word_spec(s1, a1.wrapping_sub(4), s1.reg(16 - count));
                match r2 {
                    Err(e) => (s2, a1, Err(e)),
                    Ok(_) => (s2, a1.wrapping_sub(4), Ok(())),
                }
            },
        }
    }
}

proof fn lemma_load_registers_fails(
    s: State,
    registers: u32,
    address: u32,
    step: u32,
    pre: bool,
    n: nat,
    count: nat,
)
    requires
        n <= count,
        load_registers_spec(s, registers, address, step, pre, n).2 is Err,
    ensures
        load_registers_spec(s, registers, address, step, pre, count) == load_registers_spec(
            s,
            registers,
            address,
            step,
            pre,
            n,
        ),
    decreases count,
{
    if n < count {
        lemma_load_registers_fails(s, registers, address, step, pre, n, (count - 1) as nat);
    }
}

proof fn lemma_store_registers_fails(
    s: State,
    registers: u32,
    address: u32,
    step: u32,
    pre: bool,
    n: nat,
    count: nat,
)
    requires
        n <= count,
        store_registers_spec(s, registers, address, step, pre, n).2 is Err,
    ensures
        store_registers_spec(s, registers, address, step, pre, count) == store_registers_spec(
            s,
            registers,
            address,
            step,
            pre,
            n,
        ),
    decreases count,
{
    if n < count {
        lemma_store_registers_fails(s, registers, address, step, pre, n, (count - 1) as nat);
    }
}

proof fn lemma_push_registers_fails(s: State, registers: u32, address: u32, n: nat, count: nat)
    requires
        n <= count,
        push_registers_spec(s, registers, address, n).2 is Err,
    ensures
        push_registers_spec(s, registers, address, count) == push_registers_spec(
            s,
            registers,
            address,
            n,
        ),
    decreases count,
{
    if n < count {
        lemma_push_registers_fails(s, registers, address, n, (count - 1) as nat);
    }
}

/// The amount by which the address of a load or store of several registers
/// moves for each: four up or four down.
pub open spec fn step_of(add: bool) -> u32 {
    if add {
        4
    } else {
        0xffff_fffc
    }
}

/// A load or store of several registers: the first operand gives the base
/// address, the second the registers; after the last the first operand
/// takes the address reached as its writeback.
#[verifier::opaque]
pub open spec fn multiple_step(s: State, inst: Instruction) -> (State, Result<(), VMError>) {
    let (s1, rn) = read_spec(s, inst.operands@[0]);
    match rn {
        Err(e) => (s1, Err(e)),
        Ok(n) => {
            let (s2, rr) = read_spec(s1, inst.operands@[1]);
            match rr {
                Err(e) => (s2, Err(e)),
                Ok(registers) => {
                    let (s3, a, r) = match inst.kind {
                        InstructionKind::LDM { add, pre } => load_registers_spec(
                            s2,
                            registers,
                            n,
                            step_of(add),
                            pre,
                            16,
                        ),
                        InstructionKind::STM { add, pre } => store_registers_spec(
                            s2,
                            registers,
                            n,
                            step_of(add),
                            pre,
                            16,
                        ),
                        _ => (s2, n, Err(VMError::Unimplemented)),
                    };
                    match r {
                        Err(e) => (s3, Err(e)),
                        Ok(_) => write_spec(s3, inst.operands@[0], a),
                    }
                },
            }
        },
    }
}

/// A pop or push: the registers that the operand names are loaded upwards
/// from the stack pointer, or stored downwards from it, and the stack
/// pointer takes the address reached.
#[verifier::opaque]
pub open spec fn stack_step(s: State, inst: Instruction) -> (State, Result<(), VMError>) {
    let address = s.reg(13);
    let (s1, rr) = read_spec(s, inst.operands@[0]);
    match rr {
        Err(e) => (s1, Err(e)),
        Ok(registers) => {
            let (s2, a, r) = if inst.kind == InstructionKind::POP {
                load_registers_spec(s1, registers, address, 4, false, 16)
            } else {
                push_registers_spec(s1, registers, address, 16)
            };
            match r {
                Err(e) => (s2, Err(e)),
                Ok(_) => (s2.with_reg(13, a), Ok(())),
            }
        },
    }
}

impl Machine {
    /// Loads the registers that the bits of `registers` name, in rising
    /// order; gives the address reached.
    pub fn load_registers(&mut self, registers: u32, address: u32, step: u32, pre: bool) -> (r: (
        u32,
        Result<(), VMError>,
    ))
        ensures
            (final(self)@, r.0, r.1) == load_registers_spec(
                old(self)@,
                registers,
                address,
                step,
                pre,
                16,
            ),
    {
        let mut a = address;
        let mut i: usize = 0;
        while i < 16
            invariant
                i <= 16,
                load_registers_spec(old(self)@, registers, address, step, pre, i as nat) == (
                    self@,
                    a,
                    Ok::<(), VMError>(()),
                ),
            decreases 16 - i,
        {
            if bit(registers, i) {
                let place = if pre {
                    a.wrapping_add(step)
                } else {
                    a
                };
                let word = match self.read_memory_word(place) {
                    Ok(word) => word,
                    Err(e) => {
                        proof {
                            lemma_load_registers_fails(
                                old(self)@,
                                registers,
                                address,
                                step,
                                pre,
                                i as nat + 1,
                                16,
                            );
                        }
                        return (a, Err(e));
                    },
                };
                if i == 15 {
                    match self.load_write_pc(word) {
                        Ok(_) => {},
                        Err(e) => {
                            proof {
                                lemma_load_registers_fails(
                                    old(self)@,
                                    registers,
                                    address,
                                    step,
                                    pre,
                                    i as nat + 1,
                                    16,
                                );
                            }
                            return (a, Err(e));
                        },
                    }
                } else {
                    self.cpu.regs[i] = word;
                }
                a = a.wrapping_add(step);
            }
            i += 1;
        }
        (a, Ok(()))
    }

    /// Stores the registers that the bits of `registers` name, in rising
    /// order; gives the address reached.
    pub fn store_registers(&mut self, registers: u32, address: u32, step: u32, pre: bool) -> (r: (
        u32,
        Result<(), VMError>,
    ))
        ensures
            (final(self)@, r.0, r.1) == store_registers_spec(
                old(self)@,
                registers,
                address,
                step,
                pre,
                16,
            ),
    {
        let mut a = address;
        let mut i: usize = 0;
        while i < 16
            invariant
                i <= 16,
                store_registers_spec(old(self)@, registers, address, step, pre, i as nat) == (
                    self@,
                    a,
                    Ok::<(), VMError>(()),
                ),
            decreases 16 - i,
        {
            if bit(registers, i) {
                let place = if pre {
                    a.wrapping_add(step)
                } else {
                    a
                };
                let word = self.reg(i);
                match self.write_memory_word(place, word) {
                    Ok(_) => {},
                    Err(e) => {
                        proof {
                            lemma_store_registers_fails(
                                old(self)@,
                                registers,
                                address,
                                step,
                                pre,
                                i as nat + 1,
                                16,
                            );
                        }
                        return (a, Err(e));
                    },
                }
                a = a.wrapping_add(step);
            }
            i += 1;
        }
        (a, Ok(()))
    }

    /// Pushes the registers that the bits of `registers` name, from the
    /// highest down; gives the address reached.
    pub fn push_registers(&mut self, registers: u32, address: u32) -> (r: (
        u32,
        Result<(), VMError>,
    ))
        ensures
            (final(self)@, r.0, r.1) == push_registers_spec(old(self)@, registers, address, 16),
    {
        let mut a = address;
        let mut done: usize = 0;
        while done < 16
            invariant
                done <= 16,
                push_registers_spec(old(self)@, registers, address, done as nat) == (
                    self@,
                    a,
                    Ok::<(), VMError>(()),
                ),
            decreases 16 - done,
        {
            let i = 15 - done;
            if bit(registers, i) {
                let word = self.reg(i);
                match self.write_memory_word(a.wrapping_sub(4), word) {
                    Ok(_) => {},
                    Err(e) => {
                        proof {
                            lemma_push_registers_fails(
                                old(self)@,
                                registers,
                                address,
                                done as nat + 1,
                                16,
                            );
                        }
                        return (a, Err(e));
                    },
                }
                a = a.wrapping_sub(4);
            }
            done += 1;
        }
        (a, Ok(()))
    }

    /// Carries out a load or store of several registers.
    pub(crate) fn execute_multiple(&mut self, inst: Instruction) -> (r: Result<(), VMError>)
        requires
            inst.wf(),
        ensures
            (final(self)@, r) == multiple_step(old(self)@, inst),
    {
        reveal(multiple_step);
        let n = self.read(inst.operands[0])?;
        let registers = self.read(inst.operands[1])?;
        let (a, r) = match inst.kind {
            InstructionKind::LDM { add, pre } => self.load_registers(
                registers,
                n,
                if add {
                    4
                } else {
                    0xffff_fffc
                },
                pre,
            ),
            InstructionKind::STM { add, pre } => self.store_registers(
                registers,
                n,
                if add {
                    4
                } else {
                    0xffff_fffc
                },
                pre,
            ),
            _ => (n, Err(VMError::Unimplemented)),
        };
        r?;
        self.write(inst.operands[0], a)
    }

    /// Carries out a pop or push.
    pub(crate) fn execute_stack(&mut self, inst: Instruction) -> (r: Result<(), VMError>)
        requires
            inst.wf(),
        ensures
            (final(self)@, r) == stack_step(old(self)@, inst),
    {
        reveal(stack_step);
        let address = self.reg(SP_INDEX);
        let registers = self.read(inst.operands[0])?;
        let (a, r) = if let InstructionKind::POP = inst.kind {
            self.load_registers(registers, address, 4, false)
        } else {
            self.push_registers(registers, address)
        };
        r?;
        self.cpu.regs[SP_INDEX] = a;
        Ok(())
    }
}

} // verus!
