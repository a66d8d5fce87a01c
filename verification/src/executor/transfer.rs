//! Loads, stores and swaps of single values.

use crate::arithmetic::{ror, rotate_right, wrap32};
use crate::instruction::{Instruction, InstructionKind, Operand};
use crate::machine::{load_write_pc_spec, Machine, read_address_spec, read_spec, State, write_spec};
use crate::memory::{
    read_byte_spec, read_halfword_spec, read_word_spec, write_byte_spec, write_halfword_spec,
    write_word_spec,
};
use crate::vmerror::VMError;
use crate::words::{s16, s8};
use vstd::prelude::*;

verus! {

/// How much memory a load or store moves, and whether a load extends the
/// sign.
#[derive(Clone, Copy, Debug, PartialEq, Eq, Structural)]
pub enum Width {
    Byte,
    SignedByte,
    Halfword,
    SignedHalfword,
    Word,
}

/// The width of a single load; nothing for any other instruction.
pub open spec fn load_width(kind: InstructionKind) -> Option<Width> {
    match kind {
        InstructionKind::LDR | InstructionKind::LDRT => Some(Width::Word),
        InstructionKind::LDRB | InstructionKind::LDRBT => Some(Width::Byte),
        InstructionKind::LDRH | InstructionKind::LDRHT => Some(Width::Halfword),
        InstructionKind::LDRSB | InstructionKind::LDRSBT => Some(Width::SignedByte),
        InstructionKind::LDRSH | InstructionKind::LDRSHT => Some(Width::SignedHalfword),
        _ => None,
    }
}

/// The width of a single store; nothing for any other instruction.
pub open spec fn store_width(kind: InstructionKind) -> Option<Width> {
    match kind {
        InstructionKind::STR | InstructionKind::STRT => Some(Width::Word),
        InstructionKind::STRB | InstructionKind::STRBT => Some(Width::Byte),
        InstructionKind::STRH | InstructionKind::STRHT => Some(Width::Halfword),
        _ => None,
    }
}

/// The word that a load of the given width brings from an address: the
/// byte, halfword or word there, zero-extended or sign-extended.
pub open spec fn load_spec(s: State, width: Width, address: u32) -> (State, Result<u32, VMError>) {
    match width {
        Width::Word => read_word_spec(s, address),
        Width::Byte => {
            let (s1, r) = read_byte_spec(s, address);
            match r {
                Err(e) => (s1, Err(e)),
                Ok(b) => (s1, Ok(b as u32)),
            }
        },
        Width::SignedByte => {
            let (s1, r) = read_byte_spec(s, address);
            match r {
                Err(e) => (s1, Err(e)),
                Ok(b) => (s1, Ok(wrap32(s8(b as int)))),
            }
        },
        Width::Halfword => {
            let (s1, r) = read_halfword_spec(s, address);
            match r {
                Err(e) => (s1, Err(e)),
                Ok(h) => (s1, Ok(h as u32)),
            }
        },
        Width::SignedHalfword => {
            let (s1, r) = read_halfword_spec(s, address);
            match r {
                Err(e) => (s1, Err(e)),
                Ok(h) => (s1, Ok(wrap32(s16(h as int)))),
            }
        },
    }
}

/// What a store of the given width puts at an address: the low byte, the
/// low halfword or the whole of the word.
pub open spec fn store_spec(s: State, width: Width, address: u32, word: u32) -> (
    State,
    Result<(), VMError>,
) {
    match width {
        Width::Word => write_word_spec(s, address, word),
        Width::Byte | Width::SignedByte => write_byte_spec(s, address, (word % 0x100) as u8),
        Width::Halfword | Width::SignedHalfword => write_halfword_spec(
            s,
            address,
            (word % 0x1_0000) as u16,
        ),
    }
}

/// A single load: the address comes from the second operand, the loaded
/// word goes to the register that is the first, which for the PC is a jump
/// that may change the instruction set, and then the second operand takes
/// its writeback.
#[verifier::opaque]
pub open spec fn load_step(s: State, inst: Instruction) -> (State, Result<(), VMError>) {
    match read_address_spec(s, inst.operands@[1]) {
        Err(e) => (s, Err(e)),
        Ok(address) => {
            let (s1, rw) = load_spec(s, load_width(inst.kind)->0, address);
            match rw {
                Err(e) => (s1, Err(e)),
                Ok(word) => match inst.operands@[0] {
                    Operand::Register { reg_index } => {
                        let (s2, r) = if reg_index == 15 {
                            load_write_pc_spec(s1, word)
                        } else {
                            write_spec(s1, inst.operands@[0], word)
                        };
                        match r {
                            Err(e) => (s2, Err(e)),
                            Ok(_) => write_spec(s2, inst.operands@[1], address),
                        }
                    },
                    _ => (s1, Err(VMError::Unimplemented)),
                },
            }
        },
    }
}

/// A single store: the address comes from the second operand, the value of
/// the first goes to memory, and then the second operand takes its
/// writeback.
#[verifier::opaque]
pub open spec fn store_step(s: State, inst: Instruction) -> (State, Result<(), VMError>) {
    match read_address_spec(s, inst.operands@[1]) {
        Err(e) => (s, Err(e)),
        Ok(address) => {
            let (s1, rw) = read_spec(s, inst.operands@[0]);
            match rw {
                Err(e) => (s1, Err(e)),
                Ok(word) => {
                    let (s2, r) = store_spec(s1, store_width(inst.kind)->0, address, word);
                    match r {
                        Err(e) => (s2, Err(e)),
                        Ok(_) => write_spec(s2, inst.operands@[1], address),
                    }
                },
            }
        },
    }
}

/// A load of two words: the word at the address of the third operand goes
/// to the first operand, the word four bytes on to the second, and then the
/// third operand takes its writeback.
#[verifier::opaque]
pub open spec fn load_dual_step(s: State, inst: Instruction) -> (State, Result<(), VMError>) {
    match read_address_spec(s, inst.operands@[2]) {
        Err(e) => (s, Err(e)),
        Ok(address) => {
            let (s1, r1) = read_word_spec(s, address);
            match r1 {
                Err(e) => (s1, Err(e)),
                Ok(first) => {
                    let (s2, r2) = write_spec(s1, inst.operands@[0], first);
                    match r2 {
                        Err(e) => (s2, Err(e)),
                        Ok(_) => {
                            let (s3, r3) = read_word_spec(s2, address.wrapping_add(4));
                            match r3 {
                                Err(e) => (s3, Err(e)),
                                Ok(second) => {
                                    let (s4, r4) = write_spec(s3, inst.operands@[1], second);
                                    match r4 {
                                        Err(e) => (s4, Err(e)),
                                        Ok(_) => write_spec(s4, inst.operands@[2], address),
                                    }
                                },
                            }
                        },
                    }
                },
            }
        },
    }
}

/// A store of two words: the values of the first and second operand go to
/// the address of the third and to four bytes on, and then the third
/// operand takes its writeback.
#[verifier::opaque]
pub open spec fn store_dual_step(s: State, inst: Instruction) -> (State, Result<(), VMError>) {
    let (s1, r1) = read_spec(s, inst.operands@[0]);
    match r1 {
        Err(e) => (s1, Err(e)),
        Ok(first) => {
            let (s2, r2) = read_spec(s1, inst.operands@[1]);
            match r2 {
                Err(e) => (s2, Err(e)),
                Ok(second) => match read_address_spec(s2, inst.operands@[2]) {
                    Err(e) => (s2, Err(e)),
                    Ok(address) => {
                        let (s3, r3) = write_word_spec(s2, address, first);
                        match r3 {
                            Err(e) => (s3, Err(e)),
                            Ok(_) => {
                                let (s4, r4) = write_word_spec(
                                    s3,
                                    address.wrapping_add(4),
                                    second,
                                );
                                match r4 {
                                    Err(e) => (s4, Err(e)),
                                    Ok(_) => write_spec(s4, inst.operands@[2], address),
                                }
                            },
                        }
                    },
                },
            }
        },
    }
}

/// Whether an operand names memory.
pub open spec fn is_memory_operand(operand: Operand) -> bool {
    matches!(
        operand,
        Operand::RegDeref { .. }
            | Operand::RegDerefPreindexed { .. }
            | Operand::RegDerefPostindexed { .. }
    )
}

/// The address that an operand gives: that of the memory it names, or else
/// its value.
pub open spec fn operand_address_spec(s: State, operand: Operand) -> (State, Result<u32, VMError>) {
    if is_memory_operand(operand) {
        (s, read_address_spec(s, operand))
    } else {
        read_spec(s, operand)
    }
}

/// A swap: the word or byte at the address of the third operand goes to the
/// first operand, and the value of the second takes its place. A word from
/// an address that is no multiple of four arrives rotated right by eight
/// bits for each byte that the address lies above one.
#[verifier::opaque]
pub open spec fn swap_step(s: State, inst: Instruction) -> (State, Result<(), VMError>) {
    let (s1, r1) = read_spec(s, inst.operands@[1]);
    match r1 {
        Err(e) => (s1, Err(e)),
        Ok(t2) => {
            let (s2, r2) = operand_address_spec(s1, inst.operands@[2]);
            match r2 {
                Err(e) => (s2, Err(e)),
                Ok(n) => if inst.kind == InstructionKind::SWPB {
                    let (s3, r3) = read_byte_spec(s2, n);
                    match r3 {
                        Err(e) => (s3, Err(e)),
                        Ok(data) => {
                            let (s4, r4) = write_spec(s3, inst.operands@[0], data as u32);
                            match r4 {
                                Err(e) => (s4, Err(e)),
                                Ok(_) => write_byte_spec(s4, n, (t2 % 0x100) as u8),
                            }
                        },
                    }
                } else {
                    let (s3, r3) = read_word_spec(s2, n);
                    match r3 {
                        Err(e) => (s3, Err(e)),
                        Ok(data) => {
                            let (s4, r4) = write_spec(
                                s3,
                                inst.operands@[0],
                                ror(data, (8 * (n % 4)) as u32),
                            );
                            match r4 {
                                Err(e) => (s4, Err(e)),
                                Ok(_) => write_word_spec(s4, n, t2),
                            }
                        },
                    }
                },
            }
        },
    }
}

impl Machine {
    /// Loads from memory at the given width.
    pub fn load(&mut self, width: Width, address: u32) -> (r: Result<u32, VMError>)
        ensures
            (final(self)@, r) == load_spec(old(self)@, width, address),
    {
        match width {
            Width::Word => self.read_memory_word(address),
            Width::Byte => {
                let b = self.read_memory(address)?;
                Ok(b as u32)
            },
            Width::SignedByte => {
                let b = self.read_memory(address)?;
                Ok(
                    if b >= 0x80 {
                        0xffff_ff00 + b as u32
                    } else {
                        b as u32
                    },
                )
            },
            Width::Halfword => {
                let h = self.read_memory_halfword(address)?;
                Ok(h as u32)
            },
            Width::SignedHalfword => {
                let h = self.read_memory_halfword(address)?;
                Ok(
                    if h >= 0x8000 {
                        0xffff_0000 + h as u32
                    } else {
                        h as u32
                    },
                )
            },
        }
    }

    /// Stores to memory at the given width.
    pub fn store(&mut self, width: Width, address: u32, word: u32) -> (r: Result<(), VMError>)
        ensures
            (final(self)@, r) == store_spec(old(self)@, width, address, word),
    {
        match width {
            Width::Word => self.write_memory_word(address, word),
            Width::Byte | Width::SignedByte => self.write_memory(address, (word % 0x100) as u8),
            Width::Halfword | Width::SignedHalfword => self.write_memory_halfword(
                address,
                (word % 0x1_0000) as u16,
            ),
        }
    }

    /// Carries out a single load.
    pub(crate) fn execute_load(&mut self, inst: Instruction) -> (r: Result<(), VMError>)
        requires
            inst.wf(),
            load_width(inst.kind) is Some,
        ensures
            (final(self)@, r) == load_step(old(self)@, inst),
    {
        reveal(load_step);
        let width = match inst.kind {
            InstructionKind::LDRB | InstructionKind::LDRBT => Width::Byte,
            InstructionKind::LDRH | InstructionKind::LDRHT => Width::Halfword,
            InstructionKind::LDRSB | InstructionKind::LDRSBT => Width::SignedByte,
            InstructionKind::LDRSH | InstructionKind::LDRSHT => Width::SignedHalfword,
            _ => Width::Word,
        };
        let t = inst.operands[0];
        let address = self.read_address(inst.operands[1])?;
        let word = self.load(width, address)?;
        match t {
            Operand::Register { reg_index } => {
                if reg_index == 15 {
                    self.load_write_pc(word)?;
                } else {
                    self.write(t, word)?;
                }
                self.write(inst.operands[1], address)
            },
            _ => Err(VMError::Unimplemented),
        }
    }

    /// Carries out a single store.
    pub(crate) fn execute_store(&mut self, inst: Instruction) -> (r: Result<(), VMError>)
        requires
            inst.wf(),
            store_width(inst.kind) is Some,
        ensures
            (final(self)@, r) == store_step(old(self)@, inst),
    {
        reveal(store_step);
        let width = match inst.kind {
            InstructionKind::STRB | InstructionKind::STRBT => Width::Byte,
            InstructionKind::STRH | InstructionKind::STRHT => Width::Halfword,
            _ => Width::Word,
        };
        let address = self.read_address(inst.operands[1])?;
        let word = self.read(inst.operands[0])?;
        self.store(width, address, word)?;
        self.write(inst.operands[1], address)
    }

    /// Carries out a load of two words.
    pub(crate) fn execute_load_dual(&mut self, inst: Instruction) -> (r: Result<(), VMError>)
        requires
            inst.wf(),
        ensures
            (final(self)@, r) == load_dual_step(old(self)@, inst),
    {
        reveal(load_dual_step);
        let address = self.read_address(inst.operands[2])?;
        let first = self.read_memory_word(address)?;
        self.write(inst.operands[0], first)?;
        let second = self.read_memory_word(address.wrapping_add(4))?;
        self.write(inst.operands[1], second)?;
        self.write(inst.operands[2], address)
    }

    /// Carries out a store of two words.
    pub(crate) fn execute_store_dual(&mut self, inst: Instruction) -> (r: Result<(), VMError>)
        requires
            inst.wf(),
        ensures
            (final(self)@, r) == store_dual_step(old(self)@, inst),
    {
        reveal(store_dual_step);
        let first = self.read(inst.operands[0])?;
        let second = self.read(inst.operands[1])?;
        let address = self.read_address(inst.operands[2])?;
        self.write_memory_word(address, first)?;
        self.write_memory_word(address.wrapping_add(4), second)?;
        self.write(inst.operands[2], address)
    }

    /// The address that an operand gives: that of the memory it names, or
    /// else its value.
    pub fn operand_address(&mut self, operand: Operand) -> (r: Result<u32, VMError>)
        requires
            operand.wf(),
        ensures
            (final(self)@, r) == operand_address_spec(old(self)@, operand),
    {
        match operand {
            Operand::RegDeref { .. }
            | Operand::RegDerefPreindexed { .. }
            | Operand::RegDerefPostindexed { .. } => self.read_address(operand),
            _ => self.read(operand),
        }
    }

    /// Carries out a swap.
    pub(crate) fn execute_swap(&mut self, inst: Instruction) -> (r: Result<(), VMError>)
        requires
            inst.wf(),
        ensures
            (final(self)@, r) == swap_step(old(self)@, inst),
    {
        reveal(swap_step);
        let t = inst.operands[0];
        let t2 = self.read(inst.operands[1])?;
        let n = self.operand_address(inst.operands[2])?;
        if let InstructionKind::SWPB = inst.kind {
            let data = self.read_memory(n)?;
            self.write(t, data as u32)?;
            self.write_memory(n, (t2 % 0x100) as u8)
        } else {
            let data = self.read_memory_word(n)?;
            self.write(t, rotate_right(data, 8 * (n % 4)))?;
            self.write_memory_word(n, t2)
        }
    }
}

} // verus!
