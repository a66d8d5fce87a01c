//! Fetching and decoding the instruction at the PC, and the run of the
//! machine from one instruction to the next.

use crate::cpu::{InstrSet, CPU};
use crate::decoder::{decode_bytes, decode_bytes_spec};
use crate::executor::{execute_spec, in_it_block_spec};
use crate::instruction::Instruction;
use crate::machine::{next_n_spec, Machine, State};
use crate::memory::{halfword_of, Memory};
use crate::serial::{Link, ProtocolSerial};
use crate::vmerror::VMError;
use vstd::prelude::*;

verus! {

/// What the machine makes of what was decoded: bytes that are no
/// instruction, and an instruction that names a register that does not
/// exist, are a decode error.
pub open spec fn accepted(found: Option<Instruction>) -> Result<Instruction, VMError> {
    match found {
        Some(instruction) => if instruction.wf() {
            Ok(instruction)
        } else {
            Err(VMError::DecodeError)
        },
        None => Err(VMError::DecodeError),
    }
}

/// Whether a halfword is the first of a 32-bit Thumb encoding: its top five
/// bits are 11101, 11110 or 11111.
pub open spec fn is_wide(halfword: u16) -> bool {
    halfword / 0x800 >= 0b11101
}

/// Fetching and decoding one instruction. The PC is marked as the start of
/// the instruction. In ARM state four bytes are taken. In Thumb state two
/// bytes are taken, and where the halfword that they make, lower byte first,
/// begins a 32-bit encoding, two more. The bytes are decoded in the order
/// in which they lie in memory. The PC ends behind the bytes that were
/// taken. Any other state decodes nothing.
pub open spec fn decode_spec(s: State) -> (State, Result<Instruction, VMError>) {
    let s0 = State { mark: s.regs[15], ..s };
    match s0.instr_set() {
        InstrSet::Arm => {
            let (s1, bytes, r) = next_n_spec(s0, 4);
            match r {
                Err(e) => (s1, Err(e)),
                Ok(_) => (s1, accepted(decode_bytes_spec(bytes, false, in_it_block_spec(s1)))),
            }
        },
        InstrSet::Thumb => {
            let (s1, first, r1) = next_n_spec(s0, 2);
            match r1 {
                Err(e) => (s1, Err(e)),
                Ok(_) => if is_wide(halfword_of(first)) {
                    let (s2, second, r2) = next_n_spec(s1, 2);
                    match r2 {
                        Err(e) => (s2, Err(e)),
                        Ok(_) => (
                            s2,
                            accepted(
                                decode_bytes_spec(first + second, true, in_it_block_spec(s2)),
                            ),
                        ),
                    }
                } else {
                    (s1, accepted(decode_bytes_spec(first, true, in_it_block_spec(s1))))
                },
            }
        },
        _ => (s0, Err(VMError::DecodeError)),
    }
}

/// One step of the machine: an instruction is fetched, decoded and
/// executed.
pub open spec fn step_spec(s: State) -> (State, Result<(), VMError>) {
    let (s1, r) = decode_spec(s);
    match r {
        Err(e) => (s1, Err(e)),
        Ok(instruction) => execute_spec(s1, instruction),
    }
}

/// Up to `limit` steps of the machine, ended by the first that fails.
pub open spec fn run_spec(s: State, limit: nat) -> (State, Result<(), VMError>)
    decreases limit,
{
    if limit == 0 {
        (s, Ok(()))
    } else {
        let (s1, r) = step_spec(s);
        match r {
            Err(e) => (s1, Err(e)),
            Ok(_) => run_spec(s1, (limit - 1) as nat),
        }
    }
}

impl Machine {
    /// Fetches and decodes the instruction at the PC.
    pub fn decode(&mut self) -> (r: Result<Instruction, VMError>)
        ensures
            (final(self)@, r) == decode_spec(old(self)@),
            r is Ok ==> r->Ok_0.wf(),
    {
        self.mark();
        let found = match self.current_instr_set() {
            InstrSet::Arm => {
                let mut bytes: [u8; 4] = [0u8; 4];
                self.next_n(&mut bytes)?;
                proof {
                    lemma_next_n_len(old(self)@.marked(), 4);
                    assert(bytes@.take(4) =~= bytes@);
                }
                decode_bytes(bytes.as_slice(), false, self.in_it_block())
            },
            InstrSet::Thumb => {
                let mut first: [u8; 2] = [0u8; 2];
                self.next_n(&mut first)?;
                proof {
                    lemma_next_n_len(old(self)@.marked(), 2);
                    assert(first@.take(2) =~= first@);
                }
                let ghost s1 = self@;
                let halfword = first[0] as u16 + first[1] as u16 * 0x100;
                if halfword / 0x800 >= 0b11101 {
                    let mut second: [u8; 2] = [0u8; 2];
                    self.next_n(&mut second)?;
                    proof {
                        lemma_next_n_len(s1, 2);
                        assert(second@.take(2) =~= second@);
                    }
                    let both: [u8; 4] = [first[0], first[1], second[0], second[1]];
                    proof {
                        assert(both@ =~= first@ + second@);
                    }
                    decode_bytes(both.as_slice(), true, self.in_it_block())
                } else {
                    decode_bytes(first.as_slice(), true, self.in_it_block())
                }
            },
            _ => {
                return Err(VMError::DecodeError);
            },
        };
        match found {
            Some(instruction) => {
                if instruction.is_wf() {
                    Ok(instruction)
                } else {
                    Err(VMError::DecodeError)
                }
            },
            None => Err(VMError::DecodeError),
        }
    }

    /// Fetches, decodes and executes one instruction.
    pub fn step(&mut self) -> (r: Result<(), VMError>)
        ensures
            (final(self)@, r) == step_spec(old(self)@),
    {
        let instruction = self.decode()?;
        self.execute(instruction)
    }

    /// Runs up to `limit` instructions and stops at the first that fails.
    pub fn run(&mut self, limit: u64) -> (r: Result<(), VMError>)
        ensures
            (final(self)@, r) == run_spec(old(self)@, limit as nat),
    {
        let mut done: u64 = 0;
        while done < limit
            invariant
                done <= limit,
                run_spec(self@, (limit - done) as nat) == run_spec(old(self)@, limit as nat),
            decreases limit - done,
        {
            self.step()?;
            done += 1;
        }
        Ok(())
    }
}

/// How an attempt at an instruction ended.
pub enum Attempt {
    /// The instruction was executed, or failed for good.
    Done(Result<(), VMError>),
    /// The host has not said enough yet: one more byte is wanted.
    Starved,
}

/// An attempt at one step with what the host has said so far on the link
/// and nothing said by the machine yet. Where the step runs out of what the
/// host has said, registers, status words and memory are what they were
/// before, as if nothing had been attempted, and the link holds what the
/// machine has said in the attempt. Otherwise the step stands.
pub open spec fn attempt_spec(s: State, heard: Seq<u8>) -> (State, Attempt) {
    let (after, r) = step_spec(State { link: Link { tx: Seq::empty(), rx: heard }, ..s });
    if r == Err::<(), VMError>(VMError::NonBlockError) {
        (State { link: after.link, ..s }, Attempt::Starved)
    } else {
        (after, Attempt::Done(r))
    }
}

impl Machine {
    /// Attempts one step with the bytes that the host has sent since the
    /// instruction began. After `Starved` the caller sends on what the
    /// machine has said and was not sent before, waits for one more byte of
    /// the host, and attempts again.
    pub fn attempt(&mut self, heard: &[u8]) -> (r: Attempt)
        ensures
            (final(self)@, r) == attempt_spec(old(self)@, heard@),
    {
        let mut trial = Machine {
            cpu: CPU { regs: self.cpu.regs, cpsr: self.cpu.cpsr, spsr: self.cpu.spsr },
            arch_version: self.arch_version,
            memory: Memory { data: self.memory.data },
            mark: self.mark,
            serial: ProtocolSerial::new(),
        };
        let mut i: usize = 0;
        proof {
            assert(heard@.take(0) =~= Seq::<u8>::empty());
        }
        while i < heard.len()
            invariant
                i <= heard@.len(),
                trial@ == (State {
                    link: Link { tx: Seq::empty(), rx: heard@.take(i as int) },
                    ..self@
                }),
            decreases heard@.len() - i,
        {
            trial.serial.receive(heard[i]);
            proof {
                assert(heard@.take(i as int).push(heard@[i as int]) =~= heard@.take(i + 1));
            }
            i += 1;
        }
        proof {
            assert(heard@.take(i as int) =~= heard@);
        }
        match trial.step() {
            Err(VMError::NonBlockError) => {
                self.serial = trial.serial;
                Attempt::Starved
            },
            other => {
                *self = trial;
                Attempt::Done(other)
            },
        }
    }
}

impl State {
    /// The state with the PC marked as the start of an instruction.
    pub open spec fn marked(self) -> State {
        State { mark: self.regs[15], ..self }
    }
}

/// Taking bytes that succeeds gives as many as were asked for.
proof fn lemma_next_n_len(s: State, count: nat)
    ensures
        next_n_spec(s, count).1.len() <= count,
        next_n_spec(s, count).2 is Ok ==> next_n_spec(s, count).1.len() == count,
{
    lemma_next_bytes_len(s, count);
}

proof fn lemma_next_bytes_len(s: State, count: nat)
    ensures
        crate::machine::next_bytes_spec(s, count).1.len() <= count,
        crate::machine::next_bytes_spec(s, count).2 is Ok ==> crate::machine::next_bytes_spec(
            s,
            count,
        ).1.len() == count,
    decreases count,
{
    if count > 0 {
        lemma_next_bytes_len(s, (count - 1) as nat);
    }
}

} // verus!
