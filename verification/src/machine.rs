//! The machine as a whole: what an instruction sees of it, the fetch cursor,
//! conditions, the ways of writing the PC, and the reading and writing of
//! operands.

use crate::arithmetic::{shift_c, shift_c_spec, wrap32, wrap_i64};
use crate::bits::{bit_of, field_of, view_bit, view_set, with_bit};
use crate::cpu::{
    instr_set_of, iset_of, iset_value, with_iset, InstrSet, APSR_MASK, CPU, PC_INDEX, RESET_CPSR,
};
use crate::instruction::{Condition, Offset, Operand, Shift};
use crate::memory::{read_byte_spec, read_word_spec, Memory, EXTERNAL_SIZE, INTERNAL_SIZE};
use crate::serial::{Link, ProtocolSerial};
use crate::vmerror::VMError;
use vstd::prelude::*;

verus! {

/// Everything that an instruction can read or change.
pub struct State {
    /// The sixteen registers; 13, 14 and 15 are SP, LR and PC. Register 15
    /// holds the address of the next instruction to fetch.
    pub regs: Seq<u32>,
    pub cpsr: u32,
    pub spsr: u32,
    pub arch_version: u32,
    /// Where the instruction under way began.
    pub mark: u32,
    /// The local memory.
    pub mem: Seq<u8>,
    /// The serial link behind the remote memory.
    pub link: Link,
}

impl State {
    /// Whether the state has sixteen registers and a local memory of the
    /// size that the machine has.
    pub open spec fn wf(self) -> bool {
        self.regs.len() == 16 && self.mem.len() == INTERNAL_SIZE
    }

    /// The N flag.
    pub open spec fn n(self) -> bool {
        bit_of(self.cpsr, 31)
    }

    /// The Z flag.
    pub open spec fn z(self) -> bool {
        bit_of(self.cpsr, 30)
    }

    /// The C flag.
    pub open spec fn c(self) -> bool {
        bit_of(self.cpsr, 29)
    }

    /// The V flag.
    pub open spec fn v(self) -> bool {
        bit_of(self.cpsr, 28)
    }

    /// The instruction set that the machine is in.
    pub open spec fn instr_set(self) -> InstrSet {
        instr_set_of(iset_of(self.cpsr))
    }

    /// The value that an instruction reads from the PC: its own address plus
    /// 8 in ARM state and plus 4 otherwise.
    pub open spec fn pc_value(self) -> u32 {
        if self.instr_set() == InstrSet::Arm {
            self.mark.wrapping_add(8)
        } else {
            self.mark.wrapping_add(4)
        }
    }

    /// The value that an instruction reads from a register.
    pub open spec fn reg(self, i: int) -> u32 {
        if i == 15 {
            self.pc_value()
        } else {
            self.regs[i]
        }
    }

    /// The state with a register other than the PC replaced.
    pub open spec fn with_reg(self, i: int, value: u32) -> State {
        State { regs: self.regs.update(i, value), ..self }
    }

    /// The state with its status word replaced.
    pub open spec fn with_cpsr(self, cpsr: u32) -> State {
        State { cpsr, ..self }
    }

    /// Whether the processor mode is any other than User.
    pub open spec fn privileged(self) -> bool {
        field_of(self.cpsr, 4, 0) != 0b10000
    }
}

/// The virtual CPU with its memory and its serial link.
pub struct Machine {
    pub cpu: CPU,
    pub arch_version: u32,
    pub memory: Memory,
    pub mark: u32,
    pub serial: ProtocolSerial,
}

impl View for Machine {
    type V = State;

    open spec fn view(&self) -> State {
        State {
            regs: self.cpu.regs@,
            cpsr: self.cpu.cpsr.0,
            spsr: self.cpu.spsr.0,
            arch_version: self.arch_version,
            mark: self.mark,
            mem: self.memory.data@,
            link: self.serial@,
        }
    }
}

/// The state after reset: registers and memory zero, supervisor mode, ARM
/// state, architecture version 7, a silent link.
pub open spec fn reset_state() -> State {
    State {
        regs: Seq::new(16, |i: int| 0u32),
        cpsr: RESET_CPSR,
        spsr: 0,
        arch_version: 7,
        mark: 0,
        mem: Seq::new(INTERNAL_SIZE as nat, |i: int| 0u8),
        link: Link { tx: Seq::empty(), rx: Seq::empty() },
    }
}

impl Default for Machine {
    fn default() -> (r: Machine)
        ensures
            r@ == reset_state(),
    {
        let cpu = CPU::default();
        Machine {
            arch_version: 7,
            memory: Memory::default(),
            mark: cpu.regs[PC_INDEX],
            cpu,
            serial: ProtocolSerial::new(),
        }
    }
}

/// Whether the flags of a status word meet a condition.
pub open spec fn condition_holds(cpsr: u32, cond: Condition) -> bool {
    let n = bit_of(cpsr, 31);
    let z = bit_of(cpsr, 30);
    let c = bit_of(cpsr, 29);
    let v = bit_of(cpsr, 28);
    match cond {
        Condition::EQ => z,
        Condition::NE => !z,
        Condition::CS => c,
        Condition::CC => !c,
        Condition::MI => n,
        Condition::PL => !n,
        Condition::VS => v,
        Condition::VC => !v,
        Condition::HI => c && !z,
        Condition::LS => !(c && !z),
        Condition::GE => n == v,
        Condition::LT => n != v,
        Condition::GT => n == v && !z,
        Condition::LE => !(n == v && !z),
        Condition::AL => true,
    }
}

/// The address brought down to a multiple of `alignment`.
pub open spec fn align_spec(address: u32, alignment: u32) -> u32 {
    (address - address % alignment) as u32
}

/// A jump: the next instruction is fetched from `address`.
pub open spec fn branch_to_spec(s: State, address: u32) -> State {
    State { regs: s.regs.update(15, address), ..s }
}

/// A jump that keeps the instruction set: to a word boundary in ARM state,
/// to a halfword boundary in Thumb and ThumbEE state. Jazelle state is not
/// carried out.
pub open spec fn branch_write_pc_spec(s: State, address: u32) -> (State, Result<(), VMError>) {
    match s.instr_set() {
        InstrSet::Arm => (branch_to_spec(s, align_spec(address, 4)), Ok(())),
        InstrSet::Jazelle => (s, Err(VMError::Unimplemented)),
        _ => (branch_to_spec(s, align_spec(address, 2)), Ok(())),
    }
}

/// A jump that picks the instruction set by the low bits of the address: an
/// odd address selects Thumb and jumps to the halfword below it, a multiple
/// of four selects ARM, and any other address changes nothing. ThumbEE state
/// is not carried out.
pub open spec fn bw_write_pc_spec(s: State, address: u32) -> (State, Result<(), VMError>) {
    if s.instr_set() == InstrSet::ThumbEE {
        (s, Err(VMError::Unimplemented))
    } else if address % 2 == 1 {
        (
            branch_to_spec(
                s.with_cpsr(with_iset(s.cpsr, iset_value(InstrSet::Thumb))),
                (address - 1) as u32,
            ),
            Ok(()),
        )
    } else if address % 4 == 0 {
        (
            branch_to_spec(s.with_cpsr(with_iset(s.cpsr, iset_value(InstrSet::Arm))), address),
            Ok(()),
        )
    } else {
        (s, Ok(()))
    }
}

/// The jump that an arithmetic result makes: from version 7 on and in ARM
/// state it may change the instruction set.
pub open spec fn alu_write_pc_spec(s: State, address: u32) -> (State, Result<(), VMError>) {
    if s.arch_version >= 7 && s.instr_set() == InstrSet::Arm {
        bw_write_pc_spec(s, address)
    } else {
        branch_write_pc_spec(s, address)
    }
}

/// The jump that a loaded value makes: from version 5 on it may change the
/// instruction set.
pub open spec fn load_write_pc_spec(s: State, address: u32) -> (State, Result<(), VMError>) {
    if s.arch_version >= 5 {
        bw_write_pc_spec(s, address)
    } else {
        branch_write_pc_spec(s, address)
    }
}

/// Taking the next byte of the instruction stream: the PC moves on by one,
/// then the byte it pointed at is read. A PC beyond memory fails and stays.
pub open spec fn next_spec(s: State) -> (State, Result<u8, VMError>) {
    if s.regs[15] >= INTERNAL_SIZE + EXTERNAL_SIZE {
        (s, Err(VMError::BusError))
    } else {
        read_byte_spec(branch_to_spec(s, (s.regs[15] + 1) as u32), s.regs[15])
    }
}

/// Taking `count` bytes of the instruction stream one after the other. The
/// first failure ends it; the bytes taken up to there are in the result.
pub open spec fn next_bytes_spec(s: State, count: nat) -> (State, Seq<u8>, Result<(), VMError>)
    decreases count,
{
    if count == 0 {
        (s, Seq::<u8>::empty(), Ok(()))
    } else {
        let (s1, bytes, r1) = next_bytes_spec(s, (count - 1) as nat);
        match r1 {
            Err(e) => (s1, bytes, Err(e)),
            Ok(_) => {
                let (s2, r2) = next_spec(s1);
                match r2 {
                    Err(e) => (s2, bytes, Err(e)),
                    Ok(byte) => (s2, bytes.push(byte), Ok(())),
                }
            },
        }
    }
}

/// Taking `count` bytes of the instruction stream, or none at all where
/// fewer than that are left before the end of memory.
pub open spec fn next_n_spec(s: State, count: nat) -> (State, Seq<u8>, Result<(), VMError>) {
    if count + s.regs[15] > INTERNAL_SIZE + EXTERNAL_SIZE {
        (s, Seq::<u8>::empty(), Err(VMError::BusError))
    } else {
        next_bytes_spec(s, count)
    }
}

proof fn lemma_next_bytes_fails(s: State, n: nat, count: nat)
    requires
        n <= count,
        next_bytes_spec(s, n).2 is Err,
    ensures
        next_bytes_spec(s, count) == next_bytes_spec(s, n),
    decreases count,
{
    if n < count {
        lemma_next_bytes_fails(s, n, (count - 1) as nat);
    }
}

/// A register as a shift makes it, with the carry that the shift puts out. A
/// shift by a register takes its amount from the low eight bits of that
/// register.
pub open spec fn shifted_spec(s: State, reg_index: int, shift: Shift) -> (u32, bool) {
    match shift {
        Shift::Imm { style, amount } => shift_c_spec(s.reg(reg_index), style, amount as u32, s.c()),
        Shift::Reg { style, reg_index: by } => shift_c_spec(
            s.reg(reg_index),
            style,
            s.reg(by as int) % 0x100,
            s.c(),
        ),
    }
}

/// The value of the offset of a memory operand.
pub open spec fn offset_spec(s: State, offset: Offset) -> u32 {
    match offset {
        Offset::Imm { value } => value,
        Offset::Reg { reg_index } => s.reg(reg_index as int),
        Offset::RegShift { reg_index, shift } => shifted_spec(s, reg_index as int, shift).0,
    }
}

/// The address that a memory operand names: the base register, moved by the
/// offset where the operand is pre-indexed. Any other operand names none.
pub open spec fn read_address_spec(s: State, operand: Operand) -> Result<u32, VMError> {
    match operand {
        Operand::RegDeref { reg_index } => Ok(s.reg(reg_index as int)),
        Operand::RegDerefPostindexed { reg_index, .. } => Ok(s.reg(reg_index as int)),
        Operand::RegDerefPreindexed { reg_index, offset, add, .. } => Ok(
            if add {
                s.reg(reg_index as int).wrapping_add(offset_spec(s, offset))
            } else {
                s.reg(reg_index as int).wrapping_sub(offset_spec(s, offset))
            },
        ),
        _ => Err(VMError::Unimplemented),
    }
}

/// The value of an operand. A memory operand gives the word at its address.
/// A branch offset gives the distance in bytes that is added to the PC
/// value: its count less one, in words or in halfwords as the operand says.
/// An empty slot and a status mask have no value.
pub open spec fn read_spec(s: State, operand: Operand) -> (State, Result<u32, VMError>) {
    match operand {
        Operand::Immediate { value } => (s, Ok(value)),
        Operand::Register { reg_index } => (s, Ok(s.reg(reg_index as int))),
        Operand::RegWithShift { reg_index, shift } => (
            s,
            Ok(shifted_spec(s, reg_index as int, shift).0),
        ),
        Operand::BranchOffset { words } => (s, Ok(wrap32((words - 1) * 4))),
        Operand::BranchThumbOffset { halfwords } => (s, Ok(wrap32((halfwords - 1) * 2))),
        Operand::RegWBack { reg_index, .. } => (s, Ok(s.reg(reg_index as int))),
        Operand::RegList { registers } => (s, Ok(registers as u32)),
        Operand::RegDeref { .. }
        | Operand::RegDerefPreindexed { .. }
        | Operand::RegDerefPostindexed { .. } => match read_address_spec(s, operand) {
            Ok(address) => read_word_spec(s, address),
            Err(e) => (s, Err(e)),
        },
        Operand::APSR => (s, Ok(s.cpsr & APSR_MASK)),
        Operand::CPSR => (s, Ok(s.cpsr)),
        Operand::SPSR => (s, Ok(s.spsr)),
        Operand::Nothing | Operand::StatusRegMask { .. } => (s, Err(VMError::Unimplemented)),
    }
}

/// The value of an operand and the carry that comes with it: the carry out
/// of the shift for a shifted register, the carry flag as it stands for any
/// other operand.
pub open spec fn read_with_carry_spec(s: State, operand: Operand) -> (
    State,
    Result<(u32, bool), VMError>,
) {
    match operand {
        Operand::RegWithShift { reg_index, shift } => (
            s,
            Ok(shifted_spec(s, reg_index as int, shift)),
        ),
        _ => {
            let (s1, r) = read_spec(s, operand);
            match r {
                Ok(value) => (s1, Ok((value, s.c()))),
                Err(e) => (s1, Err(e)),
            }
        },
    }
}

/// `dst` with its bits from `lo` up to but not including `hi` taken from
/// `src`.
pub open spec fn copy_bits_spec(dst: u32, src: u32, lo: int, hi: int) -> u32
    decreases hi - lo,
{
    if hi <= lo {
        dst
    } else {
        with_bit(copy_bits_spec(dst, src, lo, hi - 1), hi - 1, bit_of(src, hi - 1))
    }
}

/// `dst` with the bits `lo .. hi` taken from `src` where `on` holds.
pub open spec fn copy_bits_if(on: bool, dst: u32, src: u32, lo: int, hi: int) -> u32 {
    if on {
        copy_bits_spec(dst, src, lo, hi)
    } else {
        dst
    }
}

/// A saved status register after a masked write: each selected byte group is
/// taken from `value` whole.
pub open spec fn spsr_write_spec(word: u32, value: u32, fields: u8) -> u32 {
    let w3 = copy_bits_if(fields / 8 % 2 == 1, word, value, 24, 32);
    let w2 = copy_bits_if(fields / 4 % 2 == 1, w3, value, 16, 20);
    let w1 = copy_bits_if(fields / 2 % 2 == 1, w2, value, 8, 16);
    copy_bits_if(fields % 2 == 1, w1, value, 0, 8)
}

/// The current status register after a masked write. The flags field gives
/// N, Z, C, V and Q, and on an exception return IT[1:0] and J. The GE field
/// gives GE. The extension field gives E, and on an exception return
/// IT[7:2]; the A mask is never written. The control field gives the I mask
/// and the mode where privileged, and T on an exception return; the F mask
/// is never written.
pub open spec fn cpsr_write_spec(
    word: u32,
    value: u32,
    fields: u8,
    privileged: bool,
    exception_return: bool,
) -> u32 {
    let f = fields / 8 % 2 == 1;
    let s = fields / 4 % 2 == 1;
    let x = fields / 2 % 2 == 1;
    let c = fields % 2 == 1;
    let w1 = copy_bits_if(f, word, value, 27, 32);
    let w2 = copy_bits_if(f && exception_return, w1, value, 24, 27);
    let w3 = copy_bits_if(s, w2, value, 16, 20);
    let w4 = copy_bits_if(x && exception_return, w3, value, 10, 16);
    let w5 = copy_bits_if(x, w4, value, 9, 10);
    let w6 = copy_bits_if(c && privileged, w5, value, 7, 8);
    let w7 = copy_bits_if(c && exception_return, w6, value, 5, 6);
    copy_bits_if(c && privileged, w7, value, 0, 5)
}

/// Storing a value through an operand. A register takes it; the PC takes it
/// as a jump that keeps the instruction set. A base register with writeback
/// takes it. A post-indexed memory operand with writeback puts the value,
/// moved by the offset, into its base register, and a pre-indexed one the
/// value itself. A status mask writes the selected fields of the current
/// status register, or of the saved one where bit 4 of the mask is set.
/// Every other operand takes nothing.
pub open spec fn write_spec(s: State, operand: Operand, value: u32) -> (
    State,
    Result<(), VMError>,
) {
    match operand {
        Operand::Register { reg_index } => write_reg_spec(s, reg_index as int, value),
        Operand::RegWBack { reg_index, wback } => if wback {
            write_reg_spec(s, reg_index as int, value)
        } else {
            (s, Ok(()))
        },
        Operand::RegDerefPostindexed { reg_index, offset, add, wback } => if wback {
            write_reg_spec(
                s,
                reg_index as int,
                if add {
                    value.wrapping_add(offset_spec(s, offset))
                } else {
                    value.wrapping_sub(offset_spec(s, offset))
                },
            )
        } else {
            (s, Ok(()))
        },
        Operand::RegDerefPreindexed { reg_index, wback, .. } => if wback {
            write_reg_spec(s, reg_index as int, value)
        } else {
            (s, Ok(()))
        },
        Operand::StatusRegMask { mask } => if mask / 16 == 1 {
            (State { spsr: spsr_write_spec(s.spsr, value, mask % 16), ..s }, Ok(()))
        } else {
            (
                State {
                    cpsr: cpsr_write_spec(s.cpsr, value, mask % 16, s.privileged(), false),
                    ..s
                },
                Ok(()),
            )
        },
        _ => (s, Ok(())),
    }
}

/// Storing a value in a register; for the PC that is a jump that keeps the
/// instruction set.
pub open spec fn write_reg_spec(s: State, i: int, value: u32) -> (State, Result<(), VMError>) {
    if i == 15 {
        branch_write_pc_spec(s, value)
    } else {
        (s.with_reg(i, value), Ok(()))
    }
}

/// Copies the bits `lo .. hi` of `src` into `dst`, one at a time.
pub fn copy_bits(dst: u32, src: u32, lo: usize, hi: usize) -> (r: u32)
    requires
        lo <= hi <= 32,
    ensures
        r == copy_bits_spec(dst, src, lo as int, hi as int),
{
    let mut word = dst;
    let mut i = lo;
    while i < hi
        invariant
            lo <= i <= hi <= 32,
            word == copy_bits_spec(dst, src, lo as int, i as int),
        decreases hi - i,
    {
        word = view_set(word, i, view_bit(src, i));
        i += 1;
    }
    word
}

/// A saved status register after a masked write.
pub fn spsr_write(word: u32, value: u32, fields: u8) -> (r: u32)
    ensures
        r == spsr_write_spec(word, value, fields),
{
    let mut w = word;
    if fields / 8 % 2 == 1 {
        w = copy_bits(w, value, 24, 32);
    }
    if fields / 4 % 2 == 1 {
        w = copy_bits(w, value, 16, 20);
    }
    if fields / 2 % 2 == 1 {
        w = copy_bits(w, value, 8, 16);
    }
    if fields % 2 == 1 {
        w = copy_bits(w, value, 0, 8);
    }
    w
}

/// The current status register after a masked write.
pub fn cpsr_write(
    word: u32,
    value: u32,
    fields: u8,
    privileged: bool,
    exception_return: bool,
) -> (r: u32)
    ensures
        r == cpsr_write_spec(word, value, fields, privileged, exception_return),
{
    let mut w = word;
    if fields / 8 % 2 == 1 {
        w = copy_bits(w, value, 27, 32);
        if exception_return {
            w = copy_bits(w, value, 24, 27);
        }
    }
    if fields / 4 % 2 == 1 {
        w = copy_bits(w, value, 16, 20);
    }
    if fields / 2 % 2 == 1 {
        if exception_return {
            w = copy_bits(w, value, 10, 16);
        }
        w = copy_bits(w, value, 9, 10);
    }
    if fields % 2 == 1 {
        if privileged {
            w = copy_bits(w, value, 7, 8);
        }
        if exception_return {
            w = copy_bits(w, value, 5, 6);
        }
        if privileged {
            w = copy_bits(w, value, 0, 5);
        }
    }
    w
}

impl Machine {
    /// Whatever a machine holds, its state has sixteen registers and a local
    /// memory of the size that the machine has.
    pub proof fn law_state_is_well_formed(&self)
        ensures
            self@.wf(),
    {
    }

    /// Takes the next byte of the instruction stream.
    pub fn next(&mut self) -> (r: Result<u8, VMError>)
        ensures
            (final(self)@, r) == next_spec(old(self)@),
    {
        let address = self.cpu.regs[PC_INDEX];
        if (address as usize) >= self.memory.size() {
            return Err(VMError::BusError);
        }
        self.cpu.regs[PC_INDEX] = address + 1;
        self.read_memory(address)
    }

    /// Fills `buf` from the instruction stream, or takes nothing where too
    /// little of it is left.
    pub fn next_n(&mut self, buf: &mut [u8]) -> (r: Result<(), VMError>)
        requires
            old(buf)@.len() <= u32::MAX,
        ensures
            final(buf)@.len() == old(buf)@.len(),
            (final(self)@, r) == (
                next_n_spec(old(self)@, old(buf)@.len()).0,
                next_n_spec(old(self)@, old(buf)@.len()).2,
            ),
            final(buf)@.take(next_n_spec(old(self)@, old(buf)@.len()).1.len() as int)
                == next_n_spec(old(self)@, old(buf)@.len()).1,
    {
        if buf.len() as u64 + self.cpu.regs[PC_INDEX] as u64 > self.memory.size() as u64 {
            proof {
                assert(buf@.take(0) =~= Seq::<u8>::empty());
            }
            return Err(VMError::BusError);
        }
        let mut i: usize = 0;
        while i < buf.len()
            invariant
                i <= buf@.len() == old(buf)@.len() <= u32::MAX,
                old(buf)@.len() + old(self)@.regs[15] <= INTERNAL_SIZE + EXTERNAL_SIZE,
                next_bytes_spec(old(self)@, i as nat) == (
                    self@,
                    buf@.take(i as int),
                    Ok::<(), VMError>(()),
                ),
            decreases buf@.len() - i,
        {
            let ghost before = buf@;
            let ghost state_before = self@;
            match self.next() {
                Err(e) => {
                    proof {
                        assert(next_bytes_spec(old(self)@, i as nat + 1) == (
                            self@,
                            before.take(i as int),
                            Err::<(), VMError>(e),
                        )) by {
                            assert(next_spec(state_before) == (self@, Err::<u8, VMError>(e)));
                        }
                        lemma_next_bytes_fails(old(self)@, i as nat + 1, old(buf)@.len());
                    }
                    return Err(e);
                },
                Ok(byte) => {
                    buf[i] = byte;
                    proof {
                        assert(buf@.take(i + 1) =~= before.take(i as int).push(byte));
                    }
                },
            }
            i += 1;
        }
        proof {
            assert(buf@.take(i as int) =~= buf@);
        }
        Ok(())
    }

    /// Notes the PC as the place where an instruction begins.
    pub fn mark(&mut self)
        ensures
            final(self)@ == (State { mark: old(self)@.regs[15], ..old(self)@ }),
    {
        self.mark = self.cpu.regs[PC_INDEX]
    }

    /// How far the PC has moved since the mark, modulo 2^32.
    pub fn offset(&mut self) -> (r: u32)
        ensures
            r == old(self)@.regs[15].wrapping_sub(old(self)@.mark),
            final(self)@ == old(self)@,
    {
        self.cpu.regs[PC_INDEX].wrapping_sub(self.mark)
    }

    /// Where the PC stands.
    pub fn total_offset(&mut self) -> (r: u32)
        ensures
            r == old(self)@.regs[15],
            final(self)@ == old(self)@,
    {
        self.cpu.regs[PC_INDEX]
    }

    /// Whether the flags meet a condition.
    pub fn condition_passed(&self, cond: Condition) -> (r: bool)
        ensures
            r == condition_holds(self@.cpsr, cond),
    {
        let code = cond.code();
        let apsr = self.cpu.apsr();
        let mut result = match code / 2 {
            0b000 => apsr.z(),
            0b001 => apsr.c(),
            0b010 => apsr.n(),
            0b011 => apsr.v(),
            0b100 => apsr.c() && apsr.z() == false,
            0b101 => apsr.n() == apsr.v(),
            0b110 => apsr.n() == apsr.v() && apsr.z() == false,
            _ => true,
        };
        if code % 2 == 1 && code != 0b1111 {
            result = !result;
        }
        result
    }

    /// The value that an instruction reads from the PC.
    pub fn pc_value(&self) -> (r: u32)
        ensures
            r == self@.pc_value(),
    {
        match self.current_instr_set() {
            InstrSet::Arm => self.mark.wrapping_add(8),
            _ => self.mark.wrapping_add(4),
        }
    }

    /// The value that an instruction reads from a register.
    pub fn reg(&self, i: usize) -> (r: u32)
        requires
            i < 16,
        ensures
            r == self@.reg(i as int),
    {
        if i == PC_INDEX {
            self.pc_value()
        } else {
            self.cpu.regs[i]
        }
    }

    /// The jump that an arithmetic result makes.
    pub fn alu_write_pc(&mut self, address: u32) -> (r: Result<(), VMError>)
        ensures
            (final(self)@, r) == alu_write_pc_spec(old(self)@, address),
    {
        if self.arch_version >= 7 {
            if let InstrSet::Arm = self.current_instr_set() {
                return self.bw_write_pc(address);
            }
        }
        self.branch_write_pc(address)
    }

    /// A jump that keeps the instruction set.
    pub fn branch_write_pc(&mut self, address: u32) -> (r: Result<(), VMError>)
        ensures
            (final(self)@, r) == branch_write_pc_spec(old(self)@, address),
    {
        match self.current_instr_set() {
            InstrSet::Arm => {
                self.branch_to(self.align(address, 4));
                Ok(())
            },
            InstrSet::Jazelle => Err(VMError::Unimplemented),
            _ => {
                self.branch_to(self.align(address, 2));
                Ok(())
            },
        }
    }

    /// A jump that picks the instruction set by the low bits of the address.
    pub fn bw_write_pc(&mut self, address: u32) -> (r: Result<(), VMError>)
        ensures
            (final(self)@, r) == bw_write_pc_spec(old(self)@, address),
    {
        match self.current_instr_set() {
            InstrSet::ThumbEE => Err(VMError::Unimplemented),
            _ => {
                if address % 2 == 1 {
                    self.select_instr_set(InstrSet::Thumb);
                    self.branch_to(address - 1);
                } else if address % 4 == 0 {
                    self.select_instr_set(InstrSet::Arm);
                    self.branch_to(address);
                }
                Ok(())
            },
        }
    }

    /// The jump that a loaded value makes.
    pub fn load_write_pc(&mut self, address: u32) -> (r: Result<(), VMError>)
        ensures
            (final(self)@, r) == load_write_pc_spec(old(self)@, address),
    {
        if self.arch_version >= 5 {
            self.bw_write_pc(address)
        } else {
            self.branch_write_pc(address)
        }
    }

    /// Sets the address from which the next instruction is fetched.
    pub fn branch_to(&mut self, address: u32)
        ensures
            final(self)@ == branch_to_spec(old(self)@, address),
    {
        self.cpu.regs[PC_INDEX] = address;
    }

    /// Brings an address down to a multiple of `alignment`.
    pub fn align(&self, address: u32, alignment: u32) -> (r: u32)
        requires
            alignment > 0,
        ensures
            r == align_spec(address, alignment),
            r % alignment == 0,
            r <= address < r + alignment,
    {
        proof {
            assert(address == alignment * (address / alignment) + address % alignment) by {
                vstd::arithmetic::div_mod::lemma_fundamental_div_mod(
                    address as int,
                    alignment as int,
                );
            }
            vstd::arithmetic::div_mod::lemma_mod_multiples_basic(
                (address / alignment) as int,
                alignment as int,
            );
            assert(alignment * (address / alignment) == (address / alignment) * alignment)
                by (nonlinear_arith);
        }
        address - address % alignment
    }

    /// A register as a shift makes it, with the carry out of the shift.
    pub fn shifted(&self, reg_index: usize, shift: Shift) -> (r: (u32, bool))
        requires
            reg_index < 16,
            shift.wf(),
        ensures
            r == shifted_spec(self@, reg_index as int, shift),
    {
        let carry = self.cpu.apsr().c();
        match shift {
            Shift::Imm { style, amount } => shift_c(
                self.reg(reg_index),
                style,
                amount as u32,
                carry,
            ),
            Shift::Reg { style, reg_index: by } => shift_c(
                self.reg(reg_index),
                style,
                self.reg(by) % 0x100,
                carry,
            ),
        }
    }

    /// The value of the offset of a memory operand.
    pub fn offset_value(&self, offset: Offset) -> (r: u32)
        requires
            offset.wf(),
        ensures
            r == offset_spec(self@, offset),
    {
        match offset {
            Offset::Imm { value } => value,
            Offset::Reg { reg_index } => self.reg(reg_index),
            Offset::RegShift { reg_index, shift } => self.shifted(reg_index, shift).0,
        }
    }

    /// The address that a memory operand names.
    pub fn read_address(&self, operand: Operand) -> (r: Result<u32, VMError>)
        requires
            operand.wf(),
        ensures
            r == read_address_spec(self@, operand),
    {
        match operand {
            Operand::RegDeref { reg_index } => Ok(self.reg(reg_index)),
            Operand::RegDerefPostindexed { reg_index, .. } => Ok(self.reg(reg_index)),
            Operand::RegDerefPreindexed { reg_index, offset, add, .. } => {
                let a = self.reg(reg_index);
                let b = self.offset_value(offset);
                Ok(
                    if add {
                        a.wrapping_add(b)
                    } else {
                        a.wrapping_sub(b)
                    },
                )
            },
            _ => Err(VMError::Unimplemented),
        }
    }

    /// Reads an operand together with the carry that comes with it.
    pub fn read_with_carry(&mut self, operand: Operand) -> (r: Result<(u32, bool), VMError>)
        requires
            operand.wf(),
        ensures
            (final(self)@, r) == read_with_carry_spec(old(self)@, operand),
    {
        match operand {
            Operand::RegWithShift { reg_index, shift } => Ok(self.shifted(reg_index, shift)),
            _ => {
                let carry = self.cpu.apsr().c();
                let value = self.read(operand)?;
                Ok((value, carry))
            },
        }
    }

    /// Reads an operand.
    pub fn read(&mut self, operand: Operand) -> (r: Result<u32, VMError>)
        requires
            operand.wf(),
        ensures
            (final(self)@, r) == read_spec(old(self)@, operand),
    {
        match operand {
            Operand::Immediate { value } => Ok(value),
            Operand::Register { reg_index } => Ok(self.reg(reg_index)),
            Operand::RegWithShift { reg_index, shift } => Ok(self.shifted(reg_index, shift).0),
            Operand::BranchOffset { words } => Ok(wrap_i64((words as i64 - 1) * 4)),
            Operand::BranchThumbOffset { halfwords } => Ok(wrap_i64((halfwords as i64 - 1) * 2)),
            Operand::RegWBack { reg_index, .. } => Ok(self.reg(reg_index)),
            Operand::RegList { registers } => Ok(registers as u32),
            Operand::RegDeref { .. }
            | Operand::RegDerefPreindexed { .. }
            | Operand::RegDerefPostindexed { .. } => {
                let address = self.read_address(operand)?;
                self.read_memory_word(address)
            },
            Operand::APSR => Ok(self.cpu.apsr().0),
            Operand::CPSR => Ok(self.cpu.cpsr.0),
            Operand::SPSR => Ok(self.cpu.spsr.0),
            Operand::Nothing | Operand::StatusRegMask { .. } => Err(VMError::Unimplemented),
        }
    }

    /// Stores a value in a register; for the PC that is a jump that keeps
    /// the instruction set.
    pub fn write_reg(&mut self, i: usize, value: u32) -> (r: Result<(), VMError>)
        requires
            i < 16,
        ensures
            (final(self)@, r) == write_reg_spec(old(self)@, i as int, value),
    {
        if i == PC_INDEX {
            self.branch_write_pc(value)
        } else {
            self.cpu.regs[i] = value;
            Ok(())
        }
    }

    /// Stores a value through an operand.
    pub fn write(&mut self, operand: Operand, value: u32) -> (r: Result<(), VMError>)
        requires
            operand.wf(),
        ensures
            (final(self)@, r) == write_spec(old(self)@, operand, value),
    {
        match operand {
            Operand::Register { reg_index } => self.write_reg(reg_index, value),
            Operand::RegWBack { reg_index, wback } => {
                if wback {
                    self.write_reg(reg_index, value)
                } else {
                    Ok(())
                }
            },
            Operand::RegDerefPostindexed { reg_index, offset, add, wback } => {
                if wback {
                    let b = self.offset_value(offset);
                    if add {
                        self.write_reg(reg_index, value.wrapping_add(b))
                    } else {
                        self.write_reg(reg_index, value.wrapping_sub(b))
                    }
                } else {
                    Ok(())
                }
            },
            Operand::RegDerefPreindexed { reg_index, wback, .. } => {
                if wback {
                    self.write_reg(reg_index, value)
                } else {
                    Ok(())
                }
            },
            Operand::StatusRegMask { mask } => {
                let write_spsr = mask / 16 == 1;
                let fields = mask % 16;
                if write_spsr {
                    self.cpu.spsr.0 = spsr_write(self.cpu.spsr.0, value, fields);
                } else {
                    let privileged = self.cpu.cpsr.m() != 0b10000;
                    self.cpu.cpsr.0 = cpsr_write(self.cpu.cpsr.0, value, fields, privileged, false);
                }
                Ok(())
            },
            _ => Ok(()),
        }
    }
}

} // verus!
