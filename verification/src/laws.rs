//! What holds of the machine whatever it executes.

use crate::alu::is_comparison;
use crate::arithmetic::wrap32;
use crate::bits::{bit_of, with_bit, with_field};
use crate::cpu::{APSR_MASK, InstrSet, iset_of, it_of, with_iset, with_it};
use crate::executor::{
    advanced, execute_spec, governing_condition, in_it_block_spec, it_advance, it_step, it_value,
    perform_spec, transfer_step, with_nz, with_nzcv,
};
use crate::executor::branch::{branch_step, compare_branch_step, table_branch_step};
use crate::executor::compute::{
    comparison_step, data_processing_step, insertion_step, long_multiply_step, value_step,
};
use crate::executor::multiple::{
    load_registers_spec, multiple_step, push_registers_spec, stack_step, store_registers_spec,
};
use crate::executor::transfer::{
    load_dual_step, load_spec, load_step, operand_address_spec, store_dual_step, store_spec,
    store_step, swap_step, Width,
};
use crate::instruction::{Condition, Instruction, InstructionKind, Operand};
use crate::machine::{
    align_spec, alu_write_pc_spec, branch_write_pc_spec, bw_write_pc_spec, condition_holds,
    copy_bits_spec, cpsr_write_spec, load_write_pc_spec, read_spec, read_with_carry_spec, State,
    write_spec,
};
use crate::memory::{
    INTERNAL_SIZE, word_bytes, read_byte_spec, read_bytes_spec, read_halfword_spec, read_word_spec,
    write_byte_spec, write_bytes_spec, write_halfword_spec, write_word_spec,
};
use crate::multiply::multiply_sets_q;
use crate::parallel::lanes_of;
use crate::values::value_flags;
use crate::vmerror::VMError;
use vstd::prelude::*;

verus! {

/// A byte written to local memory is the byte that is read back from there,
/// and reading it changes nothing.
pub proof fn law_write_then_read(s: State, address: u32, value: u8)
    requires
        s.wf(),
        address < INTERNAL_SIZE,
    ensures
        write_byte_spec(s, address, value).1 is Ok,
        read_byte_spec(write_byte_spec(s, address, value).0, address) == (
            write_byte_spec(s, address, value).0,
            Ok::<u8, VMError>(value),
        ),
{
}

/// Reading bytes that all lie in local memory gives what is held there and
/// changes nothing.
pub proof fn law_read_local(s: State, address: u32, count: nat)
    requires
        s.wf(),
        address + count <= INTERNAL_SIZE,
    ensures
        read_bytes_spec(s, address, count) == (
            s,
            s.mem.subrange(address as int, address + count),
            Ok::<(), VMError>(()),
        ),
    decreases count,
{
    if count == 0 {
        assert(s.mem.subrange(address as int, address + count) =~= Seq::<u8>::empty());
    } else {
        law_read_local(s, address, (count - 1) as nat);
        assert(s.mem.subrange(address as int, address + count - 1).push(
            s.mem[address + count - 1],
        ) =~= s.mem.subrange(address as int, address + count));
    }
}

/// Writing bytes that all lie in local memory puts them there, leaves the
/// rest of memory as it was, and changes nothing else.
pub proof fn law_write_local(s: State, address: u32, bytes: Seq<u8>)
    requires
        s.wf(),
        address + bytes.len() <= INTERNAL_SIZE,
    ensures
        write_bytes_spec(s, address, bytes).1 is Ok,
        write_bytes_spec(s, address, bytes).0 == (State {
            mem: write_bytes_spec(s, address, bytes).0.mem,
            ..s
        }),
        write_bytes_spec(s, address, bytes).0.wf(),
        write_bytes_spec(s, address, bytes).0.mem.subrange(
            address as int,
            address + bytes.len(),
        ) == bytes,
        forall|i: int|
            0 <= i < INTERNAL_SIZE && !(address <= i < address + bytes.len())
                ==> write_bytes_spec(s, address, bytes).0.mem[i] == s.mem[i],
    decreases bytes.len(),
{
    if bytes.len() == 0 {
        assert(s.mem.subrange(address as int, address + bytes.len()) =~= bytes);
    } else {
        law_write_local(s, address, bytes.drop_last());
        let before = write_bytes_spec(s, address, bytes.drop_last()).0;
        let after = write_bytes_spec(s, address, bytes).0;
        assert(after.mem == before.mem.update(address + bytes.len() - 1, bytes.last()));
        assert(after.mem.subrange(address as int, address + bytes.len()) =~= bytes) by {
            assert forall|i: int| 0 <= i < bytes.len() implies after.mem.subrange(
                address as int,
                address + bytes.len(),
            )[i] == bytes[i] by {
                if i < bytes.len() - 1 {
                    assert(before.mem.subrange(address as int, address + bytes.len() - 1)[i]
                        == bytes.drop_last()[i]);
                }
            }
        }
    }
}

/// A word written to local memory is the word that is read back from there,
/// and its bytes lie there lowest first.
pub proof fn law_write_then_read_word(s: State, address: u32, word: u32)
    requires
        s.wf(),
        address + 4 <= INTERNAL_SIZE,
    ensures
        write_word_spec(s, address, word).1 is Ok,
        read_word_spec(write_word_spec(s, address, word).0, address) == (
            write_word_spec(s, address, word).0,
            Ok::<u32, VMError>(word),
        ),
        write_word_spec(s, address, word).0.mem.subrange(address as int, address + 4)
            == word_bytes(word),
{
    law_write_local(s, address, word_bytes(word));
    law_read_local(write_word_spec(s, address, word).0, address, 4);
}

/// An instruction whose governing condition does not hold changes nothing;
/// inside an IT block the IT state moves on and nothing else changes. This
/// is said of every instruction but a compare and branch, which no condition
/// governs.
pub proof fn law_failed_condition(s: State, inst: Instruction)
    requires
        inst.kind != InstructionKind::CBZ,
        inst.kind != InstructionKind::CBNZ,
        !condition_holds(s.cpsr, governing_condition(s, inst)),
    ensures
        !in_it_block_spec(s) ==> execute_spec(s, inst) == (s, Ok::<(), VMError>(())),
        in_it_block_spec(s) && inst.kind != InstructionKind::BKPT && inst.kind
            != InstructionKind::IT ==> execute_spec(s, inst) == (
            advanced(s),
            Ok::<(), VMError>(()),
        ),
        execute_spec(s, inst).0 == (State { cpsr: execute_spec(s, inst).0.cpsr, ..s }),
        execute_spec(s, inst).1 is Ok,
{
}

/// How a branch distance is counted. A branch in ARM state whose operand
/// holds the count `words`, carried out from the instruction at `mark`,
/// jumps to the PC value, which is `mark` plus 8, plus four times the count
/// less one, brought down to a word boundary: with the count 1 to the PC
/// value itself, with the count -2 to the word before the branch.
pub proof fn law_branch_distance(s: State, inst: Instruction, words: i32)
    requires
        s.wf(),
        s.instr_set() == InstrSet::Arm,
        inst.kind == InstructionKind::B,
        inst.operands@[0] == (Operand::BranchOffset { words }),
    ensures
        perform_spec(s, inst).1 is Ok,
        perform_spec(s, inst).0 == (State {
            regs: s.regs.update(
                15,
                align_spec(s.mark.wrapping_add(8).wrapping_add(wrap32((words - 1) * 4)), 4),
            ),
            ..s
        }),
        words == -2 && s.mark % 4 == 0 && 4 <= s.mark < 0x8000_0000 ==> perform_spec(
            s,
            inst,
        ).0.regs[15] == s.mark - 4,
{
    reveal(branch_step);
}

/// How many instructions of an IT block are still to come: the place of the
/// lowest set bit of the mask tells it.
pub open spec fn it_remaining(it: u8) -> nat {
    if it % 16 == 0 {
        0
    } else if it % 2 == 1 {
        4
    } else if it % 4 == 2 {
        3
    } else if it % 8 == 4 {
        2
    } else {
        1
    }
}

/// Inside an IT block each instruction takes the count of those to come
/// down by one, and the block is over when none is left. Until then the top
/// three bits of the condition stay, and its lowest bit comes from the mask.
pub proof fn law_it_counts_down(it: u8)
    requires
        it % 16 != 0,
    ensures
        1 <= it_remaining(it) <= 4,
        it_remaining(it_advance(it)) == it_remaining(it) - 1,
        it_remaining(it) == 1 <==> it_advance(it) % 16 == 0,
        it_remaining(it) > 1 ==> it_advance(it) / 32 == it / 32 && (it_advance(it) / 16 % 2 == 1
            <==> it % 16 >= 8),
{
    assert(it_remaining(it_advance(it)) == it_remaining(it) - 1 && (it_remaining(it) > 1
        ==> it_advance(it) / 32 == it / 32 && (it_advance(it) / 16 % 2 == 1 <==> it % 16 >= 8)))
        by (bit_vector)
        requires
            it % 16 != 0,
    ;
}

/// Whether two status words show the same flags at the application level:
/// N, Z, C, V, Q and GE.
pub open spec fn same_flags(a: u32, b: u32) -> bool {
    a & APSR_MASK == b & APSR_MASK
}

/// Whether a state has the flags and the IT state of another.
pub open spec fn kept(a: State, b: State) -> bool {
    same_flags(a.cpsr, b.cpsr) && it_of(a.cpsr) == it_of(b.cpsr)
}

proof fn lemma_status_bits(w: u32, v: bool, g: u32, it: u8, iset: u8)
    by (bit_vector)
    ensures
        with_it(w, it) & APSR_MASK == w & APSR_MASK,
        with_iset(w, iset) & APSR_MASK == w & APSR_MASK,
        it_of(with_it(w, it)) == it,
        it_of(with_iset(w, iset)) == it_of(w),
        it_of(with_bit(w, 31, v)) == it_of(w),
        it_of(with_bit(w, 30, v)) == it_of(w),
        it_of(with_bit(w, 29, v)) == it_of(w),
        it_of(with_bit(w, 28, v)) == it_of(w),
        it_of(with_bit(w, 27, v)) == it_of(w),
        it_of(with_field(w, 19, 16, g)) == it_of(w),
{
}

proof fn lemma_bit_keeps_it(w: u32, i: u32, v: bool)
    by (bit_vector)
    requires
        i < 10 || (16 <= i && i < 25) || (27 <= i && i < 32),
    ensures
        it_of(if v { w | (1u32 << i) } else { w & !(1u32 << i) }) == it_of(w),
{
}

proof fn lemma_copy_keeps_it(dst: u32, src: u32, lo: int, hi: int)
    requires
        0 <= lo <= hi <= 32,
        hi <= 10 || (16 <= lo && hi <= 25) || 27 <= lo,
    ensures
        it_of(copy_bits_spec(dst, src, lo, hi)) == it_of(dst),
    decreases hi - lo,
{
    if hi > lo {
        lemma_copy_keeps_it(dst, src, lo, hi - 1);
        lemma_bit_keeps_it(
            copy_bits_spec(dst, src, lo, hi - 1),
            (hi - 1) as u32,
            bit_of(src, hi - 1),
        );
    }
}

/// A masked write to the current status register that is no exception
/// return leaves the IT state alone.
pub proof fn lemma_status_write_keeps_it(word: u32, value: u32, fields: u8, privileged: bool)
    ensures
        it_of(cpsr_write_spec(word, value, fields, privileged, false)) == it_of(word),
{
    let w1 = crate::machine::copy_bits_if(fields / 8 % 2 == 1, word, value, 27, 32);
    let w3 = crate::machine::copy_bits_if(fields / 4 % 2 == 1, w1, value, 16, 20);
    let w5 = crate::machine::copy_bits_if(fields / 2 % 2 == 1, w3, value, 9, 10);
    let w6 = crate::machine::copy_bits_if(fields % 2 == 1 && privileged, w5, value, 7, 8);
    lemma_copy_keeps_it(word, value, 27, 32);
    lemma_copy_keeps_it(w1, value, 16, 20);
    lemma_copy_keeps_it(w3, value, 9, 10);
    lemma_copy_keeps_it(w5, value, 7, 8);
    lemma_copy_keeps_it(w6, value, 0, 5);
}

proof fn lemma_read_bytes_keeps(s: State, address: u32, count: nat)
    ensures
        read_bytes_spec(s, address, count).0.cpsr == s.cpsr,
    decreases count,
{
    if count > 0 {
        lemma_read_bytes_keeps(s, address, (count - 1) as nat);
    }
}

proof fn lemma_write_bytes_keeps(s: State, address: u32, bytes: Seq<u8>)
    ensures
        write_bytes_spec(s, address, bytes).0.cpsr == s.cpsr,
    decreases bytes.len(),
{
    if bytes.len() > 0 {
        lemma_write_bytes_keeps(s, address, bytes.drop_last());
    }
}

/// Memory accesses leave the status word alone.
proof fn lemma_memory_keeps()
    ensures
        forall|s: State, a: u32| (#[trigger] read_byte_spec(s, a)).0.cpsr == s.cpsr,
        forall|s: State, a: u32| (#[trigger] read_halfword_spec(s, a)).0.cpsr == s.cpsr,
        forall|s: State, a: u32| (#[trigger] read_word_spec(s, a)).0.cpsr == s.cpsr,
        forall|s: State, a: u32, v: u8| (#[trigger] write_byte_spec(s, a, v)).0.cpsr == s.cpsr,
        forall|s: State, a: u32, v: u16|
            (#[trigger] write_halfword_spec(s, a, v)).0.cpsr == s.cpsr,
        forall|s: State, a: u32, v: u32| (#[trigger] write_word_spec(s, a, v)).0.cpsr == s.cpsr,
        forall|s: State, w: Width, a: u32| (#[trigger] load_spec(s, w, a)).0.cpsr == s.cpsr,
        forall|s: State, w: Width, a: u32, v: u32|
            (#[trigger] store_spec(s, w, a, v)).0.cpsr == s.cpsr,
{
    assert forall|s: State, a: u32| (#[trigger] read_halfword_spec(s, a)).0.cpsr == s.cpsr by {
        lemma_read_bytes_keeps(s, a, 2);
    }
    assert forall|s: State, a: u32| (#[trigger] read_word_spec(s, a)).0.cpsr == s.cpsr by {
        lemma_read_bytes_keeps(s, a, 4);
    }
    assert forall|s: State, a: u32, v: u16|
        (#[trigger] write_halfword_spec(s, a, v)).0.cpsr == s.cpsr by {
        lemma_write_bytes_keeps(s, a, crate::memory::halfword_bytes(v));
    }
    assert forall|s: State, a: u32, v: u32|
        (#[trigger] write_word_spec(s, a, v)).0.cpsr == s.cpsr by {
        lemma_write_bytes_keeps(s, a, crate::memory::word_bytes(v));
    }
}

/// Reading operands leaves the status word alone. Writing the PC keeps the
/// flags and the IT state. Writing an operand keeps the IT state, and the
/// whole status word unless the operand is a status mask.
proof fn lemma_operands_keep()
    ensures
        forall|s: State, op: Operand| (#[trigger] read_spec(s, op)).0.cpsr == s.cpsr,
        forall|s: State, op: Operand| (#[trigger] read_with_carry_spec(s, op)).0.cpsr == s.cpsr,
        forall|s: State, inst: Instruction, k: int|
            (#[trigger] crate::executor::compute::source_spec(s, inst, k)).0.cpsr == s.cpsr,
        forall|s: State, op: Operand| (#[trigger] operand_address_spec(s, op)).0.cpsr == s.cpsr,
        forall|s: State, a: u32| (#[trigger] branch_write_pc_spec(s, a)).0.cpsr == s.cpsr,
        forall|s: State, a: u32| kept(s, (#[trigger] bw_write_pc_spec(s, a)).0),
        forall|s: State, a: u32| kept(s, (#[trigger] alu_write_pc_spec(s, a)).0),
        forall|s: State, a: u32| kept(s, (#[trigger] load_write_pc_spec(s, a)).0),
        forall|s: State, op: Operand, v: u32|
            it_of((#[trigger] write_spec(s, op, v)).0.cpsr) == it_of(s.cpsr) && (!(op
                is StatusRegMask) ==> write_spec(s, op, v).0.cpsr == s.cpsr),
{
    lemma_memory_keeps();
    assert forall|s: State, a: u32| kept(s, (#[trigger] bw_write_pc_spec(s, a)).0) by {
        lemma_status_bits(s.cpsr, false, 0, 0, 0);
        lemma_status_bits(s.cpsr, false, 0, 0, 1);
    }
    assert forall|s: State, op: Operand, v: u32|
        it_of((#[trigger] write_spec(s, op, v)).0.cpsr) == it_of(s.cpsr) && (!(op
            is StatusRegMask) ==> write_spec(s, op, v).0.cpsr == s.cpsr) by {
        match op {
            Operand::StatusRegMask { mask } => {
                lemma_status_write_keeps_it(s.cpsr, v, mask % 16, s.privileged());
            },
            _ => {},
        }
    }
}

proof fn lemma_load_registers_keeps(
    s: State,
    registers: u32,
    address: u32,
    step: u32,
    pre: bool,
    count: nat,
)
    ensures
        kept(s, load_registers_spec(s, registers, address, step, pre, count).0),
    decreases count,
{
    lemma_operands_keep();
    lemma_memory_keeps();
    if count > 0 {
        lemma_load_registers_keeps(s, registers, address, step, pre, (count - 1) as nat);
    }
}

proof fn lemma_store_registers_keeps(
    s: State,
    registers: u32,
    address: u32,
    step: u32,
    pre: bool,
    count: nat,
)
    ensures
        store_registers_spec(s, registers, address, step, pre, count).0.cpsr == s.cpsr,
    decreases count,
{
    lemma_memory_keeps();
    if count > 0 {
        lemma_store_registers_keeps(s, registers, address, step, pre, (count - 1) as nat);
    }
}

proof fn lemma_push_registers_keeps(s: State, registers: u32, address: u32, count: nat)
    ensures
        push_registers_spec(s, registers, address, count).0.cpsr == s.cpsr,
    decreases count,
{
    lemma_memory_keeps();
    if count > 0 {
        lemma_push_registers_keeps(s, registers, address, (count - 1) as nat);
    }
}

/// Setting flags leaves the IT state alone.
proof fn lemma_flags_keep_it()
    ensures
        forall|w: u32, r: u32, c: bool, v: bool|
            it_of(#[trigger] with_nzcv(w, r, c, v)) == it_of(w),
        forall|w: u32, n: bool, z: bool| it_of(#[trigger] with_nz(w, n, z)) == it_of(w),
        forall|kind: InstructionKind, x: u32, y: u32, z: u32, setflags: bool, w: u32|
            it_of(#[trigger] value_flags(kind, x, y, z, setflags, w)) == it_of(w),
{
    assert forall|w: u32, r: u32, c: bool, v: bool|
        it_of(#[trigger] with_nzcv(w, r, c, v)) == it_of(w) by {
        let w1 = with_bit(w, 31, r >= 0x8000_0000);
        let w2 = with_bit(w1, 30, r == 0);
        let w3 = with_bit(w2, 29, c);
        lemma_status_bits(w, r >= 0x8000_0000, 0, 0, 0);
        lemma_status_bits(w1, r == 0, 0, 0, 0);
        lemma_status_bits(w2, c, 0, 0, 0);
        lemma_status_bits(w3, v, 0, 0, 0);
    }
    assert forall|w: u32, n: bool, z: bool| it_of(#[trigger] with_nz(w, n, z)) == it_of(w) by {
        lemma_status_bits(w, n, 0, 0, 0);
        lemma_status_bits(with_bit(w, 31, n), z, 0, 0, 0);
    }
    assert forall|kind: InstructionKind, x: u32, y: u32, z: u32, setflags: bool, w: u32|
        it_of(#[trigger] value_flags(kind, x, y, z, setflags, w)) == it_of(w) by {
        let r = crate::multiply::multiply_spec(kind, x, y, z).0;
        lemma_status_bits(w, true, 0, 0, 0);
        lemma_status_bits(w, r >= 0x8000_0000, 0, 0, 0);
        lemma_status_bits(with_bit(w, 31, r >= 0x8000_0000), r == 0, 0, 0, 0);
        if lanes_of(kind) is Some {
            lemma_status_bits(w, true, lanes_of(kind)->0.ge_flags(x, y), 0, 0);
        }
    }
}

/// Whether any operand of an instruction is a status mask.
pub open spec fn has_status_mask(inst: Instruction) -> bool {
    inst.operands@[0] is StatusRegMask || inst.operands@[1] is StatusRegMask || inst.operands@[2]
    is StatusRegMask || inst.operands@[3] is StatusRegMask
}

/// Whether an instruction may change flags though its S bit is clear: the
/// comparisons, the lane-wise additions and subtractions that set GE, the
/// multiplications that set Q, and a write through a status mask.
pub open spec fn sets_flags_regardless(inst: Instruction) -> bool {
    is_comparison(inst.kind) || (lanes_of(inst.kind) is Some && !lanes_of(inst.kind)->0.halve)
        || multiply_sets_q(inst.kind) || has_status_mask(inst)
}

/// The IT state and the instruction set state lie outside the flags, and
/// the instruction set state outside the IT state.
proof fn lemma_states_apart()
    ensures
        forall|w: u32, it: u8| same_flags(#[trigger] with_it(w, it), w),
        forall|w: u32, iset: u8|
            same_flags(#[trigger] with_iset(w, iset), w) && it_of(with_iset(w, iset)) == it_of(w),
{
    assert forall|w: u32, it: u8| same_flags(#[trigger] with_it(w, it), w) by {
        lemma_status_bits(w, false, 0, it, 0);
    }
    assert forall|w: u32, iset: u8|
        same_flags(#[trigger] with_iset(w, iset), w) && it_of(with_iset(w, iset)) == it_of(w) by {
        lemma_status_bits(w, false, 0, 0, iset);
    }
}

/// Loading and storing several registers keeps the flags and the IT state.
proof fn lemma_registers_keep()
    ensures
        forall|t: State, registers: u32, address: u32, step: u32, pre: bool|
            kept(t, (#[trigger] load_registers_spec(t, registers, address, step, pre, 16)).0),
        forall|t: State, registers: u32, address: u32, step: u32, pre: bool|
            (#[trigger] store_registers_spec(t, registers, address, step, pre, 16)).0.cpsr
                == t.cpsr,
        forall|t: State, registers: u32, address: u32|
            (#[trigger] push_registers_spec(t, registers, address, 16)).0.cpsr == t.cpsr,
{
    assert forall|t: State, registers: u32, address: u32, step: u32, pre: bool|
        kept(t, (#[trigger] load_registers_spec(t, registers, address, step, pre, 16)).0) by {
        lemma_load_registers_keeps(t, registers, address, step, pre, 16);
    }
    assert forall|t: State, registers: u32, address: u32, step: u32, pre: bool|
        (#[trigger] store_registers_spec(t, registers, address, step, pre, 16)).0.cpsr
            == t.cpsr by {
        lemma_store_registers_keeps(t, registers, address, step, pre, 16);
    }
    assert forall|t: State, registers: u32, address: u32|
        (#[trigger] push_registers_spec(t, registers, address, 16)).0.cpsr == t.cpsr by {
        lemma_push_registers_keeps(t, registers, address, 16);
    }
}

proof fn lemma_data_processing_keeps(s: State, inst: Instruction)
    ensures
        it_of(data_processing_step(s, inst).0.cpsr) == it_of(s.cpsr),
        !inst.setflags ==> same_flags(data_processing_step(s, inst).0.cpsr, s.cpsr),
{
    lemma_operands_keep();
    lemma_memory_keeps();
    lemma_flags_keep_it();
    lemma_states_apart();
    reveal(data_processing_step);
}

proof fn lemma_comparison_keeps(s: State, inst: Instruction)
    ensures
        it_of(comparison_step(s, inst).0.cpsr) == it_of(s.cpsr),
{
    lemma_operands_keep();
    lemma_memory_keeps();
    lemma_flags_keep_it();
    lemma_states_apart();
    reveal(comparison_step);
}

proof fn lemma_value_keeps(s: State, inst: Instruction)
    ensures
        it_of(value_step(s, inst).0.cpsr) == it_of(s.cpsr),
        !inst.setflags && !sets_flags_regardless(inst) ==> same_flags(
            value_step(s, inst).0.cpsr,
            s.cpsr,
        ),
{
    lemma_operands_keep();
    lemma_memory_keeps();
    lemma_flags_keep_it();
    lemma_states_apart();
    reveal(value_step);
}

proof fn lemma_insertion_keeps(s: State, inst: Instruction)
    ensures
        it_of(insertion_step(s, inst).0.cpsr) == it_of(s.cpsr),
        !has_status_mask(inst) ==> same_flags(insertion_step(s, inst).0.cpsr, s.cpsr),
{
    lemma_operands_keep();
    lemma_memory_keeps();
    lemma_flags_keep_it();
    lemma_states_apart();
    reveal(insertion_step);
}

proof fn lemma_long_multiply_keeps(s: State, inst: Instruction)
    ensures
        it_of(long_multiply_step(s, inst).0.cpsr) == it_of(s.cpsr),
        !inst.setflags && !has_status_mask(inst) ==> same_flags(
            long_multiply_step(s, inst).0.cpsr,
            s.cpsr,
        ),
{
    lemma_operands_keep();
    lemma_memory_keeps();
    lemma_flags_keep_it();
    lemma_states_apart();
    reveal(long_multiply_step);
}

proof fn lemma_transfer_keeps(s: State, inst: Instruction)
    ensures
        it_of(transfer_step(s, inst).0.cpsr) == it_of(s.cpsr),
        !has_status_mask(inst) ==> same_flags(transfer_step(s, inst).0.cpsr, s.cpsr),
{
    lemma_operands_keep();
    lemma_memory_keeps();
    lemma_flags_keep_it();
    lemma_states_apart();
    reveal(transfer_step);
}

proof fn lemma_it_keeps(s: State, inst: Instruction)
    ensures
        same_flags(it_step(s, inst).0.cpsr, s.cpsr),
{
    lemma_operands_keep();
    lemma_memory_keeps();
    lemma_flags_keep_it();
    lemma_states_apart();
    reveal(it_step);
}

proof fn lemma_branch_keeps(s: State, inst: Instruction)
    ensures
        it_of(branch_step(s, inst).0.cpsr) == it_of(s.cpsr),
        same_flags(branch_step(s, inst).0.cpsr, s.cpsr),
{
    lemma_operands_keep();
    lemma_memory_keeps();
    lemma_flags_keep_it();
    lemma_states_apart();
    reveal(branch_step);
}

proof fn lemma_compare_branch_keeps(s: State, inst: Instruction)
    ensures
        it_of(compare_branch_step(s, inst).0.cpsr) == it_of(s.cpsr),
        same_flags(compare_branch_step(s, inst).0.cpsr, s.cpsr),
{
    lemma_operands_keep();
    lemma_memory_keeps();
    lemma_flags_keep_it();
    lemma_states_apart();
    reveal(compare_branch_step);
}

proof fn lemma_load_keeps(s: State, inst: Instruction)
    ensures
        it_of(load_step(s, inst).0.cpsr) == it_of(s.cpsr),
        same_flags(load_step(s, inst).0.cpsr, s.cpsr),
{
    lemma_operands_keep();
    lemma_memory_keeps();
    lemma_flags_keep_it();
    lemma_states_apart();
    reveal(load_step);
}

proof fn lemma_store_keeps(s: State, inst: Instruction)
    ensures
        it_of(store_step(s, inst).0.cpsr) == it_of(s.cpsr),
        same_flags(store_step(s, inst).0.cpsr, s.cpsr),
{
    lemma_operands_keep();
    lemma_memory_keeps();
    lemma_flags_keep_it();
    lemma_states_apart();
    reveal(store_step);
}

proof fn lemma_load_dual_keeps(s: State, inst: Instruction)
    ensures
        it_of(load_dual_step(s, inst).0.cpsr) == it_of(s.cpsr),
        !has_status_mask(inst) ==> same_flags(load_dual_step(s, inst).0.cpsr, s.cpsr),
{
    lemma_operands_keep();
    lemma_memory_keeps();
    lemma_flags_keep_it();
    lemma_states_apart();
    reveal(load_dual_step);
}

proof fn lemma_store_dual_keeps(s: State, inst: Instruction)
    ensures
        it_of(store_dual_step(s, inst).0.cpsr) == it_of(s.cpsr),
        same_flags(store_dual_step(s, inst).0.cpsr, s.cpsr),
{
    lemma_operands_keep();
    lemma_memory_keeps();
    lemma_flags_keep_it();
    lemma_states_apart();
    reveal(store_dual_step);
}

proof fn lemma_swap_keeps(s: State, inst: Instruction)
    ensures
        it_of(swap_step(s, inst).0.cpsr) == it_of(s.cpsr),
        !has_status_mask(inst) ==> same_flags(swap_step(s, inst).0.cpsr, s.cpsr),
{
    lemma_operands_keep();
    lemma_memory_keeps();
    lemma_flags_keep_it();
    lemma_states_apart();
    reveal(swap_step);
}

proof fn lemma_table_branch_keeps(s: State, inst: Instruction)
    ensures
        it_of(table_branch_step(s, inst).0.cpsr) == it_of(s.cpsr),
        same_flags(table_branch_step(s, inst).0.cpsr, s.cpsr),
{
    lemma_operands_keep();
    lemma_memory_keeps();
    lemma_flags_keep_it();
    lemma_states_apart();
    reveal(table_branch_step);
}

proof fn lemma_multiple_keeps(s: State, inst: Instruction)
    ensures
        it_of(multiple_step(s, inst).0.cpsr) == it_of(s.cpsr),
        same_flags(multiple_step(s, inst).0.cpsr, s.cpsr),
{
    lemma_operands_keep();
    lemma_memory_keeps();
    lemma_flags_keep_it();
    lemma_states_apart();
    lemma_registers_keep();
    reveal(multiple_step);
}

proof fn lemma_stack_keeps(s: State, inst: Instruction)
    ensures
        it_of(stack_step(s, inst).0.cpsr) == it_of(s.cpsr),
        same_flags(stack_step(s, inst).0.cpsr, s.cpsr),
{
    lemma_operands_keep();
    lemma_memory_keeps();
    lemma_flags_keep_it();
    lemma_states_apart();
    lemma_registers_keep();
    reveal(stack_step);
}

/// What carrying out an instruction keeps: the IT state unless it is an IT
/// instruction, and the flags where it is not one that sets them.
proof fn lemma_perform_keeps(s: State, inst: Instruction)
    ensures
        inst.kind != InstructionKind::IT ==> it_of(perform_spec(s, inst).0.cpsr) == it_of(s.cpsr),
        !inst.setflags && !sets_flags_regardless(inst) ==> same_flags(
            perform_spec(s, inst).0.cpsr,
            s.cpsr,
        ),
{
    lemma_data_processing_keeps(s, inst);
    lemma_comparison_keeps(s, inst);
    lemma_value_keeps(s, inst);
    lemma_insertion_keeps(s, inst);
    lemma_long_multiply_keeps(s, inst);
    lemma_transfer_keeps(s, inst);
    lemma_it_keeps(s, inst);
    lemma_branch_keeps(s, inst);
    lemma_compare_branch_keeps(s, inst);
    lemma_load_keeps(s, inst);
    lemma_store_keeps(s, inst);
    lemma_load_dual_keeps(s, inst);
    lemma_store_dual_keeps(s, inst);
    lemma_swap_keeps(s, inst);
    lemma_table_branch_keeps(s, inst);
    lemma_multiple_keeps(s, inst);
    lemma_stack_keeps(s, inst);
}

/// An ordinary instruction never changes the IT state: after any
/// instruction but IT itself that did not fail, the IT state is what it
/// was outside an IT block, and one instruction further on inside one. A
/// compare and branch and a BKPT leave it as it was.
pub proof fn law_it_state_moves_on(s: State, inst: Instruction)
    requires
        inst.kind != InstructionKind::IT,
        execute_spec(s, inst).1 is Ok,
    ensures
        it_of(execute_spec(s, inst).0.cpsr) == (if in_it_block_spec(s) && inst.kind
            != InstructionKind::BKPT && inst.kind != InstructionKind::CBZ && inst.kind
            != InstructionKind::CBNZ {
            it_advance(it_of(s.cpsr))
        } else {
            it_of(s.cpsr)
        }),
{
    lemma_perform_keeps(s, inst);
    lemma_operands_keep();
    reveal(compare_branch_step);
    let s1 = if condition_holds(s.cpsr, governing_condition(s, inst)) {
        perform_spec(s, inst).0
    } else {
        s
    };
    lemma_status_bits(s1.cpsr, false, 0, it_advance(it_of(s1.cpsr)), 0);
}

/// An instruction with its S bit clear leaves the flags N, Z, C, V, Q and GE
/// as they were, unless it is one of those that set flags regardless.
pub proof fn law_flags_kept_without_s(s: State, inst: Instruction)
    requires
        !inst.setflags,
        !sets_flags_regardless(inst),
    ensures
        same_flags(execute_spec(s, inst).0.cpsr, s.cpsr),
{
    lemma_perform_keeps(s, inst);
    lemma_operands_keep();
    reveal(compare_branch_step);
    let s1 = if condition_holds(s.cpsr, governing_condition(s, inst)) {
        perform_spec(s, inst).0
    } else {
        s
    };
    lemma_status_bits(s1.cpsr, false, 0, it_advance(it_of(s1.cpsr)), 0);
}

/// After an IT instruction with condition EQ and mask 1000 exactly one
/// instruction is governed by EQ: it is, and once it has been executed the
/// block is over.
pub proof fn law_it_block_of_one(s: State, inst: Instruction)
    requires
        it_of(s.cpsr) == it_value(Condition::EQ.code_spec() as u32, 0b1000),
        inst.kind != InstructionKind::IT,
        inst.kind != InstructionKind::BKPT,
        inst.kind != InstructionKind::CBZ,
        inst.kind != InstructionKind::CBNZ,
        execute_spec(s, inst).1 is Ok,
    ensures
        in_it_block_spec(s),
        governing_condition(s, inst) == Condition::EQ,
        !in_it_block_spec(execute_spec(s, inst).0),
{
    law_it_state_moves_on(s, inst);
}

/// Whether the PC stands on a boundary of the instruction set that the
/// state is in: a word in ARM state, a halfword in Thumb and ThumbEE state.
pub open spec fn pc_on_boundary(s: State) -> bool {
    match s.instr_set() {
        InstrSet::Arm => s.regs[15] % 4 == 0,
        InstrSet::Jazelle => true,
        _ => s.regs[15] % 2 == 0,
    }
}

/// Whether a state comes from another by steps that either leave the PC and
/// the instruction set alone or end in a jump to a boundary.
pub open spec fn lands(a: State, b: State) -> bool {
    b.wf() && ((b.regs[15] == a.regs[15] && iset_of(b.cpsr) == iset_of(a.cpsr))
        || pc_on_boundary(b))
}

proof fn lemma_iset_bits(w: u32, v: bool, g: u32, it: u8, iset: u8)
    by (bit_vector)
    ensures
        iset_of(with_iset(w, iset)) == iset % 4,
        iset_of(with_it(w, it)) == iset_of(w),
        iset_of(with_bit(w, 31, v)) == iset_of(w),
        iset_of(with_bit(w, 30, v)) == iset_of(w),
        iset_of(with_bit(w, 29, v)) == iset_of(w),
        iset_of(with_bit(w, 28, v)) == iset_of(w),
        iset_of(with_bit(w, 27, v)) == iset_of(w),
        iset_of(with_field(w, 19, 16, g)) == iset_of(w),
{
}

proof fn lemma_bit_keeps_iset(w: u32, i: u32, v: bool)
    by (bit_vector)
    requires
        i < 32,
        i != 5,
        i != 24,
    ensures
        iset_of(if v { w | (1u32 << i) } else { w & !(1u32 << i) }) == iset_of(w),
{
}

proof fn lemma_copy_keeps_iset(dst: u32, src: u32, lo: int, hi: int)
    requires
        0 <= lo <= hi <= 32,
        hi <= 5 || (6 <= lo && hi <= 24) || 25 <= lo,
    ensures
        iset_of(copy_bits_spec(dst, src, lo, hi)) == iset_of(dst),
    decreases hi - lo,
{
    if hi > lo {
        lemma_copy_keeps_iset(dst, src, lo, hi - 1);
        lemma_bit_keeps_iset(
            copy_bits_spec(dst, src, lo, hi - 1),
            (hi - 1) as u32,
            bit_of(src, hi - 1),
        );
    }
}

/// A masked write to the current status register that is no exception
/// return leaves the instruction set alone.
pub proof fn lemma_status_write_keeps_iset(word: u32, value: u32, fields: u8, privileged: bool)
    ensures
        iset_of(cpsr_write_spec(word, value, fields, privileged, false)) == iset_of(word),
{
    let w1 = crate::machine::copy_bits_if(fields / 8 % 2 == 1, word, value, 27, 32);
    let w3 = crate::machine::copy_bits_if(fields / 4 % 2 == 1, w1, value, 16, 20);
    let w5 = crate::machine::copy_bits_if(fields / 2 % 2 == 1, w3, value, 9, 10);
    let w6 = crate::machine::copy_bits_if(fields % 2 == 1 && privileged, w5, value, 7, 8);
    lemma_copy_keeps_iset(word, value, 27, 32);
    lemma_copy_keeps_iset(w1, value, 16, 20);
    lemma_copy_keeps_iset(w3, value, 9, 10);
    lemma_copy_keeps_iset(w5, value, 7, 8);
    lemma_copy_keeps_iset(w6, value, 0, 5);
}

/// Setting flags or the IT state leaves the instruction set alone.
proof fn lemma_flags_keep_iset()
    ensures
        forall|w: u32, r: u32, c: bool, v: bool|
            iset_of(#[trigger] with_nzcv(w, r, c, v)) == iset_of(w),
        forall|w: u32, n: bool, z: bool| iset_of(#[trigger] with_nz(w, n, z)) == iset_of(w),
        forall|kind: InstructionKind, x: u32, y: u32, z: u32, setflags: bool, w: u32|
            iset_of(#[trigger] value_flags(kind, x, y, z, setflags, w)) == iset_of(w),
        forall|w: u32, it: u8| iset_of(#[trigger] with_it(w, it)) == iset_of(w),
        forall|w: u32, iset: u8| iset_of(#[trigger] with_iset(w, iset)) == iset % 4,
{
    assert forall|w: u32, r: u32, c: bool, v: bool|
        iset_of(#[trigger] with_nzcv(w, r, c, v)) == iset_of(w) by {
        let w1 = with_bit(w, 31, r >= 0x8000_0000);
        let w2 = with_bit(w1, 30, r == 0);
        let w3 = with_bit(w2, 29, c);
        lemma_iset_bits(w, r >= 0x8000_0000, 0, 0, 0);
        lemma_iset_bits(w1, r == 0, 0, 0, 0);
        lemma_iset_bits(w2, c, 0, 0, 0);
        lemma_iset_bits(w3, v, 0, 0, 0);
    }
    assert forall|w: u32, n: bool, z: bool| iset_of(#[trigger] with_nz(w, n, z)) == iset_of(w) by {
        lemma_iset_bits(w, n, 0, 0, 0);
        lemma_iset_bits(with_bit(w, 31, n), z, 0, 0, 0);
    }
    assert forall|kind: InstructionKind, x: u32, y: u32, z: u32, setflags: bool, w: u32|
        iset_of(#[trigger] value_flags(kind, x, y, z, setflags, w)) == iset_of(w) by {
        let r = crate::multiply::multiply_spec(kind, x, y, z).0;
        lemma_iset_bits(w, true, 0, 0, 0);
        lemma_iset_bits(w, r >= 0x8000_0000, 0, 0, 0);
        lemma_iset_bits(with_bit(w, 31, r >= 0x8000_0000), r == 0, 0, 0, 0);
        if lanes_of(kind) is Some {
            lemma_iset_bits(w, true, lanes_of(kind)->0.ge_flags(x, y), 0, 0);
        }
    }
    assert forall|w: u32, it: u8| iset_of(#[trigger] with_it(w, it)) == iset_of(w) by {
        lemma_iset_bits(w, false, 0, it, 0);
    }
    assert forall|w: u32, iset: u8| iset_of(#[trigger] with_iset(w, iset)) == iset % 4 by {
        lemma_iset_bits(w, false, 0, 0, iset);
    }
}

proof fn lemma_read_bytes_same(s: State, address: u32, count: nat)
    ensures
        read_bytes_spec(s, address, count).0 == (State {
            link: read_bytes_spec(s, address, count).0.link,
            ..s
        }),
    decreases count,
{
    if count > 0 {
        lemma_read_bytes_same(s, address, (count - 1) as nat);
    }
}

proof fn lemma_write_bytes_same(s: State, address: u32, bytes: Seq<u8>)
    ensures
        write_bytes_spec(s, address, bytes).0 == (State {
            link: write_bytes_spec(s, address, bytes).0.link,
            mem: write_bytes_spec(s, address, bytes).0.mem,
            ..s
        }),
        s.mem.len() == INTERNAL_SIZE ==> write_bytes_spec(s, address, bytes).0.mem.len()
            == INTERNAL_SIZE,
    decreases bytes.len(),
{
    if bytes.len() > 0 {
        lemma_write_bytes_same(s, address, bytes.drop_last());
    }
}

/// Whether a state has the registers and the status word of another and is
/// as well formed.
pub open spec fn same_core(a: State, b: State) -> bool {
    b.regs == a.regs && b.cpsr == a.cpsr && (a.wf() ==> b.wf())
}

/// Memory accesses leave the registers and the status word alone.
proof fn lemma_memory_same()
    ensures
        forall|s: State, a: u32| same_core(s, (#[trigger] read_byte_spec(s, a)).0),
        forall|s: State, a: u32| same_core(s, (#[trigger] read_halfword_spec(s, a)).0),
        forall|s: State, a: u32| same_core(s, (#[trigger] read_word_spec(s, a)).0),
        forall|s: State, a: u32, v: u8| same_core(s, (#[trigger] write_byte_spec(s, a, v)).0),
        forall|s: State, a: u32, v: u16|
            same_core(s, (#[trigger] write_halfword_spec(s, a, v)).0),
        forall|s: State, a: u32, v: u32| same_core(s, (#[trigger] write_word_spec(s, a, v)).0),
        forall|s: State, w: Width, a: u32| same_core(s, (#[trigger] load_spec(s, w, a)).0),
        forall|s: State, w: Width, a: u32, v: u32|
            same_core(s, (#[trigger] store_spec(s, w, a, v)).0),
{
    assert forall|s: State, a: u32| same_core(s, (#[trigger] read_halfword_spec(s, a)).0) by {
        lemma_read_bytes_same(s, a, 2);
    }
    assert forall|s: State, a: u32| same_core(s, (#[trigger] read_word_spec(s, a)).0) by {
        lemma_read_bytes_same(s, a, 4);
    }
    assert forall|s: State, a: u32, v: u16|
        same_core(s, (#[trigger] write_halfword_spec(s, a, v)).0) by {
        lemma_write_bytes_same(s, a, crate::memory::halfword_bytes(v));
    }
    assert forall|s: State, a: u32, v: u32|
        same_core(s, (#[trigger] write_word_spec(s, a, v)).0) by {
        lemma_write_bytes_same(s, a, word_bytes(v));
    }
    assert forall|s: State, w: Width, a: u32| same_core(s, (#[trigger] load_spec(s, w, a)).0) by {
        lemma_read_bytes_same(s, a, 2);
        lemma_read_bytes_same(s, a, 4);
    }
    assert forall|s: State, w: Width, a: u32, v: u32|
        same_core(s, (#[trigger] store_spec(s, w, a, v)).0) by {
        lemma_write_bytes_same(s, a, crate::memory::halfword_bytes((v % 0x1_0000) as u16));
        lemma_write_bytes_same(s, a, word_bytes(v));
    }
}

/// Reading operands leaves registers and status word alone; a write to the
/// PC that succeeds lands on a boundary; a write through an operand lands.
proof fn lemma_operands_land()
    ensures
        forall|s: State, a: u32| same_core(s, (#[trigger] read_byte_spec(s, a)).0),
        forall|s: State, a: u32| same_core(s, (#[trigger] read_halfword_spec(s, a)).0),
        forall|s: State, a: u32| same_core(s, (#[trigger] read_word_spec(s, a)).0),
        forall|s: State, a: u32, v: u8| same_core(s, (#[trigger] write_byte_spec(s, a, v)).0),
        forall|s: State, a: u32, v: u16|
            same_core(s, (#[trigger] write_halfword_spec(s, a, v)).0),
        forall|s: State, a: u32, v: u32| same_core(s, (#[trigger] write_word_spec(s, a, v)).0),
        forall|s: State, w: Width, a: u32| same_core(s, (#[trigger] load_spec(s, w, a)).0),
        forall|s: State, w: Width, a: u32, v: u32|
            same_core(s, (#[trigger] store_spec(s, w, a, v)).0),
        forall|s: State, op: Operand| same_core(s, (#[trigger] read_spec(s, op)).0),
        forall|s: State, op: Operand| same_core(s, (#[trigger] read_with_carry_spec(s, op)).0),
        forall|s: State, op: Operand| same_core(s, (#[trigger] operand_address_spec(s, op)).0),
        forall|s: State, inst: Instruction, k: int|
            same_core(s, (#[trigger] crate::executor::compute::source_spec(s, inst, k)).0),
        forall|s: State, a: u32|
            s.wf() && (#[trigger] branch_write_pc_spec(s, a)).1 is Ok ==> branch_write_pc_spec(
                s,
                a,
            ).0.wf() && pc_on_boundary(branch_write_pc_spec(s, a).0),
        forall|s: State, a: u32|
            s.wf() && (#[trigger] bw_write_pc_spec(s, a)).1 is Ok ==> lands(
                s,
                bw_write_pc_spec(s, a).0,
            ),
        forall|s: State, a: u32|
            s.wf() && (#[trigger] alu_write_pc_spec(s, a)).1 is Ok ==> lands(
                s,
                alu_write_pc_spec(s, a).0,
            ),
        forall|s: State, a: u32|
            s.wf() && (#[trigger] load_write_pc_spec(s, a)).1 is Ok ==> lands(
                s,
                load_write_pc_spec(s, a).0,
            ),
        forall|s: State, op: Operand, v: u32|
            s.wf() && op.wf() && (#[trigger] write_spec(s, op, v)).1 is Ok ==> lands(
                s,
                write_spec(s, op, v).0,
            ),
{
    lemma_memory_same();
    lemma_flags_keep_iset();
    assert forall|s: State, op: Operand, v: u32|
        s.wf() && op.wf() && (#[trigger] write_spec(s, op, v)).1 is Ok implies lands(
        s,
        write_spec(s, op, v).0,
    ) by {
        match op {
            Operand::StatusRegMask { mask } => {
                lemma_status_write_keeps_iset(s.cpsr, v, mask % 16, s.privileged());
            },
            _ => {},
        }
    }
}

proof fn lemma_load_registers_lands(
    s: State,
    registers: u32,
    address: u32,
    step: u32,
    pre: bool,
    count: nat,
)
    requires
        s.wf(),
        count <= 16,
    ensures
        load_registers_spec(s, registers, address, step, pre, count).2 is Ok ==> lands(
            s,
            load_registers_spec(s, registers, address, step, pre, count).0,
        ) && (count <= 15 ==> load_registers_spec(s, registers, address, step, pre, count).0.regs[15]
            == s.regs[15] && iset_of(
            load_registers_spec(s, registers, address, step, pre, count).0.cpsr,
        ) == iset_of(s.cpsr)),
    decreases count,
{
    lemma_operands_land();
    if count > 0 {
        lemma_load_registers_lands(s, registers, address, step, pre, (count - 1) as nat);
    }
}

proof fn lemma_store_registers_same(
    s: State,
    registers: u32,
    address: u32,
    step: u32,
    pre: bool,
    count: nat,
)
    ensures
        same_core(s, store_registers_spec(s, registers, address, step, pre, count).0),
    decreases count,
{
    lemma_memory_same();
    if count > 0 {
        lemma_store_registers_same(s, registers, address, step, pre, (count - 1) as nat);
    }
}

proof fn lemma_push_registers_same(s: State, registers: u32, address: u32, count: nat)
    ensures
        same_core(s, push_registers_spec(s, registers, address, count).0),
    decreases count,
{
    lemma_memory_same();
    if count > 0 {
        lemma_push_registers_same(s, registers, address, (count - 1) as nat);
    }
}

proof fn lemma_registers_land()
    ensures
        forall|t: State, registers: u32, address: u32, step: u32, pre: bool|
            t.wf() && (#[trigger] load_registers_spec(t, registers, address, step, pre, 16)).2
                is Ok ==> lands(t, load_registers_spec(t, registers, address, step, pre, 16).0),
        forall|t: State, registers: u32, address: u32, step: u32, pre: bool|
            same_core(
                t,
                (#[trigger] store_registers_spec(t, registers, address, step, pre, 16)).0,
            ),
        forall|t: State, registers: u32, address: u32|
            same_core(t, (#[trigger] push_registers_spec(t, registers, address, 16)).0),
{
    assert forall|t: State, registers: u32, address: u32, step: u32, pre: bool|
        t.wf() && (#[trigger] load_registers_spec(t, registers, address, step, pre, 16)).2
            is Ok implies lands(t, load_registers_spec(t, registers, address, step, pre, 16).0) by {
        lemma_load_registers_lands(t, registers, address, step, pre, 16);
    }
    assert forall|t: State, registers: u32, address: u32, step: u32, pre: bool|
        same_core(
            t,
            (#[trigger] store_registers_spec(t, registers, address, step, pre, 16)).0,
        ) by {
        lemma_store_registers_same(t, registers, address, step, pre, 16);
    }
    assert forall|t: State, registers: u32, address: u32|
        same_core(t, (#[trigger] push_registers_spec(t, registers, address, 16)).0) by {
        lemma_push_registers_same(t, registers, address, 16);
    }
}

proof fn lemma_data_processing_lands(s: State, inst: Instruction)
    requires
        s.wf(),
        inst.wf(),
    ensures
        data_processing_step(s, inst).1 is Ok ==> lands(s, data_processing_step(s, inst).0),
{
    lemma_operands_land();
    lemma_flags_keep_iset();
    reveal(data_processing_step);
}

proof fn lemma_comparison_lands(s: State, inst: Instruction)
    requires
        s.wf(),
        inst.wf(),
    ensures
        comparison_step(s, inst).1 is Ok ==> lands(s, comparison_step(s, inst).0),
{
    lemma_operands_land();
    lemma_flags_keep_iset();
    reveal(comparison_step);
}

proof fn lemma_value_lands(s: State, inst: Instruction)
    requires
        s.wf(),
        inst.wf(),
    ensures
        value_step(s, inst).1 is Ok ==> lands(s, value_step(s, inst).0),
{
    lemma_operands_land();
    lemma_flags_keep_iset();
    reveal(value_step);
}

proof fn lemma_insertion_lands(s: State, inst: Instruction)
    requires
        s.wf(),
        inst.wf(),
    ensures
        insertion_step(s, inst).1 is Ok ==> lands(s, insertion_step(s, inst).0),
{
    lemma_operands_land();
    lemma_flags_keep_iset();
    reveal(insertion_step);
}

proof fn lemma_long_multiply_lands(s: State, inst: Instruction)
    requires
        s.wf(),
        inst.wf(),
    ensures
        long_multiply_step(s, inst).1 is Ok ==> lands(s, long_multiply_step(s, inst).0),
{
    lemma_operands_land();
    lemma_flags_keep_iset();
    reveal(long_multiply_step);
}

proof fn lemma_transfer_lands(s: State, inst: Instruction)
    requires
        s.wf(),
        inst.wf(),
    ensures
        transfer_step(s, inst).1 is Ok ==> lands(s, transfer_step(s, inst).0),
{
    lemma_operands_land();
    lemma_flags_keep_iset();
    reveal(transfer_step);
}

proof fn lemma_it_lands(s: State, inst: Instruction)
    requires
        s.wf(),
        inst.wf(),
    ensures
        it_step(s, inst).1 is Ok ==> lands(s, it_step(s, inst).0),
{
    lemma_operands_land();
    lemma_flags_keep_iset();
    reveal(it_step);
}

proof fn lemma_branch_lands(s: State, inst: Instruction)
    requires
        s.wf(),
        inst.wf(),
    ensures
        branch_step(s, inst).1 is Ok ==> lands(s, branch_step(s, inst).0),
{
    lemma_operands_land();
    lemma_flags_keep_iset();
    reveal(branch_step);
}

proof fn lemma_compare_branch_lands(s: State, inst: Instruction)
    requires
        s.wf(),
        inst.wf(),
    ensures
        compare_branch_step(s, inst).1 is Ok ==> lands(s, compare_branch_step(s, inst).0),
{
    lemma_operands_land();
    lemma_flags_keep_iset();
    reveal(compare_branch_step);
}

proof fn lemma_load_lands(s: State, inst: Instruction)
    requires
        s.wf(),
        inst.wf(),
    ensures
        load_step(s, inst).1 is Ok ==> lands(s, load_step(s, inst).0),
{
    lemma_operands_land();
    lemma_flags_keep_iset();
    reveal(load_step);
}

proof fn lemma_store_lands(s: State, inst: Instruction)
    requires
        s.wf(),
        inst.wf(),
    ensures
        store_step(s, inst).1 is Ok ==> lands(s, store_step(s, inst).0),
{
    lemma_operands_land();
    lemma_flags_keep_iset();
    reveal(store_step);
}

proof fn lemma_load_dual_lands(s: State, inst: Instruction)
    requires
        s.wf(),
        inst.wf(),
    ensures
        load_dual_step(s, inst).1 is Ok ==> lands(s, load_dual_step(s, inst).0),
{
    lemma_operands_land();
    lemma_flags_keep_iset();
    reveal(load_dual_step);
}

proof fn lemma_store_dual_lands(s: State, inst: Instruction)
    requires
        s.wf(),
        inst.wf(),
    ensures
        store_dual_step(s, inst).1 is Ok ==> lands(s, store_dual_step(s, inst).0),
{
    lemma_operands_land();
    lemma_flags_keep_iset();
    reveal(store_dual_step);
}

proof fn lemma_swap_lands(s: State, inst: Instruction)
    requires
        s.wf(),
        inst.wf(),
    ensures
        swap_step(s, inst).1 is Ok ==> lands(s, swap_step(s, inst).0),
{
    lemma_operands_land();
    lemma_flags_keep_iset();
    reveal(swap_step);
}

proof fn lemma_table_branch_lands(s: State, inst: Instruction)
    requires
        s.wf(),
        inst.wf(),
    ensures
        table_branch_step(s, inst).1 is Ok ==> lands(s, table_branch_step(s, inst).0),
{
    lemma_operands_land();
    lemma_flags_keep_iset();
    reveal(table_branch_step);
}

proof fn lemma_multiple_lands(s: State, inst: Instruction)
    requires
        s.wf(),
        inst.wf(),
    ensures
        multiple_step(s, inst).1 is Ok ==> lands(s, multiple_step(s, inst).0),
{
    lemma_operands_land();
    lemma_flags_keep_iset();
    lemma_registers_land();
    reveal(multiple_step);
}

proof fn lemma_stack_lands(s: State, inst: Instruction)
    requires
        s.wf(),
        inst.wf(),
    ensures
        stack_step(s, inst).1 is Ok ==> lands(s, stack_step(s, inst).0),
{
    lemma_operands_land();
    lemma_flags_keep_iset();
    lemma_registers_land();
    reveal(stack_step);
}

/// The PC is written by jumps only: after an instruction that did not fail,
/// either the PC and the instruction set are what they were, or the PC
/// stands on a boundary of the instruction set that the machine is then in.
pub proof fn law_jumps_land_on_boundaries(s: State, inst: Instruction)
    requires
        s.wf(),
        inst.wf(),
        execute_spec(s, inst).1 is Ok,
    ensures
        lands(s, execute_spec(s, inst).0),
{
    lemma_data_processing_lands(s, inst);
    lemma_comparison_lands(s, inst);
    lemma_value_lands(s, inst);
    lemma_insertion_lands(s, inst);
    lemma_long_multiply_lands(s, inst);
    lemma_transfer_lands(s, inst);
    lemma_it_lands(s, inst);
    lemma_branch_lands(s, inst);
    lemma_compare_branch_lands(s, inst);
    lemma_load_lands(s, inst);
    lemma_store_lands(s, inst);
    lemma_load_dual_lands(s, inst);
    lemma_store_dual_lands(s, inst);
    lemma_swap_lands(s, inst);
    lemma_table_branch_lands(s, inst);
    lemma_multiple_lands(s, inst);
    lemma_stack_lands(s, inst);
    lemma_flags_keep_iset();
}

} // verus!
