//! The register file and the program status registers.

use crate::bits::{bit, bit_of, bit_range, field_of, set_bit, set_bit_range, with_bit, with_field};
use crate::machine::{Machine, State};
use vstd::prelude::*;

verus! {

/// The register that is the stack pointer.
pub const SP_INDEX: usize = 13;

/// The register that is the link register.
pub const LR_INDEX: usize = 14;

/// The register that is the program counter.
pub const PC_INDEX: usize = 15;

/// The bits of a status word that the application level sees: N, Z, C, V, Q
/// and GE.
pub const APSR_MASK: u32 = 0xf80f_0000;

/// The status word after reset: supervisor mode, the A, I and F masks set,
/// ARM state, little endian.
pub const RESET_CPSR: u32 = 0x1d3;

/// The application program status register: the flags of a status word and
/// nothing else.
#[derive(Clone, Copy, Debug, PartialEq, Eq, Structural)]
pub struct APSRegister(pub u32);

impl APSRegister {
    /// The N flag.
    pub fn n(&self) -> (r: bool)
        ensures
            r == bit_of(self.0, 31),
    {
        bit(self.0, 31)
    }

    /// The Z flag.
    pub fn z(&self) -> (r: bool)
        ensures
            r == bit_of(self.0, 30),
    {
        bit(self.0, 30)
    }

    /// The C flag.
    pub fn c(&self) -> (r: bool)
        ensures
            r == bit_of(self.0, 29),
    {
        bit(self.0, 29)
    }

    /// The V flag.
    pub fn v(&self) -> (r: bool)
        ensures
            r == bit_of(self.0, 28),
    {
        bit(self.0, 28)
    }

    /// The Q flag.
    pub fn q(&self) -> (r: bool)
        ensures
            r == bit_of(self.0, 27),
    {
        bit(self.0, 27)
    }

    /// The four GE flags.
    pub fn ge(&self) -> (r: u32)
        ensures
            r == field_of(self.0, 19, 16),
    {
        bit_range(self.0, 19, 16)
    }
}

/// The flags of a status word, open for writing.
pub struct APSRegisterMut<'a>(pub &'a mut CPSRegister);

/// The state of the IT block: the base condition in the high four bits, the
/// mask in the low four.
#[derive(Clone, Copy, Debug, PartialEq, Eq, Structural)]
pub struct ITRegister(pub u8);

/// The IT state of a status word, open for writing.
pub struct ITRegisterMut<'a>(pub &'a mut CPSRegister);

/// The instruction set state: J in bit 1, T in bit 0.
#[derive(Clone, Copy, Debug, PartialEq, Eq, Structural)]
pub struct ISetRegister(pub u8);

impl ISetRegister {
    /// The J bit.
    pub fn j(&self) -> (r: bool)
        ensures
            r == (self.0 / 2 % 2 == 1),
    {
        self.0 / 2 % 2 == 1
    }

    /// The T bit.
    pub fn t(&self) -> (r: bool)
        ensures
            r == (self.0 % 2 == 1),
    {
        self.0 % 2 == 1
    }
}

/// The instruction set state of a status word, open for writing.
pub struct ISetRegisterMut<'a>(pub &'a mut CPSRegister);

#[derive(Clone, Copy, Debug, PartialEq, Eq, Structural)]
/// The instruction sets that the state bits J and T tell apart.
pub enum InstrSet {
    Arm,
    Thumb,
    Jazelle,
    ThumbEE,
}

/// A program status register. From the top: N, Z, C, V, Q in bits 31 to 27,
/// IT[1:0] in 26 and 25, J in 24, GE in 19 to 16, IT[7:2] in 15 to 10, E in 9,
/// A, I, F in 8 to 6, T in 5 and the mode in 4 to 0.
#[derive(Clone, Copy, Debug, PartialEq, Eq, Structural)]
pub struct CPSRegister(pub u32);

/// The IT state held in a status word.
pub open spec fn it_of(word: u32) -> u8 {
    (field_of(word, 15, 10) * 4 + field_of(word, 26, 25)) as u8
}

/// The status word with its IT state replaced.
pub open spec fn with_it(word: u32, it: u8) -> u32 {
    with_field(with_field(word, 26, 25, (it % 4) as u32), 15, 10, (it / 4) as u32)
}

/// The instruction set state held in a status word: twice J plus T.
pub open spec fn iset_of(word: u32) -> u8 {
    ((if bit_of(word, 24) {
        2int
    } else {
        0int
    }) + (if bit_of(word, 5) {
        1int
    } else {
        0int
    })) as u8
}

/// The status word with its instruction set state replaced.
pub open spec fn with_iset(word: u32, value: u8) -> u32 {
    with_bit(with_bit(word, 24, value / 2 % 2 == 1), 5, value % 2 == 1)
}

/// The instruction set that a state value stands for.
pub open spec fn instr_set_of(value: u8) -> InstrSet {
    if value == 0 {
        InstrSet::Arm
    } else if value == 1 {
        InstrSet::Thumb
    } else if value == 2 {
        InstrSet::Jazelle
    } else {
        InstrSet::ThumbEE
    }
}

/// The state value that stands for an instruction set.
pub open spec fn iset_value(iset: InstrSet) -> u8 {
    match iset {
        InstrSet::Arm => 0,
        InstrSet::Thumb => 1,
        InstrSet::Jazelle => 2,
        InstrSet::ThumbEE => 3,
    }
}

/// The application level sees each flag as the status word holds it.
pub proof fn lemma_apsr_keeps_flags(word: u32)
    by (bit_vector)
    ensures
        bit_of(word & APSR_MASK, 31) == bit_of(word, 31),
        bit_of(word & APSR_MASK, 30) == bit_of(word, 30),
        bit_of(word & APSR_MASK, 29) == bit_of(word, 29),
        bit_of(word & APSR_MASK, 28) == bit_of(word, 28),
        bit_of(word & APSR_MASK, 27) == bit_of(word, 27),
        field_of(word & APSR_MASK, 19, 16) == field_of(word, 19, 16),
        field_of(word, 19, 16) < 16,
        field_of(word, 4, 0) < 32,
{
}

proof fn lemma_it_fields(word: u32)
    by (bit_vector)
    ensures
        field_of(word, 15, 10) < 64,
        field_of(word, 26, 25) < 4,
{
}

impl CPSRegister {
    /// The N flag.
    pub fn n(&self) -> (r: bool)
        ensures
            r == bit_of(self.0, 31),
    {
        bit(self.0, 31)
    }

    /// Sets the N flag.
    pub fn set_n(&mut self, value: bool)
        ensures
            final(self).0 == with_bit(old(self).0, 31, value),
    {
        self.0 = set_bit(self.0, 31, value);
    }

    /// The Z flag.
    pub fn z(&self) -> (r: bool)
        ensures
            r == bit_of(self.0, 30),
    {
        bit(self.0, 30)
    }

    /// Sets the Z flag.
    pub fn set_z(&mut self, value: bool)
        ensures
            final(self).0 == with_bit(old(self).0, 30, value),
    {
        self.0 = set_bit(self.0, 30, value);
    }

    /// The C flag.
    pub fn c(&self) -> (r: bool)
        ensures
            r == bit_of(self.0, 29),
    {
        bit(self.0, 29)
    }

    /// Sets the C flag.
    pub fn set_c(&mut self, value: bool)
        ensures
            final(self).0 == with_bit(old(self).0, 29, value),
    {
        self.0 = set_bit(self.0, 29, value);
    }

    /// The V flag.
    pub fn v(&self) -> (r: bool)
        ensures
            r == bit_of(self.0, 28),
    {
        bit(self.0, 28)
    }

    /// Sets the V flag.
    pub fn set_v(&mut self, value: bool)
        ensures
            final(self).0 == with_bit(old(self).0, 28, value),
    {
        self.0 = set_bit(self.0, 28, value);
    }

    /// The Q flag.
    pub fn q(&self) -> (r: bool)
        ensures
            r == bit_of(self.0, 27),
    {
        bit(self.0, 27)
    }

    /// Sets the Q flag.
    pub fn set_q(&mut self, value: bool)
        ensures
            final(self).0 == with_bit(old(self).0, 27, value),
    {
        self.0 = set_bit(self.0, 27, value);
    }

    /// The J bit.
    pub fn j(&self) -> (r: bool)
        ensures
            r == bit_of(self.0, 24),
    {
        bit(self.0, 24)
    }

    /// Sets the J bit.
    pub fn set_j(&mut self, value: bool)
        ensures
            final(self).0 == with_bit(old(self).0, 24, value),
    {
        self.0 = set_bit(self.0, 24, value);
    }

    /// The E bit.
    pub fn e(&self) -> (r: bool)
        ensures
            r == bit_of(self.0, 9),
    {
        bit(self.0, 9)
    }

    /// Sets the E bit.
    pub fn set_e(&mut self, value: bool)
        ensures
            final(self).0 == with_bit(old(self).0, 9, value),
    {
        self.0 = set_bit(self.0, 9, value);
    }

    /// The A mask.
    pub fn a(&self) -> (r: bool)
        ensures
            r == bit_of(self.0, 8),
    {
        bit(self.0, 8)
    }

    /// Sets the A mask.
    pub fn set_a(&mut self, value: bool)
        ensures
            final(self).0 == with_bit(old(self).0, 8, value),
    {
        self.0 = set_bit(self.0, 8, value);
    }

    /// The I mask.
    pub fn i(&self) -> (r: bool)
        ensures
            r == bit_of(self.0, 7),
    {
        bit(self.0, 7)
    }

    /// Sets the I mask.
    pub fn set_i(&mut self, value: bool)
        ensures
            final(self).0 == with_bit(old(self).0, 7, value),
    {
        self.0 = set_bit(self.0, 7, value);
    }

    /// The F mask.
    pub fn f(&self) -> (r: bool)
        ensures
            r == bit_of(self.0, 6),
    {
        bit(self.0, 6)
    }

    /// Sets the F mask.
    pub fn set_f(&mut self, value: bool)
        ensures
            final(self).0 == with_bit(old(self).0, 6, value),
    {
        self.0 = set_bit(self.0, 6, value);
    }

    /// The T bit.
    pub fn t(&self) -> (r: bool)
        ensures
            r == bit_of(self.0, 5),
    {
        bit(self.0, 5)
    }

    /// Sets the T bit.
    pub fn set_t(&mut self, value: bool)
        ensures
            final(self).0 == with_bit(old(self).0, 5, value),
    {
        self.0 = set_bit(self.0, 5, value);
    }

    /// The low two bits of the IT state.
    pub fn it_low(&self) -> (r: u32)
        ensures
            r == field_of(self.0, 26, 25),
    {
        bit_range(self.0, 26, 25)
    }

    /// Sets the low two bits of the IT state.
    pub fn set_it_low(&mut self, value: u32)
        ensures
            final(self).0 == with_field(old(self).0, 26, 25, value),
    {
        self.0 = set_bit_range(self.0, 26, 25, value);
    }

    /// The four GE flags.
    pub fn ge(&self) -> (r: u32)
        ensures
            r == field_of(self.0, 19, 16),
    {
        bit_range(self.0, 19, 16)
    }

    /// Sets the four GE flags.
    pub fn set_ge(&mut self, value: u32)
        ensures
            final(self).0 == with_field(old(self).0, 19, 16, value),
    {
        self.0 = set_bit_range(self.0, 19, 16, value);
    }

    /// The high six bits of the IT state.
    pub fn it_high(&self) -> (r: u32)
        ensures
            r == field_of(self.0, 15, 10),
    {
        bit_range(self.0, 15, 10)
    }

    /// Sets the high six bits of the IT state.
    pub fn set_it_high(&mut self, value: u32)
        ensures
            final(self).0 == with_field(old(self).0, 15, 10, value),
    {
        self.0 = set_bit_range(self.0, 15, 10, value);
    }

    /// The processor mode.
    pub fn m(&self) -> (r: u32)
        ensures
            r == field_of(self.0, 4, 0),
    {
        bit_range(self.0, 4, 0)
    }

    /// Sets the processor mode.
    pub fn set_m(&mut self, value: u32)
        ensures
            final(self).0 == with_field(old(self).0, 4, 0, value),
    {
        self.0 = set_bit_range(self.0, 4, 0, value);
    }

    /// The IT state.
    pub fn it(&self) -> (r: u8)
        ensures
            r == it_of(self.0),
    {
        proof {
            lemma_it_fields(self.0);
        }
        (self.it_high() * 4 + self.it_low()) as u8
    }

    /// Sets the IT state.
    pub fn set_it(&mut self, bit: u8)
        ensures
            final(self).0 == with_it(old(self).0, bit),
    {
        self.set_it_low((bit % 4) as u32);
        self.set_it_high((bit / 4) as u32);
    }
}

impl Default for CPSRegister {
    fn default() -> (r: CPSRegister)
        ensures
            r.0 == RESET_CPSR,
    {
        let mut cpsr = CPSRegister(0);
        cpsr.set_m(0b10011);
        cpsr.set_i(true);
        cpsr.set_f(true);
        cpsr.set_a(true);
        cpsr.set_j(false);
        cpsr.set_t(false);
        cpsr.set_e(false);
        proof {
            assert(with_bit(
                with_bit(
                    with_bit(
                        with_bit(
                            with_bit(with_bit(with_field(0, 4, 0, 0b10011), 7, true), 6, true),
                            8,
                            true,
                        ),
                        24,
                        false,
                    ),
                    5,
                    false,
                ),
                9,
                false,
            ) == 0x1d3u32) by (bit_vector);
        }
        cpsr
    }
}

/// The registers of the processor.
pub struct CPU {
    pub regs: [u32; 16],
    pub cpsr: CPSRegister,
    pub spsr: CPSRegister,
}

impl Default for CPU {
    fn default() -> (r: CPU)
        ensures
            r.regs@ == Seq::new(16, |i: int| 0u32),
            r.cpsr.0 == RESET_CPSR,
            r.spsr.0 == 0,
    {
        let cpu = CPU { regs: [0u32; 16], cpsr: CPSRegister::default(), spsr: CPSRegister(0) };
        proof {
            assert(cpu.regs@ =~= Seq::new(16, |i: int| 0u32));
        }
        cpu
    }
}

impl CPU {
    /// The flags as the application level sees them.
    pub fn apsr(&self) -> (r: APSRegister)
        ensures
            r.0 == self.cpsr.0 & APSR_MASK,
            bit_of(r.0, 31) == bit_of(self.cpsr.0, 31),
            bit_of(r.0, 30) == bit_of(self.cpsr.0, 30),
            bit_of(r.0, 29) == bit_of(self.cpsr.0, 29),
            bit_of(r.0, 28) == bit_of(self.cpsr.0, 28),
            bit_of(r.0, 27) == bit_of(self.cpsr.0, 27),
            field_of(r.0, 19, 16) == field_of(self.cpsr.0, 19, 16),
    {
        proof {
            lemma_apsr_keeps_flags(self.cpsr.0);
        }
        APSRegister(self.cpsr.0 & APSR_MASK)
    }

    /// The flags, open for writing.
    pub fn apsr_mut(&mut self) -> (r: APSRegisterMut<'_>)
        ensures
            *r.0 == old(self).cpsr,
            final(self).cpsr == *final(r.0),
            final(self).regs == old(self).regs,
            final(self).spsr == old(self).spsr,
    {
        APSRegisterMut(&mut self.cpsr)
    }

    /// The IT state.
    pub fn it_state(&self) -> (r: ITRegister)
        ensures
            r.0 == it_of(self.cpsr.0),
    {
        ITRegister(self.cpsr.it())
    }

    /// The IT state, open for writing.
    pub fn it_state_mut(&mut self) -> (r: ITRegisterMut<'_>)
        ensures
            *r.0 == old(self).cpsr,
            final(self).cpsr == *final(r.0),
            final(self).regs == old(self).regs,
            final(self).spsr == old(self).spsr,
    {
        ITRegisterMut(&mut self.cpsr)
    }

    /// The instruction set state.
    pub fn iset_state(&self) -> (r: ISetRegister)
        ensures
            r.0 == iset_of(self.cpsr.0),
    {
        let j: u8 = if self.cpsr.j() { 2 } else { 0 };
        let t: u8 = if self.cpsr.t() { 1 } else { 0 };
        ISetRegister(j + t)
    }

    /// The instruction set state, open for writing.
    pub fn iset_state_mut(&mut self) -> (r: ISetRegisterMut<'_>)
        ensures
            *r.0 == old(self).cpsr,
            final(self).cpsr == *final(r.0),
            final(self).regs == old(self).regs,
            final(self).spsr == old(self).spsr,
    {
        ISetRegisterMut(&mut self.cpsr)
    }
}

impl<'a> ISetRegisterMut<'a> {
    /// Sets the instruction set state: J from bit 1 of the value, T from bit 0.
    pub fn set_value(&mut self, value: u8)
        ensures
            final(self).0.0 == with_iset(old(self).0.0, value),
            *final(final(self).0) == *final(old(self).0),
    {
        self.0.set_j(value / 2 % 2 == 1);
        self.0.set_t(value % 2 == 1);
    }
}

impl<'a> APSRegisterMut<'a> {
    /// Sets the N flag.
    pub fn set_n(&mut self, value: bool)
        ensures
            final(self).0.0 == with_bit(old(self).0.0, 31, value),
            *final(final(self).0) == *final(old(self).0),
    {
        self.0.set_n(value);
    }

    /// Sets the Z flag.
    pub fn set_z(&mut self, value: bool)
        ensures
            final(self).0.0 == with_bit(old(self).0.0, 30, value),
            *final(final(self).0) == *final(old(self).0),
    {
        self.0.set_z(value);
    }

    /// Sets the C flag.
    pub fn set_c(&mut self, value: bool)
        ensures
            final(self).0.0 == with_bit(old(self).0.0, 29, value),
            *final(final(self).0) == *final(old(self).0),
    {
        self.0.set_c(value);
    }

    /// Sets the V flag.
    pub fn set_v(&mut self, value: bool)
        ensures
            final(self).0.0 == with_bit(old(self).0.0, 28, value),
            *final(final(self).0) == *final(old(self).0),
    {
        self.0.set_v(value);
    }

    /// Sets the Q flag.
    pub fn set_q(&mut self, value: bool)
        ensures
            final(self).0.0 == with_bit(old(self).0.0, 27, value),
            *final(final(self).0) == *final(old(self).0),
    {
        self.0.set_q(value);
    }

    /// Sets the four GE flags.
    pub fn set_ge(&mut self, value: u32)
        ensures
            final(self).0.0 == with_field(old(self).0.0, 19, 16, value),
            *final(final(self).0) == *final(old(self).0),
    {
        self.0.set_ge(value);
    }
}

impl<'a> ITRegisterMut<'a> {
    /// Sets the IT state.
    pub fn set_value(&mut self, value: u8)
        ensures
            final(self).0.0 == with_it(old(self).0.0, value),
            *final(final(self).0) == *final(old(self).0),
    {
        self.0.set_it(value);
    }
}

impl Machine {
    /// Whether an IT block is under way: the mask is not yet used up.
    pub fn in_it_block(&self) -> (r: bool)
        ensures
            r == (it_of(self@.cpsr) % 16 != 0),
    {
        self.cpu.it_state().0 % 16 != 0
    }

    /// The instruction set that the machine is in.
    pub fn current_instr_set(&self) -> (r: InstrSet)
        ensures
            r == instr_set_of(iset_of(self@.cpsr)),
    {
        let state = self.cpu.iset_state().0;
        if state == 0 {
            InstrSet::Arm
        } else if state == 1 {
            InstrSet::Thumb
        } else if state == 2 {
            InstrSet::Jazelle
        } else {
            InstrSet::ThumbEE
        }
    }

    /// Puts the machine into an instruction set.
    pub fn select_instr_set(&mut self, iset: InstrSet)
        ensures
            final(self)@ == (State {
                cpsr: with_iset(old(self)@.cpsr, iset_value(iset)),
                ..old(self)@
            }),
    {
        let mut iset_state = self.cpu.iset_state_mut();
        match iset {
            InstrSet::Arm => iset_state.set_value(0b00),
            InstrSet::Thumb => iset_state.set_value(0b01),
            InstrSet::Jazelle => iset_state.set_value(0b10),
            InstrSet::ThumbEE => iset_state.set_value(0b11),
        }
    }
}

} // verus!
