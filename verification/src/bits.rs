//! Single bits and bit fields of a 32-bit word.
//!
//! The executable functions here hand the work to the `bitfield` and `bitvec`
//! crates; Verus takes their contracts on trust.

use bitfield::{Bit, BitMut, BitRange, BitRangeMut};
use bitvec::field::BitField;
use bitvec::order::Lsb0;
use bitvec::view::BitView;
use vstd::prelude::*;

verus! {

/// The word whose low `width` bits are set and whose other bits are clear.
pub open spec fn low_mask(width: int) -> u32 {
    if width <= 0 {
        0u32
    } else if width >= 32 {
        0xffff_ffffu32
    } else {
        ((1u32 << (width as u32)) - 1) as u32
    }
}

/// Bit `i` of `word`, bit 0 being the least significant.
pub open spec fn bit_of(word: u32, i: int) -> bool {
    (word >> (i as u32)) & 1 == 1
}

/// `word` with bit `i` replaced by `value`.
pub open spec fn with_bit(word: u32, i: int, value: bool) -> u32 {
    if value {
        word | (1u32 << (i as u32))
    } else {
        word & !(1u32 << (i as u32))
    }
}

/// Bits `lsb ..= msb` of `word`, moved down to bit 0.
pub open spec fn field_of(word: u32, msb: int, lsb: int) -> u32 {
    (word >> (lsb as u32)) & low_mask(msb - lsb + 1)
}

/// `word` with bits `lsb ..= msb` replaced by the low bits of `value`.
pub open spec fn with_field(word: u32, msb: int, lsb: int, value: u32) -> u32 {
    (word & !(low_mask(msb - lsb + 1) << (lsb as u32))) | ((value & low_mask(msb - lsb + 1)) << (
    lsb as u32))
}

/// Bits `lsb ..= msb` of `word` read as a two's complement number of that
/// width: the field itself, with every bit above it equal to bit `msb`.
pub open spec fn signed_field_of(word: u32, msb: int, lsb: int) -> u32 {
    if bit_of(word, msb) {
        field_of(word, msb, lsb) | !low_mask(msb - lsb + 1)
    } else {
        field_of(word, msb, lsb)
    }
}

/// Calls `bitfield::Bit::bit` on a `u32`, which reads the one-bit range
/// `i ..= i`: the result is bit `i` of the word.
#[verifier::external_body]
pub(crate) fn bit(word: u32, i: usize) -> (r: bool)
    requires
        i < 32,
    ensures
        r == bit_of(word, i as int),
{
    word.bit(i)
}

/// Calls `bitfield::BitMut::set_bit` on a copy of the word, which writes the
/// one-bit range `i ..= i` and leaves every other bit alone.
#[verifier::external_body]
pub(crate) fn set_bit(word: u32, i: usize, value: bool) -> (r: u32)
    requires
        i < 32,
    ensures
        r == with_bit(word, i as int, value),
{
    let mut w = word;
    w.set_bit(i, value);
    w
}

/// Calls `bitfield::BitRange::<u32>::bit_range` on a `u32`, which shifts the
/// bits above `msb` out at the top and the bits below `lsb` out at the bottom.
#[verifier::external_body]
pub(crate) fn bit_range(word: u32, msb: usize, lsb: usize) -> (r: u32)
    requires
        lsb <= msb < 32,
    ensures
        r == field_of(word, msb as int, lsb as int),
{
    word.bit_range(msb, lsb)
}

/// Calls `bitfield::BitRangeMut::<u32>::set_bit_range` on a copy of the word,
/// which clears bits `lsb ..= msb` and ors in `value` shifted up by `lsb` and
/// cut to that range.
#[verifier::external_body]
pub(crate) fn set_bit_range(word: u32, msb: usize, lsb: usize, value: u32) -> (r: u32)
    requires
        lsb <= msb < 32,
    ensures
        r == with_field(word, msb as int, lsb as int, value),
{
    let mut w = word;
    w.set_bit_range(msb, lsb, value);
    w
}

/// Indexes the `bitvec` view of the word in `Lsb0` order, where index `i` is
/// the bit of weight `2^i`.
#[verifier::external_body]
pub(crate) fn view_bit(word: u32, i: usize) -> (r: bool)
    requires
        i < 32,
    ensures
        r == bit_of(word, i as int),
{
    word.view_bits::<Lsb0>()[i]
}

/// Calls `BitSlice::set` on the `Lsb0` view of a copy of the word, which
/// writes the bit at index `i` and no other.
#[verifier::external_body]
pub(crate) fn view_set(word: u32, i: usize, value: bool) -> (r: u32)
    requires
        i < 32,
    ensures
        r == with_bit(word, i as int, value),
{
    let mut w = word;
    w.view_bits_mut::<Lsb0>().set(i, value);
    w
}

/// Takes the bits `lo .. hi` of the `Lsb0` view of the word and calls
/// `BitField::load::<u32>` on them: the bit at `lo` becomes bit 0 of the
/// result and the bits from `hi - lo` up are zero.
#[verifier::external_body]
pub(crate) fn view_load(word: u32, lo: usize, hi: usize) -> (r: u32)
    requires
        lo < hi <= 32,
    ensures
        r == field_of(word, hi as int - 1, lo as int),
{
    word.view_bits::<Lsb0>()[lo..hi].load::<u32>()
}

/// As `view_load`, but through `BitField::load::<i32>`, which extends the
/// highest loaded bit into every bit above it.
#[verifier::external_body]
pub(crate) fn view_load_signed(word: u32, lo: usize, hi: usize) -> (r: u32)
    requires
        lo < hi <= 32,
    ensures
        r == signed_field_of(word, hi as int - 1, lo as int),
{
    word.view_bits::<Lsb0>()[lo..hi].load::<i32>() as u32
}

} // verus!
