//! The ways in which the machine fails.

use vstd::prelude::*;

verus! {

#[derive(Clone, Copy, Debug, PartialEq, Eq, Structural)]
/// Why the machine stopped.
pub enum VMError {
    /// An address beyond the end of memory, or a link that answered with nothing.
    BusError,
    /// The serial line could not format what it was given.
    FmtError,
    /// The serial link had no byte to give.
    NonBlockError,
    /// An instruction, operand or state that the machine does not carry out.
    Unimplemented,
    /// Bytes that are no instruction.
    DecodeError,
}

impl VMError {
    /// The name of the failure.
    pub fn to_str(&self) -> (r: &'static str)
        ensures
            r@ == match *self {
                VMError::BusError => "Bus Error"@,
                VMError::FmtError => "Serial Error"@,
                VMError::NonBlockError => "Non Blocking Error"@,
                VMError::Unimplemented => "Unimplemented"@,
                VMError::DecodeError => "Decode Error"@,
            },
    {
        match self {
            VMError::BusError => "Bus Error",
            VMError::FmtError => "Serial Error",
            VMError::NonBlockError => "Non Blocking Error",
            VMError::Unimplemented => "Unimplemented",
            VMError::DecodeError => "Decode Error",
        }
    }
}

} // verus!
