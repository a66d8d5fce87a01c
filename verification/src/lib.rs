//! An ARMv7 virtual CPU: register file and program status, shift and carry
//! arithmetic, a two-tier memory whose upper part is served over a framed
//! serial link, operand access, and the meaning of each instruction.

pub mod alu;
pub mod arithmetic;
pub mod bits;
pub mod cpu;
pub mod decoder;
pub mod executor;
pub mod fetch;
pub mod instruction;
pub mod laws;
pub mod machine;
pub mod memory;
pub mod multiply;
pub mod parallel;
pub mod protocol;
pub mod serial;
pub mod values;
pub mod vmerror;
pub mod words;
