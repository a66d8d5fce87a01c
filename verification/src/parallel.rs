//! The instructions that add and subtract the halfwords or bytes of two
//! words lane by lane.

use crate::instruction::InstructionKind;
use crate::words::{
    byte, byte_of, half, half_of, make16, make8, pack16, pack8, s16, s8, signed16, signed8,
};
use vstd::prelude::*;

verus! {

/// What happens in the lanes: a sum in each, a difference in each, or, with
/// the halfwords of the second operand exchanged, a difference below and a
/// sum above (ASX) or a sum below and a difference above (SAX).
#[derive(Clone, Copy, Debug, PartialEq, Eq, Structural)]
pub enum LaneOp {
    Add,
    Sub,
    Asx,
    Sax,
}

/// How a lane-wise instruction works.
#[derive(Clone, Copy, Debug, PartialEq, Eq, Structural)]
pub struct Lanes {
    /// Four lanes of a byte rather than two of a halfword.
    pub bytes: bool,
    pub op: LaneOp,
    /// The lanes hold two's complement numbers.
    pub signed: bool,
    /// Each result is halved, and the GE flags stay as they are.
    pub halve: bool,
}

/// How a lane-wise instruction works; nothing for any other instruction.
pub open spec fn lanes_of(kind: InstructionKind) -> Option<Lanes> {
    match kind {
        InstructionKind::SADD16 => Some(
            Lanes { bytes: false, op: LaneOp::Add, signed: true, halve: false },
        ),
        InstructionKind::SADD8 => Some(
            Lanes { bytes: true, op: LaneOp::Add, signed: true, halve: false },
        ),
        InstructionKind::SASX => Some(
            Lanes { bytes: false, op: LaneOp::Asx, signed: true, halve: false },
        ),
        InstructionKind::SSAX => Some(
            Lanes { bytes: false, op: LaneOp::Sax, signed: true, halve: false },
        ),
        InstructionKind::SSUB16 => Some(
            Lanes { bytes: false, op: LaneOp::Sub, signed: true, halve: false },
        ),
        InstructionKind::SSUB8 => Some(
            Lanes { bytes: true, op: LaneOp::Sub, signed: true, halve: false },
        ),
        InstructionKind::UADD16 => Some(
            Lanes { bytes: false, op: LaneOp::Add, signed: false, halve: false },
        ),
        InstructionKind::UADD8 => Some(
            Lanes { bytes: true, op: LaneOp::Add, signed: false, halve: false },
        ),
        InstructionKind::UASX => Some(
            Lanes { bytes: false, op: LaneOp::Asx, signed: false, halve: false },
        ),
        InstructionKind::USAX => Some(
            Lanes { bytes: false, op: LaneOp::Sax, signed: false, halve: false },
        ),
        InstructionKind::USUB16 => Some(
            Lanes { bytes: false, op: LaneOp::Sub, signed: false, halve: false },
        ),
        InstructionKind::USUB8 => Some(
            Lanes { bytes: true, op: LaneOp::Sub, signed: false, halve: false },
        ),
        InstructionKind::SHADD16 => Some(
            Lanes { bytes: false, op: LaneOp::Add, signed: true, halve: true },
        ),
        InstructionKind::SHADD8 => Some(
            Lanes { bytes: true, op: LaneOp::Add, signed: true, halve: true },
        ),
        InstructionKind::SHASX => Some(
            Lanes { bytes: false, op: LaneOp::Asx, signed: true, halve: true },
        ),
        InstructionKind::SHSAX => Some(
            Lanes { bytes: false, op: LaneOp::Sax, signed: true, halve: true },
        ),
        InstructionKind::SHSUB16 => Some(
            Lanes { bytes: false, op: LaneOp::Sub, signed: true, halve: true },
        ),
        InstructionKind::SHSUB8 => Some(
            Lanes { bytes: true, op: LaneOp::Sub, signed: true, halve: true },
        ),
        InstructionKind::UHADD16 => Some(
            Lanes { bytes: false, op: LaneOp::Add, signed: false, halve: true },
        ),
        InstructionKind::UHADD8 => Some(
            Lanes { bytes: true, op: LaneOp::Add, signed: false, halve: true },
        ),
        InstructionKind::UHASX => Some(
            Lanes { bytes: false, op: LaneOp::Asx, signed: false, halve: true },
        ),
        InstructionKind::UHSAX => Some(
            Lanes { bytes: false, op: LaneOp::Sax, signed: false, halve: true },
        ),
        InstructionKind::UHSUB16 => Some(
            Lanes { bytes: false, op: LaneOp::Sub, signed: false, halve: true },
        ),
        InstructionKind::UHSUB8 => Some(
            Lanes { bytes: true, op: LaneOp::Sub, signed: false, halve: true },
        ),
        _ => None,
    }
}

/// How a lane-wise instruction works; nothing for any other instruction.
pub fn lanes(kind: InstructionKind) -> (r: Option<Lanes>)
    ensures
        r == lanes_of(kind),
        r is Some ==> r->0.wf(),
{
    match kind {
        InstructionKind::SADD16 => Some(
            Lanes { bytes: false, op: LaneOp::Add, signed: true, halve: false },
        ),
        InstructionKind::SADD8 => Some(
            Lanes { bytes: true, op: LaneOp::Add, signed: true, halve: false },
        ),
        InstructionKind::SASX => Some(
            Lanes { bytes: false, op: LaneOp::Asx, signed: true, halve: false },
        ),
        InstructionKind::SSAX => Some(
            Lanes { bytes: false, op: LaneOp::Sax, signed: true, halve: false },
        ),
        InstructionKind::SSUB16 => Some(
            Lanes { bytes: false, op: LaneOp::Sub, signed: true, halve: false },
        ),
        InstructionKind::SSUB8 => Some(
            Lanes { bytes: true, op: LaneOp::Sub, signed: true, halve: false },
        ),
        InstructionKind::UADD16 => Some(
            Lanes { bytes: false, op: LaneOp::Add, signed: false, halve: false },
        ),
        InstructionKind::UADD8 => Some(
            Lanes { bytes: true, op: LaneOp::Add, signed: false, halve: false },
        ),
        InstructionKind::UASX => Some(
            Lanes { bytes: false, op: LaneOp::Asx, signed: false, halve: false },
        ),
        InstructionKind::USAX => Some(
            Lanes { bytes: false, op: LaneOp::Sax, signed: false, halve: false },
        ),
        InstructionKind::USUB16 => Some(
            Lanes { bytes: false, op: LaneOp::Sub, signed: false, halve: false },
        ),
        InstructionKind::USUB8 => Some(
            Lanes { bytes: true, op: LaneOp::Sub, signed: false, halve: false },
        ),
        InstructionKind::SHADD16 => Some(
            Lanes { bytes: false, op: LaneOp::Add, signed: true, halve: true },
        ),
        InstructionKind::SHADD8 => Some(
            Lanes { bytes: true, op: LaneOp::Add, signed: true, halve: true },
        ),
        InstructionKind::SHASX => Some(
            Lanes { bytes: false, op: LaneOp::Asx, signed: true, halve: true },
        ),
        InstructionKind::SHSAX => Some(
            Lanes { bytes: false, op: LaneOp::Sax, signed: true, halve: true },
        ),
        InstructionKind::SHSUB16 => Some(
            Lanes { bytes: false, op: LaneOp::Sub, signed: true, halve: true },
        ),
        InstructionKind::SHSUB8 => Some(
            Lanes { bytes: true, op: LaneOp::Sub, signed: true, halve: true },
        ),
        InstructionKind::UHADD16 => Some(
            Lanes { bytes: false, op: LaneOp::Add, signed: false, halve: true },
        ),
        InstructionKind::UHADD8 => Some(
            Lanes { bytes: true, op: LaneOp::Add, signed: false, halve: true },
        ),
        InstructionKind::UHASX => Some(
            Lanes { bytes: false, op: LaneOp::Asx, signed: false, halve: true },
        ),
        InstructionKind::UHSAX => Some(
            Lanes { bytes: false, op: LaneOp::Sax, signed: false, halve: true },
        ),
        InstructionKind::UHSUB16 => Some(
            Lanes { bytes: false, op: LaneOp::Sub, signed: false, halve: true },
        ),
        InstructionKind::UHSUB8 => Some(
            Lanes { bytes: true, op: LaneOp::Sub, signed: false, halve: true },
        ),
        _ => None,
    }
}

impl Lanes {
    /// Lane `i` of a word as a number.
    pub open spec fn lane(self, x: u32, i: int) -> int {
        if self.bytes {
            if self.signed {
                s8(byte_of(x, i))
            } else {
                byte_of(x, i)
            }
        } else {
            if self.signed {
                s16(half_of(x, i))
            } else {
                half_of(x, i)
            }
        }
    }

    /// Whether lane `i` holds a sum rather than a difference.
    pub open spec fn is_sum(self, i: int) -> bool {
        match self.op {
            LaneOp::Add => true,
            LaneOp::Sub => false,
            LaneOp::Asx => i != 0,
            LaneOp::Sax => i == 0,
        }
    }

    /// The exact sum or difference in lane `i`.
    pub open spec fn exact(self, n: u32, m: u32, i: int) -> int {
        match self.op {
            LaneOp::Add => self.lane(n, i) + self.lane(m, i),
            LaneOp::Sub => self.lane(n, i) - self.lane(m, i),
            LaneOp::Asx => if i == 0 {
                self.lane(n, 0) - self.lane(m, 1)
            } else {
                self.lane(n, 1) + self.lane(m, 0)
            },
            LaneOp::Sax => if i == 0 {
                self.lane(n, 0) + self.lane(m, 1)
            } else {
                self.lane(n, 1) - self.lane(m, 0)
            },
        }
    }

    /// What goes into lane `i` of the result before it is cut to the width
    /// of the lane: the exact value, or half of it rounded down.
    pub open spec fn stored(self, n: u32, m: u32, i: int) -> int {
        if self.halve {
            self.exact(n, m, i) / 2
        } else {
            self.exact(n, m, i)
        }
    }

    /// The GE flag of lane `i`: for an unsigned sum whether it carried out
    /// of the lane, and else whether the exact value is not negative.
    pub open spec fn ge(self, n: u32, m: u32, i: int) -> bool {
        if !self.signed && self.is_sum(i) {
            self.exact(n, m, i) >= (if self.bytes { 0x100int } else { 0x1_0000int })
        } else {
            self.exact(n, m, i) >= 0
        }
    }

    /// The word that the instruction computes.
    pub open spec fn result(self, n: u32, m: u32) -> u32 {
        if self.bytes {
            pack8(
                self.stored(n, m, 3),
                self.stored(n, m, 2),
                self.stored(n, m, 1),
                self.stored(n, m, 0),
            )
        } else {
            pack16(self.stored(n, m, 1), self.stored(n, m, 0))
        }
    }

    /// The four GE flags that the instruction computes, one for each byte of
    /// the result: a halfword lane gives its flag to both of its bytes.
    pub open spec fn ge_flags(self, n: u32, m: u32) -> u32 {
        if self.bytes {
            (self.ge_weight(n, m, 3, 8) + self.ge_weight(n, m, 2, 4) + self.ge_weight(n, m, 1, 2)
                + self.ge_weight(n, m, 0, 1)) as u32
        } else {
            (self.ge_weight(n, m, 1, 12) + self.ge_weight(n, m, 0, 3)) as u32
        }
    }

    /// `weight` where the GE flag of lane `i` is set, and else zero.
    pub open spec fn ge_weight(self, n: u32, m: u32, i: int, weight: int) -> int {
        if self.ge(n, m, i) {
            weight
        } else {
            0
        }
    }

    fn lane_value(&self, x: u32, i: usize) -> (r: i64)
        requires
            i < 4,
            !self.bytes ==> i < 2,
        ensures
            r == self.lane(x, i as int),
            -0x8000 <= r < 0x1_0000,
    {
        if self.bytes {
            if self.signed {
                signed8(byte(x, i))
            } else {
                byte(x, i)
            }
        } else {
            if self.signed {
                signed16(half(x, i))
            } else {
                half(x, i)
            }
        }
    }

    fn exact_value(&self, n: u32, m: u32, i: usize) -> (r: i64)
        requires
            i < 4,
            !self.bytes ==> i < 2,
            self.bytes ==> self.op == LaneOp::Add || self.op == LaneOp::Sub,
        ensures
            r == self.exact(n, m, i as int),
            -0x2_0000 <= r < 0x2_0000,
    {
        match self.op {
            LaneOp::Add => self.lane_value(n, i) + self.lane_value(m, i),
            LaneOp::Sub => self.lane_value(n, i) - self.lane_value(m, i),
            LaneOp::Asx => if i == 0 {
                self.lane_value(n, 0) - self.lane_value(m, 1)
            } else {
                self.lane_value(n, 1) + self.lane_value(m, 0)
            },
            LaneOp::Sax => if i == 0 {
                self.lane_value(n, 0) + self.lane_value(m, 1)
            } else {
                self.lane_value(n, 1) - self.lane_value(m, 0)
            },
        }
    }

    fn stored_value(&self, n: u32, m: u32, i: usize) -> (r: i64)
        requires
            i < 4,
            !self.bytes ==> i < 2,
            self.bytes ==> self.op == LaneOp::Add || self.op == LaneOp::Sub,
        ensures
            r == self.stored(n, m, i as int),
            -0x2_0000 <= r < 0x2_0000,
    {
        let exact = self.exact_value(n, m, i);
        if self.halve {
            (exact + 0x2_0000) / 2 - 0x1_0000
        } else {
            exact
        }
    }

    fn ge_value(&self, n: u32, m: u32, i: usize) -> (r: bool)
        requires
            i < 4,
            !self.bytes ==> i < 2,
            self.bytes ==> self.op == LaneOp::Add || self.op == LaneOp::Sub,
        ensures
            r == self.ge(n, m, i as int),
    {
        let is_sum = match self.op {
            LaneOp::Add => true,
            LaneOp::Sub => false,
            LaneOp::Asx => i != 0,
            LaneOp::Sax => i == 0,
        };
        let exact = self.exact_value(n, m, i);
        if !self.signed && is_sum {
            exact >= (if self.bytes { 0x100 } else { 0x1_0000 })
        } else {
            exact >= 0
        }
    }

    /// Whether the lanes are ones that an encoding can name: byte lanes have
    /// no exchanged forms.
    pub open spec fn wf(self) -> bool {
        self.bytes ==> self.op == LaneOp::Add || self.op == LaneOp::Sub
    }

    /// Computes the word of a lane-wise instruction.
    pub fn compute(&self, n: u32, m: u32) -> (r: u32)
        requires
            self.wf(),
        ensures
            r == self.result(n, m),
    {
        if self.bytes {
            make8(
                self.stored_value(n, m, 3),
                self.stored_value(n, m, 2),
                self.stored_value(n, m, 1),
                self.stored_value(n, m, 0),
            )
        } else {
            make16(self.stored_value(n, m, 1), self.stored_value(n, m, 0))
        }
    }

    /// Computes the GE flags of a lane-wise instruction.
    pub fn compute_ge(&self, n: u32, m: u32) -> (r: u32)
        requires
            self.wf(),
        ensures
            r == self.ge_flags(n, m),
            r < 16,
    {
        if self.bytes {
            let g3: u32 = if self.ge_value(n, m, 3) { 8 } else { 0 };
            let g2: u32 = if self.ge_value(n, m, 2) { 4 } else { 0 };
            let g1: u32 = if self.ge_value(n, m, 1) { 2 } else { 0 };
            let g0: u32 = if self.ge_value(n, m, 0) { 1 } else { 0 };
            g3 + g2 + g1 + g0
        } else {
            let g1: u32 = if self.ge_value(n, m, 1) { 12 } else { 0 };
            let g0: u32 = if self.ge_value(n, m, 0) { 3 } else { 0 };
            g1 + g0
        }
    }
}

/// Every lane-wise instruction has lanes that an encoding can name.
pub proof fn lemma_lanes_wf(kind: InstructionKind)
    ensures
        lanes_of(kind) is Some ==> lanes_of(kind)->0.wf(),
{
}

} // verus!
