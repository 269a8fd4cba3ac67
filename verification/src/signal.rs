//! Signal identities: name, value kind, and rotation key.

use vstd::prelude::*;

verus! {

/// The value type of a signal: a single bit, or a bit vector whose width is
/// the absolute difference of its two indices, the first index naming the
/// most-significant bit.
#[derive(Clone, Copy, PartialEq, Eq, Structural, Debug)]
pub enum SignalKind {
    Bit,
    Vector(i32, i32),
}

impl SignalKind {
    /// How many booleans one cell of this kind holds per cycle.
    pub open spec fn spec_width(self) -> int {
        match self {
            SignalKind::Bit => 1,
            SignalKind::Vector(a, b) => if b >= a {
                b - a
            } else {
                a - b
            },
        }
    }

    /// Executable cell width.
    pub fn width(&self) -> (w: u64)
        ensures
            w == self.spec_width(),
    {
        match self {
            SignalKind::Bit => 1,
            SignalKind::Vector(a, b) => {
                let d: i64 = (*b as i64) - (*a as i64);
                if d >= 0 {
                    d as u64
                } else {
                    (-d) as u64
                }
            },
        }
    }
}

/// One enumerated signal: a unique name, a value kind, and the rotation key
/// in `[0, 16)` that fixes how its waveform is derived from the cycle counter.
#[derive(Clone, Debug)]
pub struct Signal {
    pub name: String,
    pub kind: SignalKind,
    pub rotation_key: u32,
}

} // verus!
