//! Bounds on the absolute value of a node's output.

use vstd::prelude::*;

verus! {

/// An upper bound on the absolute value of what a node puts out.
///
/// `Bounded { mantissa, shift }` is the number `mantissa / 2^shift`, kept
/// exactly; `Unbounded` says that nothing is known. A product that no longer
/// fits the mantissa gives up and becomes `Unbounded`, which is still a bound.
#[derive(Clone, Copy, Debug, PartialEq, Eq, Structural)]
pub enum Magnitude {
    Unbounded,
    Bounded { mantissa: u128, shift: u32 },
}

impl Magnitude {
    /// The bound `value`.
    pub open spec fn whole(value: nat) -> Magnitude {
        if value <= u128::MAX {
            Magnitude::Bounded { mantissa: value as u128, shift: 0 }
        } else {
            Magnitude::Unbounded
        }
    }

    /// The product of two bounds.
    pub open spec fn times(self, other: Magnitude) -> Magnitude {
        match (self, other) {
            (
                Magnitude::Bounded { mantissa: a, shift: s },
                Magnitude::Bounded { mantissa: b, shift: t },
            ) => {
                if a * b <= u128::MAX && s + t <= u32::MAX {
                    Magnitude::Bounded { mantissa: (a * b) as u128, shift: (s + t) as u32 }
                } else {
                    Magnitude::Unbounded
                }
            },
            _ => Magnitude::Unbounded,
        }
    }

    /// The bound multiplied by a count of terms.
    pub open spec fn scaled(self, count: nat) -> Magnitude {
        self.times(Magnitude::whole(count))
    }

    /// The bound divided by `2^bits`.
    pub open spec fn shifted(self, bits: nat) -> Magnitude {
        match self {
            Magnitude::Bounded { mantissa, shift } => {
                if shift + bits <= u32::MAX {
                    Magnitude::Bounded { mantissa, shift: (shift + bits) as u32 }
                } else {
                    Magnitude::Unbounded
                }
            },
            Magnitude::Unbounded => Magnitude::Unbounded,
        }
    }

    /// The bound `value`.
    pub fn from_count(value: usize) -> (r: Magnitude)
        ensures
            r == Magnitude::whole(value as nat),
    {
        Magnitude::Bounded { mantissa: value as u128, shift: 0 }
    }

    /// The product of two bounds.
    pub fn multiply(self, other: Magnitude) -> (r: Magnitude)
        ensures
            r == self.times(other),
    {
        match (self, other) {
            (
                Magnitude::Bounded { mantissa: a, shift: s },
                Magnitude::Bounded { mantissa: b, shift: t },
            ) => {
                match (a.checked_mul(b), s.checked_add(t)) {
                    (Some(mantissa), Some(shift)) => Magnitude::Bounded { mantissa, shift },
                    _ => Magnitude::Unbounded,
                }
            },
            _ => Magnitude::Unbounded,
        }
    }

    /// The bound multiplied by a count of terms.
    pub fn multiply_count(self, count: usize) -> (r: Magnitude)
        ensures
            r == self.scaled(count as nat),
    {
        self.multiply(Magnitude::from_count(count))
    }

    /// The bound divided by `2^bits`.
    pub fn shift_down(self, bits: u32) -> (r: Magnitude)
        ensures
            r == self.shifted(bits as nat),
    {
        match self {
            Magnitude::Bounded { mantissa, shift } => {
                match shift.checked_add(bits) {
                    Some(shift) => Magnitude::Bounded { mantissa, shift },
                    None => Magnitude::Unbounded,
                }
            },
            Magnitude::Unbounded => Magnitude::Unbounded,
        }
    }
}

} // verus!
