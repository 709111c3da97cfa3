//! Vocabulary shared by the rules that look at physics contacts.
//!
//! The physics engine reports contacts between two colliders and gives each contact a unit
//! normal that points from the first collider to the second. The rules never need the normal
//! itself, only on which side of a threshold one of its components lies.

use vstd::prelude::*;

verus! {

/// One of the two parties of a contact, in the order in which the engine reports them.
#[derive(Clone, Copy, Debug, PartialEq, Eq, Structural)]
pub enum Side {
    First,
    Second,
}

/// Where the component of a unit normal along some axis lies: beyond the steepness threshold
/// in the direction of the axis, beyond it in the opposite direction, or in between.
#[derive(Clone, Copy, Debug, PartialEq, Eq, Structural)]
pub enum Lean {
    Along,
    Against,
    Slight,
}

impl Side {
    /// The other party of the contact.
    pub open spec fn spec_other(self) -> Side {
        match self {
            Side::First => Side::Second,
            Side::Second => Side::First,
        }
    }

    /// The other party of the contact.
    #[verifier::when_used_as_spec(spec_other)]
    pub fn other(self) -> (side: Side)
        ensures
            side == self.spec_other(),
    {
        match self {
            Side::First => Side::Second,
            Side::Second => Side::First,
        }
    }
}

impl Lean {
    /// The lean of the negated normal.
    pub open spec fn spec_reversed(self) -> Lean {
        match self {
            Lean::Along => Lean::Against,
            Lean::Against => Lean::Along,
            Lean::Slight => Lean::Slight,
        }
    }

    /// The lean of the negated normal.
    #[verifier::when_used_as_spec(spec_reversed)]
    pub fn reversed(self) -> (lean: Lean)
        ensures
            lean == self.spec_reversed(),
    {
        match self {
            Lean::Along => Lean::Against,
            Lean::Against => Lean::Along,
            Lean::Slight => Lean::Slight,
        }
    }

    /// The lean of a normal once it is made to point towards `side`: the engine's normal
    /// points towards the second collider, so it is reversed for the first.
    pub open spec fn spec_towards(self, side: Side) -> Lean {
        match side {
            Side::First => self.spec_reversed(),
            Side::Second => self,
        }
    }

    /// The lean of a normal once it is made to point towards `side`.
    #[verifier::when_used_as_spec(spec_towards)]
    pub fn towards(self, side: Side) -> (lean: Lean)
        ensures
            lean == self.spec_towards(side),
    {
        match side {
            Side::First => self.reversed(),
            Side::Second => self,
        }
    }
}

} // verus!
