//! Enemies that patrol back and forth between walls.

use vstd::prelude::*;

verus! {

/// The way an enemy walks, and looks for walls.
#[derive(Clone, Copy, Debug, PartialEq, Eq, Structural)]
pub enum Heading {
    Right,
    Left,
}

/// An enemy's patrol after a step.
#[derive(Clone, Copy, Debug, PartialEq, Eq, Structural)]
pub struct Patrol {
    /// The way the enemy walks from now on.
    pub heading: Heading,
    /// True when the sprite is to be mirrored: the sprite is drawn looking right.
    pub flip_x: bool,
}

impl Heading {
    /// The opposite heading.
    pub open spec fn spec_turned(self) -> Heading {
        match self {
            Heading::Right => Heading::Left,
            Heading::Left => Heading::Right,
        }
    }

    /// The opposite heading.
    #[verifier::when_used_as_spec(spec_turned)]
    pub fn turned(self) -> (heading: Heading)
        ensures
            heading == self.spec_turned(),
    {
        match self {
            Heading::Right => Heading::Left,
            Heading::Left => Heading::Right,
        }
    }
}

/// The patrol of an enemy that walked towards `heading` and has, or has not, a wall ahead.
pub open spec fn patrol(heading: Heading, wall_ahead: bool) -> Patrol {
    let next = if wall_ahead {
        heading.spec_turned()
    } else {
        heading
    };
    Patrol { heading: next, flip_x: next == Heading::Left }
}

/// Decides how an enemy walks on: it turns around at a wall, and its sprite looks the way
/// it walks.
pub fn update_patrol_movement(heading: Heading, wall_ahead: bool) -> (next: Patrol)
    ensures
        next == patrol(heading, wall_ahead),
{
    let next = if wall_ahead {
        heading.turned()
    } else {
        heading
    };
    Patrol { heading: next, flip_x: next == Heading::Left }
}

/// An enemy that turns around twice walks as before.
pub proof fn lemma_two_walls_restore_heading(heading: Heading)
    ensures
        patrol(patrol(heading, true).heading, true).heading == heading,
{
}

} // verus!
