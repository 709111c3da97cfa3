//! The player's input, as the movement rules see it.

use vstd::prelude::*;

verus! {

/// What the player asks for: a direction to run in and, possibly, a jump.
#[derive(Clone, Copy, Debug, PartialEq, Eq, Structural)]
pub struct PlayerInput {
    /// Negative to run left, positive to run right, zero to stand.
    pub movement_direction: i8,
    /// True from the press of the jump key until the movement rules have seen it.
    pub jump_requested: bool,
}

/// The state of the keys that steer the player.
#[derive(Clone, Copy, Debug, PartialEq, Eq, Structural)]
pub struct Keys {
    /// True while a key for "left" is held.
    pub left: bool,
    /// True while a key for "right" is held.
    pub right: bool,
    /// True in the frame in which the jump key went down.
    pub jump: bool,
}

impl Keys {
    /// The direction that the held keys ask for: -1, 0 or 1. Opposite keys cancel.
    pub open spec fn direction(self) -> int {
        (if self.right { 1int } else { 0int }) - (if self.left { 1int } else { 0int })
    }
}

impl Default for PlayerInput {
    /// No direction and no jump.
    fn default() -> (input: PlayerInput)
        ensures
            input == (PlayerInput { movement_direction: 0, jump_requested: false }),
    {
        PlayerInput { movement_direction: 0, jump_requested: false }
    }
}

/// Takes the state of the keys into the player's input.
///
/// The direction is set anew from the keys that are held. A jump press is added to the input
/// and stays there until the movement rules clear it: a press is never lost between two runs
/// of the movement rules.
pub fn detect_player_input(keys: Keys, input: &mut PlayerInput)
    ensures
        final(input).movement_direction == keys.direction(),
        final(input).jump_requested == (old(input).jump_requested || keys.jump),
{
    let mut direction: i8 = 0;
    if keys.left {
        direction -= 1;
    }
    if keys.right {
        direction += 1;
    }
    input.movement_direction = direction;
    if keys.jump {
        input.jump_requested = true;
    }
}

} // verus!
