//! What the player does in one step of the simulation: jump or not, run or brake.

use crate::input::PlayerInput;
use crate::walls::WallContacts;
use vstd::prelude::*;

verus! {

/// What the movement rules read of the player's body.
#[derive(Clone, Copy, Debug, PartialEq, Eq, Structural)]
pub struct Footing {
    /// True when the player stands on ground.
    pub grounded: bool,
    /// True while the coyote timer runs: the player left the ground a moment ago.
    pub coyote: bool,
    /// True while the jump buffer runs: a jump was asked for a moment ago, in the air.
    pub jump_buffer: bool,
    /// The walls that the player touches.
    pub walls: WallContacts,
}

/// What becomes of a jump in one step.
#[derive(Clone, Copy, Debug, PartialEq, Eq, Structural)]
pub enum Jump {
    /// The player jumps: the vertical velocity is set to the jump velocity, and both the
    /// coyote timer and the jump buffer are used up.
    Leap,
    /// The player cannot jump yet: a jump buffer is started to remember the press.
    Buffer,
    /// Nothing happens.
    Nothing,
}

/// What becomes of the player's own horizontal velocity in one step.
#[derive(Clone, Copy, Debug, PartialEq, Eq, Structural)]
pub enum Drive {
    /// The velocity is the input's direction times the player's speed.
    Run,
    /// The velocity is moved towards zero.
    Brake,
}

/// The message that tells the sprite which way to look.
#[derive(Clone, Copy, Debug, PartialEq, Eq, Structural)]
pub struct PlayerMovement {
    pub is_moving: bool,
    pub is_grounded: bool,
    pub facing_left: bool,
}

/// The outcome of one step of the movement rules.
#[derive(Clone, Copy, Debug, PartialEq, Eq, Structural)]
pub struct Movement {
    pub jump: Jump,
    pub drive: Drive,
    pub message: PlayerMovement,
}

impl Footing {
    /// The player can jump from the ground and for as long as the coyote timer runs.
    pub open spec fn can_jump(self) -> bool {
        self.grounded || self.coyote
    }
}

/// A jump is wanted when it is asked for now or was buffered.
pub open spec fn wants_jump(input: PlayerInput, footing: Footing) -> bool {
    input.jump_requested || footing.jump_buffer
}

/// What becomes of a jump.
pub open spec fn jump(input: PlayerInput, footing: Footing) -> Jump {
    if wants_jump(input, footing) && footing.can_jump() {
        Jump::Leap
    } else if input.jump_requested {
        Jump::Buffer
    } else {
        Jump::Nothing
    }
}

/// True when the player runs into a wall that it touches.
pub open spec fn blocked(direction: int, walls: WallContacts) -> bool {
    (direction < 0 && walls.left) || (direction > 0 && walls.right)
}

/// What becomes of the horizontal velocity.
pub open spec fn drive(direction: int, walls: WallContacts) -> Drive {
    if direction != 0 && !blocked(direction, walls) {
        Drive::Run
    } else {
        Drive::Brake
    }
}

/// The message for the sprite.
pub open spec fn message(direction: int, grounded: bool) -> PlayerMovement {
    PlayerMovement { is_moving: direction != 0, is_grounded: grounded, facing_left: direction < 0 }
}

/// The outcome of one step.
pub open spec fn movement(input: PlayerInput, footing: Footing) -> Movement {
    Movement {
        jump: jump(input, footing),
        drive: drive(input.movement_direction as int, footing.walls),
        message: message(input.movement_direction as int, footing.grounded),
    }
}

/// Decides what the player does in this step, and clears the jump request.
///
/// The player leaps when a jump is wanted, now or from the buffer, and the player is on the
/// ground or within coyote time. A jump that is asked for when neither holds starts the jump
/// buffer. The player runs in the direction of the input unless it stands or a wall blocks
/// that direction; then it brakes.
pub fn decide(input: &mut PlayerInput, footing: Footing) -> (outcome: Movement)
    ensures
        outcome == movement(*old(input), footing),
        final(input).movement_direction == old(input).movement_direction,
        !final(input).jump_requested,
{
    let can_jump = footing.grounded || footing.coyote;
    let wants_jump = input.jump_requested || footing.jump_buffer;
    let jump = if wants_jump && can_jump {
        Jump::Leap
    } else if input.jump_requested {
        Jump::Buffer
    } else {
        Jump::Nothing
    };
    input.jump_requested = false;
    let direction: i8 = input.movement_direction;
    let blocked = (direction < 0 && footing.walls.left) || (direction > 0 && footing.walls.right);
    let drive = if direction != 0 && !blocked {
        Drive::Run
    } else {
        Drive::Brake
    };
    Movement {
        jump,
        drive,
        message: PlayerMovement {
            is_moving: direction != 0,
            is_grounded: footing.grounded,
            facing_left: direction < 0,
        },
    }
}

/// Applies the movement messages of a step to the sprite: each message of a moving player
/// sets the flip, so that the sprite keeps its last direction when the player stops.
pub open spec fn flipped(flip_x: bool, messages: Seq<PlayerMovement>) -> bool
    decreases messages.len(),
{
    if messages.len() == 0 {
        flip_x
    } else if messages.last().is_moving {
        messages.last().facing_left
    } else {
        flipped(flip_x, messages.drop_last())
    }
}

/// Tells whether the player's sprite is mirrored after the given messages.
pub fn flip_player_sprite(flip_x: bool, messages: &Vec<PlayerMovement>) -> (flip: bool)
    ensures
        flip == flipped(flip_x, messages@),
{
    let mut flip = flip_x;
    let mut i: usize = 0;
    while i < messages.len()
        invariant
            i <= messages.len(),
            flip == flipped(flip_x, messages@.take(i as int)),
        decreases messages.len() - i,
    {
        assert(messages@.take(i + 1).drop_last() == messages@.take(i as int));
        if messages[i].is_moving {
            flip = messages[i].facing_left;
        }
        i += 1;
    }
    assert(messages@.take(messages.len() as int) == messages@);
    flip
}

/// On the ground a jump that is asked for always happens.
pub proof fn lemma_grounded_jump(input: PlayerInput, footing: Footing)
    requires
        footing.grounded,
        input.jump_requested,
    ensures
        movement(input, footing).jump == Jump::Leap,
{
}

/// A buffered jump happens as soon as the player can jump, without a new press.
pub proof fn lemma_buffered_jump(input: PlayerInput, footing: Footing)
    requires
        footing.jump_buffer,
        footing.can_jump(),
    ensures
        movement(input, footing).jump == Jump::Leap,
{
}

/// In the air, outside coyote time, no jump happens; a press is buffered.
pub proof fn lemma_no_jump_in_the_air(input: PlayerInput, footing: Footing)
    requires
        !footing.can_jump(),
    ensures
        movement(input, footing).jump == (if input.jump_requested {
            Jump::Buffer
        } else {
            Jump::Nothing
        }),
{
}

/// The player never runs into a wall that it touches.
pub proof fn lemma_walls_block(input: PlayerInput, footing: Footing)
    requires
        movement(input, footing).drive == Drive::Run,
    ensures
        input.movement_direction < 0 ==> !footing.walls.left,
        input.movement_direction > 0 ==> !footing.walls.right,
        input.movement_direction != 0,
{
}

} // verus!
