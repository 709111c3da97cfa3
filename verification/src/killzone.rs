//! Kill zones: what touches one dies, and a moment later the level starts over.

use crate::contact::Side;
use crate::state::GameState;
use crate::timer::{Timer, TimerMode, TimerView};
use vstd::prelude::*;

verus! {

/// How long the player's death is shown before the level starts over: six tenths of a second.
pub const DEATH_DELAY_NANOS: u64 = 600_000_000;

/// The timer that runs from the player's death to the restart of the level.
#[derive(Clone, Copy, Debug)]
pub struct DeathTimer(pub Timer);

impl Default for DeathTimer {
    /// A one-shot timer of [`DEATH_DELAY_NANOS`] that has not started.
    fn default() -> (timer: DeathTimer)
        ensures
            timer.0@ == TimerView::fresh(DEATH_DELAY_NANOS as nat, TimerMode::Once),
    {
        DeathTimer(Timer::new(DEATH_DELAY_NANOS, TimerMode::Once))
    }
}

/// What the kill-zone rule reads of a collision that has just started.
#[derive(Clone, Copy, Debug, PartialEq, Eq, Structural)]
pub struct KillZoneCollision {
    /// True when the first collider belongs to a kill zone of the map.
    pub collider1_in_kill_zone: bool,
    /// True when the second collider belongs to a kill zone of the map.
    pub collider2_in_kill_zone: bool,
    /// True when the first collider is a kill zone itself, as an enemy is.
    pub collider1_is_kill_zone: bool,
    /// True when the second collider is a kill zone itself.
    pub collider2_is_kill_zone: bool,
    /// True when the collision has a first body and that body is a player that is alive.
    pub body1_is_player: bool,
    /// True when the collision has a second body and that body is a player that is alive.
    pub body2_is_player: bool,
}

impl KillZoneCollision {
    /// True when a kill zone takes part in the collision.
    pub open spec fn touches_kill_zone(self) -> bool {
        self.collider1_in_kill_zone || self.collider2_in_kill_zone || self.collider1_is_kill_zone
            || self.collider2_is_kill_zone
    }

    /// The body that dies of the collision: the first of the two that is a living player,
    /// if a kill zone takes part.
    pub open spec fn victim(self) -> Option<Side> {
        if !self.touches_kill_zone() {
            None
        } else if self.body1_is_player {
            Some(Side::First)
        } else if self.body2_is_player {
            Some(Side::Second)
        } else {
            None
        }
    }
}

/// Decides which body, if any, dies of a collision. The death timer of that body is then to
/// be started.
pub fn detect_killzone_collision(collision: KillZoneCollision) -> (victim: Option<Side>)
    ensures
        victim == collision.victim(),
{
    let via_parent = collision.collider1_in_kill_zone || collision.collider2_in_kill_zone;
    let direct = collision.collider1_is_kill_zone || collision.collider2_is_kill_zone;
    if !via_parent && !direct {
        return None;
    }
    if collision.body1_is_player {
        Some(Side::First)
    } else if collision.body2_is_player {
        Some(Side::Second)
    } else {
        None
    }
}

/// Advances the death timer. In the tick in which it runs out the game is to go over to
/// [`GameState::Reloading`]; before and after, nothing is to happen.
pub fn tick_death_timer(timer: &mut DeathTimer, delta_nanos: u64) -> (next: Option<GameState>)
    ensures
        final(timer).0@ == old(timer).0@.tick(delta_nanos as nat),
        next == (if final(timer).0@.just_finished() {
            Some(GameState::Reloading)
        } else {
            None
        }),
{
    timer.0.tick(delta_nanos);
    if timer.0.just_finished() {
        Some(GameState::Reloading)
    } else {
        None
    }
}

/// Whoever dies was a living player.
pub proof fn lemma_victim_is_player(collision: KillZoneCollision)
    ensures
        collision.victim() == Some(Side::First) ==> collision.body1_is_player,
        collision.victim() == Some(Side::Second) ==> collision.body2_is_player,
{
}

/// The death timer asks for the restart exactly once: in the first tick that brings the
/// time since death to the delay.
pub proof fn lemma_restart_comes_once(timer: TimerView, delta: nat)
    requires
        timer.wf(),
        timer.mode == TimerMode::Once,
        timer.duration == DEATH_DELAY_NANOS,
    ensures
        timer.tick(delta).just_finished() <==> !timer.finished && timer.elapsed + delta
            >= DEATH_DELAY_NANOS,
{
}

} // verus!
