//! The state of the game as a whole, and the score.

use vstd::prelude::*;

verus! {

/// Whether the level is being played or is being loaded again after the player died.
#[derive(Clone, Copy, Debug, PartialEq, Eq, Hash, Structural)]
pub enum GameState {
    Playing,
    Reloading,
}

impl Default for GameState {
    /// The game starts in play.
    fn default() -> (state: GameState)
        ensures
            state == GameState::Playing,
    {
        GameState::Playing
    }
}

/// The number of coins collected since the level was loaded.
#[derive(Clone, Copy, Debug, PartialEq, Eq, Structural)]
pub struct Score(pub u32);

impl Default for Score {
    /// No coin yet.
    fn default() -> (score: Score)
        ensures
            score.0 == 0,
    {
        Score(0)
    }
}

/// Starts the level over: the score is back at zero, and the game goes on in play.
pub fn restart_game(score: &mut Score) -> (next: GameState)
    ensures
        final(score).0 == 0,
        next == GameState::Playing,
{
    score.0 = 0;
    GameState::Playing
}

/// Counts `coins` collected coins.
pub fn increment_score(score: &mut Score, coins: u32)
    requires
        old(score).0 + coins <= u32::MAX,
    ensures
        final(score).0 == old(score).0 + coins,
{
    score.0 = score.0 + coins;
}

} // verus!
