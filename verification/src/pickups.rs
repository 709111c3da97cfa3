//! Coins, collected when the player touches them.

use crate::contact::Side;
use vstd::prelude::*;

verus! {

/// What the pickup rule reads of a collision that has just started.
#[derive(Clone, Copy, Debug, PartialEq, Eq, Structural)]
pub struct CoinCollision {
    /// True when the first collider belongs to a coin.
    pub collider1_is_coin: bool,
    /// True when the second collider belongs to a coin.
    pub collider2_is_coin: bool,
    /// True when the collision has a first body and that body is a player.
    pub body1_is_player: bool,
    /// True when the collision has a second body and that body is a player.
    pub body2_is_player: bool,
}

impl CoinCollision {
    /// The collider whose coin is collected: the only one of the two that belongs to a coin,
    /// if the body on the other side is a player.
    pub open spec fn collected(self) -> Option<Side> {
        if self.collider1_is_coin && !self.collider2_is_coin && self.body2_is_player {
            Some(Side::First)
        } else if !self.collider1_is_coin && self.collider2_is_coin && self.body1_is_player {
            Some(Side::Second)
        } else {
            None
        }
    }
}

/// Decides whether a collision collects a coin, and which collider's coin it is. That coin
/// is then to be removed and counted.
pub fn collect_coins(collision: CoinCollision) -> (coin: Option<Side>)
    ensures
        coin == collision.collected(),
{
    let (coin, other_is_player) = match (collision.collider1_is_coin, collision.collider2_is_coin) {
        (true, false) => (Some(Side::First), collision.body2_is_player),
        (false, true) => (Some(Side::Second), collision.body1_is_player),
        _ => (None, false),
    };
    if other_is_player {
        coin
    } else {
        None
    }
}

/// Turning the collision around collects the same coin.
pub proof fn lemma_order_is_irrelevant(collision: CoinCollision)
    ensures
        (CoinCollision {
            collider1_is_coin: collision.collider2_is_coin,
            collider2_is_coin: collision.collider1_is_coin,
            body1_is_player: collision.body2_is_player,
            body2_is_player: collision.body1_is_player,
        }).collected() == (match collision.collected() {
            Some(side) => Some(side.spec_other()),
            None => None,
        }),
{
}

} // verus!
