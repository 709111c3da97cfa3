//! Ground under the player, found among the hits of a short downward shape cast.

use vstd::prelude::*;

verus! {

/// What the rules read of one hit of the player's ground probe.
#[derive(Clone, Copy, Debug, PartialEq, Eq, Structural)]
pub struct ProbeHit {
    /// True when the collider that was hit is a sensor, which carries nothing.
    pub is_sensor: bool,
    /// True when the surface that was hit faces upwards, within 45 degrees of vertical.
    pub faces_up: bool,
    /// True when the body that was hit has a linear velocity of its own.
    pub has_velocity: bool,
}

/// What becomes of the velocity that the player inherits from the ground.
#[derive(Clone, Copy, Debug, PartialEq, Eq, Structural)]
pub enum PlatformVelocity {
    /// The player takes over the velocity of the body behind the hit with this index.
    Inherit(usize),
    /// The player inherits no velocity.
    Clear,
}

impl ProbeHit {
    /// True when the player can stand on what was hit.
    pub open spec fn is_ground(self) -> bool {
        !self.is_sensor && self.faces_up
    }
}

/// True when some hit is ground.
pub open spec fn grounded(hits: Seq<ProbeHit>) -> bool {
    exists|i: int| 0 <= i < hits.len() && (#[trigger] hits[i]).is_ground()
}

/// True when `index` is the first hit that is ground.
pub open spec fn is_first_ground(hits: Seq<ProbeHit>, index: int) -> bool {
    &&& 0 <= index < hits.len()
    &&& hits[index].is_ground()
    &&& forall|j: int| 0 <= j < index ==> !(#[trigger] hits[j]).is_ground()
}

/// The inherited velocity that follows from the probe's hits: that of the first hit that is
/// ground, if the body behind it moves; none otherwise.
pub open spec fn platform_velocity(hits: Seq<ProbeHit>) -> PlatformVelocity {
    if exists|i: int| is_first_ground(hits, i) && hits[i].has_velocity {
        PlatformVelocity::Inherit(
            (choose|i: int| is_first_ground(hits, i) && hits[i].has_velocity) as usize,
        )
    } else {
        PlatformVelocity::Clear
    }
}

/// The index of the first hit that is ground.
pub fn ground_hit(hits: &Vec<ProbeHit>) -> (found: Option<usize>)
    ensures
        match found {
            Some(index) => is_first_ground(hits@, index as int),
            None => !grounded(hits@),
        },
{
    let mut i: usize = 0;
    while i < hits.len()
        invariant
            i <= hits.len(),
            forall|j: int| 0 <= j < i ==> !(#[trigger] hits@[j]).is_ground(),
        decreases hits.len() - i,
    {
        let hit = hits[i];
        if !hit.is_sensor && hit.faces_up {
            return Some(i);
        }
        i += 1;
    }
    None
}

/// Decides from which hit, if any, the player inherits a velocity.
pub fn update_platform_velocity(hits: &Vec<ProbeHit>) -> (velocity: PlatformVelocity)
    ensures
        velocity == platform_velocity(hits@),
        velocity matches PlatformVelocity::Inherit(index) ==> is_first_ground(hits@, index as int)
            && hits@[index as int].has_velocity,
{
    match ground_hit(hits) {
        Some(index) => {
            proof {
                lemma_first_ground_is_unique(hits@);
            }
            if hits[index].has_velocity {
                PlatformVelocity::Inherit(index)
            } else {
                PlatformVelocity::Clear
            }
        },
        None => PlatformVelocity::Clear,
    }
}

/// At most one hit is the first that is ground.
pub proof fn lemma_first_ground_is_unique(hits: Seq<ProbeHit>)
    ensures
        forall|i: int, j: int| is_first_ground(hits, i) && is_first_ground(hits, j) ==> i == j,
{
    assert forall|i: int, j: int| is_first_ground(hits, i) && is_first_ground(hits, j) implies i
        == j by {
        if i < j {
            assert(hits[i].is_ground());
        } else if j < i {
            assert(hits[j].is_ground());
        }
    }
}

/// Velocity is inherited only from ground: a player that inherits one is grounded.
pub proof fn lemma_inherits_only_when_grounded(hits: Seq<ProbeHit>)
    requires
        platform_velocity(hits) is Inherit,
    ensures
        grounded(hits),
{
    let i = choose|i: int| is_first_ground(hits, i) && hits[i].has_velocity;
    assert(hits[i].is_ground());
}

} // verus!
