//! One-way platforms: solid from above, open from below.

use crate::contact::{Lean, Side};
use vstd::prelude::*;

verus! {

/// Which collider of a contact is the one-way platform. When both are, the first counts.
pub open spec fn platform_side(first_is_platform: bool, second_is_platform: bool) -> Option<Side> {
    if first_is_platform {
        Some(Side::First)
    } else if second_is_platform {
        Some(Side::Second)
    } else {
        None
    }
}

/// True when a manifold shows the other collider coming from below the platform.
///
/// `lean` is the lean of the manifold's normal along the platform's up direction. Made to
/// point from the platform to the other collider, a normal that leans against "up" means
/// that the other collider is underneath.
pub open spec fn from_below(platform: Side, lean: Lean) -> bool {
    lean.spec_towards(platform.spec_other()) == Lean::Against
}

/// True when the contact is to be resolved as a collision.
pub open spec fn contact_stays(
    first_is_platform: bool,
    second_is_platform: bool,
    manifolds: Seq<Lean>,
) -> bool {
    match platform_side(first_is_platform, second_is_platform) {
        None => true,
        Some(platform) => forall|i: int|
            0 <= i < manifolds.len() ==> !from_below(platform, #[trigger] manifolds[i]),
    }
}

/// Decides whether a contact is resolved (`true`) or passed through (`false`).
///
/// `manifolds` holds, for each manifold of the contact, the lean of its normal along the up
/// direction of the platform. A contact without a one-way platform always stays; one with a
/// platform stays unless some manifold shows the other collider coming from below.
pub fn modify_contacts(
    first_is_platform: bool,
    second_is_platform: bool,
    manifolds: &Vec<Lean>,
) -> (stays: bool)
    ensures
        stays == contact_stays(first_is_platform, second_is_platform, manifolds@),
{
    let platform = if first_is_platform {
        Side::First
    } else if second_is_platform {
        Side::Second
    } else {
        return true;
    };
    let mut i: usize = 0;
    while i < manifolds.len()
        invariant
            i <= manifolds.len(),
            platform_side(first_is_platform, second_is_platform) == Some(platform),
            forall|j: int| 0 <= j < i ==> !from_below(platform, #[trigger] manifolds@[j]),
        decreases manifolds.len() - i,
    {
        if manifolds[i].towards(platform.other()) == Lean::Against {
            return false;
        }
        i += 1;
    }
    true
}

/// Whatever its position in the contact, a platform lets through exactly what comes from
/// below: swapping the colliders and negating the normals changes nothing.
pub proof fn lemma_order_is_irrelevant(manifolds: Seq<Lean>, swapped: Seq<Lean>)
    requires
        swapped.len() == manifolds.len(),
        forall|i: int| 0 <= i < manifolds.len() ==> swapped[i] == manifolds[i].spec_reversed(),
    ensures
        contact_stays(true, false, manifolds) == contact_stays(false, true, swapped),
{
    if contact_stays(true, false, manifolds) {
        assert forall|i: int| 0 <= i < swapped.len() implies !from_below(
            Side::Second,
            #[trigger] swapped[i],
        ) by {
            assert(!from_below(Side::First, manifolds[i]));
        }
    }
    if contact_stays(false, true, swapped) {
        assert forall|i: int| 0 <= i < manifolds.len() implies !from_below(
            Side::First,
            #[trigger] manifolds[i],
        ) by {
            assert(!from_below(Side::Second, swapped[i]));
        }
    }
}

} // verus!
