//! Wall contacts of the player, found among the contacts that the physics engine reports.

use crate::contact::{Lean, Side};
use vstd::prelude::*;

verus! {

/// A contact between the player's collider and another one.
#[derive(Clone, Copy, Debug, PartialEq, Eq, Structural)]
pub struct Contact {
    /// Which of the two colliders is the player's.
    pub player: Side,
    /// True when the other collider is a sensor, which blocks nothing.
    pub other_is_sensor: bool,
    /// The lean of the first manifold's normal along the horizontal axis, if the contact has
    /// a manifold.
    pub normal: Option<Lean>,
}

/// On which sides the player touches a wall.
#[derive(Clone, Copy, Debug, PartialEq, Eq, Structural)]
pub struct WallContacts {
    pub left: bool,
    pub right: bool,
}

impl Contact {
    /// The lean, along the horizontal axis, of the normal that points from the other
    /// collider to the player; `None` where the contact says nothing about walls.
    pub open spec fn push(self) -> Option<Lean> {
        match self.normal {
            Some(lean) if !self.other_is_sensor => Some(lean.spec_towards(self.player)),
            _ => None,
        }
    }

    /// True when the contact is with a wall on the player's left: the wall pushes the player
    /// to the right.
    pub open spec fn wall_on_left(self) -> bool {
        self.push() == Some(Lean::Along)
    }

    /// True when the contact is with a wall on the player's right.
    pub open spec fn wall_on_right(self) -> bool {
        self.push() == Some(Lean::Against)
    }
}

/// The wall contacts that a sequence of contacts amounts to.
pub open spec fn wall_contacts(contacts: Seq<Contact>) -> WallContacts {
    WallContacts {
        left: exists|i: int| 0 <= i < contacts.len() && (#[trigger] contacts[i]).wall_on_left(),
        right: exists|i: int| 0 <= i < contacts.len() && (#[trigger] contacts[i]).wall_on_right(),
    }
}

/// Finds out whether the player touches a wall on the left, on the right, or both.
///
/// Sensors and contacts without a manifold are skipped. Of the others the first manifold
/// decides: a steep horizontal normal is a wall, on the side that it points away from.
pub fn find_walls(contacts: &Vec<Contact>) -> (walls: WallContacts)
    ensures
        walls == wall_contacts(contacts@),
{
    let mut left = false;
    let mut right = false;
    let mut i: usize = 0;
    while i < contacts.len()
        invariant
            i <= contacts.len(),
            left == exists|j: int| 0 <= j < i && (#[trigger] contacts@[j]).wall_on_left(),
            right == exists|j: int| 0 <= j < i && (#[trigger] contacts@[j]).wall_on_right(),
        decreases contacts.len() - i,
    {
        let contact = contacts[i];
        if !contact.other_is_sensor {
            if let Some(lean) = contact.normal {
                match lean.towards(contact.player) {
                    Lean::Along => {
                        left = true;
                    },
                    Lean::Against => {
                        right = true;
                    },
                    Lean::Slight => {},
                }
            }
        }
        i += 1;
    }
    WallContacts { left, right }
}

/// The order in which the engine lists the two colliders does not matter: the same contact
/// listed the other way round, with its normal negated, shows the same wall.
pub proof fn lemma_order_is_irrelevant(contact: Contact)
    ensures
        (Contact {
            player: contact.player.spec_other(),
            other_is_sensor: contact.other_is_sensor,
            normal: match contact.normal {
                Some(lean) => Some(lean.spec_reversed()),
                None => None,
            },
        }).push() == contact.push(),
{
}

/// No contact is a wall on both sides at once.
pub proof fn lemma_one_side_per_contact(contact: Contact)
    ensures
        !(contact.wall_on_left() && contact.wall_on_right()),
{
}

} // verus!
