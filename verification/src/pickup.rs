use vstd::prelude::*;
use crate::physics::PickupItemType;

verus! {

/// A collectable item: once picked up it plays its `explode` animation, and
/// when that animation ends the item is removed.
#[derive(Debug, Clone, Copy)]
pub struct PickupComponent {
    pub pickup_type: PickupItemType,
    pub picked_up: bool,
    pub in_pickup_anim: bool,
}

/// What an update of a pickup asks of its sprite and body.
#[derive(Debug, Clone, Copy, PartialEq, Eq, Structural)]
pub enum PickupAction {
    /// Nothing to do.
    NoAction,
    /// Switch the sprite to the `explode` animation at its first frame.
    StartExplode,
    /// Flag the item's body for deletion.
    Delete,
}

/// The name of the animation a pickup plays when collected.
pub open spec fn explode_name() -> Seq<char> {
    seq!['e', 'x', 'p', 'l', 'o', 'd', 'e']
}

impl PickupComponent {
    /// A point pickup, not yet collected.
    pub fn new() -> (r: Self)
        ensures
            r.pickup_type == PickupItemType::Point,
            !r.picked_up,
            !r.in_pickup_anim,
    {
        PickupComponent { pickup_type: PickupItemType::Point, picked_up: false, in_pickup_anim: false }
    }

    /// Marks the item as collected.
    pub fn pickup(&mut self)
        ensures
            final(self).picked_up,
            final(self).in_pickup_anim == old(self).in_pickup_anim,
            final(self).pickup_type == old(self).pickup_type,
    {
        self.picked_up = true;
    }

    /// One update, given the sprite's current animation and whether it has
    /// finished: a collected item starts its pickup animation (switching the
    /// sprite to `explode` unless it already shows it); an item in its
    /// pickup animation is deleted once the animation has finished.
    pub fn update(&mut self, current_animation: &String, anim_finished: bool) -> (r: PickupAction)
        ensures
            old(self).picked_up && !old(self).in_pickup_anim ==> final(self).in_pickup_anim
                && r == (if current_animation@ == explode_name() { PickupAction::NoAction } else { PickupAction::StartExplode }),
            !(old(self).picked_up && !old(self).in_pickup_anim) ==> final(self).in_pickup_anim == old(self).in_pickup_anim
                && r == (if old(self).in_pickup_anim && anim_finished { PickupAction::Delete } else { PickupAction::NoAction }),
            final(self).picked_up == old(self).picked_up,
            final(self).pickup_type == old(self).pickup_type,
    {
        if self.picked_up && !self.in_pickup_anim {
            let explode = "explode".to_owned();
            proof {
                reveal_strlit("explode");
                assert(explode@ =~= explode_name());
            }
            let r = if *current_animation != explode {
                PickupAction::StartExplode
            } else {
                PickupAction::NoAction
            };
            self.in_pickup_anim = true;
            r
        } else if self.in_pickup_anim {
            if anim_finished {
                PickupAction::Delete
            } else {
                PickupAction::NoAction
            }
        } else {
            PickupAction::NoAction
        }
    }
}

} // verus!
