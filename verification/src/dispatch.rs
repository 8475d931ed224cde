//! Fleet dispatch: splitting half of a stationed fleet off into a new
//! in-flight fleet headed for a destination star.

use vstd::prelude::*;

use crate::world::{Fleet, Flight, FlyTo, World};

verus! {

/// The exact effect of one dispatch from `origin` toward `destination`:
/// the stationed fleet keeps the half rounded up, and a new flight of
/// the half rounded down leaves from the origin star's position under
/// the same player.
pub open spec fn dispatch_rel(pre: World, post: World, origin: int, destination: int) -> bool {
    let f = pre.attached_fleet@[origin]->0.fleet_id as int;
    let size = pre.fleets@[f].size;
    &&& post.fleets@ == pre.fleets@.update(
        f,
        Fleet { player: pre.fleets@[f].player, size: (size - size / 2) as u64 },
    )
    &&& post.flights@ == pre.flights@.push(
        Flight {
            fleet: Fleet { player: pre.fleets@[f].player, size: size / 2 },
            fly_to: FlyTo {
                origin_star: origin as usize,
                destination_star: destination as usize,
            },
            x: pre.stars@[origin].x,
            y: pre.stars@[origin].y,
        },
    )
}

/// Dispatch conservation over the state: after a dispatch, the origin's
/// stationed fleet plus the new in-flight fleet carry exactly the
/// origin's old size, and the flight carries exactly half of it
/// (rounded down), under the same player.
pub proof fn lemma_dispatch_conservation(pre: World, post: World, origin: int, destination: int)
    requires
        pre.wf(),
        0 <= origin < pre.stars@.len(),
        pre.attached_fleet@[origin] is Some,
        dispatch_rel(pre, post, origin, destination),
    ensures
        ({
            let f = pre.attached_fleet@[origin]->0.fleet_id as int;
            let launched = post.flights@.last();
            &&& post.fleets@[f].size + launched.fleet.size == pre.fleets@[f].size
            &&& launched.fleet.size == pre.fleets@[f].size / 2
            &&& launched.fleet.player == pre.fleets@[f].player
        }),
{
}

impl World {
    /// Launch half of the fleet stationed at `origin` toward
    /// `destination`: the stationed fleet keeps the half rounded up, the
    /// new in-flight fleet gets the half rounded down, starts at the
    /// origin star's position and belongs to the same player.
    ///
    /// A zero-size fleet may legally be dispatched; the flight is simply
    /// useless. Callers wanting to avoid trivial flights filter first.
    pub fn dispatch(&mut self, origin: usize, destination: usize)
        requires
            old(self).wf(),
            origin < old(self).stars@.len(),
            destination < old(self).stars@.len(),
            old(self).attached_fleet@[origin as int] is Some,
        ensures
            final(self).wf(),
            final(self).stars@ == old(self).stars@,
            final(self).players@ == old(self).players@,
            final(self).owned_by@ == old(self).owned_by@,
            final(self).attached_fleet@ == old(self).attached_fleet@,
            dispatch_rel(*old(self), *final(self), origin as int, destination as int),
    {
        let fleet_id = self.attached_fleet[origin].unwrap().fleet_id;
        let size = self.fleets[fleet_id].size;
        let player = self.fleets[fleet_id].player;
        let sent = size / 2;
        self.fleets.set(fleet_id, Fleet { player, size: size - sent });
        self.flights.push(
            Flight {
                fleet: Fleet { player, size: sent },
                fly_to: FlyTo { origin_star: origin, destination_star: destination },
                x: self.stars[origin].x,
                y: self.stars[origin].y,
            },
        );
    }
}

} // verus!
