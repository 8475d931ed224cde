//! The simulation state: stars, players, fleets and the relations among
//! them, with the well-formedness invariant every step preserves.
//!
//! Entities are plain records held in arenas (`Vec`s) and linked by index,
//! mirroring an entity table with relation maps: `owned_by` and
//! `attached_fleet` are per-star relations, `fleets` holds the stationed
//! fleets and `flights` the in-flight ones.

use vstd::prelude::*;

use crate::units::{COORD_LIMIT, STAR_SIZE_MAX, STAR_SIZE_MIN};

verus! {

/// A star: a fixed point in space with an immutable size (mass).
#[derive(Clone, Copy, Debug, PartialEq, Eq, Structural)]
pub struct Star {
    /// World-space x, in milli-units.
    pub x: i64,
    /// World-space y, in milli-units.
    pub y: i64,
    /// Mass, in milli-units; always within `[STAR_SIZE_MIN, STAR_SIZE_MAX]`.
    pub size: u64,
}

/// An RGB color; each channel is in `[0, 1000]` (alpha is always full).
#[derive(Clone, Copy, Debug, PartialEq, Eq, Structural)]
pub struct Color {
    pub red: u16,
    pub green: u16,
    pub blue: u16,
}

/// A player: display name, the human flag and a distinguishing color.
#[derive(Debug)]
pub struct Player {
    pub name: String,
    pub is_human: bool,
    pub color: Color,
}

/// A fleet: owned by one player, with a non-negative size in milli-units.
#[derive(Clone, Copy, Debug, PartialEq, Eq, Structural)]
pub struct Fleet {
    /// Index of the owning player.
    pub player: usize,
    /// Ship mass, in milli-units.
    pub size: u64,
}

/// The ownership relation: a star's owner, by player index.
#[derive(Clone, Copy, Debug, PartialEq, Eq, Structural)]
pub struct OwnedBy {
    pub player: usize,
}

/// The star-to-stationed-fleet relation, by fleet index.
#[derive(Clone, Copy, Debug, PartialEq, Eq, Structural)]
pub struct AttachedFleet {
    pub fleet_id: usize,
}

/// The flight relation of an in-flight fleet: where it left and where it
/// is headed, by star index.
#[derive(Clone, Copy, Debug, PartialEq, Eq, Structural)]
pub struct FlyTo {
    pub origin_star: usize,
    pub destination_star: usize,
}

/// An in-flight fleet: the fleet itself, its flight relation and its
/// current position.
#[derive(Clone, Copy, Debug, PartialEq, Eq, Structural)]
pub struct Flight {
    pub fleet: Fleet,
    pub fly_to: FlyTo,
    /// Current x, in milli-units.
    pub x: i64,
    /// Current y, in milli-units.
    pub y: i64,
}

/// The whole simulation state.
pub struct World {
    pub stars: Vec<Star>,
    pub players: Vec<Player>,
    /// Per star: its owner, if any. Same length as `stars`.
    pub owned_by: Vec<Option<OwnedBy>>,
    /// Per star: its stationed fleet, if one has been attached.
    /// Same length as `stars`.
    pub attached_fleet: Vec<Option<AttachedFleet>>,
    /// Arena of stationed fleets; `AttachedFleet::fleet_id` indexes here.
    pub fleets: Vec<Fleet>,
    /// All fleets currently in flight.
    pub flights: Vec<Flight>,
}

/// A star record is well formed: size within the generation bounds and
/// position within the coordinate limit.
pub open spec fn star_wf(s: Star) -> bool {
    &&& STAR_SIZE_MIN <= s.size <= STAR_SIZE_MAX
    &&& -COORD_LIMIT <= s.x <= COORD_LIMIT
    &&& -COORD_LIMIT <= s.y <= COORD_LIMIT
}

/// A flight is well formed with respect to the given arena sizes.
pub open spec fn flight_wf(fl: Flight, n_stars: int, n_players: int) -> bool {
    &&& fl.fleet.player < n_players
    &&& fl.fly_to.origin_star < n_stars
    &&& fl.fly_to.destination_star < n_stars
    &&& -COORD_LIMIT <= fl.x <= COORD_LIMIT
    &&& -COORD_LIMIT <= fl.y <= COORD_LIMIT
}

impl World {
    /// The relation vectors are indexed by star: same lengths as `stars`.
    pub open spec fn relations_sized(self) -> bool {
        &&& self.owned_by@.len() == self.stars@.len()
        &&& self.attached_fleet@.len() == self.stars@.len()
    }

    /// Every star record is within bounds.
    pub open spec fn stars_wf(self) -> bool {
        forall|s: int| 0 <= s < self.stars@.len() ==> star_wf(#[trigger] self.stars@[s])
    }

    /// Every recorded owner is an existing player.
    pub open spec fn owners_wf(self) -> bool {
        forall|s: int|
            0 <= s < self.stars@.len() && (#[trigger] self.owned_by@[s]) is Some
                ==> self.owned_by@[s]->0.player < self.players@.len()
    }

    /// An attached fleet exists, belongs to an owned star, and agrees with
    /// the star's owner.
    pub open spec fn attached_wf(self) -> bool {
        forall|s: int|
            0 <= s < self.stars@.len() && (#[trigger] self.attached_fleet@[s]) is Some ==> {
                let f = self.attached_fleet@[s]->0.fleet_id as int;
                &&& f < self.fleets@.len()
                &&& self.owned_by@[s] is Some
                &&& self.fleets@[f].player == self.owned_by@[s]->0.player
            }
    }

    /// No two stars share a stationed fleet.
    pub open spec fn attached_injective(self) -> bool {
        forall|s1: int, s2: int|
            0 <= s1 < self.stars@.len() && 0 <= s2 < self.stars@.len() && s1 != s2
                && (#[trigger] self.attached_fleet@[s1]) is Some
                && (#[trigger] self.attached_fleet@[s2]) is Some
                ==> self.attached_fleet@[s1]->0.fleet_id != self.attached_fleet@[s2]->0.fleet_id
    }

    /// Every fleet in the arena is owned by an existing player.
    pub open spec fn fleets_wf(self) -> bool {
        forall|f: int|
            0 <= f < self.fleets@.len() ==> (#[trigger] self.fleets@[f]).player < self.players@.len()
    }

    /// Every in-flight fleet references existing stars and players and is
    /// within the coordinate limit.
    pub open spec fn flights_wf(self) -> bool {
        forall|i: int|
            0 <= i < self.flights@.len()
                ==> flight_wf(
                #[trigger] self.flights@[i],
                self.stars@.len() as int,
                self.players@.len() as int,
            )
    }

    /// Well-formedness of the whole state: the invariant every simulation
    /// step preserves.
    pub open spec fn wf(self) -> bool {
        &&& self.relations_sized()
        &&& self.stars_wf()
        &&& self.owners_wf()
        &&& self.attached_wf()
        &&& self.attached_injective()
        &&& self.fleets_wf()
        &&& self.flights_wf()
    }

    /// An empty world: no stars, no players, nothing in flight.
    pub fn new() -> (w: World)
        ensures
            w.wf(),
            w.stars@.len() == 0,
            w.players@.len() == 0,
            w.fleets@.len() == 0,
            w.flights@.len() == 0,
    {
        World {
            stars: Vec::new(),
            players: Vec::new(),
            owned_by: Vec::new(),
            attached_fleet: Vec::new(),
            fleets: Vec::new(),
            flights: Vec::new(),
        }
    }

    /// A world over the given stars, with no players, owners, fleets or
    /// flights yet.
    pub fn from_stars(stars: Vec<Star>) -> (w: World)
        requires
            forall|s: int| 0 <= s < stars@.len() ==> star_wf(#[trigger] stars@[s]),
        ensures
            w.wf(),
            w.stars@ == stars@,
            w.players@.len() == 0,
            w.fleets@.len() == 0,
            w.flights@.len() == 0,
            forall|s: int| 0 <= s < w.stars@.len() ==> (#[trigger] w.owned_by@[s]) is None,
            forall|s: int| 0 <= s < w.stars@.len() ==> (#[trigger] w.attached_fleet@[s]) is None,
    {
        let n = stars.len();
        let mut owned_by: Vec<Option<OwnedBy>> = Vec::new();
        let mut attached_fleet: Vec<Option<AttachedFleet>> = Vec::new();
        let mut i: usize = 0;
        while i < n
            invariant
                i <= n,
                owned_by@.len() == i,
                attached_fleet@.len() == i,
                forall|s: int| 0 <= s < i ==> (#[trigger] owned_by@[s]) is None,
                forall|s: int| 0 <= s < i ==> (#[trigger] attached_fleet@[s]) is None,
            decreases n - i,
        {
            owned_by.push(None);
            attached_fleet.push(None);
            i = i + 1;
        }
        World {
            stars,
            players: Vec::new(),
            owned_by,
            attached_fleet,
            fleets: Vec::new(),
            flights: Vec::new(),
        }
    }
}

} // verus!
