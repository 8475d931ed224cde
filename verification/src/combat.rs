//! Flight advancement and combat resolution: in-flight fleets move a
//! fixed step toward their destination each tick and, on arrival, either
//! reinforce a same-owner defender, grind down an opposing one, or flip
//! the star's ownership when they overwhelm it.

use vstd::prelude::*;

use vstd::math::abs;

use crate::units::{ARRIVAL_RADIUS, COORD_LIMIT, FLIGHT_STEP};
use crate::world::{Fleet, Flight, Star, World};

verus! {

/// The non-negative integer square root: the largest `r` with
/// `r * r <= n`.
pub open spec fn spec_isqrt(n: int) -> int
    recommends
        n >= 0,
{
    choose|r: int| 0 <= r && #[trigger] (r * r) <= n < (r + 1) * (r + 1)
}

/// The characterization of `spec_isqrt` holds and is unique.
pub proof fn lemma_isqrt_unique(n: int, r: int)
    requires
        0 <= r,
        r * r <= n,
        n < (r + 1) * (r + 1),
    ensures
        spec_isqrt(n) == r,
{
    assert(exists|q: int| 0 <= q && #[trigger] (q * q) <= n < (q + 1) * (q + 1)) by {
        assert(0 <= r && r * r <= n < (r + 1) * (r + 1));
    }
    let q = spec_isqrt(n);
    assert(0 <= q && q * q <= n < (q + 1) * (q + 1));
    if q < r {
        assert(n < (q + 1) * (q + 1) <= r * r) by (nonlinear_arith)
            requires
                0 <= q < r,
                n < (q + 1) * (q + 1),
        ;
    }
    if r < q {
        assert(n < (r + 1) * (r + 1) <= q * q) by (nonlinear_arith)
            requires
                0 <= r < q,
                n < (r + 1) * (r + 1),
        ;
    }
}

/// Integer square root by bisection.
pub fn isqrt(n: u64) -> (r: u64)
    ensures
        r * r <= n < (r + 1) * (r + 1),
        r == spec_isqrt(n as int),
{
    if n == 0 {
        proof {
            lemma_isqrt_unique(n as int, 0);
        }
        return 0;
    }
    let mut lo: u64 = 0;
    let mut hi: u64 = 4294967296;
    while lo + 1 < hi
        invariant
            lo < hi <= 4294967296,
            lo * lo <= n,
            n < hi * hi,
        decreases hi - lo,
    {
        let mid = lo + (hi - lo) / 2;
        proof {
            assert(mid * mid <= 4294967295u64 * 4294967295u64) by (nonlinear_arith)
                requires
                    mid <= 4294967295u64,
            ;
        }
        if mid * mid <= n {
            lo = mid;
        } else {
            hi = mid;
        }
    }
    proof {
        lemma_isqrt_unique(n as int, lo as int);
    }
    lo
}

/// Squared distance from an in-flight fleet to a star.
pub open spec fn flight_dist2(fl: Flight, dest: Star) -> int {
    (dest.x - fl.x) * (dest.x - fl.x) + (dest.y - fl.y) * (dest.y - fl.y)
}

/// Where one movement tick takes an in-flight fleet: onto the
/// destination if it is within one step, else a step along the direction
/// to it (componentwise, in proportion to the distance).
pub open spec fn spec_step_flight(fl: Flight, dest: Star) -> Flight {
    let dx = dest.x - fl.x;
    let dy = dest.y - fl.y;
    let dist = spec_isqrt(flight_dist2(fl, dest));
    if dist <= FLIGHT_STEP {
        Flight { x: dest.x, y: dest.y, ..fl }
    } else {
        let mx = abs(dx) * FLIGHT_STEP / dist;
        let my = abs(dy) * FLIGHT_STEP / dist;
        Flight {
            x: (if dx >= 0 { fl.x + mx } else { fl.x - mx }) as i64,
            y: (if dy >= 0 { fl.y + my } else { fl.y - my }) as i64,
            ..fl
        }
    }
}

/// One movement tick: move the fleet a fixed step toward its destination
/// star, never past it.
pub fn step_flight(fl: Flight, dest: &Star) -> (r: Flight)
    requires
        -COORD_LIMIT <= fl.x <= COORD_LIMIT,
        -COORD_LIMIT <= fl.y <= COORD_LIMIT,
        -COORD_LIMIT <= dest.x <= COORD_LIMIT,
        -COORD_LIMIT <= dest.y <= COORD_LIMIT,
    ensures
        r == spec_step_flight(fl, *dest),
        -COORD_LIMIT <= r.x <= COORD_LIMIT,
        -COORD_LIMIT <= r.y <= COORD_LIMIT,
{
    let dx = dest.x - fl.x;
    let dy = dest.y - fl.y;
    let adx: u64 = if dx >= 0 {
        dx as u64
    } else {
        (-dx) as u64
    };
    let ady: u64 = if dy >= 0 {
        dy as u64
    } else {
        (-dy) as u64
    };
    proof {
        assert(adx * adx <= (2 * COORD_LIMIT) * (2 * COORD_LIMIT)) by (nonlinear_arith)
            requires
                adx <= 2 * COORD_LIMIT,
        ;
        assert(ady * ady <= (2 * COORD_LIMIT) * (2 * COORD_LIMIT)) by (nonlinear_arith)
            requires
                ady <= 2 * COORD_LIMIT,
        ;
    }
    let d2: u64 = adx * adx + ady * ady;
    assert(d2 == flight_dist2(fl, *dest)) by (nonlinear_arith)
        requires
            adx == abs(dest.x - fl.x),
            ady == abs(dest.y - fl.y),
            d2 == adx * adx + ady * ady,
    ;
    let dist = isqrt(d2);
    if dist <= FLIGHT_STEP {
        Flight { x: dest.x, y: dest.y, ..fl }
    } else {
        proof {
            assert(adx * FLIGHT_STEP <= 2 * COORD_LIMIT * FLIGHT_STEP) by (nonlinear_arith)
                requires
                    adx <= 2 * COORD_LIMIT,
            ;
            assert(ady * FLIGHT_STEP <= 2 * COORD_LIMIT * FLIGHT_STEP) by (nonlinear_arith)
                requires
                    ady <= 2 * COORD_LIMIT,
            ;
        }
        let mx = adx * FLIGHT_STEP / dist;
        let my = ady * FLIGHT_STEP / dist;
        proof {
            assert(mx <= adx && my <= ady) by (nonlinear_arith)
                requires
                    dist > FLIGHT_STEP,
                    FLIGHT_STEP > 0,
                    mx == adx * FLIGHT_STEP / (dist as int),
                    my == ady * FLIGHT_STEP / (dist as int),
            ;
        }
        let x = if dx >= 0 {
            fl.x + mx as i64
        } else {
            fl.x - mx as i64
        };
        let y = if dy >= 0 {
            fl.y + my as i64
        } else {
            fl.y - my as i64
        };
        Flight { x, y, ..fl }
    }
}

/// Squared distance from an in-flight fleet to a star, as a machine
/// integer.
pub fn flight_dist2_exec(fl: &Flight, dest: &Star) -> (d: u64)
    requires
        -COORD_LIMIT <= fl.x <= COORD_LIMIT,
        -COORD_LIMIT <= fl.y <= COORD_LIMIT,
        -COORD_LIMIT <= dest.x <= COORD_LIMIT,
        -COORD_LIMIT <= dest.y <= COORD_LIMIT,
    ensures
        d == flight_dist2(*fl, *dest),
{
    let dx = dest.x - fl.x;
    let dy = dest.y - fl.y;
    let adx: u64 = if dx >= 0 {
        dx as u64
    } else {
        (-dx) as u64
    };
    let ady: u64 = if dy >= 0 {
        dy as u64
    } else {
        (-dy) as u64
    };
    proof {
        assert(adx * adx <= (2 * COORD_LIMIT) * (2 * COORD_LIMIT)) by (nonlinear_arith)
            requires
                adx <= 2 * COORD_LIMIT,
        ;
        assert(ady * ady <= (2 * COORD_LIMIT) * (2 * COORD_LIMIT)) by (nonlinear_arith)
            requires
                ady <= 2 * COORD_LIMIT,
        ;
    }
    let d2: u64 = adx * adx + ady * ady;
    assert(d2 == flight_dist2(*fl, *dest)) by (nonlinear_arith)
        requires
            adx == abs(dest.x - fl.x),
            ady == abs(dest.y - fl.y),
            d2 == adx * adx + ady * ady,
    ;
    d2
}

/// The outcome of an arrival against a defending stationed fleet:
/// reinforcement for the same owner; attrition for opposing owners; and
/// when the attacker overwhelms the defender, an ownership flip with the
/// attacker's surviving remainder as the new stationed size.
pub open spec fn resolve_combat(defender: Fleet, attacker: Fleet) -> Fleet {
    if defender.player == attacker.player {
        Fleet {
            player: defender.player,
            size: if defender.size + attacker.size > u64::MAX {
                u64::MAX
            } else {
                (defender.size + attacker.size) as u64
            },
        }
    } else if attacker.size <= defender.size {
        Fleet { player: defender.player, size: (defender.size - attacker.size) as u64 }
    } else {
        Fleet { player: attacker.player, size: (attacker.size - defender.size) as u64 }
    }
}

/// Combat conservation under attrition: when opposing owners meet and
/// the defender is at least as large, the defender ends with exactly the
/// difference and the owner is unchanged.
pub proof fn lemma_combat_attrition(defender: Fleet, attacker: Fleet)
    requires
        defender.player != attacker.player,
        attacker.size <= defender.size,
    ensures
        resolve_combat(defender, attacker) == (Fleet {
            player: defender.player,
            size: (defender.size - attacker.size) as u64,
        }),
{
}

/// Combat flip: when opposing owners meet and the attacker is strictly
/// larger, the attacker's owner takes the star with exactly the positive
/// remainder as the stationed fleet.
pub proof fn lemma_combat_flip(defender: Fleet, attacker: Fleet)
    requires
        defender.player != attacker.player,
        defender.size < attacker.size,
    ensures
        resolve_combat(defender, attacker) == (Fleet {
            player: attacker.player,
            size: (attacker.size - defender.size) as u64,
        }),
        resolve_combat(defender, attacker).size > 0,
{
}

/// Reinforcement: a same-owner arrival adds the two sizes exactly (short
/// of the integer limit, where the sum saturates).
pub proof fn lemma_combat_reinforcement(defender: Fleet, attacker: Fleet)
    requires
        defender.player == attacker.player,
        defender.size + attacker.size <= u64::MAX,
    ensures
        resolve_combat(defender, attacker) == (Fleet {
            player: defender.player,
            size: (defender.size + attacker.size) as u64,
        }),
{
}

/// The outcome of combat between the two fleets.
pub fn resolve_fleets(defender: Fleet, attacker: Fleet) -> (r: Fleet)
    ensures
        r == resolve_combat(defender, attacker),
{
    if defender.player == attacker.player {
        let size = if defender.size > u64::MAX - attacker.size {
            u64::MAX
        } else {
            defender.size + attacker.size
        };
        Fleet { player: defender.player, size }
    } else if attacker.size <= defender.size {
        Fleet { player: defender.player, size: defender.size - attacker.size }
    } else {
        Fleet { player: attacker.player, size: attacker.size - defender.size }
    }
}

/// The exact effect of one arrival on ownership and stationed fleets.
/// A defended star fights (possibly flipping owners); a star without a
/// stationed fleet is captured outright by the arriving player.
pub open spec fn spec_resolve_arrival(
    owned_by: Seq<Option<crate::world::OwnedBy>>,
    attached: Seq<Option<crate::world::AttachedFleet>>,
    fleets: Seq<Fleet>,
    fl: Flight,
) -> (Seq<Option<crate::world::OwnedBy>>, Seq<Fleet>) {
    let dest = fl.fly_to.destination_star as int;
    if attached[dest] is Some {
        let f = attached[dest]->0.fleet_id as int;
        let defender = fleets[f];
        let fleets2 = fleets.update(f, resolve_combat(defender, fl.fleet));
        if defender.player != fl.fleet.player && defender.size < fl.fleet.size {
            (
                owned_by.update(dest, Some(crate::world::OwnedBy { player: fl.fleet.player })),
                fleets2,
            )
        } else {
            (owned_by, fleets2)
        }
    } else {
        (owned_by.update(dest, Some(crate::world::OwnedBy { player: fl.fleet.player })), fleets)
    }
}

/// The three arrival outcomes against a defended star, over the
/// resolution relation: a same-owner arrival reinforces (sizes add, no
/// ownership change); an opposing arrival no larger than the defender
/// grinds it down to exactly the difference (no ownership change); and
/// a strictly larger opposing arrival flips the star and its stationed
/// fleet to the attacker, with the positive remainder as the new size.
pub proof fn lemma_arrival_outcomes(
    owned_by: Seq<Option<crate::world::OwnedBy>>,
    attached: Seq<Option<crate::world::AttachedFleet>>,
    fleets: Seq<Fleet>,
    fl: Flight,
)
    requires
        0 <= fl.fly_to.destination_star < attached.len(),
        attached[fl.fly_to.destination_star as int] is Some,
        attached[fl.fly_to.destination_star as int]->0.fleet_id < fleets.len(),
    ensures
        ({
            let dest = fl.fly_to.destination_star as int;
            let f = attached[dest]->0.fleet_id as int;
            let defender = fleets[f];
            let attacker = fl.fleet;
            let r = spec_resolve_arrival(owned_by, attached, fleets, fl);
            &&& defender.player == attacker.player && defender.size + attacker.size <= u64::MAX
                ==> r.0 == owned_by && r.1[f] == (Fleet {
                player: defender.player,
                size: (defender.size + attacker.size) as u64,
            })
            &&& defender.player != attacker.player && attacker.size <= defender.size ==> r.0
                == owned_by && r.1[f] == (Fleet {
                player: defender.player,
                size: (defender.size - attacker.size) as u64,
            })
            &&& defender.player != attacker.player && attacker.size > defender.size ==> {
                &&& r.0 == owned_by.update(
                    dest,
                    Some(crate::world::OwnedBy { player: attacker.player }),
                )
                &&& r.1[f] == (Fleet {
                    player: attacker.player,
                    size: (attacker.size - defender.size) as u64,
                })
                &&& r.1[f].size > 0
            }
        }),
{
}

impl World {
    /// Resolve an arrived in-flight fleet against its destination star:
    /// fight the stationed fleet if there is one (reinforcing, grinding
    /// down, or flipping ownership), else capture the star outright.
    /// The in-flight fleet itself is consumed by the caller.
    pub fn resolve_arrival(&mut self, fl: Flight)
        requires
            old(self).wf(),
            crate::world::flight_wf(
                fl,
                old(self).stars@.len() as int,
                old(self).players@.len() as int,
            ),
        ensures
            final(self).wf(),
            final(self).stars@ == old(self).stars@,
            final(self).players@ == old(self).players@,
            final(self).attached_fleet@ == old(self).attached_fleet@,
            final(self).flights@ == old(self).flights@,
            (final(self).owned_by@, final(self).fleets@) == spec_resolve_arrival(
                old(self).owned_by@,
                old(self).attached_fleet@,
                old(self).fleets@,
                fl,
            ),
    {
        let dest = fl.fly_to.destination_star;
        if self.attached_fleet[dest].is_some() {
            let f = self.attached_fleet[dest].unwrap().fleet_id;
            let defender = self.fleets[f];
            let outcome = resolve_fleets(defender, fl.fleet);
            self.fleets.set(f, outcome);
            if defender.player != fl.fleet.player && defender.size < fl.fleet.size {
                self.owned_by.set(dest, Some(crate::world::OwnedBy { player: fl.fleet.player }));
            }
            proof {
                assert forall|s2: int|
                    0 <= s2 < self.stars@.len() && (#[trigger] self.attached_fleet@[s2]) is Some
                        implies {
                    let f2 = self.attached_fleet@[s2]->0.fleet_id as int;
                    &&& f2 < self.fleets@.len()
                    &&& self.owned_by@[s2] is Some
                    &&& self.fleets@[f2].player == self.owned_by@[s2]->0.player
                } by {
                    let f2 = self.attached_fleet@[s2]->0.fleet_id as int;
                    if s2 != dest as int {
                        assert(f2 != f as int);
                        assert(self.fleets@[f2] == old(self).fleets@[f2]);
                        assert(self.owned_by@[s2] == old(self).owned_by@[s2]);
                    }
                }
            }
        } else {
            self.owned_by.set(dest, Some(crate::world::OwnedBy { player: fl.fleet.player }));
        }
    }
}

/// The state after the first `i` in-flight fleets of a tick have been
/// processed in order: each moves one step, and those now within the
/// arrival radius of their destination resolve and are consumed, while
/// the rest are kept (in order) at their new positions.
pub open spec fn spec_flight_tick_upto(
    stars: Seq<Star>,
    attached: Seq<Option<crate::world::AttachedFleet>>,
    flights: Seq<Flight>,
    owned_by: Seq<Option<crate::world::OwnedBy>>,
    fleets: Seq<Fleet>,
    i: int,
) -> (Seq<Option<crate::world::OwnedBy>>, Seq<Fleet>, Seq<Flight>)
    decreases i,
{
    if i <= 0 {
        (owned_by, fleets, Seq::<Flight>::empty())
    } else {
        let prev = spec_flight_tick_upto(stars, attached, flights, owned_by, fleets, i - 1);
        let fl = flights[i - 1];
        let dest = stars[fl.fly_to.destination_star as int];
        let moved = spec_step_flight(fl, dest);
        if flight_dist2(moved, dest) < ARRIVAL_RADIUS * ARRIVAL_RADIUS {
            let r = spec_resolve_arrival(prev.0, attached, prev.1, moved);
            (r.0, r.1, prev.2)
        } else {
            (prev.0, prev.1, prev.2.push(moved))
        }
    }
}

impl World {
    /// One flight tick: every in-flight fleet moves one step toward its
    /// destination; each one that ends within the arrival radius is
    /// resolved against its destination star, in order, and despawned.
    pub fn flight_tick(&mut self)
        requires
            old(self).wf(),
        ensures
            final(self).wf(),
            final(self).stars@ == old(self).stars@,
            final(self).players@ == old(self).players@,
            final(self).attached_fleet@ == old(self).attached_fleet@,
            final(self).fleets@.len() == old(self).fleets@.len(),
            (final(self).owned_by@, final(self).fleets@, final(self).flights@)
                == spec_flight_tick_upto(
                old(self).stars@,
                old(self).attached_fleet@,
                old(self).flights@,
                old(self).owned_by@,
                old(self).fleets@,
                old(self).flights@.len() as int,
            ),
    {
        let ghost w0 = *self;
        let n = self.flights.len();
        let mut kept: Vec<Flight> = Vec::new();
        let mut i: usize = 0;
        while i < n
            invariant
                self.wf(),
                i <= n,
                n == w0.flights@.len(),
                self.stars@ == w0.stars@,
                self.players@ == w0.players@,
                self.attached_fleet@ == w0.attached_fleet@,
                self.flights@ == w0.flights@,
                self.fleets@.len() == w0.fleets@.len(),
                w0.wf(),
                (self.owned_by@, self.fleets@, kept@) == spec_flight_tick_upto(
                    w0.stars@,
                    w0.attached_fleet@,
                    w0.flights@,
                    w0.owned_by@,
                    w0.fleets@,
                    i as int,
                ),
                forall|j: int|
                    0 <= j < kept@.len() ==> crate::world::flight_wf(
                        #[trigger] kept@[j],
                        w0.stars@.len() as int,
                        w0.players@.len() as int,
                    ),
            decreases n - i,
        {
            let fl: Flight = self.flights[i];
            let dest_idx = fl.fly_to.destination_star;
            let dest: Star = self.stars[dest_idx];
            let moved = step_flight(fl, &dest);
            let d2 = flight_dist2_exec(&moved, &dest);
            if d2 < ARRIVAL_RADIUS * ARRIVAL_RADIUS {
                self.resolve_arrival(moved);
            } else {
                kept.push(moved);
            }
            i = i + 1;
        }
        self.flights = kept;
    }
}

} // verus!
