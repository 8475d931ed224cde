//! The AI decision rule: each non-human-owned star with a stationed
//! fleet picks the nearest star it does not already hold (neutral stars
//! are always fair game) and dispatches half its fleet there.

use vstd::prelude::*;

use vstd::math::abs;

use crate::units::COORD_LIMIT;
use crate::world::{Fleet, Flight, FlyTo, Star, World};

verus! {

/// Squared Euclidean distance between two stars.
pub open spec fn star_dist2(a: Star, b: Star) -> int {
    (a.x - b.x) * (a.x - b.x) + (a.y - b.y) * (a.y - b.y)
}

/// Squared Euclidean distance between two stars, as a machine integer.
pub fn star_dist2_exec(a: &Star, b: &Star) -> (d: u64)
    requires
        -COORD_LIMIT <= a.x <= COORD_LIMIT,
        -COORD_LIMIT <= a.y <= COORD_LIMIT,
        -COORD_LIMIT <= b.x <= COORD_LIMIT,
        -COORD_LIMIT <= b.y <= COORD_LIMIT,
    ensures
        d == star_dist2(*a, *b),
{
    let dx = a.x - b.x;
    let dy = a.y - b.y;
    let adx: u64 = if dx >= 0 {
        dx as u64
    } else {
        (-dx) as u64
    };
    let ady: u64 = if dy >= 0 {
        dy as u64
    } else {
        (-dy) as u64
    };
    proof {
        assert(adx * adx <= (2 * COORD_LIMIT) * (2 * COORD_LIMIT)) by (nonlinear_arith)
            requires
                adx <= 2 * COORD_LIMIT,
        ;
        assert(ady * ady <= (2 * COORD_LIMIT) * (2 * COORD_LIMIT)) by (nonlinear_arith)
            requires
                ady <= 2 * COORD_LIMIT,
        ;
    }
    let d2: u64 = adx * adx + ady * ady;
    assert(d2 == star_dist2(*a, *b)) by (nonlinear_arith)
        requires
            adx == abs(a.x - b.x),
            ady == abs(a.y - b.y),
            d2 == adx * adx + ady * ady,
    ;
    d2
}

/// Whether star `t` is an eligible dispatch target for player `p` acting
/// from star `s`: any other star not already held by `p`. Neutral stars
/// are always eligible.
pub open spec fn eligible_target(w: World, s: int, p: int, t: int) -> bool {
    &&& 0 <= t < w.stars@.len()
    &&& t != s
    &&& (w.owned_by@[t] is Some ==> w.owned_by@[t]->0.player != p)
}

/// Whether `t` is the target the AI rule picks from star `s` for player
/// `p`: the eligible star at minimum squared distance, the earliest
/// index winning ties.
pub open spec fn is_first_min_target(w: World, s: int, p: int, t: int) -> bool {
    &&& eligible_target(w, s, p, t)
    &&& forall|u: int|
        eligible_target(w, s, p, u) ==> star_dist2(w.stars@[s], w.stars@[t]) <= star_dist2(
            w.stars@[s],
            w.stars@[u],
        )
    &&& forall|u: int|
        0 <= u < t && eligible_target(w, s, p, u) ==> star_dist2(w.stars@[s], w.stars@[u])
            > star_dist2(w.stars@[s], w.stars@[t])
}

/// At most one star can be the first-minimum target.
pub proof fn lemma_first_min_target_unique(w: World, s: int, p: int, t1: int, t2: int)
    requires
        is_first_min_target(w, s, p, t1),
        is_first_min_target(w, s, p, t2),
    ensures
        t1 == t2,
{
    if t1 < t2 {
        assert(star_dist2(w.stars@[s], w.stars@[t1]) > star_dist2(w.stars@[s], w.stars@[t2]));
        assert(star_dist2(w.stars@[s], w.stars@[t1]) <= star_dist2(w.stars@[s], w.stars@[t2]));
    }
    if t2 < t1 {
        assert(star_dist2(w.stars@[s], w.stars@[t2]) > star_dist2(w.stars@[s], w.stars@[t1]));
        assert(star_dist2(w.stars@[s], w.stars@[t2]) <= star_dist2(w.stars@[s], w.stars@[t1]));
    }
}

/// The AI rule never picks a star its own player already holds; in
/// particular a neutral star can be picked while an own star cannot.
pub proof fn lemma_ai_target_excludes_own(w: World, s: int, p: int, t: int)
    requires
        is_first_min_target(w, s, p, t),
    ensures
        w.owned_by@[t] is Some ==> w.owned_by@[t]->0.player != p,
{
}

impl World {
    /// The nearest eligible target for the player holding star `s` (by
    /// its stationed fleet), or `None` exactly when no other star is
    /// eligible. Ties fall to the earliest star index.
    pub fn select_target(&self, s: usize) -> (r: Option<usize>)
        requires
            self.wf(),
            s < self.stars@.len(),
            self.attached_fleet@[s as int] is Some,
        ensures
            ({
                let p = self.fleets@[self.attached_fleet@[s as int]->0.fleet_id as int].player as int;
                &&& (r is Some ==> is_first_min_target(*self, s as int, p, r->0 as int))
                &&& (r is None <==> (forall|t: int| !eligible_target(*self, s as int, p, t)))
            }),
    {
        let fleet_id = self.attached_fleet[s].unwrap().fleet_id;
        let p = self.fleets[fleet_id].player;
        let here: Star = self.stars[s];
        let n = self.stars.len();
        let mut best: Option<usize> = None;
        let mut best_d2: u64 = 0;
        let mut t: usize = 0;
        while t < n
            invariant
                self.wf(),
                s < n == self.stars@.len(),
                t <= n,
                here == self.stars@[s as int],
                best is None ==> forall|u: int| 0 <= u < t ==> !eligible_target(
                    *self,
                    s as int,
                    p as int,
                    u,
                ),
                best is Some ==> {
                    let b = best->0 as int;
                    &&& 0 <= b < t
                    &&& eligible_target(*self, s as int, p as int, b)
                    &&& best_d2 == star_dist2(self.stars@[s as int], self.stars@[b])
                    &&& forall|u: int|
                        0 <= u < t && eligible_target(*self, s as int, p as int, u)
                            ==> star_dist2(self.stars@[s as int], self.stars@[b]) <= star_dist2(
                            self.stars@[s as int],
                            self.stars@[u],
                        )
                    &&& forall|u: int|
                        0 <= u < b && eligible_target(*self, s as int, p as int, u)
                            ==> star_dist2(self.stars@[s as int], self.stars@[u]) > star_dist2(
                            self.stars@[s as int],
                            self.stars@[b],
                        )
                },
            decreases n - t,
        {
            let mut skip = t == s;
            if !skip {
                if let Some(o) = self.owned_by[t] {
                    if o.player == p {
                        skip = true;
                    }
                }
            }
            if !skip {
                let other: Star = self.stars[t];
                let d2 = star_dist2_exec(&here, &other);
                match best {
                    None => {
                        best = Some(t);
                        best_d2 = d2;
                    },
                    Some(_) => {
                        if d2 < best_d2 {
                            best = Some(t);
                            best_d2 = d2;
                        }
                    },
                }
            }
            t = t + 1;
        }
        best
    }
}

/// The target the AI rule picks (meaningful only when one exists).
pub open spec fn spec_ai_target(w: World, s: int, p: int) -> int {
    choose|t: int| is_first_min_target(w, s, p, t)
}

/// Whether the AI pass dispatches from star `s`: the star has a
/// stationed fleet, its player is not the human, and some target is
/// eligible.
pub open spec fn ai_acts(w: World, s: int) -> bool {
    &&& w.attached_fleet@[s] is Some
    &&& {
        let p = w.fleets@[w.attached_fleet@[s]->0.fleet_id as int].player as int;
        &&& !w.players@[p].is_human
        &&& exists|t: int| eligible_target(w, s, p, t)
    }
}

/// The stationed fleets and flights after the AI pass has handled the
/// first `i` stars in order: each acting star's fleet is halved and a
/// flight of the other half leaves for the picked target.
pub open spec fn spec_ai_tick_upto(w: World, i: int) -> (Seq<Fleet>, Seq<Flight>)
    decreases i,
{
    if i <= 0 {
        (w.fleets@, w.flights@)
    } else {
        let prev = spec_ai_tick_upto(w, i - 1);
        let s = i - 1;
        if ai_acts(w, s) {
            let f = w.attached_fleet@[s]->0.fleet_id as int;
            let p = prev.0[f].player;
            let size = prev.0[f].size;
            let t = spec_ai_target(w, s, w.fleets@[f].player as int);
            (
                prev.0.update(f, Fleet { player: p, size: (size - size / 2) as u64 }),
                prev.1.push(
                    Flight {
                        fleet: Fleet { player: p, size: size / 2 },
                        fly_to: FlyTo {
                            origin_star: s as usize,
                            destination_star: t as usize,
                        },
                        x: w.stars@[s].x,
                        y: w.stars@[s].y,
                    },
                ),
            )
        } else {
            prev
        }
    }
}

/// The AI fold never changes the number of fleets nor any fleet's owner.
pub proof fn lemma_ai_fold_preserves(w: World, i: int)
    requires
        w.wf(),
        i <= w.stars@.len(),
    ensures
        spec_ai_tick_upto(w, i).0.len() == w.fleets@.len(),
        forall|f: int|
            0 <= f < w.fleets@.len() ==> (#[trigger] spec_ai_tick_upto(w, i).0[f]).player
                == w.fleets@[f].player,
    decreases i,
{
    if i > 0 {
        lemma_ai_fold_preserves(w, i - 1);
        let prev = spec_ai_tick_upto(w, i - 1);
        if ai_acts(w, i - 1) {
            let f = w.attached_fleet@[i - 1]->0.fleet_id as int;
            assert(f < w.fleets@.len());
            assert(spec_ai_tick_upto(w, i).0 == prev.0.update(
                f,
                Fleet {
                    player: prev.0[f].player,
                    size: (prev.0[f].size - prev.0[f].size / 2) as u64,
                },
            ));
        }
    }
}

/// Two worlds with the same stars and owners agree on target
/// eligibility and on the first-minimum target.
pub proof fn lemma_target_pred_transfer(w1: World, w2: World, s: int, p: int)
    requires
        w1.stars@ == w2.stars@,
        w1.owned_by@ == w2.owned_by@,
    ensures
        forall|t: int| eligible_target(w1, s, p, t) == eligible_target(w2, s, p, t),
        forall|t: int| is_first_min_target(w1, s, p, t) == is_first_min_target(w2, s, p, t),
{
    assert forall|t: int| eligible_target(w1, s, p, t) == eligible_target(w2, s, p, t) by {}
    assert forall|t: int|
        is_first_min_target(w1, s, p, t) == is_first_min_target(w2, s, p, t) by {
        if is_first_min_target(w1, s, p, t) {
            assert forall|u: int| eligible_target(w2, s, p, u) implies star_dist2(
                w2.stars@[s],
                w2.stars@[t],
            ) <= star_dist2(w2.stars@[s], w2.stars@[u]) by {
                assert(eligible_target(w1, s, p, u));
            }
            assert forall|u: int| 0 <= u < t && eligible_target(w2, s, p, u) implies star_dist2(
                w2.stars@[s],
                w2.stars@[u],
            ) > star_dist2(w2.stars@[s], w2.stars@[t]) by {
                assert(eligible_target(w1, s, p, u));
            }
        }
        if is_first_min_target(w2, s, p, t) {
            assert forall|u: int| eligible_target(w1, s, p, u) implies star_dist2(
                w1.stars@[s],
                w1.stars@[t],
            ) <= star_dist2(w1.stars@[s], w1.stars@[u]) by {
                assert(eligible_target(w2, s, p, u));
            }
            assert forall|u: int| 0 <= u < t && eligible_target(w1, s, p, u) implies star_dist2(
                w1.stars@[s],
                w1.stars@[u],
            ) > star_dist2(w1.stars@[s], w1.stars@[t]) by {
                assert(eligible_target(w2, s, p, u));
            }
        }
    }
}

impl World {
    /// One AI pass over all stars in order: every star with a stationed
    /// fleet whose player is not the human dispatches half that fleet
    /// toward the nearest star its player does not hold; stars whose
    /// player holds everything, human-held stars and unattached stars do
    /// nothing.
    pub fn ai_tick(&mut self)
        requires
            old(self).wf(),
        ensures
            final(self).wf(),
            final(self).stars@ == old(self).stars@,
            final(self).players@ == old(self).players@,
            final(self).owned_by@ == old(self).owned_by@,
            final(self).attached_fleet@ == old(self).attached_fleet@,
            (final(self).fleets@, final(self).flights@) == spec_ai_tick_upto(
                *old(self),
                old(self).stars@.len() as int,
            ),
    {
        let ghost w0 = *self;
        let n = self.stars.len();
        let mut s: usize = 0;
        while s < n
            invariant
                self.wf(),
                w0.wf(),
                s <= n,
                n == w0.stars@.len(),
                self.stars@ == w0.stars@,
                self.players@ == w0.players@,
                self.owned_by@ == w0.owned_by@,
                self.attached_fleet@ == w0.attached_fleet@,
                (self.fleets@, self.flights@) == spec_ai_tick_upto(w0, s as int),
            decreases n - s,
        {
            proof {
                lemma_ai_fold_preserves(w0, s as int);
            }
            if self.attached_fleet[s].is_some() {
                let fleet_id = self.attached_fleet[s].unwrap().fleet_id;
                let p = self.fleets[fleet_id].player;
                proof {
                    assert(p == w0.fleets@[fleet_id as int].player);
                }
                if !self.players[p].is_human {
                    let target = self.select_target(s);
                    proof {
                        lemma_target_pred_transfer(*self, w0, s as int, p as int);
                    }
                    match target {
                        Some(t) => {
                            proof {
                                assert(is_first_min_target(w0, s as int, p as int, t as int));
                                assert(eligible_target(w0, s as int, p as int, t as int));
                                let tc = spec_ai_target(w0, s as int, p as int);
                                assert(is_first_min_target(w0, s as int, p as int, tc));
                                lemma_first_min_target_unique(
                                    w0,
                                    s as int,
                                    p as int,
                                    tc,
                                    t as int,
                                );
                                assert(ai_acts(w0, s as int));
                            }
                            self.dispatch(s, t);
                        },
                        None => {
                            proof {
                                assert(!ai_acts(w0, s as int));
                            }
                        },
                    }
                } else {
                    proof {
                        assert(!ai_acts(w0, s as int));
                    }
                }
            } else {
                proof {
                    assert(!ai_acts(w0, s as int));
                }
            }
            s = s + 1;
        }
    }
}

} // verus!
