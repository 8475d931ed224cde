//! Fleet economy: lazy fleet attachment for owned stars, and periodic
//! growth of stationed fleets in proportion to their star's size.

use vstd::prelude::*;

use crate::world::{AttachedFleet, Fleet, World};

verus! {

/// Growth of a stationed fleet in one economy step: one tenth of the
/// star's size, saturating at the integer limit.
pub open spec fn grown_size(size: u64, star_size: u64) -> u64 {
    if size + star_size / 10 > u64::MAX {
        u64::MAX
    } else {
        (size + star_size / 10) as u64
    }
}

/// How many stars before `s` an attachment pass creates a fleet for:
/// those owned but not yet attached.
#[verifier::opaque]
pub open spec fn newly_attached_before(
    owned_by: Seq<Option<crate::world::OwnedBy>>,
    attached: Seq<Option<AttachedFleet>>,
    s: int,
) -> nat
    decreases s,
{
    if s <= 0 {
        0
    } else {
        newly_attached_before(owned_by, attached, s - 1) + if owned_by[s - 1] is Some
            && attached[s - 1] is None {
            1nat
        } else {
            0nat
        }
    }
}

/// The count of newly attached stars grows with the prefix it is taken
/// over.
pub proof fn lemma_newly_attached_monotonic(
    owned_by: Seq<Option<crate::world::OwnedBy>>,
    attached: Seq<Option<AttachedFleet>>,
    a: int,
    b: int,
)
    requires
        a <= b,
    ensures
        newly_attached_before(owned_by, attached, a) <= newly_attached_before(owned_by, attached, b),
    decreases b - a,
{
    if a < b {
        lemma_newly_attached_monotonic(owned_by, attached, a, b - 1);
        assert(newly_attached_before(owned_by, attached, b) >= newly_attached_before(
            owned_by,
            attached,
            b - 1,
        )) by {
            reveal_with_fuel(newly_attached_before, 2);
        }
    }
}

/// Whether fleet index `f` is attached to one of the first `k` stars.
pub open spec fn attached_in_prefix(
    attached: Seq<Option<AttachedFleet>>,
    f: int,
    k: int,
) -> bool {
    exists|s: int| 0 <= s < k && attached[s] == Some(AttachedFleet { fleet_id: f as usize })
}

/// Whether fleet index `f` is attached to some star.
pub open spec fn is_attached(attached: Seq<Option<AttachedFleet>>, f: int) -> bool {
    attached_in_prefix(attached, f, attached.len() as int)
}

/// The exact effect of one economy pass on the stationed fleets: every
/// fleet attached to a star grows by one tenth of that star's size,
/// keeping its owner; every other fleet is untouched.
pub open spec fn grow_pass_rel(pre: World, post: World) -> bool {
    &&& post.fleets@.len() == pre.fleets@.len()
    &&& forall|s: int|
        0 <= s < pre.stars@.len() && (#[trigger] pre.attached_fleet@[s]) is Some ==> {
            let f = pre.attached_fleet@[s]->0.fleet_id as int;
            post.fleets@[f] == Fleet {
                player: pre.fleets@[f].player,
                size: grown_size(pre.fleets@[f].size, pre.stars@[s].size),
            }
        }
    &&& forall|f: int|
        0 <= f < pre.fleets@.len() && !is_attached(pre.attached_fleet@, f)
            ==> post.fleets@[f] == pre.fleets@[f]
}

/// Growth monotonicity over a pass: the fleet stationed at an owned
/// star ends an economy pass at exactly its old size plus one tenth of
/// the star's size — a strict increase, short of the integer limit.
pub proof fn lemma_growth_monotonic(pre: World, post: World, s: int)
    requires
        pre.wf(),
        grow_pass_rel(pre, post),
        0 <= s < pre.stars@.len(),
        pre.attached_fleet@[s] is Some,
        pre.fleets@[pre.attached_fleet@[s]->0.fleet_id as int].size + pre.stars@[s].size / 10
            <= u64::MAX,
    ensures
        ({
            let f = pre.attached_fleet@[s]->0.fleet_id as int;
            &&& post.fleets@[f].size == pre.fleets@[f].size + pre.stars@[s].size / 10
            &&& post.fleets@[f].size > pre.fleets@[f].size
        }),
{
    let f = pre.attached_fleet@[s]->0.fleet_id as int;
    lemma_growth_strictly_increases(pre.fleets@[f].size, pre.stars@[s].size);
}

/// The exact effect of one lazy-attachment step on star `s`: if the star
/// is owned and lacks a stationed fleet, a zero-size fleet owned by the
/// star's owner is appended and attached; otherwise nothing changes.
/// Everything else is untouched either way.
pub open spec fn attach_step_rel(pre: World, post: World, s: int) -> bool {
    &&& post.stars@ == pre.stars@
    &&& post.players@ == pre.players@
    &&& post.owned_by@ == pre.owned_by@
    &&& post.flights@ == pre.flights@
    &&& if pre.owned_by@[s] is Some && pre.attached_fleet@[s] is None {
        &&& post.fleets@ == pre.fleets@.push(
            Fleet { player: pre.owned_by@[s]->0.player, size: 0 },
        )
        &&& post.attached_fleet@ == pre.attached_fleet@.update(
            s,
            Some(AttachedFleet { fleet_id: pre.fleets@.len() as usize }),
        )
    } else {
        &&& post.fleets@ == pre.fleets@
        &&& post.attached_fleet@ == pre.attached_fleet@
    }
}

/// Idempotence of lazy attachment: two attachment steps for the same star
/// in a row do no more than one; the second changes nothing, so at most
/// one stationed fleet ever exists per star.
pub proof fn lemma_attach_idempotent(w0: World, w1: World, w2: World, s: int)
    requires
        w0.relations_sized(),
        0 <= s < w0.stars@.len(),
        attach_step_rel(w0, w1, s),
        attach_step_rel(w1, w2, s),
    ensures
        w2.stars@ == w1.stars@,
        w2.players@ == w1.players@,
        w2.owned_by@ == w1.owned_by@,
        w2.flights@ == w1.flights@,
        w2.fleets@ == w1.fleets@,
        w2.attached_fleet@ == w1.attached_fleet@,
{
    if w0.owned_by@[s] is Some && w0.attached_fleet@[s] is None {
        assert(w1.attached_fleet@[s] is Some);
    }
}

impl World {
    /// If star `s` is owned and has no stationed fleet yet, create one of
    /// size zero for the star's owner and attach it; otherwise change
    /// nothing. Doing this twice for the same star attaches at most once.
    pub fn attach_fleet_if_missing(&mut self, s: usize)
        requires
            old(self).wf(),
            s < old(self).stars@.len(),
        ensures
            final(self).wf(),
            attach_step_rel(*old(self), *final(self), s as int),
            final(self).attached_fleet@[s as int] is Some <==> (old(self).owned_by@[s as int] is Some
                || old(self).attached_fleet@[s as int] is Some),
    {
        if self.attached_fleet[s].is_none() {
            if let Some(owner) = self.owned_by[s] {
                let fleet_id = self.fleets.len();
                self.fleets.push(Fleet { player: owner.player, size: 0 });
                self.attached_fleet.set(s, Some(AttachedFleet { fleet_id }));
                proof {
                    assert forall|s2: int|
                        0 <= s2 < self.stars@.len() && (#[trigger] self.attached_fleet@[s2]) is Some
                            implies {
                        let f = self.attached_fleet@[s2]->0.fleet_id as int;
                        &&& f < self.fleets@.len()
                        &&& self.owned_by@[s2] is Some
                        &&& self.fleets@[f].player == self.owned_by@[s2]->0.player
                    } by {
                        if s2 != s as int {
                            assert(self.attached_fleet@[s2] == old(self).attached_fleet@[s2]);
                        }
                    }
                }
            }
        }
    }

    /// One attachment pass over all stars: every owned star ends the pass
    /// with a stationed fleet; stars already attached, and unowned stars,
    /// are untouched. New fleets are appended in star order, each of size
    /// zero and owned by its star's owner.
    #[verifier::rlimit(100)]
    pub fn attach_new_fleets(&mut self)
        requires
            old(self).wf(),
        ensures
            final(self).wf(),
            final(self).stars@ == old(self).stars@,
            final(self).players@ == old(self).players@,
            final(self).owned_by@ == old(self).owned_by@,
            final(self).flights@ == old(self).flights@,
            final(self).fleets@.len() == old(self).fleets@.len() + newly_attached_before(
                old(self).owned_by@,
                old(self).attached_fleet@,
                old(self).stars@.len() as int,
            ),
            forall|f: int|
                0 <= f < old(self).fleets@.len() ==> final(self).fleets@[f] == old(self).fleets@[f],
            forall|s: int|
                0 <= s < old(self).stars@.len()
                    && !(old(self).owned_by@[s] is Some && old(self).attached_fleet@[s] is None)
                    ==> final(self).attached_fleet@[s] == old(self).attached_fleet@[s],
            forall|s: int|
                0 <= s < old(self).stars@.len() && old(self).owned_by@[s] is Some
                    && old(self).attached_fleet@[s] is None ==> {
                    let f = old(self).fleets@.len() + newly_attached_before(
                        old(self).owned_by@,
                        old(self).attached_fleet@,
                        s,
                    );
                    &&& final(self).attached_fleet@[s] == Some(
                        AttachedFleet { fleet_id: f as usize },
                    )
                    &&& final(self).fleets@[f as int] == Fleet {
                        player: old(self).owned_by@[s]->0.player,
                        size: 0,
                    }
                },
            forall|s: int|
                0 <= s < old(self).stars@.len() && old(self).owned_by@[s] is Some
                    ==> (#[trigger] final(self).attached_fleet@[s]) is Some,
    {
        let ghost w0 = *self;
        let n = self.stars.len();
        proof {
            assert(newly_attached_before(w0.owned_by@, w0.attached_fleet@, 0) == 0) by {
                reveal_with_fuel(newly_attached_before, 1);
            }
        }
        let mut s: usize = 0;
        while s < n
            invariant
                self.wf(),
                n == w0.stars@.len(),
                s <= n,
                self.stars@ == w0.stars@,
                self.players@ == w0.players@,
                self.owned_by@ == w0.owned_by@,
                self.flights@ == w0.flights@,
                self.fleets@.len() == w0.fleets@.len() + newly_attached_before(
                    w0.owned_by@,
                    w0.attached_fleet@,
                    s as int,
                ),
                forall|f: int| 0 <= f < w0.fleets@.len() ==> self.fleets@[f] == w0.fleets@[f],
                forall|s2: int|
                    s <= s2 < n ==> self.attached_fleet@[s2] == w0.attached_fleet@[s2],
                forall|s2: int|
                    0 <= s2 < s && !(w0.owned_by@[s2] is Some && w0.attached_fleet@[s2] is None)
                        ==> self.attached_fleet@[s2] == w0.attached_fleet@[s2],
                forall|s2: int|
                    0 <= s2 < s && w0.owned_by@[s2] is Some && w0.attached_fleet@[s2] is None
                        ==> {
                        let f = w0.fleets@.len() + newly_attached_before(
                            w0.owned_by@,
                            w0.attached_fleet@,
                            s2,
                        );
                        &&& self.attached_fleet@[s2] == Some(
                            AttachedFleet { fleet_id: f as usize },
                        )
                        &&& self.fleets@[f as int] == Fleet {
                            player: w0.owned_by@[s2]->0.player,
                            size: 0,
                        }
                    },
            decreases n - s,
        {
            let ghost prev = *self;
            self.attach_fleet_if_missing(s);
            proof {
                assert(newly_attached_before(w0.owned_by@, w0.attached_fleet@, s + 1)
                    == newly_attached_before(w0.owned_by@, w0.attached_fleet@, s as int)
                    + if w0.owned_by@[s as int] is Some && w0.attached_fleet@[s as int] is None {
                    1nat
                } else {
                    0nat
                }) by {
                    reveal_with_fuel(newly_attached_before, 2);
                }
                assert forall|s2: int|
                    0 <= s2 < s + 1 && w0.owned_by@[s2] is Some && w0.attached_fleet@[s2] is None
                        implies {
                    let f = w0.fleets@.len() + newly_attached_before(
                        w0.owned_by@,
                        w0.attached_fleet@,
                        s2,
                    );
                    &&& self.attached_fleet@[s2] == Some(AttachedFleet { fleet_id: f as usize })
                    &&& self.fleets@[f as int] == Fleet {
                        player: w0.owned_by@[s2]->0.player,
                        size: 0,
                    }
                } by {
                    let f = w0.fleets@.len() + newly_attached_before(
                        w0.owned_by@,
                        w0.attached_fleet@,
                        s2,
                    );
                    if s2 == s as int {
                        assert(prev.attached_fleet@[s2] == w0.attached_fleet@[s2]);
                        assert(f == prev.fleets@.len());
                        assert(self.attached_fleet@[s2] == Some(
                            AttachedFleet { fleet_id: f as usize },
                        ));
                    } else {
                        assert(prev.attached_fleet@[s2] == Some(
                            AttachedFleet { fleet_id: f as usize },
                        ));
                        lemma_newly_attached_monotonic(
                            w0.owned_by@,
                            w0.attached_fleet@,
                            s2,
                            s as int,
                        );
                        assert(f <= prev.fleets@.len());
                        assert(prev.fleets.len() == prev.fleets@.len());
                        assert(f == f as usize as int);
                        assert(f < prev.fleets@.len());
                        assert(self.fleets@[f as int] == prev.fleets@[f as int]);
                        assert(self.attached_fleet@[s2] == prev.attached_fleet@[s2]);
                    }
                }
            }
            s = s + 1;
        }
    }

    /// One economy step for star `s`: its stationed fleet grows by one
    /// tenth of the star's size, saturating at the integer limit.
    pub fn grow_fleet_at(&mut self, s: usize)
        requires
            old(self).wf(),
            s < old(self).stars@.len(),
            old(self).attached_fleet@[s as int] is Some,
        ensures
            final(self).wf(),
            final(self).stars@ == old(self).stars@,
            final(self).players@ == old(self).players@,
            final(self).owned_by@ == old(self).owned_by@,
            final(self).attached_fleet@ == old(self).attached_fleet@,
            final(self).flights@ == old(self).flights@,
            ({
                let f = old(self).attached_fleet@[s as int]->0.fleet_id as int;
                final(self).fleets@ == old(self).fleets@.update(
                    f,
                    Fleet {
                        player: old(self).fleets@[f].player,
                        size: grown_size(
                            old(self).fleets@[f].size,
                            old(self).stars@[s as int].size,
                        ),
                    },
                )
            }),
    {
        let fleet_id = self.attached_fleet[s].unwrap().fleet_id;
        let inc = self.stars[s].size / 10;
        let old_size = self.fleets[fleet_id].size;
        let new_size = if old_size > u64::MAX - inc {
            u64::MAX
        } else {
            old_size + inc
        };
        let player = self.fleets[fleet_id].player;
        self.fleets.set(fleet_id, Fleet { player, size: new_size });
    }

    /// One economy pass: every stationed fleet grows by one tenth of its
    /// star's size; fleets attached to no star are untouched. Each fleet
    /// is attached to at most one star, so each grows exactly once.
    #[verifier::rlimit(60)]
    pub fn grow_fleets(&mut self)
        requires
            old(self).wf(),
        ensures
            final(self).wf(),
            final(self).stars@ == old(self).stars@,
            final(self).players@ == old(self).players@,
            final(self).owned_by@ == old(self).owned_by@,
            final(self).attached_fleet@ == old(self).attached_fleet@,
            final(self).flights@ == old(self).flights@,
            grow_pass_rel(*old(self), *final(self)),
    {
        let ghost w0 = *self;
        let n = self.stars.len();
        let mut s: usize = 0;
        while s < n
            invariant
                self.wf(),
                n == w0.stars@.len(),
                s <= n,
                self.stars@ == w0.stars@,
                self.players@ == w0.players@,
                self.owned_by@ == w0.owned_by@,
                self.attached_fleet@ == w0.attached_fleet@,
                self.flights@ == w0.flights@,
                self.fleets@.len() == w0.fleets@.len(),
                forall|s2: int|
                    0 <= s2 < s && (#[trigger] w0.attached_fleet@[s2]) is Some ==> {
                        let f = w0.attached_fleet@[s2]->0.fleet_id as int;
                        self.fleets@[f] == Fleet {
                            player: w0.fleets@[f].player,
                            size: grown_size(w0.fleets@[f].size, w0.stars@[s2].size),
                        }
                    },
                forall|f: int|
                    0 <= f < w0.fleets@.len() && !attached_in_prefix(
                        w0.attached_fleet@,
                        f,
                        s as int,
                    ) ==> self.fleets@[f] == w0.fleets@[f],
            decreases n - s,
        {
            if self.attached_fleet[s].is_some() {
                let ghost prev = *self;
                let ghost fid = self.attached_fleet@[s as int]->0.fleet_id as int;
                proof {
                    if attached_in_prefix(w0.attached_fleet@, fid, s as int) {
                        let s2 = choose|s2: int|
                            0 <= s2 < s && w0.attached_fleet@[s2] == Some(
                                AttachedFleet { fleet_id: fid as usize },
                            );
                        assert(w0.attached_fleet@[s2] is Some);
                        assert(false);
                    }
                    assert(self.fleets@[fid] == w0.fleets@[fid]);
                }
                self.grow_fleet_at(s);
                proof {
                    assert forall|f: int|
                        0 <= f < w0.fleets@.len() && !attached_in_prefix(
                            w0.attached_fleet@,
                            f,
                            s + 1,
                        ) implies self.fleets@[f] == w0.fleets@[f] by {
                        assert(!attached_in_prefix(w0.attached_fleet@, f, s as int));
                        assert(f != fid);
                        assert(self.fleets@[f] == prev.fleets@[f]);
                    }
                    assert forall|s2: int|
                        0 <= s2 < s + 1 && (#[trigger] w0.attached_fleet@[s2]) is Some implies {
                        let f = w0.attached_fleet@[s2]->0.fleet_id as int;
                        self.fleets@[f] == Fleet {
                            player: w0.fleets@[f].player,
                            size: grown_size(w0.fleets@[f].size, w0.stars@[s2].size),
                        }
                    } by {
                        let f = w0.attached_fleet@[s2]->0.fleet_id as int;
                        if s2 == s as int {
                            assert(self.fleets@[f] == prev.fleets@.update(
                                fid,
                                Fleet {
                                    player: prev.fleets@[fid].player,
                                    size: grown_size(prev.fleets@[fid].size, prev.stars@[s as int].size),
                                },
                            )[f]);
                        } else {
                            assert(f != fid);
                            assert(self.fleets@[f] == prev.fleets@[f]);
                        }
                    }
                }
            } else {
                proof {
                    assert forall|f: int|
                        0 <= f < w0.fleets@.len() && !attached_in_prefix(
                            w0.attached_fleet@,
                            f,
                            s + 1,
                        ) implies self.fleets@[f] == w0.fleets@[f] by {
                        assert(!attached_in_prefix(w0.attached_fleet@, f, s as int));
                    }
                }
            }
            s = s + 1;
        }
    }
}

/// Growth monotonicity: one economy step adds exactly one tenth of the
/// star's size to a stationed fleet, and for any star within the
/// generation bounds that is a strict increase (short of the integer
/// limit, where growth saturates).
pub proof fn lemma_growth_strictly_increases(size: u64, star_size: u64)
    requires
        crate::units::STAR_SIZE_MIN <= star_size <= crate::units::STAR_SIZE_MAX,
        size + star_size / 10 <= u64::MAX,
    ensures
        grown_size(size, star_size) == size + star_size / 10,
        grown_size(size, star_size) > size,
{
    assert(star_size / 10 >= 10);
}

} // verus!
