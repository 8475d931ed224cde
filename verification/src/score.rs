//! Read-only scoring queries over the simulation state: per-player star
//! counts and the human player's victory or defeat.

use vstd::prelude::*;

use crate::world::{OwnedBy, World};

verus! {

/// How many of the first `k` stars player `p` owns.
pub open spec fn count_owned(owned_by: Seq<Option<OwnedBy>>, p: int, k: int) -> nat
    decreases k,
{
    if k <= 0 {
        0
    } else {
        count_owned(owned_by, p, k - 1) + if owned_by[k - 1] == Some(
            OwnedBy { player: p as usize },
        ) {
            1nat
        } else {
            0nat
        }
    }
}

/// A player never owns more stars than there are.
pub proof fn lemma_count_owned_bounded(owned_by: Seq<Option<OwnedBy>>, p: int, k: int)
    ensures
        count_owned(owned_by, p, k) <= (if k >= 0 {
            k
        } else {
            0
        }),
    decreases k,
{
    if k > 0 {
        lemma_count_owned_bounded(owned_by, p, k - 1);
    }
}

/// The standing of the human player, read from star ownership.
#[derive(Clone, Copy, Debug, PartialEq, Eq, Structural)]
pub enum Outcome {
    /// The human player owns no star.
    Defeat,
    /// The game is still open.
    Playing,
    /// The human player owns more than four fifths of all stars.
    Victory,
}

impl World {
    /// How many stars player `p` owns.
    pub fn star_count(&self, p: usize) -> (c: usize)
        requires
            self.wf(),
        ensures
            c == count_owned(self.owned_by@, p as int, self.stars@.len() as int),
            c <= self.stars@.len(),
    {
        let n = self.stars.len();
        let mut c: usize = 0;
        let mut s: usize = 0;
        while s < n
            invariant
                self.wf(),
                s <= n == self.stars@.len(),
                c == count_owned(self.owned_by@, p as int, s as int),
                c <= s,
            decreases n - s,
        {
            let mut owned = false;
            if let Some(o) = self.owned_by[s] {
                if o.player == p {
                    owned = true;
                }
            }
            if owned {
                c = c + 1;
            }
            s = s + 1;
        }
        c
    }

    /// The human player's standing: defeat with no star owned, victory
    /// with strictly more than four fifths of all stars, otherwise the
    /// game goes on.
    pub fn victory_status(&self, human: usize) -> (r: Outcome)
        requires
            self.wf(),
        ensures
            ({
                let c = count_owned(self.owned_by@, human as int, self.stars@.len() as int);
                r == if c == 0 {
                    Outcome::Defeat
                } else if 5 * c > 4 * self.stars@.len() {
                    Outcome::Victory
                } else {
                    Outcome::Playing
                }
            }),
    {
        let c = self.star_count(human);
        let total = self.stars.len();
        if c == 0 {
            Outcome::Defeat
        } else if 5 * (c as u128) > 4 * (total as u128) {
            Outcome::Victory
        } else {
            Outcome::Playing
        }
    }
}

} // verus!
