//! Player setup: one human player and a configurable number of AI
//! players are created once the galaxy has stars, and each is handed one
//! randomly chosen starting star.
//!
//! Starting stars are chosen independently, so two players may draw the
//! same star; the later draw then overwrites the earlier owner, exactly
//! as independent random assignment would. Distinctness is deliberately
//! not enforced.

use vstd::prelude::*;

use vstd::string::StrSliceExecFns;
use vstd::string::StringExecFns;

use crate::rng::{rng_out_at, rng_state_after, GameRng};
use crate::text::{decimal_string, spec_decimal};
use crate::world::{Color, OwnedBy, Player, World};

verus! {

/// The display name of the `k`-th AI player (1-based).
pub open spec fn ai_name_spec(k: int) -> Seq<char> {
    "AI: "@ + spec_decimal(k)
}

/// The color the `j`-th created player draws: three channel draws in
/// `[0, 1000]`.
pub open spec fn spec_player_color(s0: u64, j: int) -> Color {
    Color {
        red: ((rng_out_at(s0, 4 * j) as int) % 1001) as u16,
        green: ((rng_out_at(s0, 4 * j + 1) as int) % 1001) as u16,
        blue: ((rng_out_at(s0, 4 * j + 2) as int) % 1001) as u16,
    }
}

/// The ownership relation after the first `total` created players have
/// each drawn a starting star: player `j` takes the star drawn by the
/// fourth value of its four-draw block, later draws overwriting earlier
/// ones.
pub open spec fn spec_assign_upto(
    owned0: Seq<Option<OwnedBy>>,
    s0: u64,
    n_stars: int,
    total: int,
) -> Seq<Option<OwnedBy>>
    decreases total,
{
    if total <= 0 {
        owned0
    } else {
        let prev = spec_assign_upto(owned0, s0, n_stars, total - 1);
        let c = (rng_out_at(s0, 4 * (total - 1) + 3) as int) % n_stars;
        prev.update(c, Some(OwnedBy { player: (total - 1) as usize }))
    }
}

impl World {
    /// Hand `player` one uniformly drawn starting star, overwriting any
    /// earlier owner of that star. Runs during setup, before any fleet
    /// is attached.
    pub fn assign_random_star_to_player(&mut self, player: usize, rng: &mut GameRng)
        requires
            old(self).wf(),
            old(self).stars@.len() > 0,
            player < old(self).players@.len(),
            forall|s: int|
                0 <= s < old(self).stars@.len() ==> (#[trigger] old(
                    self,
                ).attached_fleet@[s]) is None,
        ensures
            final(self).wf(),
            final(self).stars@ == old(self).stars@,
            final(self).players@ == old(self).players@,
            final(self).attached_fleet@ == old(self).attached_fleet@,
            final(self).fleets@ == old(self).fleets@,
            final(self).flights@ == old(self).flights@,
            final(self).owned_by@ == old(self).owned_by@.update(
                (crate::rng::rng_output(old(rng).state) as int) % (old(self).stars@.len() as int),
                Some(OwnedBy { player }),
            ),
            final(rng).state == crate::rng::rng_next_state(old(rng).state),
    {
        let n = self.stars.len();
        let idx = rng.next_in_range(0, (n - 1) as u64) as usize;
        self.owned_by.set(idx, Some(OwnedBy { player }));
    }

    /// Create `ai_count` AI players ("AI: 1", "AI: 2", ... with random
    /// colors) and then the one human player ("You"), each drawing one
    /// random starting star. Runs once, after the galaxy has at least
    /// one star and before anything else owns one.
    pub fn generate_players(&mut self, rng: &mut GameRng, ai_count: usize)
        requires
            old(self).wf(),
            old(self).stars@.len() > 0,
            old(self).players@.len() == 0,
            ai_count < usize::MAX,
            forall|s: int|
                0 <= s < old(self).stars@.len() ==> (#[trigger] old(
                    self,
                ).attached_fleet@[s]) is None,
        ensures
            final(self).wf(),
            final(self).stars@ == old(self).stars@,
            final(self).attached_fleet@ == old(self).attached_fleet@,
            final(self).fleets@ == old(self).fleets@,
            final(self).flights@ == old(self).flights@,
            final(self).players@.len() == ai_count + 1,
            forall|j: int|
                0 <= j < ai_count ==> {
                    &&& !(#[trigger] final(self).players@[j]).is_human
                    &&& final(self).players@[j].name@ == ai_name_spec(j + 1)
                    &&& final(self).players@[j].color == spec_player_color(old(rng).state, j)
                },
            final(self).players@[ai_count as int].is_human,
            final(self).players@[ai_count as int].name@ == "You"@,
            final(self).players@[ai_count as int].color == spec_player_color(
                old(rng).state,
                ai_count as int,
            ),
            forall|j: int|
                0 <= j <= ai_count ==> ((#[trigger] final(self).players@[j]).is_human <==> j
                    == ai_count),
            final(self).owned_by@ == spec_assign_upto(
                old(self).owned_by@,
                old(rng).state,
                old(self).stars@.len() as int,
                ai_count + 1,
            ),
            final(rng).state == rng_state_after(old(rng).state, 4 * (ai_count + 1)),
    {
        let ghost s0 = rng.state;
        let ghost owned0 = self.owned_by@;
        let ghost w0 = *self;
        let n = self.stars.len();
        let mut i: usize = 0;
        while i < ai_count
            invariant
                self.wf(),
                i <= ai_count < usize::MAX,
                n == self.stars@.len() > 0,
                self.stars@ == w0.stars@,
                self.attached_fleet@ == w0.attached_fleet@,
                self.fleets@ == w0.fleets@,
                self.flights@ == w0.flights@,
                forall|s: int|
                    0 <= s < n ==> (#[trigger] self.attached_fleet@[s]) is None,
                self.players@.len() == i,
                forall|j: int|
                    0 <= j < i ==> {
                        &&& !(#[trigger] self.players@[j]).is_human
                        &&& self.players@[j].name@ == ai_name_spec(j + 1)
                        &&& self.players@[j].color == spec_player_color(s0, j)
                    },
                self.owned_by@ == spec_assign_upto(owned0, s0, n as int, i as int),
                rng.state == rng_state_after(s0, 4 * i),
            decreases ai_count - i,
        {
            let ghost st = rng.state;
            let red = rng.next_in_range(0, 1000);
            let green = rng.next_in_range(0, 1000);
            let blue = rng.next_in_range(0, 1000);
            proof {
                assert(rng_state_after(s0, 4 * i + 1) == crate::rng::rng_next_state(st));
                assert(rng_state_after(s0, 4 * i + 2) == rng_state_after(s0, 4 * i + 1 + 1));
                assert(rng_state_after(s0, 4 * i + 3) == rng_state_after(s0, 4 * i + 2 + 1));
            }
            let mut name = "AI: ".to_owned();
            let digits = decimal_string((i as u64) + 1);
            name.append(digits.as_str());
            self.players.push(
                Player {
                    name,
                    is_human: false,
                    color: Color { red: red as u16, green: green as u16, blue: blue as u16 },
                },
            );
            self.assign_random_star_to_player(i, rng);
            proof {
                assert(rng_state_after(s0, 4 * (i + 1)) == rng_state_after(s0, 4 * i + 3 + 1));
                assert(self.owned_by@ == spec_assign_upto(owned0, s0, n as int, i + 1));
            }
            i = i + 1;
        }
        let ghost st = rng.state;
        let red = rng.next_in_range(0, 1000);
        let green = rng.next_in_range(0, 1000);
        let blue = rng.next_in_range(0, 1000);
        proof {
            assert(rng_state_after(s0, 4 * ai_count + 1) == crate::rng::rng_next_state(st));
            assert(rng_state_after(s0, 4 * ai_count + 2) == rng_state_after(
                s0,
                4 * ai_count + 1 + 1,
            ));
            assert(rng_state_after(s0, 4 * ai_count + 3) == rng_state_after(
                s0,
                4 * ai_count + 2 + 1,
            ));
        }
        self.players.push(
            Player {
                name: "You".to_owned(),
                is_human: true,
                color: Color { red: red as u16, green: green as u16, blue: blue as u16 },
            },
        );
        self.assign_random_star_to_player(ai_count, rng);
        proof {
            assert(rng_state_after(s0, 4 * (ai_count + 1)) == rng_state_after(
                s0,
                4 * ai_count + 3 + 1,
            ));
            assert(self.owned_by@ == spec_assign_upto(
                owned0,
                s0,
                n as int,
                ai_count + 1,
            ));
        }
    }
}

} // verus!
