//! Procedural galaxy generation: five concentric bands of star
//! clusters, separated by empty annuli, with randomized widths, cluster
//! populations and star sizes.
//!
//! Angles are fractions of a full turn; sine and cosine are evaluated in
//! fixed point (scaled by 1000) with a rational approximation, which is
//! exact at multiples of a quarter turn and well within one percent
//! elsewhere — plenty for scattering stars.

use vstd::prelude::*;

use crate::rng::GameRng;
use crate::units::{COORD_LIMIT, STAR_SIZE_MAX, STAR_SIZE_MIN};
use crate::world::Star;

verus! {

/// Number of concentric bands.
pub const BAND_COUNT: u64 = 5;

/// Smallest band width, in milli-units (170 units).
pub const BAND_SIZE_MIN: u64 = 170000;

/// Largest band width, in milli-units (200 units).
pub const BAND_SIZE_MAX: u64 = 200000;

/// Smallest empty annulus between and around bands, in milli-units.
pub const EMPTY_AREA_SIZE_MIN: u64 = 250000;

/// Largest empty annulus between and around bands, in milli-units.
pub const EMPTY_AREA_SIZE_MAX: u64 = 500000;

/// Fewest stars a cluster may hold.
pub const MIN_STARS_IN_CLUSTER: u64 = 1;

/// Most stars a cluster may hold.
pub const MAX_STARS_IN_CLUSTER: u64 = 5;

/// Mean of the star-size distribution, in milli-units (2.0).
pub const STAR_SIZE_MEAN: u64 = 2000;

/// Deviation of the star-size distribution, in milli-units (2.0).
pub const STAR_SIZE_DEVIATION: u64 = 2000;

/// One full turn, in micro-radians rounded down (2 pi times ten to the
/// sixth).
pub const TAU_MICRO: u64 = 6283185;

/// Angle units per full turn (hundredths of a degree).
pub const TURN_UNITS: u64 = 36000;

/// How many clusters a band holds: `(index + 1) * 2 pi`, rounded to the
/// nearest integer.
pub open spec fn spec_cluster_count(band_index: int) -> int {
    ((band_index + 1) * TAU_MICRO + 500000) / 1000000
}

/// How many clusters the band with the given index holds.
pub fn cluster_count(band_index: u64) -> (c: u64)
    requires
        band_index < BAND_COUNT,
    ensures
        c == spec_cluster_count(band_index as int),
        6 <= c <= 31,
{
    ((band_index + 1) * TAU_MICRO + 500000) / 1000000
}

/// Galaxy generation bounds on cluster counts: the five bands hold 6,
/// 13, 19, 25 and 31 clusters — each `(index + 1) * 2 pi` rounded to
/// nearest.
pub proof fn lemma_cluster_counts()
    ensures
        spec_cluster_count(0) == 6,
        spec_cluster_count(1) == 13,
        spec_cluster_count(2) == 19,
        spec_cluster_count(3) == 25,
        spec_cluster_count(4) == 31,
{
}

/// Fixed-point sine on a half turn: input in hundredths of a degree
/// (`[0, 18000]`), output scaled by 1000. A rational approximation,
/// exact at 0, 30, 90, 150 and 180 degrees.
pub open spec fn spec_sin_half(x: int) -> int {
    let t = x * (18000 - x);
    4000 * t / (405000000 - t)
}

/// Fixed-point sine over a full turn: input in hundredths of a degree
/// (`[0, 36000)`), output in `[-1000, 1000]`.
pub open spec fn spec_sin_milli(u: int) -> int {
    if u <= 18000 {
        spec_sin_half(u)
    } else {
        -spec_sin_half(u - 18000)
    }
}

/// Fixed-point sine of an angle in hundredths of a degree.
pub fn sin_milli(u: u64) -> (r: i64)
    requires
        u < TURN_UNITS,
    ensures
        r == spec_sin_milli(u as int),
        -1000 <= r <= 1000,
{
    if u <= 18000 {
        proof {
            assert(u * (18000 - u) <= 81000000) by (nonlinear_arith)
                requires
                    0 <= u <= 18000,
            ;
        }
        let t = u * (18000 - u);
        let v = 4000 * t / (405000000 - t);
        proof {
            assert(v <= 1000) by (nonlinear_arith)
                requires
                    t <= 81000000,
                    v == 4000 * t / ((405000000 - t) as int),
            ;
        }
        v as i64
    } else {
        let x = u - 18000;
        proof {
            assert(x * (18000 - x) <= 81000000) by (nonlinear_arith)
                requires
                    0 <= x <= 18000,
            ;
        }
        let t = x * (18000 - x);
        let v = 4000 * t / (405000000 - t);
        proof {
            assert(v <= 1000) by (nonlinear_arith)
                requires
                    t <= 81000000,
                    v == 4000 * t / ((405000000 - t) as int),
            ;
        }
        -(v as i64)
    }
}

/// Fixed-point cosine of an angle in hundredths of a degree: the sine a
/// quarter turn ahead.
pub fn cos_milli(u: u64) -> (r: i64)
    requires
        u < TURN_UNITS,
    ensures
        r == spec_sin_milli(((u + 9000) % (TURN_UNITS as int)) as int),
        -1000 <= r <= 1000,
{
    sin_milli((u + 9000) % TURN_UNITS)
}

/// The angle of step `k` out of `m` equal steps around a full turn, in
/// hundredths of a degree.
pub fn turn_fraction(k: u64, m: u64) -> (u: u64)
    requires
        0 < m,
        k < m,
        m <= 100000,
    ensures
        u == (TURN_UNITS * k) / (m as int),
        u < TURN_UNITS,
{
    let u = (TURN_UNITS * k) / m;
    proof {
        assert(u < TURN_UNITS) by (nonlinear_arith)
            requires
                0 < m,
                k < m,
                u == (TURN_UNITS * k) / (m as int),
                TURN_UNITS == 36000,
        ;
    }
    u
}

/// A milli-valued sine or cosine scaled by a length: `s * d / 1000`,
/// taken on magnitudes.
pub open spec fn spec_scale_milli(s: int, d: int) -> int {
    if s >= 0 {
        s * d / 1000
    } else {
        -((-s) * d / 1000)
    }
}

/// Scale a milli-valued sine or cosine by a length: `s * d / 1000`,
/// carried out on magnitudes.
pub fn scale_milli(s: i64, d: u64) -> (r: i64)
    requires
        -1000 <= s <= 1000,
        d <= 10000000,
    ensures
        -(d as int) <= r <= d,
        r == spec_scale_milli(s as int, d as int),
{
    if s >= 0 {
        proof {
            assert((s as u64) * d <= 1000 * 10000000) by (nonlinear_arith)
                requires
                    0 <= s <= 1000,
                    d <= 10000000,
            ;
        }
        let m = (s as u64) * d / 1000;
        proof {
            assert(m <= d) by (nonlinear_arith)
                requires
                    m == (s as u64) * d / 1000,
                    0 <= s <= 1000,
            ;
        }
        m as i64
    } else {
        proof {
            assert(((-s) as u64) * d <= 1000 * 10000000) by (nonlinear_arith)
                requires
                    0 < -s <= 1000,
                    d <= 10000000,
            ;
        }
        let m = ((-s) as u64) * d / 1000;
        proof {
            assert(m <= d) by (nonlinear_arith)
                requires
                    m == ((-s) as u64) * d / 1000,
                    0 <= -s <= 1000,
            ;
        }
        -(m as i64)
    }
}

/// The sum of the first `k` unit draws (each in `[0, 1000]`) from state
/// `s0`.
pub open spec fn spec_unit_sum(s0: u64, k: int) -> int
    decreases k,
{
    if k <= 0 {
        0
    } else {
        spec_unit_sum(s0, k - 1) + (crate::rng::rng_out_at(s0, k - 1) as int) % 1001
    }
}

/// The star size drawn from state `s0`: an approximately normal value
/// (mean `STAR_SIZE_MEAN`, deviation `STAR_SIZE_DEVIATION`, built from
/// twelve uniform draws) clamped into
/// `[STAR_SIZE_MIN, STAR_SIZE_MAX]`.
pub open spec fn spec_star_size(s0: u64) -> u64 {
    let sum = spec_unit_sum(s0, 12);
    if sum >= 6000 {
        let v = STAR_SIZE_MEAN + STAR_SIZE_DEVIATION * (sum - 6000) / 1000;
        if v > STAR_SIZE_MAX {
            STAR_SIZE_MAX
        } else {
            v as u64
        }
    } else {
        let d = STAR_SIZE_DEVIATION * (6000 - sum) / 1000;
        if d + STAR_SIZE_MIN >= STAR_SIZE_MEAN {
            STAR_SIZE_MIN
        } else {
            (STAR_SIZE_MEAN - d) as u64
        }
    }
}

/// Draw a star size: an approximately normal value (twelve uniform
/// draws) clamped into the size bounds.
pub fn sample_star_size(rng: &mut GameRng) -> (r: u64)
    ensures
        r == spec_star_size(old(rng).state),
        STAR_SIZE_MIN <= r <= STAR_SIZE_MAX,
        final(rng).state == crate::rng::rng_state_after(old(rng).state, 12),
{
    let ghost s0 = rng.state;
    let mut sum: u64 = 0;
    let mut k: u64 = 0;
    while k < 12
        invariant
            k <= 12,
            sum == spec_unit_sum(s0, k as int),
            sum <= k * 1000,
            rng.state == crate::rng::rng_state_after(s0, k as int),
        decreases 12 - k,
    {
        let u = rng.next_in_range(0, 1000);
        proof {
            assert(crate::rng::rng_state_after(s0, k + 1) == crate::rng::rng_next_state(
                crate::rng::rng_state_after(s0, k as int),
            ));
        }
        sum = sum + u;
        k = k + 1;
    }
    if sum >= 6000 {
        let v = STAR_SIZE_MEAN + STAR_SIZE_DEVIATION * (sum - 6000) / 1000;
        if v > STAR_SIZE_MAX {
            STAR_SIZE_MAX
        } else {
            v
        }
    } else {
        let d = STAR_SIZE_DEVIATION * (6000 - sum) / 1000;
        if d + STAR_SIZE_MIN >= STAR_SIZE_MEAN {
            STAR_SIZE_MIN
        } else {
            STAR_SIZE_MEAN - d
        }
    }
}

/// Append one star to the generated set.
pub fn add_star(stars: &mut Vec<Star>, star: Star)
    requires
        crate::world::star_wf(star),
    ensures
        final(stars)@ == old(stars)@.push(star),
{
    stars.push(star);
}

/// How many stars the cluster whose draws start at state `t` holds:
/// its first draw, reduced into `[1, 5]`.
pub open spec fn spec_cluster_total(t: u64) -> int {
    1 + (crate::rng::rng_output(t) as int) % 5
}

/// The x coordinate of cluster `j` of `c`, at radius `dist`: the sine
/// of the angle `j / c` of a full turn, scaled by the radius.
pub open spec fn spec_cluster_center_x(dist: int, j: int, c: int) -> int {
    spec_scale_milli(spec_sin_milli((36000 * j) / c), dist)
}

/// The y coordinate of cluster `j` of `c`, at radius `dist`: the
/// cosine (the sine a quarter turn ahead), scaled by the radius.
pub open spec fn spec_cluster_center_y(dist: int, j: int, c: int) -> int {
    spec_scale_milli(spec_sin_milli(((36000 * j) / c + 9000) % 36000), dist)
}

/// The star at index `k` of a cluster of `n` stars centered at
/// `(cx, cy)` in a band of the given width: its radial offset is drawn
/// from state `s` (a tenth to a half of the width), its angle is step
/// `k` of `n` around the center, and its size comes from the twelve
/// draws after the offset.
pub open spec fn spec_cluster_star(s: u64, cx: int, cy: int, width: int, k: int, n: int) -> Star {
    let star_dist = width / 10 + (crate::rng::rng_output(s) as int) % (width / 2 - width / 10 + 1);
    let su = (36000 * k) / n;
    let ox = spec_scale_milli(spec_sin_milli(su), star_dist);
    let oy = spec_scale_milli(spec_sin_milli((su + 9000) % 36000), star_dist);
    Star {
        x: (cx + ox) as i64,
        y: (cy + oy) as i64,
        size: spec_star_size(crate::rng::rng_state_after(s, 1)),
    }
}

/// The first `k` stars of such a cluster, thirteen draws apiece.
#[verifier::opaque]
pub open spec fn spec_cluster_stars(
    s: u64,
    cx: int,
    cy: int,
    width: int,
    n: int,
    k: int,
) -> Seq<Star>
    decreases k,
{
    if k <= 0 {
        Seq::<Star>::empty()
    } else {
        spec_cluster_stars(s, cx, cy, width, n, k - 1).push(
            spec_cluster_star(
                crate::rng::rng_state_after(s, 13 * (k - 1)),
                cx,
                cy,
                width,
                k - 1,
                n,
            ),
        )
    }
}

/// The generator state after the first `j` clusters of a band whose
/// draws start at state `s`: each cluster takes one star-count draw and
/// thirteen draws per star.
#[verifier::opaque]
pub open spec fn spec_band_state(s: u64, j: int) -> u64
    decreases j,
{
    if j <= 0 {
        s
    } else {
        let t = spec_band_state(s, j - 1);
        crate::rng::rng_state_after(t, 1 + 13 * spec_cluster_total(t))
    }
}

/// The stars of the first `j` of a band's `c` clusters, the cluster
/// centers at radius `dist`, the draws starting at state `s`.
#[verifier::opaque]
pub open spec fn spec_band_stars(s: u64, dist: int, width: int, c: int, j: int) -> Seq<Star>
    decreases j,
{
    if j <= 0 {
        Seq::<Star>::empty()
    } else {
        let t = spec_band_state(s, j - 1);
        let n = spec_cluster_total(t);
        spec_band_stars(s, dist, width, c, j - 1) + spec_cluster_stars(
            crate::rng::rng_state_after(t, 1),
            spec_cluster_center_x(dist, j - 1, c),
            spec_cluster_center_y(dist, j - 1, c),
            width,
            n,
            n,
        )
    }
}

/// Scatter the clusters of one band: `cluster_count(band_index)`
/// clusters at equal angles halfway into the band, each with one to
/// five stars at equal angles around the cluster's center, at a random
/// radial offset of a tenth to a half of the band's width, each star
/// with a freshly drawn size.
pub fn generate_clusters_for_band(
    band_index: u64,
    distance_from_center: u64,
    size: u64,
    rng: &mut GameRng,
    stars: &mut Vec<Star>,
)
    requires
        band_index < BAND_COUNT,
        BAND_SIZE_MIN <= size <= BAND_SIZE_MAX,
        distance_from_center + size <= 4000000,
        forall|j: int|
            0 <= j < old(stars)@.len() ==> crate::world::star_wf(#[trigger] old(stars)@[j]),
    ensures
        forall|j: int| 0 <= j < final(stars)@.len() ==> crate::world::star_wf(
            #[trigger] final(stars)@[j],
        ),
        forall|j: int| 0 <= j < old(stars)@.len() ==> final(stars)@[j] == old(stars)@[j],
        final(stars)@.len() >= old(stars)@.len() + spec_cluster_count(band_index as int),
        final(stars)@.len() <= old(stars)@.len() + 5 * spec_cluster_count(band_index as int),
        final(stars)@ == old(stars)@ + spec_band_stars(
            old(rng).state,
            distance_from_center + size / 2,
            size as int,
            spec_cluster_count(band_index as int),
            spec_cluster_count(band_index as int),
        ),
        final(rng).state == spec_band_state(
            old(rng).state,
            spec_cluster_count(band_index as int),
        ),
{
    let ghost s0 = rng.state;
    let ghost len0 = stars@.len();
    let count = cluster_count(band_index);
    let dist = distance_from_center + size / 2;
    proof {
        assert(spec_band_state(s0, 0) == s0) by {
            reveal_with_fuel(spec_band_state, 1);
        }
        assert(spec_band_stars(s0, dist as int, size as int, count as int, 0)
            =~= Seq::<Star>::empty()) by {
            reveal_with_fuel(spec_band_stars, 1);
        }
        assert(stars@ =~= stars@ + spec_band_stars(s0, dist as int, size as int, count as int, 0));
    }
    let mut ci: u64 = 0;
    while ci < count
        invariant
            ci <= count,
            6 <= count <= 31,
            count == spec_cluster_count(band_index as int),
            dist == distance_from_center + size / 2,
            dist <= 4000000,
            BAND_SIZE_MIN <= size <= BAND_SIZE_MAX,
            forall|j: int|
                0 <= j < stars@.len() ==> crate::world::star_wf(#[trigger] stars@[j]),
            forall|j: int| 0 <= j < len0 ==> stars@[j] == old(stars)@[j],
            len0 == old(stars)@.len(),
            stars@.len() >= len0 + ci,
            stars@.len() <= len0 + 5 * ci,
            rng.state == spec_band_state(s0, ci as int),
            stars@ == old(stars)@ + spec_band_stars(
                s0,
                dist as int,
                size as int,
                count as int,
                ci as int,
            ),
        decreases count - ci,
    {
        let ghost t = rng.state;
        let cu = turn_fraction(ci, count);
        let cx = scale_milli(sin_milli(cu), dist);
        let cy = scale_milli(cos_milli(cu), dist);
        proof {
            assert(cx == spec_cluster_center_x(dist as int, ci as int, count as int));
            assert(cy == spec_cluster_center_y(dist as int, ci as int, count as int));
        }
        let total_stars = rng.next_in_range(MIN_STARS_IN_CLUSTER, MAX_STARS_IN_CLUSTER);
        proof {
            assert(total_stars == spec_cluster_total(t));
            assert(rng.state == crate::rng::rng_state_after(t, 1)) by {
                reveal_with_fuel(crate::rng::rng_state_after, 2);
            }
        }
        let ghost sc = rng.state;
        let ghost stars_c = stars@;
        let ghost cluster_len0 = stars@.len();
        proof {
            assert(spec_cluster_stars(sc, cx as int, cy as int, size as int, total_stars as int, 0)
                =~= Seq::<Star>::empty()) by {
                reveal_with_fuel(spec_cluster_stars, 1);
            }
            assert(stars@ =~= stars_c + spec_cluster_stars(
                sc,
                cx as int,
                cy as int,
                size as int,
                total_stars as int,
                0,
            ));
            assert(rng.state == crate::rng::rng_state_after(sc, 0));
        }
        let mut si: u64 = 0;
        while si < total_stars
            invariant
                si <= total_stars,
                1 <= total_stars <= 5,
                dist <= 4000000,
                BAND_SIZE_MIN <= size <= BAND_SIZE_MAX,
                -4000000 <= cx <= 4000000,
                -4000000 <= cy <= 4000000,
                forall|j: int|
                    0 <= j < stars@.len() ==> crate::world::star_wf(#[trigger] stars@[j]),
                forall|j: int| 0 <= j < len0 ==> stars@[j] == old(stars)@[j],
                stars@.len() == cluster_len0 + si,
                cluster_len0 == stars_c.len(),
                len0 + ci <= cluster_len0 <= len0 + 5 * ci,
                rng.state == crate::rng::rng_state_after(sc, 13 * si),
                stars@ == stars_c + spec_cluster_stars(
                    sc,
                    cx as int,
                    cy as int,
                    size as int,
                    total_stars as int,
                    si as int,
                ),
            decreases total_stars - si,
        {
            let ghost ss = rng.state;
            let star_dist = rng.next_in_range(size / 10, size / 2);
            proof {
                crate::rng::lemma_rng_state_after_add(sc, 13 * si, 1);
                assert(rng.state == crate::rng::rng_state_after(sc, 13 * si + 1));
                assert(crate::rng::rng_state_after(ss, 1) == crate::rng::rng_state_after(
                    sc,
                    13 * si + 1,
                ));
            }
            let su = turn_fraction(si, total_stars);
            let ox = scale_milli(sin_milli(su), star_dist);
            let oy = scale_milli(cos_milli(su), star_dist);
            let x = cx + ox;
            let y = cy + oy;
            let star_size = sample_star_size(rng);
            proof {
                crate::rng::lemma_rng_state_after_add(sc, 13 * si + 1, 12);
                assert(rng.state == crate::rng::rng_state_after(sc, 13 * (si + 1)));
                assert(Star { x, y, size: star_size } == spec_cluster_star(
                    ss,
                    cx as int,
                    cy as int,
                    size as int,
                    si as int,
                    total_stars as int,
                ));
            }
            add_star(stars, Star { x, y, size: star_size });
            proof {
                assert(spec_cluster_stars(
                    sc,
                    cx as int,
                    cy as int,
                    size as int,
                    total_stars as int,
                    si + 1,
                ) == spec_cluster_stars(
                    sc,
                    cx as int,
                    cy as int,
                    size as int,
                    total_stars as int,
                    si as int,
                ).push(
                    spec_cluster_star(
                        crate::rng::rng_state_after(sc, 13 * si),
                        cx as int,
                        cy as int,
                        size as int,
                        si as int,
                        total_stars as int,
                    ),
                )) by {
                    reveal_with_fuel(spec_cluster_stars, 1);
                }
                assert(stars@ =~= stars_c + spec_cluster_stars(
                    sc,
                    cx as int,
                    cy as int,
                    size as int,
                    total_stars as int,
                    si + 1,
                ));
            }
            si = si + 1;
        }
        proof {
            crate::rng::lemma_rng_state_after_add(t, 1, 13 * total_stars);
            assert(spec_band_state(s0, ci + 1) == crate::rng::rng_state_after(
                t,
                1 + 13 * spec_cluster_total(t),
            )) by {
                reveal_with_fuel(spec_band_state, 1);
            }
            assert(rng.state == spec_band_state(s0, ci + 1));
            assert(spec_band_stars(s0, dist as int, size as int, count as int, ci + 1)
                == spec_band_stars(s0, dist as int, size as int, count as int, ci as int)
                + spec_cluster_stars(
                crate::rng::rng_state_after(t, 1),
                spec_cluster_center_x(dist as int, ci as int, count as int),
                spec_cluster_center_y(dist as int, ci as int, count as int),
                size as int,
                spec_cluster_total(t),
                spec_cluster_total(t),
            )) by {
                reveal_with_fuel(spec_band_stars, 1);
            }
            assert(stars@ =~= old(stars)@ + spec_band_stars(
                s0,
                dist as int,
                size as int,
                count as int,
                ci + 1,
            ));
        }
        ci = ci + 1;
    }
}

/// The total cluster count of the first `b` bands.
pub open spec fn spec_clusters_before(b: int) -> int
    decreases b,
{
    if b <= 0 {
        0
    } else {
        spec_clusters_before(b - 1) + spec_cluster_count(b - 1)
    }
}

/// The galaxy laid out from state `t` once the first inner radius has
/// been drawn as `inner`: the stars, the generator state and the outer
/// radius after the first `b` bands. Each band draws its width
/// (`[170, 200]` units), lays its clusters halfway into the band, then
/// draws the empty annulus (`[250, 500]` units) that follows it, so
/// consecutive bands are disjoint annuli at strictly growing radii.
#[verifier::opaque]
pub open spec fn spec_galaxy_upto(t: u64, inner: int, b: int) -> (Seq<Star>, u64, int)
    decreases b,
{
    if b <= 0 {
        (Seq::<Star>::empty(), t, inner)
    } else {
        let prev = spec_galaxy_upto(t, inner, b - 1);
        let width = 170000 + (crate::rng::rng_output(prev.1) as int) % 30001;
        let c = spec_cluster_count(b - 1);
        let after_width = crate::rng::rng_next_state(prev.1);
        let band = spec_band_stars(after_width, prev.2 + width / 2, width, c, c);
        let after_band = spec_band_state(after_width, c);
        let gap = 250000 + (crate::rng::rng_output(after_band) as int) % 250001;
        (prev.0 + band, crate::rng::rng_next_state(after_band), prev.2 + width + gap)
    }
}

/// Generate the galaxy: five concentric bands of clusters, separated by
/// empty annuli of random width. The result is the pointwise fold of
/// the generator's draws (`spec_galaxy_upto`); in particular every
/// star's size is within the generation bounds, every position within
/// the coordinate limit, and the five bands hold 94 clusters in all,
/// so between 94 and 470 stars come out. No star starts owned.
pub fn generate_bands(rng: &mut GameRng) -> (stars: Vec<Star>)
    ensures
        forall|j: int|
            0 <= j < stars@.len() ==> crate::world::star_wf(#[trigger] stars@[j]),
        94 <= stars@.len() <= 470,
        ({
            let first = 250000 + (crate::rng::rng_output(old(rng).state) as int) % 250001;
            let laid = spec_galaxy_upto(
                crate::rng::rng_next_state(old(rng).state),
                first,
                BAND_COUNT as int,
            );
            &&& stars@ == laid.0
            &&& final(rng).state == laid.1
        }),
{
    let ghost s_init = rng.state;
    let mut stars: Vec<Star> = Vec::new();
    let mut band_total: u64 = rng.next_in_range(EMPTY_AREA_SIZE_MIN, EMPTY_AREA_SIZE_MAX);
    let ghost t0 = rng.state;
    let ghost a0 = band_total as int;
    proof {
        assert(spec_galaxy_upto(t0, a0, 0) == (Seq::<Star>::empty(), t0, a0)) by {
            reveal_with_fuel(spec_galaxy_upto, 1);
        }
        assert(stars@ =~= spec_galaxy_upto(t0, a0, 0).0);
    }
    let mut index: u64 = 0;
    while index < BAND_COUNT
        invariant
            index <= BAND_COUNT,
            band_total <= 500000 + index * 700000,
            forall|j: int|
                0 <= j < stars@.len() ==> crate::world::star_wf(#[trigger] stars@[j]),
            stars@.len() >= spec_clusters_before(index as int),
            stars@.len() <= 5 * spec_clusters_before(index as int),
            stars@ == spec_galaxy_upto(t0, a0, index as int).0,
            rng.state == spec_galaxy_upto(t0, a0, index as int).1,
            band_total == spec_galaxy_upto(t0, a0, index as int).2,
        decreases BAND_COUNT - index,
    {
        let ghost tb = rng.state;
        let size = rng.next_in_range(BAND_SIZE_MIN, BAND_SIZE_MAX);
        let distance_from_center = band_total;
        band_total = band_total + size;
        generate_clusters_for_band(index, distance_from_center, size, rng, &mut stars);
        let ghost ub = rng.state;
        band_total = band_total + rng.next_in_range(EMPTY_AREA_SIZE_MIN, EMPTY_AREA_SIZE_MAX);
        proof {
            assert(spec_galaxy_upto(t0, a0, index + 1) == ({
                let prev = spec_galaxy_upto(t0, a0, index as int);
                let width = 170000 + (crate::rng::rng_output(prev.1) as int) % 30001;
                let c = spec_cluster_count(index as int);
                let after_width = crate::rng::rng_next_state(prev.1);
                let band = spec_band_stars(after_width, prev.2 + width / 2, width, c, c);
                let after_band = spec_band_state(after_width, c);
                let gap = 250000 + (crate::rng::rng_output(after_band) as int) % 250001;
                (prev.0 + band, crate::rng::rng_next_state(after_band), prev.2 + width + gap)
            })) by {
                reveal_with_fuel(spec_galaxy_upto, 1);
            }
            assert(stars@ =~= spec_galaxy_upto(t0, a0, index + 1).0);
            assert(rng.state == spec_galaxy_upto(t0, a0, index + 1).1);
            assert(band_total == spec_galaxy_upto(t0, a0, index + 1).2);
        }
        index = index + 1;
    }
    proof {
        assert(spec_clusters_before(0) == 0);
        assert(spec_clusters_before(1) == 6);
        assert(spec_clusters_before(2) == 19);
        assert(spec_clusters_before(3) == 38);
        assert(spec_clusters_before(4) == 63);
        assert(spec_clusters_before(5) == 94);
        assert(t0 == crate::rng::rng_next_state(s_init));
        assert(a0 == 250000 + (crate::rng::rng_output(s_init) as int) % 250001);
    }
    stars
}

} // verus!
