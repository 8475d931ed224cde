//! Tests for galaxy generation, player setup, the seeded generator and
//! the fixed-point helpers.

use star_conquest::cadence::Cadence;
use star_conquest::combat::isqrt;
use star_conquest::galaxy::{cluster_count, cos_milli, generate_bands, sample_star_size, sin_milli};
use star_conquest::rng::GameRng;
use star_conquest::text::decimal_string;
use star_conquest::world::World;

#[test]
fn cluster_counts_round_two_pi_per_band() {
    assert_eq!(cluster_count(0), 6);
    assert_eq!(cluster_count(1), 13);
    assert_eq!(cluster_count(2), 19);
    assert_eq!(cluster_count(3), 25);
    assert_eq!(cluster_count(4), 31);
}

#[test]
fn generated_star_sizes_and_counts_stay_in_bounds() {
    let mut rng = GameRng::from_seed(42);
    let stars = generate_bands(&mut rng);
    assert!(stars.len() >= 94, "at least one star per cluster");
    assert!(stars.len() <= 470, "at most five stars per cluster");
    for s in &stars {
        assert!(s.size >= 100 && s.size <= 10000, "size clamped to [0.1, 10.0]");
        assert!(s.x.abs() <= 4_100_000 && s.y.abs() <= 4_100_000);
    }
}

#[test]
fn generation_is_reproducible_from_its_seed() {
    let mut a = GameRng::from_seed(7);
    let mut b = GameRng::from_seed(7);
    let stars_a = generate_bands(&mut a);
    let stars_b = generate_bands(&mut b);
    assert_eq!(stars_a.len(), stars_b.len());
    for (x, y) in stars_a.iter().zip(stars_b.iter()) {
        assert_eq!((x.x, x.y, x.size), (y.x, y.y, y.size));
    }
}

#[test]
fn first_cluster_star_sits_on_the_vertical_axis() {
    let mut rng = GameRng::from_seed(5);
    let mut stars: Vec<star_conquest::world::Star> = Vec::new();
    let initial_state = rng.state;
    star_conquest::galaxy::generate_clusters_for_band(0, 300_000, 180_000, &mut rng, &mut stars);
    assert_ne!(rng.state, initial_state, "the pass consumes draws");
    assert!(stars.len() >= 6 && stars.len() <= 30, "six clusters of one to five stars");
    // Cluster 0 sits at angle zero, so its center is at (0, 390.0)
    // units; its first star is also at angle zero, pushed outward by a
    // radial offset of a tenth to a half of the band width.
    let dist: i64 = 300_000 + 180_000 / 2;
    assert_eq!(stars[0].x, 0);
    assert!(stars[0].y >= dist + 18_000 && stars[0].y <= dist + 90_000);
}

#[test]
fn sampled_sizes_are_clamped() {
    let mut rng = GameRng::from_seed(1);
    for _ in 0..200 {
        let s = sample_star_size(&mut rng);
        assert!((100..=10000).contains(&s));
    }
}

#[test]
fn players_are_created_with_names_and_one_human() {
    let mut rng = GameRng::from_seed(3);
    let mut w = World::from_stars(vec![
        star_conquest::world::Star { x: 0, y: 0, size: 2000 },
        star_conquest::world::Star { x: 10000, y: 0, size: 2000 },
        star_conquest::world::Star { x: 0, y: 10000, size: 2000 },
    ]);
    w.generate_players(&mut rng, 3);
    assert_eq!(w.players.len(), 4);
    assert_eq!(w.players[0].name.as_str(), "AI: 1");
    assert_eq!(w.players[1].name.as_str(), "AI: 2");
    assert_eq!(w.players[2].name.as_str(), "AI: 3");
    assert_eq!(w.players[3].name.as_str(), "You");
    for (i, p) in w.players.iter().enumerate() {
        assert_eq!(p.is_human, i == 3, "exactly the last player is human");
        assert!(p.color.red <= 1000 && p.color.green <= 1000 && p.color.blue <= 1000);
    }
    let owned = w.owned_by.iter().filter(|o| o.is_some()).count();
    assert!(owned >= 1 && owned <= 3, "every start lands on one of the three stars");
}

#[test]
fn assigned_start_is_a_real_star() {
    let mut rng = GameRng::from_seed(11);
    let mut w = World::from_stars(vec![star_conquest::world::Star { x: 0, y: 0, size: 2000 }]);
    w.generate_players(&mut rng, 5);
    // With one star, all six players drew it; the last draw sticks.
    assert_eq!(w.owned_by[0], Some(star_conquest::world::OwnedBy { player: 5 }));
}

#[test]
fn rng_is_deterministic_and_in_range() {
    let mut a = GameRng::from_seed(99);
    let mut b = GameRng::from_seed(99);
    for _ in 0..100 {
        assert_eq!(a.next_u64(), b.next_u64());
    }
    let mut c = GameRng::from_seed(5);
    for _ in 0..1000 {
        let v = c.next_in_range(10, 17);
        assert!((10..=17).contains(&v));
    }
}

#[test]
fn rng_seeds_differ() {
    let mut a = GameRng::from_seed(1);
    let mut b = GameRng::from_seed(2);
    assert_ne!(a.next_u64(), b.next_u64());
}

#[test]
fn decimal_strings_render_exactly() {
    assert_eq!(decimal_string(0).as_str(), "0");
    assert_eq!(decimal_string(7).as_str(), "7");
    assert_eq!(decimal_string(10).as_str(), "10");
    assert_eq!(decimal_string(12345).as_str(), "12345");
    assert_eq!(decimal_string(u64::MAX).as_str(), "18446744073709551615");
}

#[test]
fn fixed_point_sine_hits_the_cardinal_points() {
    assert_eq!(sin_milli(0), 0);
    assert_eq!(sin_milli(3000), 500, "thirty degrees");
    assert_eq!(sin_milli(9000), 1000, "ninety degrees");
    assert_eq!(sin_milli(18000), 0);
    assert_eq!(sin_milli(27000), -1000);
    assert_eq!(cos_milli(0), 1000);
    assert_eq!(cos_milli(9000), 0);
    assert_eq!(cos_milli(18000), -1000);
}

#[test]
fn integer_square_roots() {
    assert_eq!(isqrt(0), 0);
    assert_eq!(isqrt(1), 1);
    assert_eq!(isqrt(3), 1);
    assert_eq!(isqrt(4), 2);
    assert_eq!(isqrt(999_999), 999);
    assert_eq!(isqrt(1_000_000), 1000);
    assert_eq!(isqrt(u64::MAX), 4294967295);
}

#[test]
fn cadence_fires_on_accumulated_periods() {
    let mut c = Cadence::new(500);
    assert_eq!(c.advance(16), 0);
    assert_eq!(c.advance(484), 1);
    assert_eq!(c.acc_ms, 0);
    assert_eq!(c.advance(1200), 2);
    assert_eq!(c.acc_ms, 200);
}
