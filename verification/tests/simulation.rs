//! Tests for the running simulation: economy, dispatch, AI targeting,
//! combat resolution and scoring.

use star_conquest::combat::resolve_fleets;
use star_conquest::score::Outcome;
use star_conquest::world::{AttachedFleet, Color, Fleet, FlyTo, OwnedBy, Player, Star, World};

fn player(name: &str, is_human: bool) -> Player {
    Player {
        name: name.to_string(),
        is_human,
        color: Color { red: 500, green: 500, blue: 500 },
    }
}

/// A world with two stars, two players (human then AI), both stars
/// owned and garrisoned.
fn two_star_world(human_size: u64, ai_size: u64, distance: i64) -> World {
    World {
        stars: vec![
            Star { x: 0, y: 0, size: 2000 },
            Star { x: distance, y: 0, size: 2000 },
        ],
        players: vec![player("You", true), player("AI: 1", false)],
        owned_by: vec![Some(OwnedBy { player: 0 }), Some(OwnedBy { player: 1 })],
        attached_fleet: vec![
            Some(AttachedFleet { fleet_id: 0 }),
            Some(AttachedFleet { fleet_id: 1 }),
        ],
        fleets: vec![
            Fleet { player: 0, size: human_size },
            Fleet { player: 1, size: ai_size },
        ],
        flights: vec![],
    }
}

#[test]
fn growth_adds_a_tenth_of_star_size() {
    let mut w = two_star_world(1000, 0, 100000);
    w.grow_fleets();
    assert_eq!(w.fleets[0].size, 1200);
    assert_eq!(w.fleets[1].size, 200);
    w.grow_fleets();
    assert_eq!(w.fleets[0].size, 1400);
}

#[test]
fn growth_is_strictly_increasing_over_ticks() {
    let mut w = two_star_world(0, 0, 100000);
    let mut last = w.fleets[0].size;
    for _ in 0..10 {
        w.grow_fleets();
        assert!(w.fleets[0].size > last);
        last = w.fleets[0].size;
    }
}

#[test]
fn growth_skips_unowned_stars() {
    let mut w = two_star_world(500, 500, 100000);
    w.owned_by[1] = None;
    w.attached_fleet[1] = None;
    w.fleets.pop();
    w.grow_fleets();
    assert_eq!(w.fleets.len(), 1);
    assert_eq!(w.fleets[0].size, 700);
}

#[test]
fn lazy_attachment_creates_one_zero_fleet() {
    let mut w = two_star_world(100, 100, 100000);
    w.stars.push(Star { x: 50000, y: 0, size: 3000 });
    w.owned_by.push(Some(OwnedBy { player: 1 }));
    w.attached_fleet.push(None);
    w.attach_new_fleets();
    assert_eq!(w.fleets.len(), 3);
    assert_eq!(w.attached_fleet[2], Some(AttachedFleet { fleet_id: 2 }));
    assert_eq!(w.fleets[2], Fleet { player: 1, size: 0 });
}

#[test]
fn lazy_attachment_is_idempotent() {
    let mut w = two_star_world(100, 100, 100000);
    w.stars.push(Star { x: 50000, y: 0, size: 3000 });
    w.owned_by.push(Some(OwnedBy { player: 0 }));
    w.attached_fleet.push(None);
    w.attach_fleet_if_missing(2);
    let fleets_after_one = w.fleets.len();
    let attached_after_one = w.attached_fleet[2];
    w.attach_fleet_if_missing(2);
    assert_eq!(w.fleets.len(), fleets_after_one);
    assert_eq!(w.attached_fleet[2], attached_after_one);
    w.attach_new_fleets();
    w.attach_new_fleets();
    assert_eq!(w.fleets.len(), fleets_after_one);
}

#[test]
fn lazy_attachment_leaves_unowned_stars_alone() {
    let mut w = two_star_world(100, 100, 100000);
    w.stars.push(Star { x: 50000, y: 0, size: 3000 });
    w.owned_by.push(None);
    w.attached_fleet.push(None);
    w.attach_new_fleets();
    assert_eq!(w.fleets.len(), 2);
    assert_eq!(w.attached_fleet[2], None);
}

#[test]
fn dispatch_conserves_and_halves() {
    let mut w = two_star_world(10000, 4000, 100000);
    w.dispatch(0, 1);
    assert_eq!(w.fleets[0].size, 5000);
    assert_eq!(w.flights.len(), 1);
    assert_eq!(w.flights[0].fleet, Fleet { player: 0, size: 5000 });
    assert_eq!(
        w.flights[0].fly_to,
        FlyTo { origin_star: 0, destination_star: 1 }
    );
    assert_eq!((w.flights[0].x, w.flights[0].y), (0, 0));
}

#[test]
fn dispatch_of_odd_size_loses_nothing() {
    let mut w = two_star_world(10001, 0, 100000);
    w.dispatch(0, 1);
    assert_eq!(w.flights[0].fleet.size, 5000);
    assert_eq!(w.fleets[0].size, 5001);
    assert_eq!(w.fleets[0].size + w.flights[0].fleet.size, 10001);
}

#[test]
fn dispatch_of_zero_fleet_is_legal() {
    let mut w = two_star_world(0, 0, 100000);
    w.dispatch(0, 1);
    assert_eq!(w.fleets[0].size, 0);
    assert_eq!(w.flights[0].fleet.size, 0);
}

#[test]
fn combat_attrition_conserves_difference() {
    let out = resolve_fleets(Fleet { player: 0, size: 5000 }, Fleet { player: 1, size: 3000 });
    assert_eq!(out, Fleet { player: 0, size: 2000 });
}

#[test]
fn combat_equal_sizes_leave_owner_in_place() {
    let out = resolve_fleets(Fleet { player: 0, size: 3000 }, Fleet { player: 1, size: 3000 });
    assert_eq!(out, Fleet { player: 0, size: 0 });
}

#[test]
fn combat_flip_hands_over_the_remainder() {
    let out = resolve_fleets(Fleet { player: 0, size: 3000 }, Fleet { player: 1, size: 5000 });
    assert_eq!(out, Fleet { player: 1, size: 2000 });
    assert!(out.size > 0);
}

#[test]
fn combat_reinforcement_adds_exactly() {
    let out = resolve_fleets(Fleet { player: 2, size: 4000 }, Fleet { player: 2, size: 2500 });
    assert_eq!(out, Fleet { player: 2, size: 6500 });
}

#[test]
fn end_to_end_dispatch_flight_and_flip() {
    // Human star A (fleet 10.0), AI star B (fleet 4.0), 2.0 units apart:
    // one flight tick covers a step of about 1.667 units, leaving the
    // flight inside the 1.0-unit arrival radius.
    let mut w = two_star_world(10000, 4000, 2000);
    w.dispatch(0, 1);
    assert_eq!(w.fleets[0].size, 5000);
    assert_eq!(w.flights[0].fleet.size, 5000);
    w.flight_tick();
    assert_eq!(w.flights.len(), 0, "the flight resolves after one tick");
    assert_eq!(w.owned_by[1], Some(OwnedBy { player: 0 }), "B flips to the human");
    assert_eq!(w.fleets[1], Fleet { player: 0, size: 1000 });
}

#[test]
fn distant_flight_keeps_flying() {
    let mut w = two_star_world(10000, 4000, 100000);
    w.dispatch(0, 1);
    w.flight_tick();
    assert_eq!(w.flights.len(), 1);
    assert_eq!(w.flights[0].x, 1666);
    assert_eq!(w.flights[0].y, 0);
    assert_eq!(w.owned_by[1], Some(OwnedBy { player: 1 }));
}

#[test]
fn arrival_at_virgin_star_captures_it() {
    let mut w = two_star_world(10000, 0, 2000);
    w.owned_by[1] = None;
    w.attached_fleet[1] = None;
    w.fleets.pop();
    w.dispatch(0, 1);
    w.flight_tick();
    assert_eq!(w.owned_by[1], Some(OwnedBy { player: 0 }));
    assert_eq!(w.attached_fleet[1], None, "the fleet only appears on the next attachment pass");
    w.attach_new_fleets();
    assert_eq!(w.attached_fleet[1], Some(AttachedFleet { fleet_id: 1 }));
    assert_eq!(w.fleets[1], Fleet { player: 0, size: 0 });
}

#[test]
fn arrival_attrition_leaves_owner_in_place() {
    let mut w = two_star_world(10000, 9000, 2000);
    w.dispatch(0, 1);
    w.flight_tick();
    assert_eq!(w.owned_by[1], Some(OwnedBy { player: 1 }), "9.0 holds against 5.0");
    assert_eq!(w.fleets[1], Fleet { player: 1, size: 4000 });
}

#[test]
fn growth_saturates_at_the_integer_limit() {
    let mut w = two_star_world(u64::MAX - 50, 0, 100000);
    w.grow_fleets();
    assert_eq!(w.fleets[0].size, u64::MAX);
}

#[test]
fn reinforcement_saturates_at_the_integer_limit() {
    let out = resolve_fleets(
        Fleet { player: 0, size: u64::MAX - 10 },
        Fleet { player: 0, size: 100 },
    );
    assert_eq!(out, Fleet { player: 0, size: u64::MAX });
}

#[test]
fn ai_prefers_neutral_over_its_own_star() {
    // S owned by AI player 0; O (closer) also owned by player 0; N
    // (farther) neutral. The AI must pick N, never O.
    let w = World {
        stars: vec![
            Star { x: 0, y: 0, size: 2000 },
            Star { x: 10000, y: 0, size: 2000 },
            Star { x: 20000, y: 0, size: 2000 },
        ],
        players: vec![player("AI: 1", false)],
        owned_by: vec![Some(OwnedBy { player: 0 }), Some(OwnedBy { player: 0 }), None],
        attached_fleet: vec![Some(AttachedFleet { fleet_id: 0 }), None, None],
        fleets: vec![Fleet { player: 0, size: 4000 }],
        flights: vec![],
    };
    assert_eq!(w.select_target(0), Some(2));
}

#[test]
fn ai_picks_nearest_enemy_with_first_index_tie_break() {
    let w = World {
        stars: vec![
            Star { x: 0, y: 0, size: 2000 },
            Star { x: 5000, y: 0, size: 2000 },
            Star { x: -5000, y: 0, size: 2000 },
        ],
        players: vec![player("AI: 1", false), player("You", true)],
        owned_by: vec![
            Some(OwnedBy { player: 0 }),
            Some(OwnedBy { player: 1 }),
            Some(OwnedBy { player: 1 }),
        ],
        attached_fleet: vec![Some(AttachedFleet { fleet_id: 0 }), None, None],
        fleets: vec![Fleet { player: 0, size: 4000 }],
        flights: vec![],
    };
    assert_eq!(w.select_target(0), Some(1), "equal distances fall to the first index");
}

#[test]
fn ai_with_no_eligible_target_stays_put() {
    let w = World {
        stars: vec![
            Star { x: 0, y: 0, size: 2000 },
            Star { x: 10000, y: 0, size: 2000 },
        ],
        players: vec![player("AI: 1", false)],
        owned_by: vec![Some(OwnedBy { player: 0 }), Some(OwnedBy { player: 0 })],
        attached_fleet: vec![Some(AttachedFleet { fleet_id: 0 }), None],
        fleets: vec![Fleet { player: 0, size: 4000 }],
        flights: vec![],
    };
    assert_eq!(w.select_target(0), None);
}

#[test]
fn ai_tick_dispatches_only_for_non_human_stars() {
    let mut w = two_star_world(10000, 4000, 100000);
    w.ai_tick();
    assert_eq!(w.flights.len(), 1, "only the AI star dispatches");
    assert_eq!(w.flights[0].fleet, Fleet { player: 1, size: 2000 });
    assert_eq!(
        w.flights[0].fly_to,
        FlyTo { origin_star: 1, destination_star: 0 }
    );
    assert_eq!(w.fleets[1].size, 2000);
    assert_eq!(w.fleets[0].size, 10000, "the human fleet is untouched");
}

#[test]
fn star_counts_and_outcomes() {
    let mut w = two_star_world(100, 100, 100000);
    assert_eq!(w.star_count(0), 1);
    assert_eq!(w.star_count(1), 1);
    assert_eq!(w.victory_status(0), Outcome::Playing);
    w.owned_by[0] = None;
    assert_eq!(w.victory_status(0), Outcome::Defeat);
    w.owned_by[0] = Some(OwnedBy { player: 0 });
    w.owned_by[1] = Some(OwnedBy { player: 0 });
    assert_eq!(w.star_count(0), 2);
    assert_eq!(w.victory_status(0), Outcome::Victory, "two of two stars is above four fifths");
}

#[test]
fn victory_needs_more_than_four_fifths() {
    let mut w = World {
        stars: vec![],
        players: vec![player("You", true)],
        owned_by: vec![],
        attached_fleet: vec![],
        fleets: vec![],
        flights: vec![],
    };
    for i in 0..5 {
        w.stars.push(Star { x: 1000 * i, y: 0, size: 2000 });
        w.owned_by.push(Some(OwnedBy { player: 0 }));
        w.attached_fleet.push(None);
    }
    w.owned_by[4] = None;
    assert_eq!(w.victory_status(0), Outcome::Playing, "four of five is exactly four fifths");
    w.owned_by[4] = Some(OwnedBy { player: 0 });
    assert_eq!(w.victory_status(0), Outcome::Victory);
}
