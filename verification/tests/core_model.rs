use ant_colony::geometry::{Vec2i, Rect, collide, sin_milli, cos_milli, norm_heading};
use ant_colony::rng::RandomStream;
use ant_colony::stimulant::{Pheromone, PheromoneType, Food, deposit, pheromone_lifecycle};
use ant_colony::sensor::{Sensor, SensorPosition, update_sensor};
use ant_colony::ant::{Ant, AntState};

fn rect(cx: i64, cy: i64, hx: i64, hy: i64) -> Rect {
    Rect { center: Vec2i { x: cx, y: cy }, half: Vec2i { x: hx, y: hy } }
}

#[test]
fn overlap_basic_and_touching() {
    // Clear overlap.
    assert!(collide(&rect(0, 0, 10_000, 10_000), &rect(5_000, 5_000, 10_000, 10_000)));
    // Touching edges count as overlap (inclusive bounds).
    assert!(collide(&rect(0, 0, 10_000, 10_000), &rect(20_000, 0, 10_000, 10_000)));
    // One unit beyond touching: no overlap.
    assert!(!collide(&rect(0, 0, 10_000, 10_000), &rect(20_001, 0, 10_000, 10_000)));
}

#[test]
fn overlap_degenerate_footprint_never_hits() {
    // A zero-size footprint overlaps nothing, not even a coincident rect.
    assert!(!collide(&rect(0, 0, 0, 10_000), &rect(0, 0, 10_000, 10_000)));
    assert!(!collide(&rect(0, 0, 10_000, 10_000), &rect(0, 0, 10_000, 0)));
}

#[test]
fn direction_model_spot_values() {
    assert_eq!(sin_milli(0), 0);
    assert_eq!(sin_milli(45_000), 500);
    assert_eq!(sin_milli(90_000), 1000);
    assert_eq!(sin_milli(180_000), 0);
    assert_eq!(sin_milli(270_000), -1000);
    assert_eq!(cos_milli(0), 1000);
    assert_eq!(cos_milli(90_000), 0);
    assert_eq!(cos_milli(180_000), -1000);
}

#[test]
fn heading_normalization() {
    assert_eq!(norm_heading(-1), 359_999);
    assert_eq!(norm_heading(360_000), 0);
    assert_eq!(norm_heading(359_999), 359_999);
    assert_eq!(norm_heading(500_000), 140_000);
}

#[test]
fn stream_draw_in_range_is_identity() {
    let vals: Vec<i64> = vec![-3, 0, 50_000, -50_000];
    let mut s = RandomStream::from_values(&vals);
    assert_eq!(s.draw(-50_000, 50_000), -3);
    assert_eq!(s.draw(-50_000, 50_000), 0);
    assert_eq!(s.draw(-50_000, 50_000), 50_000);
    assert_eq!(s.draw(-50_000, 50_000), -50_000);
}

#[test]
fn stream_draw_out_of_range_folds_deterministically() {
    let vals: Vec<i64> = vec![60_000, 60_000];
    let mut a = RandomStream::from_values(&vals);
    let mut b = RandomStream::from_values(&vals);
    let x = a.draw(-50_000, 50_000);
    // 60_000 folds to -50_000 + ((60_000 + 50_000) % 100_001) = -40_001.
    assert_eq!(x, -40_001);
    assert_eq!(b.draw(-50_000, 50_000), x);
}

#[test]
fn stream_exhausted_reads_as_zero_raw() {
    let vals: Vec<i64> = vec![];
    let mut s = RandomStream::from_values(&vals);
    assert_eq!(s.draw(-50_000, 50_000), 0);
    assert_eq!(s.draw(0, 359_999), 0);
}

#[test]
fn stream_from_values_clamps_raw_bound() {
    let vals: Vec<i64> = vec![2_000_000, -2_000_000];
    let s = RandomStream::from_values(&vals);
    assert_eq!(s.values[0], 1_000_000);
    assert_eq!(s.values[1], -1_000_000);
}

#[test]
fn stream_from_entropy_respects_raw_bound() {
    let s = RandomStream::from_entropy(64);
    assert_eq!(s.values.len(), 64);
    for v in &s.values {
        assert!(-1_000_000 <= *v && *v <= 1_000_000);
    }
}

#[test]
fn marker_intensity_exact_linear_decay() {
    let mut ph: Vec<Pheromone> = Vec::new();
    assert!(deposit(&mut ph, PheromoneType::FoodMarker, Vec2i { x: 0, y: 0 }));
    assert_eq!(ph[0].intensity(), 1000);
    pheromone_lifecycle(&mut ph, 1000);
    // 1000 - 1000 * 1000 / 30_000 = 1000 - 33.
    assert_eq!(ph[0].intensity(), 967);
    pheromone_lifecycle(&mut ph, 1000);
    assert_eq!(ph[0].intensity(), 934);
}

#[test]
fn marker_intensity_monotone_and_expires_exactly() {
    let mut ph: Vec<Pheromone> = Vec::new();
    assert!(deposit(&mut ph, PheromoneType::HomeMarker, Vec2i { x: 0, y: 0 }));
    let mut last: i64 = ph[0].intensity();
    for tick in 1..=30u64 {
        pheromone_lifecycle(&mut ph, 1000);
        if tick < 30 {
            let now = ph[0].intensity();
            assert!(now <= last, "intensity must never increase");
            assert!(now > 0, "alive marker reads positive");
            last = now;
        } else {
            // Aged to its full lifetime: removed from the store.
            assert_eq!(ph.len(), 0);
        }
    }
}

#[test]
fn decay_by_zero_elapsed_time_changes_nothing() {
    let mut ph: Vec<Pheromone> = Vec::new();
    assert!(deposit(&mut ph, PheromoneType::FoodMarker, Vec2i { x: 7_000, y: -2_000 }));
    let before = ph.clone();
    pheromone_lifecycle(&mut ph, 0);
    assert_eq!(ph, before);
    assert_eq!(ph[0].intensity(), 1000);
}

#[test]
fn deposit_rejects_out_of_world_position() {
    let mut ph: Vec<Pheromone> = Vec::new();
    assert!(!deposit(&mut ph, PheromoneType::FoodMarker, Vec2i { x: 1_000_000_001, y: 0 }));
    assert_eq!(ph.len(), 0);
    // The boundary itself is accepted.
    assert!(deposit(&mut ph, PheromoneType::FoodMarker, Vec2i { x: 1_000_000_000, y: 0 }));
    assert_eq!(ph.len(), 1);
}

fn fresh_ant() -> Ant {
    Ant::new(0, Vec2i { x: 0, y: 0 }, 0)
}

#[test]
fn sensing_sums_matching_flavor_only() {
    let mut a = fresh_ant();
    // Center sensor at heading 0 samples [-50k, 50k] x [100k, 200k].
    let ph: Vec<Pheromone> = vec![
        Pheromone { ptype: PheromoneType::FoodMarker, pos: Vec2i { x: 0, y: 150_000 }, age_ms: 0 },
        Pheromone { ptype: PheromoneType::HomeMarker, pos: Vec2i { x: 0, y: 150_000 }, age_ms: 0 },
        Pheromone {
            ptype: PheromoneType::FoodMarker,
            pos: Vec2i { x: 0, y: 400_000 },
            age_ms: 0,
        },
    ];
    let foods: Vec<Food> = Vec::new();
    update_sensor(&mut a, &ph, &foods);
    // A foraging ant senses the food trail: one matching marker in
    // reach, the home marker and the far marker contribute nothing.
    assert_eq!(a.center.intensity, 1000);

    let mut b = fresh_ant();
    b.state = AntState::ReturningHome;
    update_sensor(&mut b, &ph, &foods);
    // A returning ant senses the home trail instead.
    assert_eq!(b.center.intensity, 1000);
    // Flavors swap, so the readings came from different markers:
    // empty the home marker out and the returning ant reads zero.
    let only_food: Vec<Pheromone> = vec![ph[0], ph[2]];
    let mut c = fresh_ant();
    c.state = AntState::ReturningHome;
    update_sensor(&mut c, &only_food, &foods);
    assert_eq!(c.center.intensity, 0);
}

#[test]
fn sensing_adds_raw_food_bonus_while_foraging() {
    let mut a = fresh_ant();
    let ph: Vec<Pheromone> = Vec::new();
    let foods: Vec<Food> = vec![Food { pos: Vec2i { x: 0, y: 150_000 } }];
    update_sensor(&mut a, &ph, &foods);
    assert_eq!(a.center.intensity, 100_000);
    assert_eq!(a.left.intensity, 0);
    assert_eq!(a.right.intensity, 0);

    // The bonus is for foragers only.
    let mut b = fresh_ant();
    b.state = AntState::ReturningHome;
    update_sensor(&mut b, &ph, &foods);
    assert_eq!(b.center.intensity, 0);
}

#[test]
fn sensor_mounts_are_fixed() {
    let s = Sensor::new(SensorPosition::Left);
    assert_eq!(s.intensity, 0);
    assert!(matches!(s.positioning, SensorPosition::Left));
    let a = fresh_ant();
    assert!(matches!(a.left.positioning, SensorPosition::Left));
    assert!(matches!(a.right.positioning, SensorPosition::Right));
    assert!(matches!(a.center.positioning, SensorPosition::Center));
}
