use ant_colony::geometry::Vec2i;
use ant_colony::rng::RandomStream;
use ant_colony::stimulant::PheromoneType;
use ant_colony::ant::{Ant, AntState, steer_ant, integrate_motion};
use ant_colony::world::World;

fn empty_stream() -> RandomStream {
    let vals: Vec<i64> = Vec::new();
    RandomStream::from_values(&vals)
}

fn world_with_colony_at(cx: i64, cy: i64) -> World {
    let mut w = World::new();
    let mut s = empty_stream();
    w.spawn_colony(Vec2i { x: cx, y: cy }, 0, &mut s);
    w
}

#[test]
fn pickup_scenario_consumes_food_without_credit() {
    // Ant at the origin, a single food item within pickup radius,
    // the colony far away: after one tick the food item is gone,
    // the ant is returning home, and the food store is untouched —
    // credit only happens at colony overlap.
    let mut w = world_with_colony_at(500_000_000, 0);
    w.ants.push(Ant::new(0, Vec2i { x: 0, y: 0 }, 0));
    assert!(w.place_food(Vec2i { x: 4_000, y: 0 }));
    let mut s = empty_stream();
    w.tick(16, &mut s);
    assert_eq!(w.foods.len(), 0);
    assert!(matches!(w.ants[0].state, AntState::ReturningHome));
    assert_eq!(w.colonies[0].food_store, 0);
}

#[test]
fn drop_off_scenario_credits_exactly_one() {
    // A returning ant standing on its colony's footprint: the store
    // goes up by exactly 1 and the ant forages again.
    let mut w = world_with_colony_at(0, 0);
    let mut a = Ant::new(0, Vec2i { x: 0, y: 0 }, 0);
    a.state = AntState::ReturningHome;
    w.ants.push(a);
    let mut s = empty_stream();
    w.tick(16, &mut s);
    assert_eq!(w.colonies[0].food_store, 1);
    assert!(matches!(w.ants[0].state, AntState::Foraging));
}

#[test]
fn no_overlap_means_no_transition() {
    let mut w = world_with_colony_at(500_000_000, 0);
    w.ants.push(Ant::new(0, Vec2i { x: 0, y: 0 }, 0));
    assert!(w.place_food(Vec2i { x: 100_000, y: 0 }));
    let mut s = empty_stream();
    w.tick(16, &mut s);
    // Food out of pickup reach: still there, ant still foraging.
    assert_eq!(w.foods.len(), 1);
    assert!(matches!(w.ants[0].state, AntState::Foraging));
}

#[test]
fn one_food_feeds_at_most_one_ant() {
    // Two ants stand on the same single food item; only the first
    // in arena order consumes it, and only that ant transitions.
    let mut w = world_with_colony_at(500_000_000, 0);
    w.ants.push(Ant::new(0, Vec2i { x: 0, y: 0 }, 0));
    w.ants.push(Ant::new(0, Vec2i { x: 1_000, y: 0 }, 0));
    assert!(w.place_food(Vec2i { x: 0, y: 0 }));
    let mut s = empty_stream();
    w.tick(16, &mut s);
    assert_eq!(w.foods.len(), 0);
    assert!(matches!(w.ants[0].state, AntState::ReturningHome));
    assert!(matches!(w.ants[1].state, AntState::Foraging));
}

#[test]
fn dangling_colony_reference_is_skipped() {
    // A returning ant whose colony index points nowhere: the tick
    // is a no-op for it rather than a crash, and nothing is
    // credited anywhere.
    let mut w = world_with_colony_at(0, 0);
    let mut a = Ant::new(7, Vec2i { x: 0, y: 0 }, 0);
    a.state = AntState::ReturningHome;
    w.ants.push(a);
    let mut s = empty_stream();
    w.tick(16, &mut s);
    assert!(matches!(w.ants[0].state, AntState::ReturningHome));
    assert_eq!(w.colonies[0].food_store, 0);
}

#[test]
fn steering_tie_between_left_and_right_goes_left() {
    // Two identical side intensities above the center: the fixed
    // priority order favors Left, so the ant turns left (heading
    // grows), and identical inputs steer identically every run.
    let mut a = Ant::new(0, Vec2i { x: 0, y: 0 }, 0);
    a.left.intensity = 500;
    a.right.intensity = 500;
    a.center.intensity = 0;
    let mut b = a;
    let mut s1 = empty_stream();
    let mut s2 = empty_stream();
    let used1 = steer_ant(&mut a, &mut s1, 16);
    let used2 = steer_ant(&mut b, &mut s2, 16);
    assert!(!used1 && !used2);
    assert_eq!(a.heading_mdeg, 120 * 16);
    assert_eq!(a.heading_mdeg, b.heading_mdeg);
    assert_eq!(a.rotation_bias, 0);
}

#[test]
fn steering_center_wins_all_ties() {
    let mut a = Ant::new(0, Vec2i { x: 0, y: 0 }, 90_000);
    a.left.intensity = 500;
    a.right.intensity = 500;
    a.center.intensity = 500;
    let mut s = empty_stream();
    steer_ant(&mut a, &mut s, 16);
    // Center means straight ahead: no turn at all.
    assert_eq!(a.heading_mdeg, 90_000);
}

#[test]
fn steering_right_when_strictly_strongest() {
    let mut a = Ant::new(0, Vec2i { x: 0, y: 0 }, 0);
    a.right.intensity = 700;
    a.left.intensity = 300;
    let mut s = empty_stream();
    steer_ant(&mut a, &mut s, 16);
    assert_eq!(a.heading_mdeg, 360_000 - 120 * 16);
}

#[test]
fn random_walk_trajectory_is_exact_and_clamped() {
    // No sensor signal: steering is the random-walk fallback, and a
    // scripted stream reproduces the exact bias/heading trajectory.
    let vals: Vec<i64> = vec![10_000, 50_000, -30_000];
    let mut s = RandomStream::from_values(&vals);
    let mut a = Ant::new(0, Vec2i { x: 0, y: 0 }, 0);
    let dt: u64 = 1000;

    assert!(steer_ant(&mut a, &mut s, dt));
    assert_eq!(a.rotation_bias, 10_000);
    assert_eq!(a.heading_mdeg, 20_000);

    assert!(steer_ant(&mut a, &mut s, dt));
    // 10_000 + 50_000 clamps to the 45_000 bias limit.
    assert_eq!(a.rotation_bias, 45_000);
    assert_eq!(a.heading_mdeg, 110_000);

    assert!(steer_ant(&mut a, &mut s, dt));
    assert_eq!(a.rotation_bias, 15_000);
    assert_eq!(a.heading_mdeg, 140_000);
}

#[test]
fn random_walk_bias_never_leaves_range() {
    let mut s = RandomStream::from_entropy(200);
    let mut a = Ant::new(0, Vec2i { x: 0, y: 0 }, 0);
    for _ in 0..200 {
        steer_ant(&mut a, &mut s, 1000);
        assert!(-45_000 <= a.rotation_bias && a.rotation_bias <= 45_000);
        assert!(0 <= a.heading_mdeg && a.heading_mdeg < 360_000);
    }
}

#[test]
fn movement_integration_follows_heading() {
    // Heading 0 faces +y; one second at fixed speed moves 20_000
    // milli-units.
    let mut a = Ant::new(0, Vec2i { x: 0, y: 0 }, 0);
    integrate_motion(&mut a, 1000);
    assert_eq!(a.pos, Vec2i { x: 0, y: 20_000 });
    // Heading 90 degrees turns the forward vector to -x.
    let mut b = Ant::new(0, Vec2i { x: 0, y: 0 }, 90_000);
    integrate_motion(&mut b, 1000);
    assert_eq!(b.pos, Vec2i { x: -20_000, y: 0 });
}

#[test]
fn deposition_fires_on_interval_and_tags_by_state() {
    let mut w = world_with_colony_at(500_000_000, 0);
    w.ants.push(Ant::new(0, Vec2i { x: 0, y: 0 }, 0));
    let mut carrying = Ant::new(0, Vec2i { x: 300_000, y: 0 }, 0);
    carrying.state = AntState::ReturningHome;
    w.ants.push(carrying);
    let mut s = empty_stream();
    // One full interval in a single tick: both ants lay a marker.
    w.tick(500, &mut s);
    assert_eq!(w.pheromones.len(), 2);
    assert!(matches!(w.pheromones[0].ptype, PheromoneType::HomeMarker));
    assert!(matches!(w.pheromones[1].ptype, PheromoneType::FoodMarker));
    assert_eq!(w.deposit_timer_ms, 0);
    // A short tick only advances the timer.
    w.tick(100, &mut s);
    assert_eq!(w.pheromones.len(), 2);
    assert_eq!(w.deposit_timer_ms, 100);
}

#[test]
fn spawning_populates_colony_with_foragers() {
    let mut w = World::new();
    let vals: Vec<i64> = vec![0, 90_000, 180_000];
    let mut s = RandomStream::from_values(&vals);
    w.spawn_colony(Vec2i { x: 1_000, y: 2_000 }, 3, &mut s);
    assert_eq!(w.colonies.len(), 1);
    assert_eq!(w.colonies[0].food_store, 0);
    assert_eq!(w.ants.len(), 3);
    for a in &w.ants {
        assert!(matches!(a.state, AntState::Foraging));
        assert_eq!(a.colony, 0);
        assert_eq!(a.pos, Vec2i { x: 1_000, y: 2_000 });
    }
    // Headings come straight off the scripted stream.
    assert_eq!(w.ants[0].heading_mdeg, 0);
    assert_eq!(w.ants[1].heading_mdeg, 90_000);
    assert_eq!(w.ants[2].heading_mdeg, 180_000);
}

#[test]
fn identical_streams_give_identical_runs() {
    let vals: Vec<i64> = vec![5, -40_000, 33_000, 990_000, -17, 250_000, 44, -999_999];
    let mut w1 = World::new();
    let mut w2 = World::new();
    let mut s1 = RandomStream::from_values(&vals);
    let mut s2 = RandomStream::from_values(&vals);
    w1.spawn_colony(Vec2i { x: 0, y: 0 }, 4, &mut s1);
    w2.spawn_colony(Vec2i { x: 0, y: 0 }, 4, &mut s2);
    assert!(w1.place_food(Vec2i { x: 200_000, y: 0 }));
    assert!(w2.place_food(Vec2i { x: 200_000, y: 0 }));
    for _ in 0..10 {
        w1.tick(100, &mut s1);
        w2.tick(100, &mut s2);
    }
    assert_eq!(w1.ants, w2.ants);
    assert_eq!(w1.pheromones, w2.pheromones);
    assert_eq!(w1.foods, w2.foods);
    assert_eq!(w1.colonies, w2.colonies);
}

#[test]
fn full_cycle_forage_return_deliver() {
    // An ant picks food up one tick and, walking home over later
    // ticks, eventually delivers: the cycle credits exactly one.
    let mut w = world_with_colony_at(0, 30_000);
    // Facing +y toward the colony.
    w.ants.push(Ant::new(0, Vec2i { x: 0, y: -40_000 }, 0));
    assert!(w.place_food(Vec2i { x: 0, y: -38_000 }));
    let mut s = empty_stream();
    w.tick(16, &mut s);
    assert!(matches!(w.ants[0].state, AntState::ReturningHome));
    assert_eq!(w.foods.len(), 0);
    assert_eq!(w.colonies[0].food_store, 0);
    // Colony footprint reaches down to y = -20_000; the ant walks
    // straight up and must cross it within a few seconds.
    let mut delivered = false;
    for _ in 0..40 {
        w.tick(100, &mut s);
        if w.colonies[0].food_store == 1 {
            delivered = true;
            break;
        }
    }
    assert!(delivered);
    assert!(matches!(w.ants[0].state, AntState::Foraging));
    assert_eq!(w.colonies[0].food_store, 1);
}

#[test]
fn place_food_validates_position() {
    let mut w = World::new();
    assert!(!w.place_food(Vec2i { x: 0, y: -1_000_000_001 }));
    assert_eq!(w.foods.len(), 0);
    assert!(w.place_food(Vec2i { x: 0, y: -1_000_000_000 }));
    assert_eq!(w.foods.len(), 1);
}

#[test]
fn place_marker_validates_position() {
    let mut w = World::new();
    assert!(!w.place_marker(PheromoneType::FoodMarker, Vec2i { x: 1_000_000_001, y: 0 }));
    assert_eq!(w.pheromones.len(), 0);
    assert!(w.place_marker(PheromoneType::FoodMarker, Vec2i { x: 0, y: 0 }));
    assert_eq!(w.pheromones.len(), 1);
    assert_eq!(w.pheromones[0].intensity(), 1000);
}
