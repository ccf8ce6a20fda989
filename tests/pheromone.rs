use ant_colony_simulator::geometry::{Point, WorldBounds, UNIT};
use ant_colony_simulator::model::{FastPheromoneTrail, PheromoneType, Role};
use ant_colony_simulator::pheromone::{
    calculate_pheromone_strength, consolidate, decay_trail, default_decay, emit_trail, horizon,
    merge_trails, role_sensitivity, should_merge_pheromones,
};
use ant_colony_simulator::steering::influence;

fn food_trail(id: i32, x: i64, strength: u32, tick: i64) -> FastPheromoneTrail {
    emit_trail(id, 1, PheromoneType::Food, Point { x, y: 0 }, strength, 0, 9, None, tick)
}

#[test]
fn emitted_trail_has_kind_defaults() {
    let t = emit_trail(5, 2, PheromoneType::Food, Point { x: 1, y: 2 }, 800_000, 4000, 9, Some(3), 100);
    assert_eq!(t.expires_at, 100 + 15000);
    assert_eq!(t.decay_rate, 300);
    assert_eq!(t.strength, 800_000);
    assert_eq!(t.max_strength, 800_000);
    assert_eq!(t.target_food, Some(3));
    assert!(!t.consolidated);
    assert_eq!(horizon(PheromoneType::Danger), 3000);
    assert_eq!(default_decay(PheromoneType::Home), 200);
}

#[test]
fn trail_decay_over_time() {
    // strength 0.8, decay 0.0003, expiry at current + 15000
    let mut t = food_trail(1, 0, 800_000, 0);
    for tick in 1..=1000 {
        t = decay_trail(t, tick).expect("still present after 1000 ticks");
    }
    assert!(t.strength < 800_000);
    assert!(t.strength > 0);
    let mut u = Some(food_trail(2, 0, 800_000, 0));
    let mut tick = 1;
    while let Some(v) = u {
        u = decay_trail(v, tick);
        tick += 1;
    }
    assert!(tick - 1 <= 15000);
}

#[test]
fn trail_is_dropped_at_expiry() {
    let t = food_trail(1, 0, 800_000, 0);
    assert!(decay_trail(t, 14_999).is_some());
    assert!(decay_trail(t, 15_000).is_none());
}

#[test]
fn one_decay_step_exact() {
    let t = food_trail(1, 0, 800_000, 0);
    // loss 300 ppm, then the environment's 0.999
    let n = decay_trail(t, 1).unwrap();
    assert_eq!(n.strength, 799_760 * 999 / 1000);
    assert_eq!(n.age, 1);
    let mut q = t;
    q.quality = 10000;
    q.consolidated = true;
    // 300 * 0.7 = 210 ppm, then 0.7 for consolidation = 147
    let m = decay_trail(q, 1).unwrap();
    assert_eq!(m.strength, (800_000u64 * (1_000_000 - 147) / 1_000_000 * 999 / 1000) as u32);
}

#[test]
fn weak_trail_is_dropped() {
    let t = food_trail(1, 0, 100, 0);
    assert!(decay_trail(t, 1).is_none());
}

#[test]
fn strength_falls_linearly_with_distance() {
    assert_eq!(calculate_pheromone_strength(1000, 0, 100), 1000);
    assert_eq!(calculate_pheromone_strength(1000, 25, 100), 750);
    assert_eq!(calculate_pheromone_strength(1000, 150, 100), 0);
}

#[test]
fn merge_rule_by_kind_and_distance() {
    let a = Point { x: 0, y: 0 };
    let b = Point { x: 2999, y: 0 };
    assert!(should_merge_pheromones(a, b, PheromoneType::Food, PheromoneType::Food, 3000));
    assert!(!should_merge_pheromones(a, Point { x: 3000, y: 0 }, PheromoneType::Food, PheromoneType::Food, 3000));
    assert!(!should_merge_pheromones(a, b, PheromoneType::Food, PheromoneType::Home, 3000));
}

#[test]
fn merged_trail_values() {
    let mut a = food_trail(1, 0, 300_000, 0);
    let mut b = food_trail(2, 1000, 400_000, 10);
    a.quality = 2000;
    b.quality = 4000;
    a.max_strength = 500_000;
    b.max_strength = 900_000;
    a.reinforcement_count = 2;
    b.reinforcement_count = 3;
    let m = merge_trails(&a, &b);
    assert_eq!(m.id, 1);
    assert_eq!(m.strength, 840_000);
    assert_eq!(m.max_strength, 900_000);
    assert_eq!(m.quality, 3000);
    assert_eq!(m.reinforcement_count, 5);
    assert_eq!(m.expires_at, 15010);
    assert!(m.consolidated);
    b.strength = 900_000;
    assert_eq!(merge_trails(&a, &b).strength, 900_000);
}

#[test]
fn consolidation_pairs_close_trails_once() {
    let bounds = WorldBounds { width: 1000 * UNIT, height: 1000 * UNIT };
    let t = vec![
        food_trail(1, 0, 100_000, 0),
        food_trail(2, 1000, 100_000, 0),
        food_trail(3, 2000, 100_000, 0),
        food_trail(4, 500_000, 100_000, 0),
    ];
    let merges = consolidate(&t, bounds);
    assert_eq!(merges.len(), 1);
    assert_eq!(merges[0].merged.id, 1);
    assert_eq!(merges[0].absorbed, 2);
    assert_eq!(merges[0].merged.strength, 100_000);
}

#[test]
fn sensitivity_table() {
    assert_eq!(role_sensitivity(Role::Worker, PheromoneType::Food), 18000);
    assert_eq!(role_sensitivity(Role::Scout, PheromoneType::Exploration), 15000);
    assert_eq!(role_sensitivity(Role::Soldier, PheromoneType::Danger), 20000);
    assert_eq!(role_sensitivity(Role::Worker, PheromoneType::Danger), 10000);
}

#[test]
fn influence_sums_weights_and_points_at_trails() {
    let p = Point { x: 100 * UNIT, y: 100 * UNIT };
    let mut t = emit_trail(1, 1, PheromoneType::Home, p, 500_000, 0, 9, None, 0);
    let none = influence(&[], p, 1, 30 * UNIT, &[PheromoneType::Home], Role::Worker);
    assert_eq!(none.strength, 0);
    assert_eq!(none.direction, 0);
    // a trail right at the ant: full falloff, sensitivity 1.2
    let at = influence(&[t], p, 1, 30 * UNIT, &[PheromoneType::Home], Role::Worker);
    assert_eq!(at.strength, 600_000);
    // another colony's trail does not pull
    let other = influence(&[t], p, 2, 30 * UNIT, &[PheromoneType::Home], Role::Worker);
    assert_eq!(other.strength, 0);
    // a trail to the north pulls north
    t.position = Point { x: 100 * UNIT, y: 110 * UNIT };
    let north = influence(&[t], p, 1, 30 * UNIT, &[PheromoneType::Home], Role::Worker);
    assert_eq!(north.direction, 15708);
    assert!(north.strength > 0 && north.strength < 600_000);
}

#[test]
fn consolidation_leaves_no_mergeable_pair() {
    let bounds = WorldBounds { width: 1000 * UNIT, height: 1000 * UNIT };
    let t = vec![
        food_trail(1, 0, 100_000, 0),
        food_trail(2, 1000, 100_000, 0),
        food_trail(3, 2000, 100_000, 0),
        food_trail(4, 3500, 100_000, 0),
    ];
    let merges = consolidate(&t, bounds);
    // 1 takes 2, then 3 takes 4 (1500 apart)
    assert_eq!(merges.len(), 2);
    assert_eq!((merges[1].merged.id, merges[1].absorbed), (3, 4));
}

#[test]
fn merged_direction_is_weighted() {
    let mut a = food_trail(1, 0, 300_000, 0);
    let mut b = food_trail(2, 1000, 100_000, 0);
    a.direction = Some(0);
    b.direction = Some(15708);
    let d = merge_trails(&a, &b).direction.unwrap();
    assert!(d > 0 && d < 7854);
    b.direction = None;
    assert_eq!(merge_trails(&a, &b).direction, Some(0));
}
