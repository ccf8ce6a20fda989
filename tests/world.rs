use std::collections::HashMap;
use ant_colony_simulator::cache::SimulationCache;
use ant_colony_simulator::colony::{bootstrap_colonies, consume_resources, count_population, should_spawn, spawn_ant, SPAWN_COST};
use ant_colony_simulator::engine::{is_overrun, remaining_wait, should_broadcast, should_persist, AntColonySimulator, SimulationConfig};
use ant_colony_simulator::environment::{food_spawn_due, pick_food_position, place_food_source, regrow, spawn_food_source, spoil, tend_food_source};
use ant_colony_simulator::geometry::{cosine, Point, WorldBounds, HALF_TURN, UNIT};
use ant_colony_simulator::model::{
    AntState, AntTarget, FastAnt, FastColony, FastFoodSource, FoodKind, Resources, Role,
};
use ant_colony_simulator::persistence::{ant_from_row, ant_row, ant_rows, colony_from_row, food_from_row, state_name, StoredAnt, StoredColony, StoredFood};
use ant_colony_simulator::random::{worker_seed, RandomStream};
use ant_colony_simulator::server::SimulationServer;

fn bounds() -> WorldBounds {
    WorldBounds { width: 1000 * UNIT, height: 1000 * UNIT }
}

fn worker(id: i32, colony_id: i32, x: i64, y: i64, angle: u32, speed: i64) -> FastAnt {
    FastAnt {
        id,
        colony_id,
        ant_type_id: 0,
        role: Role::Worker,
        position: Point { x: x * UNIT, y: y * UNIT },
        angle,
        speed: speed * UNIT,
        health: 100,
        energy: 1000,
        age_ticks: 0,
        state: AntState::Wandering,
        target: AntTarget::Unset,
        carried: Resources { food: 0, seeds: 0, sugar: 0, protein: 0 },
        last_action_tick: 0,
        last_food_source: None,
    }
}

fn colony(id: i32, x: i64, y: i64, max_population: i32, stock: Resources) -> FastColony {
    FastColony {
        id,
        center: Point { x: x * UNIT, y: y * UNIT },
        radius: 30 * UNIT,
        population: 0,
        max_population,
        resources: stock,
        territory_radius: 100 * UNIT,
        aggression: 0,
        hunger_tenths: 0,
    }
}

fn source(id: i32, x: i64, y: i64, amount: u32) -> FastFoodSource {
    FastFoodSource {
        id,
        position: Point { x: x * UNIT, y: y * UNIT },
        food_type: FoodKind::Berries,
        amount,
        max_amount: amount,
        regeneration_rate: 0,
        is_renewable: false,
        nutritional_value: 10,
        spoilage_rate: 0,
    }
}

fn simulator() -> AntColonySimulator {
    AntColonySimulator::new(1, bounds(), SimulationConfig::defaults(), 42, 0)
}

#[test]
fn cache_insert_get_update_remove() {
    let mut c = SimulationCache::new(3, bounds());
    assert_eq!(c.simulation_id(), 3);
    assert!(c.get_ant(&1).is_none());
    let a = worker(1, 2, 10, 10, 0, 1);
    c.insert_ant(a);
    assert_eq!(c.get_ant(&1), Some(a));
    let mut b = a;
    b.energy = 5;
    c.update_ant(1, b);
    assert_eq!(c.get_ant(&1).unwrap().energy, 5);
    c.update_ant(9, worker(9, 2, 1, 1, 0, 1));
    assert!(c.get_ant(&9).is_none());
    assert_eq!(c.get_dirty_ant_ids(), vec![1]);
    c.clear_dirty_flags();
    assert!(c.get_dirty_ant_ids().is_empty());
    c.remove_ant(&1);
    assert!(c.get_ant(&1).is_none());
    assert_eq!(c.get_dirty_ant_ids(), vec![1]);
}

#[test]
fn cache_queries() {
    let mut c = SimulationCache::new(1, bounds());
    c.insert_ant(worker(1, 1, 100, 100, 0, 1));
    c.insert_ant(worker(2, 1, 103, 104, 0, 1));
    c.insert_ant(worker(3, 2, 500, 500, 0, 1));
    let mut near: Vec<i32> = c.get_ants_near_position(Point { x: 100 * UNIT, y: 100 * UNIT }, 5 * UNIT).iter().map(|a| a.id).collect();
    near.sort();
    assert_eq!(near, vec![1, 2]);
    let mut mine: Vec<i32> = c.get_ants_in_colony(&1).iter().map(|a| a.id).collect();
    mine.sort();
    assert_eq!(mine, vec![1, 2]);
    c.insert_food_source(source(7, 101, 100, 20));
    c.insert_food_source(source(8, 900, 900, 20));
    let foods = c.get_food_sources_near_position(Point { x: 100 * UNIT, y: 100 * UNIT }, 50 * UNIT);
    assert_eq!(foods.len(), 1);
    assert_eq!(foods[0].id, 7);
    c.insert_colony(colony(4, 10, 10, 5, Resources { food: 3, seeds: 0, sugar: 0, protein: 0 }));
    let stats = c.get_stats();
    assert_eq!(stats.total_ants, 3);
    assert_eq!(stats.active_colonies, 1);
    assert_eq!(stats.total_food_collected, 3);
    assert_eq!(stats.pheromone_trail_count, 0);
    let mut dirty = c.get_dirty_food_source_ids();
    dirty.sort();
    assert_eq!(dirty, vec![7, 8]);
}

#[test]
fn isolated_wander() {
    let mut sim = simulator();
    let start = worker(1, 99, 500, 500, 0, 2);
    sim.world_mut().insert_ant(start);
    let mut changed = false;
    for _ in 0..20 {
        sim.step();
        let a = sim.world().get_ant(&1).unwrap();
        assert!(a.position.x >= 0 && a.position.x <= 1000 * UNIT);
        assert!(a.position.y >= 0 && a.position.y <= 1000 * UNIT);
        assert_eq!(a.state, AntState::Wandering);
        if a.angle != start.angle {
            changed = true;
        }
    }
    assert!(changed);
    assert!(sim.world().all_pheromone_trails().is_empty());
    assert_eq!(sim.world().get_current_tick(), 20);
}

#[test]
fn pickup_and_return() {
    let mut sim = simulator();
    let stock = Resources { food: 0, seeds: 100, sugar: 0, protein: 0 };
    sim.world_mut().insert_colony(colony(1, 500, 500, 1, stock));
    sim.world_mut().insert_ant(worker(2, 1, 510, 510, 0, 3));
    sim.world_mut().insert_food_source(source(3, 540, 510, 20));
    let mut carried = false;
    let mut deposited_at = None;
    for t in 1..=60 {
        sim.step();
        let a = sim.world().get_ant(&2).unwrap();
        if a.state == AntState::CarryingFood {
            carried = true;
            assert_eq!(a.carried.food, 5);
        }
        let c = sim.world().get_colony(&1).unwrap();
        if c.resources.food == 5 {
            deposited_at = Some(t);
            assert_eq!(sim.world().get_food_source(&3).unwrap().amount, 15);
            assert_eq!(a.carried.food, 0);
            break;
        }
    }
    assert!(carried);
    assert!(deposited_at.is_some(), "no deposit within 60 ticks");
}

#[test]
fn boundary_reflection() {
    let mut sim = simulator();
    sim.world_mut().insert_ant(worker(1, 99, 1, 500, HALF_TURN, 2));
    sim.step();
    let a = sim.world().get_ant(&1).unwrap();
    assert!(a.position.x >= 0);
    assert!(cosine(a.angle) >= 0);
}

#[test]
fn spawn_gating_at_capacity() {
    let mut sim = simulator();
    let stock = Resources { food: 1000, seeds: 1000, sugar: 0, protein: 0 };
    sim.world_mut().insert_colony(colony(1, 500, 500, 1, stock));
    sim.world_mut().insert_ant(worker(2, 1, 500, 500, 0, 1));
    for _ in 0..100 {
        sim.step();
        assert_eq!(sim.world().get_ants_in_colony(&1).len(), 1);
    }
    assert_eq!(sim.world().get_colony(&1).unwrap().resources.food, 1000);
}

#[test]
fn spawning_below_capacity() {
    let mut sim = simulator();
    let stock = Resources { food: 1000, seeds: 1000, sugar: 0, protein: 0 };
    sim.world_mut().insert_colony(colony(1, 500, 500, 5, stock));
    for _ in 0..20 {
        sim.step();
    }
    assert_eq!(sim.world().get_ants_in_colony(&1).len(), 1);
    assert_eq!(sim.world().get_colony(&1).unwrap().resources.food, 1000 - SPAWN_COST);
}

#[test]
fn bootstrap_when_no_colonies() {
    let mut sim = simulator();
    sim.step();
    let cols = sim.world().all_colonies();
    assert_eq!(cols.len(), 2);
    let made = bootstrap_colonies(bounds(), 1);
    assert_eq!(made[0].center, Point { x: 300 * UNIT, y: 500 * UNIT });
    assert_eq!(made[1].center, Point { x: 700 * UNIT, y: 500 * UNIT });
    assert_eq!(made[0].resources, Resources { food: 0, seeds: 100, sugar: 50, protein: 25 });
}

#[test]
fn upkeep_draws_in_priority_order() {
    let mut c = colony(1, 0, 0, 10, Resources { food: 10, seeds: 1, sugar: 1, protein: 0 });
    c.population = 35;
    c.hunger_tenths = 7;
    let d = consume_resources(c);
    // 42 tenths owed: 4 units now, 2 tenths carried over
    assert_eq!(d.hunger_tenths, 2);
    assert_eq!(d.resources, Resources { food: 8, seeds: 0, sugar: 0, protein: 0 });
}

#[test]
fn population_counts_live_members() {
    let mut dead = worker(3, 1, 0, 0, 0, 1);
    dead.state = AntState::Dead;
    let ants = vec![worker(1, 1, 0, 0, 0, 1), worker(2, 2, 0, 0, 0, 1), dead];
    assert_eq!(count_population(&ants, 1), 1);
}

#[test]
fn spawn_rules() {
    let mut c = colony(1, 500, 500, 2, Resources { food: 10, seeds: 0, sugar: 0, protein: 0 });
    assert!(should_spawn(&c, 40, 20));
    assert!(!should_spawn(&c, 41, 20));
    c.population = 2;
    assert!(!should_spawn(&c, 40, 20));
    c.population = 0;
    let (c2, a) = spawn_ant(c, 9, 0, Role::Scout, 100, Point { x: UNIT, y: -UNIT }, UNIT, bounds());
    assert_eq!(c2.population, 1);
    assert_eq!(c2.resources.food, 0);
    assert_eq!(a.position, Point { x: 501 * UNIT, y: 499 * UNIT });
    assert_eq!(a.colony_id, 1);
    assert_eq!(a.state, AntState::Wandering);
    assert_eq!(a.role, Role::Scout);
    assert_eq!(a.target, AntTarget::Unset);
    assert_eq!(a.carried, Resources { food: 0, seeds: 0, sugar: 0, protein: 0 });
    assert_eq!((a.age_ticks, a.health, a.energy), (0, 100, 100));
}

#[test]
fn spawned_ant_held_inside_the_world() {
    let c = colony(1, 5, 500, 2, Resources { food: 10, seeds: 0, sugar: 0, protein: 0 });
    let (_, a) = spawn_ant(c, 9, 0, Role::Worker, 0, Point { x: -20 * UNIT, y: 0 }, UNIT, bounds());
    assert_eq!(a.position, Point { x: 0, y: 500 * UNIT });
}

#[test]
fn rows_read_back_into_the_world() {
    let c = colony_from_row(
        &StoredColony {
            id: 3,
            center_x: 2000,
            center_y: 40,
            radius: 30,
            population: -4,
            resources: Resources { food: 1, seeds: 2, sugar: 3, protein: 4 },
            territory_radius: 100,
            aggression_level: 99_999,
        },
        bounds(),
    );
    assert_eq!(c.center, Point { x: 1000 * UNIT, y: 40 * UNIT });
    assert_eq!(c.radius, 30 * UNIT);
    assert_eq!(c.population, 0);
    assert_eq!(c.aggression, 10000);
    assert_eq!(c.resources.protein, 4);
    let f = food_from_row(
        &StoredFood {
            id: 5,
            position_x: -3,
            position_y: 10,
            food_type: FoodKind::Seeds,
            amount: 80,
            max_amount: 50,
            regeneration_rate: -1,
            nutritional_value: 7,
            spoilage_rate: 2,
            is_renewable: true,
        },
        bounds(),
    );
    assert_eq!(f.position, Point { x: 0, y: 10 * UNIT });
    assert_eq!((f.amount, f.max_amount, f.regeneration_rate), (50, 50, 0));
}

#[test]
fn food_placement_from_draws() {
    let cols = vec![colony(1, 500, 500, 1, Resources { food: 0, seeds: 0, sugar: 0, protein: 0 })];
    let near = Point { x: 510 * UNIT, y: 500 * UNIT };
    let far = Point { x: 600 * UNIT, y: 500 * UNIT };
    let f = place_food_source(4, &[near, far], &cols, 1, 10, 1, 5).unwrap();
    assert_eq!(f.position, far);
    assert_eq!(f.food_type, FoodKind::Leaves);
    assert_eq!((f.amount, f.max_amount, f.regeneration_rate, f.nutritional_value), (60, 60, 2, 15));
    assert!(place_food_source(4, &[near], &cols, 1, 10, 1, 5).is_none());
    let mut rng = RandomStream::new(3);
    let g = spawn_food_source(8, bounds(), &[], &mut rng).unwrap();
    assert!(g.position.x >= 50 * UNIT && g.position.x <= 950 * UNIT);
    assert!(g.position.y >= 50 * UNIT && g.position.y <= 950 * UNIT);
}

#[test]
fn food_regrowth_and_spoilage() {
    let mut f = source(1, 0, 0, 10);
    f.max_amount = 12;
    f.is_renewable = true;
    f.regeneration_rate = 5;
    assert_eq!(regrow(f).amount, 12);
    f.spoilage_rate = 4;
    assert_eq!(spoil(f).amount, 6);
    let mut g = source(2, 0, 0, 3);
    g.spoilage_rate = 5;
    assert!(tend_food_source(g, 100).is_none());
    assert_eq!(tend_food_source(g, 7).unwrap().amount, 3);
    assert!(food_spawn_due(1000, 0, false, 1000, 75));
    assert!(!food_spawn_due(1000, 75, true, 1000, 75));
    assert!(food_spawn_due(200, 10, true, 1000, 75));
    assert!(!food_spawn_due(200, 10, false, 1000, 75));
}

#[test]
fn food_placement_keeps_clear_of_colonies() {
    let cols = vec![colony(1, 500, 500, 1, Resources { food: 0, seeds: 0, sugar: 0, protein: 0 })];
    let near = Point { x: 510 * UNIT, y: 500 * UNIT };
    let far = Point { x: 600 * UNIT, y: 500 * UNIT };
    assert_eq!(pick_food_position(&[near, far], &cols), Some(far));
    assert_eq!(pick_food_position(&[near], &cols), None);
}

#[test]
fn random_stream_ranges() {
    let mut r = RandomStream::new(7);
    for _ in 0..200 {
        let v = r.between(-3, 3);
        assert!((-3..=3).contains(&v));
        assert!(r.below(5) < 5);
    }
    assert!(!r.chance(0, 10));
    assert!(r.chance(10, 10));
    let mut a = RandomStream::new(9);
    let mut b = RandomStream::new(9);
    assert_eq!(a.below(1_000_000), b.below(1_000_000));
    assert_ne!(worker_seed(5, 1), worker_seed(5, 2));
    let mut seen = std::collections::HashSet::new();
    for _ in 0..100 {
        seen.insert(r.below(1000));
    }
    assert!(seen.len() > 1);
}

#[test]
fn stored_rows_and_names() {
    assert_eq!(state_name(AntState::SeekingFood), "seeking_food");
    assert_eq!(state_name(AntState::Dead), "dead");
    let a = worker(4, 1, 12, 34, 77, 2);
    let row = ant_row(&a);
    assert_eq!((row.id, row.position_x, row.position_y, row.angle), (4, 12, 34, 77));
    assert_eq!(row.state, AntState::Wandering);
    let loaded = ant_from_row(
        &StoredAnt { id: 4, colony_id: 1, ant_type_id: 0, position_x: 12, position_y: 5000, angle: -1, current_speed: 2, health: 90, energy: 50, age_ticks: 3 },
        bounds(),
    );
    assert_eq!(loaded.position, Point { x: 12 * UNIT, y: 1000 * UNIT });
    assert_eq!(loaded.angle, 62831);
    assert_eq!(loaded.state, AntState::Wandering);
}

#[test]
fn saving_twice_gives_the_same_rows() {
    let ants = vec![worker(1, 1, 1, 1, 0, 1), worker(2, 1, 2, 2, 0, 1), worker(1, 1, 3, 3, 0, 1)];
    let rows = ant_rows(&ants);
    let mut table = HashMap::new();
    for r in &rows {
        table.insert(r.id, *r);
    }
    let once = table.clone();
    for r in &rows {
        table.insert(r.id, *r);
    }
    assert_eq!(table, once);
    assert_eq!(once[&1].position_x, 3);
}

#[test]
fn scheduler_cadences() {
    let c = SimulationConfig::defaults();
    assert!(should_persist(200, &c));
    assert!(!should_persist(201, &c));
    assert!(should_broadcast(201, &c));
    assert!(is_overrun(51, &c));
    assert!(!is_overrun(50, &c));
    assert_eq!(remaining_wait(20, &c), 30);
    assert_eq!(remaining_wait(80, &c), 0);
}

#[test]
fn stop_and_demo_world() {
    let mut sim = AntColonySimulator::new_test();
    assert!(sim.is_running());
    assert_eq!(sim.world().all_ants().len(), 5);
    assert_eq!(sim.world().all_food_sources().len(), 6);
    for _ in 0..10 {
        sim.step();
    }
    sim.stop();
    assert!(!sim.is_running());
    assert_eq!(SimulationServer::new().health_check(), "OK");
}
