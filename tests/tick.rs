use ant_colony_simulator::behavior::Action;
use ant_colony_simulator::cache::SimulationCache;
use ant_colony_simulator::geometry::{Point, WorldBounds, UNIT};
use ant_colony_simulator::model::{
    AntState, AntTarget, AntType, FastAnt, FastColony, PheromoneType, Resources, Role,
};
use ant_colony_simulator::pheromone::emit_trail;
use ant_colony_simulator::steering::Influence;
use ant_colony_simulator::tick::{step_ant, Surroundings};

fn bounds() -> WorldBounds {
    WorldBounds { width: 1000 * UNIT, height: 1000 * UNIT }
}

fn ant(state: AntState) -> FastAnt {
    FastAnt {
        id: 1,
        colony_id: 2,
        ant_type_id: 0,
        role: Role::Worker,
        position: Point { x: 700 * UNIT, y: 700 * UNIT },
        angle: 0,
        speed: 2 * UNIT,
        health: 100,
        energy: 100,
        age_ticks: 0,
        state,
        target: AntTarget::Unset,
        carried: Resources { food: 4, seeds: 0, sugar: 0, protein: 0 },
        last_action_tick: 0,
        last_food_source: Some(9),
    }
}

fn quiet() -> Surroundings {
    Surroundings {
        bounds: bounds(),
        max_turn: 1000,
        lifespan: 10000,
        nearby_food: None,
        target_food: None,
        colony: None,
        last_source_has_food: false,
        influence: Influence { direction: 0, strength: 0 },
        home_influence: Influence { direction: 0, strength: 0 },
        jitter: 0,
    }
}

#[test]
fn the_dead_stay_dead() {
    let a = ant(AntState::Dead);
    let out = step_ant(a, &quiet());
    assert_eq!(out.ant, a);
    assert!(out.action.is_none());
}

#[test]
fn carrying_without_a_colony_wanders() {
    let out = step_ant(ant(AntState::CarryingFood), &quiet());
    assert_eq!(out.action, Some(Action::ReturnToColony));
    assert_eq!(out.ant.state, AntState::Wandering);
    assert_eq!(out.ant.carried.food, 4);
    assert_eq!(out.ant.position, Point { x: 702 * UNIT, y: 700 * UNIT });
}

#[test]
fn deposit_inside_the_colony() {
    let mut s = quiet();
    s.colony = Some(FastColony {
        id: 2,
        center: Point { x: 690 * UNIT, y: 700 * UNIT },
        radius: 30 * UNIT,
        population: 1,
        max_population: 5,
        resources: Resources { food: 1, seeds: 0, sugar: 0, protein: 0 },
        territory_radius: 0,
        aggression: 0,
        hunger_tenths: 0,
    });
    s.last_source_has_food = true;
    let out = step_ant(ant(AntState::CarryingFood), &s);
    assert_eq!(out.colony.unwrap().resources.food, 5);
    assert_eq!(out.ant.carried.food, 0);
    assert_eq!(out.ant.state, AntState::SeekingFood);
    assert_eq!(out.ant.target, AntTarget::Food(9));
    assert_eq!(out.trail.unwrap().kind, PheromoneType::Home);
}

#[test]
fn strong_trails_are_followed_faster() {
    let mut s = quiet();
    s.influence = Influence { direction: 0, strength: 1_000_000 };
    let out = step_ant(ant(AntState::Wandering), &s);
    assert_eq!(out.action, Some(Action::Follow));
    assert_eq!(out.ant.state, AntState::Following);
    assert_eq!(out.ant.position, Point { x: 703 * UNIT, y: 700 * UNIT });
    assert_eq!(out.ant.speed, 2 * UNIT);
}

#[test]
fn exhausted_ant_dies() {
    let mut a = ant(AntState::Wandering);
    a.energy = 1;
    let out = step_ant(a, &quiet());
    assert_eq!(out.ant.state, AntState::Dead);
    assert_eq!(out.ant.energy, 0);
    assert!(out.action.is_none());
}

#[test]
fn cache_trails_types_and_tick() {
    let mut c = SimulationCache::new(1, bounds());
    let t = emit_trail(5, 2, PheromoneType::Food, Point { x: 10 * UNIT, y: 10 * UNIT }, 500_000, 0, 1, None, 0);
    c.insert_pheromone_trail(t);
    assert_eq!(c.all_pheromone_trails(), vec![t]);
    assert_eq!(c.get_pheromone_trails_near_position(Point { x: 12 * UNIT, y: 10 * UNIT }, 3 * UNIT).len(), 1);
    assert!(c.get_pheromone_trails_near_position(Point { x: 20 * UNIT, y: 10 * UNIT }, 3 * UNIT).is_empty());
    c.remove_pheromone_trail(&5);
    assert!(c.all_pheromone_trails().is_empty());
    let ty = AntType { id: 3, role: Role::Scout, base_speed: UNIT, carrying_capacity: 5, lifespan_ticks: 500 };
    c.insert_ant_type(ty);
    assert_eq!(c.get_ant_type(&3), Some(ty));
    assert!(c.get_ant_type(&4).is_none());
    c.set_current_tick(42);
    assert_eq!(c.get_current_tick(), 42);
    c.set_last_db_sync(40);
    assert_eq!(c.last_db_sync(), 40);
    assert_eq!(c.world_bounds(), bounds());
}

#[test]
fn draining_dirty_ids_empties_the_set() {
    let mut c = SimulationCache::new(1, bounds());
    let mut a = ant(AntState::Wandering);
    c.insert_ant(a);
    a.id = 2;
    c.insert_ant(a);
    let mut ids = c.drain_dirty_ants();
    ids.sort();
    assert_eq!(ids, vec![1, 2]);
    assert!(c.drain_dirty_ants().is_empty());
    assert!(c.drain_dirty_colonies().is_empty());
    assert!(c.drain_dirty_food_sources().is_empty());
}

#[test]
fn lost_target_is_dropped() {
    let mut a = ant(AntState::SeekingFood);
    a.target = AntTarget::Food(77);
    let out = step_ant(a, &quiet());
    assert_eq!(out.action, Some(Action::Wander));
    assert_eq!(out.ant.state, AntState::Wandering);
    assert_eq!(out.ant.target, AntTarget::Unset);
    assert!(out.trail.is_none());
}

#[test]
fn queries_accept_centers_outside_the_world() {
    let mut c = SimulationCache::new(1, bounds());
    let mut a = ant(AntState::Wandering);
    a.position = Point { x: 0, y: 0 };
    c.insert_ant(a);
    assert_eq!(c.get_ants_near_position(Point { x: -3 * UNIT, y: -4 * UNIT }, 5 * UNIT).len(), 1);
    assert!(c.get_ants_near_position(Point { x: -3 * UNIT, y: -4 * UNIT }, 4 * UNIT).is_empty());
}
