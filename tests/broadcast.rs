use std::collections::HashMap;
use ant_colony_simulator::broadcast::{
    create_delta_update, create_full_state, status_message, updated_ants, Broadcaster,
    ClientMessage, SimulationMessage,
};
use ant_colony_simulator::geometry::{Point, UNIT};
use ant_colony_simulator::model::{
    AntState, AntTarget, FastAnt, FastColony, FastFoodSource, FoodKind, Resources, Role,
};

fn ant(id: i32, x: i64) -> FastAnt {
    FastAnt {
        id,
        colony_id: 1,
        ant_type_id: 0,
        role: Role::Worker,
        position: Point { x: x * UNIT, y: 10 * UNIT },
        angle: 0,
        speed: UNIT,
        health: 100,
        energy: 100,
        age_ticks: 0,
        state: AntState::Wandering,
        target: AntTarget::Unset,
        carried: Resources { food: 0, seeds: 0, sugar: 0, protein: 0 },
        last_action_tick: 0,
        last_food_source: None,
    }
}

fn colony(id: i32) -> FastColony {
    FastColony {
        id,
        center: Point { x: 0, y: 0 },
        radius: 30 * UNIT,
        population: 2,
        max_population: 10,
        resources: Resources { food: 5, seeds: 0, sugar: 0, protein: 0 },
        territory_radius: 0,
        aggression: 0,
        hunger_tenths: 0,
    }
}

fn food(id: i32, amount: u32) -> FastFoodSource {
    FastFoodSource {
        id,
        position: Point { x: 100 * UNIT, y: 100 * UNIT },
        food_type: FoodKind::Seeds,
        amount,
        max_amount: 100,
        regeneration_rate: 0,
        is_renewable: false,
        nutritional_value: 1,
        spoilage_rate: 0,
    }
}

#[test]
fn delta_holds_exactly_what_changed() {
    let prev_ants = vec![ant(1, 10), ant(2, 20)];
    let prev_col = vec![colony(1)];
    let prev_food = vec![food(1, 50), food(2, 50)];
    let mut moved = ant(2, 21);
    moved.angle = 3;
    let cur_ants = vec![ant(1, 10), moved];
    let cur_food = vec![food(1, 50), food(2, 45)];
    let m = create_delta_update(7, 11, &cur_ants, &prev_col, &cur_food, &[], &prev_ants, &prev_col, &prev_food);
    match m {
        SimulationMessage::DeltaUpdate {
            simulation_id,
            tick,
            updated_ants,
            updated_colonies,
            updated_food_sources,
            new_pheromone_trails,
            removed_ant_ids,
            removed_food_source_ids,
        } => {
            assert_eq!(simulation_id, 7);
            assert_eq!(tick, 11);
            assert_eq!(updated_ants, vec![moved]);
            assert_eq!(updated_food_sources, vec![food(2, 45)]);
            assert!(updated_colonies.is_empty());
            assert!(new_pheromone_trails.is_empty());
            assert!(removed_ant_ids.is_empty());
            assert!(removed_food_source_ids.is_empty());
        },
        _ => panic!("expected a delta"),
    }
}

#[test]
fn delta_reports_new_and_removed() {
    let prev_ants = vec![ant(1, 10), ant(2, 20)];
    let cur_ants = vec![ant(2, 20), ant(3, 30)];
    let mut c = colony(1);
    c.population = 3;
    let m = create_delta_update(1, 2, &cur_ants, &[c, colony(2)], &[], &[], &prev_ants, &[colony(1)], &[food(9, 1)]);
    match m {
        SimulationMessage::DeltaUpdate { updated_ants, updated_colonies, removed_ant_ids, removed_food_source_ids, .. } => {
            assert_eq!(updated_ants, vec![ant(3, 30)]);
            assert_eq!(updated_colonies, vec![c, colony(2)]);
            assert_eq!(removed_ant_ids, vec![1]);
            assert_eq!(removed_food_source_ids, vec![9]);
        },
        _ => panic!("expected a delta"),
    }
}

#[test]
fn hidden_fields_do_not_make_an_update() {
    let mut older = ant(1, 10);
    older.age_ticks = 5;
    assert!(updated_ants(&[ant(1, 10)], &[older]).is_empty());
}

#[test]
fn full_state_copies_all_records() {
    let m = create_full_state(3, 4, &[ant(1, 1)], &[colony(1)], &[food(1, 1)], &[]);
    match m {
        SimulationMessage::FullState { simulation_id, tick, ants, colonies, food_sources, pheromone_trails } => {
            assert_eq!((simulation_id, tick), (3, 4));
            assert_eq!(ants, vec![ant(1, 1)]);
            assert_eq!(colonies, vec![colony(1)]);
            assert_eq!(food_sources, vec![food(1, 1)]);
            assert!(pheromone_trails.is_empty());
        },
        _ => panic!("expected a full state"),
    }
}

#[test]
fn subscribe_then_deltas() {
    // Subscribe at T0: full state; at T0+1 one ant moves and one food amount
    // drops: the delta names exactly those.
    let mut b = Broadcaster::new(5);
    b.handle_client_message(ClientMessage::Subscribe { simulation_id: 5 });
    let a0 = vec![ant(1, 10), ant(2, 20)];
    let f0 = vec![food(1, 50), food(2, 50)];
    let c0 = vec![colony(1)];
    let first = b.next_message(100, &a0, &c0, &f0, &[]);
    assert!(matches!(first, SimulationMessage::FullState { tick: 100, .. }));
    let a1 = vec![ant(1, 11), ant(2, 20)];
    let f1 = vec![food(1, 50), food(2, 45)];
    match b.next_message(101, &a1, &c0, &f1, &[]) {
        SimulationMessage::DeltaUpdate {
            tick,
            updated_ants,
            updated_colonies,
            updated_food_sources,
            new_pheromone_trails,
            removed_ant_ids,
            removed_food_source_ids,
            ..
        } => {
            assert_eq!(tick, 101);
            assert_eq!(updated_ants, vec![ant(1, 11)]);
            assert_eq!(updated_food_sources, vec![food(2, 45)]);
            assert!(updated_colonies.is_empty());
            assert!(new_pheromone_trails.is_empty());
            assert!(removed_ant_ids.is_empty());
            assert!(removed_food_source_ids.is_empty());
        },
        _ => panic!("expected a delta"),
    }
    b.handle_client_message(ClientMessage::RequestFullState { simulation_id: 6 });
    assert!(matches!(b.next_message(102, &a1, &c0, &f1, &[]), SimulationMessage::DeltaUpdate { .. }));
    b.request_fullstate();
    assert!(matches!(b.next_message(103, &a1, &c0, &f1, &[]), SimulationMessage::FullState { .. }));
}

#[test]
fn rebuilt_view_matches_fresh_snapshot() {
    // A viewer applies deltas to its first full state and ends where a fresh
    // full state would put it.
    let mut b = Broadcaster::new(1);
    let steps: Vec<(Vec<FastAnt>, Vec<FastFoodSource>)> = vec![
        (vec![ant(1, 10), ant(2, 20)], vec![food(1, 50)]),
        (vec![ant(1, 12), ant(2, 20), ant(3, 5)], vec![food(1, 45), food(2, 9)]),
        (vec![ant(3, 6)], vec![food(2, 9)]),
    ];
    let mut ants: HashMap<i32, (Point, i32)> = HashMap::new();
    let mut foods: HashMap<i32, u32> = HashMap::new();
    for (t, (a, f)) in steps.iter().enumerate() {
        match b.next_message(t as i64, a, &[], f, &[]) {
            SimulationMessage::FullState { ants: fa, food_sources: ff, .. } => {
                ants = fa.iter().map(|x| (x.id, (x.position, x.energy))).collect();
                foods = ff.iter().map(|x| (x.id, x.amount)).collect();
            },
            SimulationMessage::DeltaUpdate { updated_ants, updated_food_sources, removed_ant_ids, removed_food_source_ids, .. } => {
                for id in removed_ant_ids {
                    ants.remove(&id);
                }
                for id in removed_food_source_ids {
                    foods.remove(&id);
                }
                for x in updated_ants {
                    ants.insert(x.id, (x.position, x.energy));
                }
                for x in updated_food_sources {
                    foods.insert(x.id, x.amount);
                }
            },
            _ => panic!("unexpected message"),
        }
        let fresh_ants: HashMap<i32, (Point, i32)> = a.iter().map(|x| (x.id, (x.position, x.energy))).collect();
        let fresh_food: HashMap<i32, u32> = f.iter().map(|x| (x.id, x.amount)).collect();
        assert_eq!(ants, fresh_ants);
        assert_eq!(foods, fresh_food);
    }
}

#[test]
fn status_message_fields() {
    match status_message(4, true, 99) {
        SimulationMessage::SimulationStatus { simulation_id, is_running, current_tick } => {
            assert_eq!((simulation_id, is_running, current_tick), (4, true, 99));
        },
        _ => panic!("expected a status"),
    }
}
