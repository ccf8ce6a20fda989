use ant_colony_simulator::behavior::{
    age_ant, collect, decide, deposit, follow_threshold, idle_action, kind_factor, sample_radius,
    source_quality, Action,
};
use ant_colony_simulator::geometry::{Point, UNIT};
use ant_colony_simulator::model::{
    AntState, AntTarget, FastAnt, FastColony, FastFoodSource, FoodKind, Resources, Role,
};

fn ant(state: AntState, role: Role, x: i64, y: i64) -> FastAnt {
    FastAnt {
        id: 1,
        colony_id: 7,
        ant_type_id: 0,
        role,
        position: Point { x: x * UNIT, y: y * UNIT },
        angle: 0,
        speed: 2 * UNIT,
        health: 100,
        energy: 100,
        age_ticks: 0,
        state,
        target: AntTarget::Unset,
        carried: Resources { food: 0, seeds: 0, sugar: 0, protein: 0 },
        last_action_tick: 0,
        last_food_source: None,
    }
}

fn food(id: i32, x: i64, y: i64, amount: u32) -> FastFoodSource {
    FastFoodSource {
        id,
        position: Point { x: x * UNIT, y: y * UNIT },
        food_type: FoodKind::Berries,
        amount,
        max_amount: 20,
        regeneration_rate: 0,
        is_renewable: false,
        nutritional_value: 10,
        spoilage_rate: 0,
    }
}

fn colony(food_stock: u32) -> FastColony {
    FastColony {
        id: 7,
        center: Point { x: 500 * UNIT, y: 500 * UNIT },
        radius: 30 * UNIT,
        population: 1,
        max_population: 10,
        resources: Resources { food: food_stock, seeds: 0, sugar: 0, protein: 0 },
        territory_radius: 100 * UNIT,
        aggression: 0,
        hunger_tenths: 0,
    }
}

#[test]
fn collect_moves_food_from_source_to_ant() {
    let a = ant(AntState::SeekingFood, Role::Worker, 540, 510);
    let f = food(3, 540, 510, 20);
    let (a2, f2) = collect(a, f);
    assert_eq!(f2.amount, 15);
    assert_eq!(a2.carried.food, 5);
    assert_eq!(f.amount - f2.amount, a2.carried.food - a.carried.food);
    assert_eq!(a2.state, AntState::CarryingFood);
    assert_eq!(a2.target, AntTarget::Food(3));
    assert_eq!(a2.last_food_source, Some(3));
}

#[test]
fn collect_takes_what_is_left() {
    let a = ant(AntState::SeekingFood, Role::Worker, 0, 0);
    let (a2, f2) = collect(a, food(3, 0, 0, 2));
    assert_eq!(f2.amount, 0);
    assert_eq!(a2.carried.food, 2);
}

#[test]
fn collect_from_empty_source_wanders() {
    let a = ant(AntState::SeekingFood, Role::Worker, 0, 0);
    let (a2, f2) = collect(a, food(3, 0, 0, 0));
    assert_eq!(f2.amount, 0);
    assert_eq!(a2.carried.food, 0);
    assert_eq!(a2.state, AntState::Wandering);
    assert_eq!(a2.target, AntTarget::Unset);
}

#[test]
fn deposit_moves_everything_carried_into_the_colony() {
    let mut a = ant(AntState::CarryingFood, Role::Worker, 500, 500);
    a.carried = Resources { food: 5, seeds: 2, sugar: 0, protein: 1 };
    a.last_food_source = Some(3);
    let (a2, c2) = deposit(a, colony(10), true);
    assert_eq!(c2.resources.food, 18);
    assert_eq!(a2.carried, Resources { food: 0, seeds: 0, sugar: 0, protein: 0 });
    assert_eq!(a2.state, AntState::SeekingFood);
    assert_eq!(a2.target, AntTarget::Food(3));
}

#[test]
fn deposit_with_exhausted_source_wanders() {
    let mut a = ant(AntState::CarryingFood, Role::Worker, 500, 500);
    a.carried = Resources { food: 5, seeds: 0, sugar: 0, protein: 0 };
    a.last_food_source = Some(3);
    let (a2, c2) = deposit(a, colony(0), false);
    assert_eq!(c2.resources.food, 5);
    assert_eq!(a2.state, AntState::Wandering);
    assert_eq!(a2.target, AntTarget::Unset);
}

#[test]
fn aging_kills_on_lifespan_and_energy() {
    let mut a = ant(AntState::Wandering, Role::Worker, 0, 0);
    let b = age_ant(a, 100);
    assert_eq!(b.age_ticks, 1);
    assert_eq!(b.energy, 99);
    assert_eq!(b.state, AntState::Wandering);
    a.age_ticks = 100;
    assert_eq!(age_ant(a, 100).state, AntState::Dead);
    a.age_ticks = 0;
    a.energy = 1;
    let c = age_ant(a, 100);
    assert_eq!(c.energy, 0);
    assert_eq!(c.state, AntState::Dead);
    let d = age_ant(c, 100);
    assert_eq!(d, c);
}

#[test]
fn wandering_choices_by_role() {
    let w = ant(AntState::Wandering, Role::Worker, 100, 100);
    assert_eq!(decide(&w, Some((4, (40 * UNIT * 40 * UNIT) as i128)), None, 0), Action::SeekFood(4));
    let s = ant(AntState::Wandering, Role::Soldier, 100, 100);
    assert_eq!(decide(&s, Some((4, (40 * UNIT * 40 * UNIT) as i128)), None, 0), Action::Patrol);
    assert_eq!(decide(&s, Some((4, (20 * UNIT * 20 * UNIT) as i128)), None, 0), Action::SeekFood(4));
    assert_eq!(decide(&w, None, None, 100_001), Action::Follow);
    assert_eq!(decide(&w, None, None, 100_000), Action::Wander);
    let sc = ant(AntState::Wandering, Role::Scout, 100, 100);
    assert_eq!(decide(&sc, None, None, 50_001), Action::Follow);
    assert_eq!(decide(&sc, None, None, 0), Action::Explore);
}

#[test]
fn seeking_collects_when_close() {
    let mut a = ant(AntState::SeekingFood, Role::Worker, 537, 510);
    a.target = AntTarget::Food(3);
    assert_eq!(decide(&a, None, Some(food(3, 540, 510, 20)), 0), Action::Collect(3));
    assert_eq!(decide(&a, None, Some(food(3, 545, 510, 20)), 0), Action::MoveToTarget);
    assert_eq!(decide(&a, None, None, 0), Action::Wander);
    let c = ant(AntState::CarryingFood, Role::Worker, 0, 0);
    assert_eq!(decide(&c, None, None, 0), Action::ReturnToColony);
}

#[test]
fn role_tables() {
    assert_eq!(sample_radius(Role::Scout), 40 * UNIT);
    assert_eq!(sample_radius(Role::Worker), 30 * UNIT);
    assert_eq!(sample_radius(Role::Soldier), 25 * UNIT);
    assert_eq!(follow_threshold(Role::Scout), 50_000);
    assert_eq!(follow_threshold(Role::Worker), 100_000);
    assert_eq!(follow_threshold(Role::Queen), 150_000);
    assert_eq!(idle_action(Role::Scout), Action::Explore);
    assert_eq!(idle_action(Role::Soldier), Action::Patrol);
    assert_eq!(idle_action(Role::Worker), Action::Wander);
}

#[test]
fn source_quality_is_fraction_times_kind() {
    let mut f = food(1, 0, 0, 10);
    assert_eq!(source_quality(&f), 5000);
    f.food_type = FoodKind::Leaves;
    assert_eq!(kind_factor(FoodKind::Leaves), 6000);
    assert_eq!(source_quality(&f), 3000);
}
