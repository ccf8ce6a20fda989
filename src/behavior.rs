//! The per-ant state machine: aging, deciding, collecting and depositing.
use vstd::prelude::*;
use crate::geometry::{dist2, distance_squared, Point, WorldBounds, SCALE, UNIT};
use crate::model::{
    AntState, AntTarget, AntType, FastAnt, FastColony, FastFoodSource, FoodKind, Resources, Role,
};

verus! {

/// Food is noticed within this distance (position units).
pub const SCAN_RADIUS: i64 = 50 * UNIT;

/// Soldiers only go for food this close.
pub const SOLDIER_ENGAGE_RADIUS: i64 = 20 * UNIT;

/// Food is collected from closer than this.
pub const COLLECT_RADIUS: i64 = 5 * UNIT;

/// The most food taken in one tick.
pub const COLLECT_LIMIT: u32 = 5;

/// What an ant does in one tick.
#[derive(Clone, Copy, Debug, PartialEq, Eq, Structural)]
pub enum Action {
    Wander,
    SeekFood(i32),
    Collect(i32),
    MoveToTarget,
    ReturnToColony,
    Deposit,
    Follow,
    Explore,
    Patrol,
    Rest,
}

/// How far a role samples trails around itself.
pub open spec fn sample_radius_spec(role: Role) -> int {
    match role {
        Role::Scout => 40 * UNIT as int,
        Role::Worker => 30 * UNIT as int,
        _ => 25 * UNIT as int,
    }
}

/// How strong the trails around a role must be before it follows them.
pub open spec fn follow_threshold_spec(role: Role) -> int {
    match role {
        Role::Scout => 50_000,
        Role::Worker => 100_000,
        _ => 150_000,
    }
}

/// What a role does when nothing draws it.
pub open spec fn idle_action_spec(role: Role) -> Action {
    match role {
        Role::Scout => Action::Explore,
        Role::Soldier => Action::Patrol,
        _ => Action::Wander,
    }
}

/// How far `role` samples trails around itself.
pub fn sample_radius(role: Role) -> (r: i64)
    ensures
        r == sample_radius_spec(role),
{
    match role {
        Role::Scout => 40 * UNIT,
        Role::Worker => 30 * UNIT,
        _ => 25 * UNIT,
    }
}

/// The trail strength above which `role` follows.
pub fn follow_threshold(role: Role) -> (r: u32)
    ensures
        r == follow_threshold_spec(role),
{
    match role {
        Role::Scout => 50_000,
        Role::Worker => 100_000,
        _ => 150_000,
    }
}

/// The action of `role` when nothing draws it.
pub fn idle_action(role: Role) -> (r: Action)
    ensures
        r == idle_action_spec(role),
{
    match role {
        Role::Scout => Action::Explore,
        Role::Soldier => Action::Patrol,
        _ => Action::Wander,
    }
}

/// The choice of a wandering ant. `food` is the nearest source in scanning range
/// with its squared distance; `influence` the trail strength it senses.
pub open spec fn decide_wandering_spec(role: Role, food: Option<(i32, int)>, influence: int) -> Action {
    match food {
        Some((id, d2)) if role != Role::Soldier || d2 <= SOLDIER_ENGAGE_RADIUS * SOLDIER_ENGAGE_RADIUS =>
            Action::SeekFood(id),
        _ => if influence > follow_threshold_spec(role) {
            Action::Follow
        } else {
            idle_action_spec(role)
        },
    }
}

/// What an ant in `state` with `target` does this tick. `nearby` is the nearest
/// food source in scanning range (with its squared distance), `target_food` the
/// food source its target names if that still exists, `influence` the sensed
/// trail strength.
pub open spec fn decide_spec(
    a: FastAnt,
    nearby: Option<(i32, int)>,
    target_food: Option<FastFoodSource>,
    influence: int,
) -> Action {
    match a.state {
        AntState::Wandering => decide_wandering_spec(a.role, nearby, influence),
        AntState::SeekingFood => match (a.target, target_food) {
            (AntTarget::Food(id), Some(f)) if f.id == id => if dist2(a.position, f.position)
                < COLLECT_RADIUS * COLLECT_RADIUS {
                Action::Collect(id)
            } else {
                Action::MoveToTarget
            },
            _ => Action::Wander,
        },
        AntState::CarryingFood => Action::ReturnToColony,
        _ => Action::Wander,
    }
}

/// Choose this tick's action (see `decide_spec`).
pub fn decide(
    a: &FastAnt,
    nearby: Option<(i32, i128)>,
    target_food: Option<FastFoodSource>,
    influence: u128,
) -> (r: Action)
    requires
        crate::geometry::coord_ok(a.position),
        target_food matches Some(f) ==> crate::geometry::coord_ok(f.position),
    ensures
        r == decide_spec(
            *a,
            match nearby {
                Some((id, d)) => Some((id, d as int)),
                None => None,
            },
            target_food,
            influence as int,
        ),
{
    match a.state {
        AntState::Wandering => {
            let engage = match nearby {
                Some((id, d2)) => if a.role != Role::Soldier || d2 <= (SOLDIER_ENGAGE_RADIUS
                    * SOLDIER_ENGAGE_RADIUS) as i128 {
                    Some(id)
                } else {
                    None
                },
                None => None,
            };
            match engage {
                Some(id) => Action::SeekFood(id),
                None => if influence > follow_threshold(a.role) as u128 {
                    Action::Follow
                } else {
                    idle_action(a.role)
                },
            }
        },
        AntState::SeekingFood => match (a.target, target_food) {
            (AntTarget::Food(id), Some(f)) => {
                if f.id == id {
                    let d = distance_squared(a.position, f.position);
                    if d < (COLLECT_RADIUS * COLLECT_RADIUS) as i128 {
                        Action::Collect(id)
                    } else {
                        Action::MoveToTarget
                    }
                } else {
                    Action::Wander
                }
            },
            _ => Action::Wander,
        },
        AntState::CarryingFood => Action::ReturnToColony,
        _ => Action::Wander,
    }
}

/// One tick of aging: a year older, one energy less (not below zero), and dead
/// once past the lifespan or out of energy. The dead stay as they are.
pub open spec fn age_spec(a: FastAnt, lifespan: int) -> FastAnt {
    if a.state == AntState::Dead {
        a
    } else {
        let age = a.age_ticks + 1;
        let energy = if a.energy > 0 { a.energy - 1 } else { 0 };
        FastAnt {
            age_ticks: age as i64,
            energy: energy as i32,
            state: if age > lifespan || energy <= 0 { AntState::Dead } else { a.state },
            ..a
        }
    }
}

/// Age an ant by one tick (see `age_spec`).
pub fn age_ant(a: FastAnt, lifespan: i64) -> (r: FastAnt)
    requires
        0 <= a.age_ticks < i64::MAX,
        a.energy >= 0,
    ensures
        r == age_spec(a, lifespan as int),
        r.energy >= 0,
        a.state == AntState::Dead ==> r == a,
{
    if a.state == AntState::Dead {
        return a;
    }
    let age: i64 = a.age_ticks + 1;
    let energy: i32 = if a.energy > 0 { a.energy - 1 } else { 0 };
    let state = if age > lifespan || energy <= 0 { AntState::Dead } else { a.state };
    FastAnt { age_ticks: age, energy, state, ..a }
}

/// How much a food kind is worth to a trail's quality, in ten-thousandths.
pub open spec fn kind_factor_spec(k: FoodKind) -> int {
    match k {
        FoodKind::Berries => 10000,
        FoodKind::Leaves => 6000,
        FoodKind::Seeds => 8000,
        FoodKind::Nuts => 9000,
    }
}

/// How much a food kind is worth to a trail's quality.
pub fn kind_factor(k: FoodKind) -> (r: u32)
    ensures
        r == kind_factor_spec(k),
{
    match k {
        FoodKind::Berries => 10000,
        FoodKind::Leaves => 6000,
        FoodKind::Seeds => 8000,
        FoodKind::Nuts => 9000,
    }
}

/// The quality of a source: the fraction still there, times its kind's factor.
pub open spec fn source_quality_spec(f: FastFoodSource) -> int {
    if f.max_amount == 0 {
        0
    } else {
        (f.amount * SCALE / f.max_amount as int) * kind_factor_spec(f.food_type) / SCALE as int
    }
}

/// The quality of a source (see `source_quality_spec`).
pub fn source_quality(f: &FastFoodSource) -> (r: u32)
    requires
        f.amount <= f.max_amount,
    ensures
        r == source_quality_spec(*f),
        r <= SCALE,
{
    if f.max_amount == 0 {
        return 0;
    }
    let frac: u64 = f.amount as u64 * SCALE as u64 / f.max_amount as u64;
    assert(frac <= SCALE) by (nonlinear_arith)
        requires
            frac == f.amount * SCALE / f.max_amount as int,
            f.amount <= f.max_amount,
            f.max_amount > 0,
    ;
    let k: u64 = kind_factor(f.food_type) as u64;
    assert(frac * k <= SCALE * SCALE) by (nonlinear_arith)
        requires frac <= SCALE, k <= SCALE;
    let q: u64 = frac * k / SCALE as u64;
    assert(q <= SCALE) by (nonlinear_arith)
        requires
            q == frac * k / SCALE as int,
            frac <= SCALE,
            k <= SCALE,
    ;
    q as u32
}

/// How much one Collect takes: the limit, what the source holds, and what the
/// ant can still carry, whichever is least.
pub open spec fn take_spec(a: FastAnt, f: FastFoodSource) -> int {
    let room = u32::MAX - a.carried.food;
    let t = if f.amount < COLLECT_LIMIT { f.amount as int } else { COLLECT_LIMIT as int };
    if t < room { t } else { room }
}

/// One Collect of ant `a` at source `f`: the food moves from the source to the
/// ant. With something taken the ant carries food, targets the source and
/// remembers it; with nothing taken it drops its target and wanders.
pub fn collect(a: FastAnt, f: FastFoodSource) -> (r: (FastAnt, FastFoodSource))
    requires
        f.amount <= f.max_amount,
    ensures
        r.1.amount == f.amount - take_spec(a, f),
        r.1 == (FastFoodSource { amount: r.1.amount, ..f }),
        r.0.carried == (Resources { food: (a.carried.food + take_spec(a, f)) as u32, ..a.carried }),
        f.amount - r.1.amount == r.0.carried.total() - a.carried.total(),
        r.0.carried.total() - a.carried.total() >= 0,
        r.1.amount <= r.1.max_amount,
        take_spec(a, f) > 0 ==> r.0 == (FastAnt {
            state: AntState::CarryingFood,
            target: AntTarget::Food(f.id),
            last_food_source: Some(f.id),
            carried: r.0.carried,
            ..a
        }),
        take_spec(a, f) == 0 ==> r.0 == (FastAnt {
            state: AntState::Wandering,
            target: AntTarget::Unset,
            ..a
        }),
{
    let room: u32 = u32::MAX - a.carried.food;
    let t: u32 = if f.amount < COLLECT_LIMIT { f.amount } else { COLLECT_LIMIT };
    let take: u32 = if t < room { t } else { room };
    let food = FastFoodSource { amount: f.amount - take, ..f };
    if take > 0 {
        let carried = Resources { food: a.carried.food + take, ..a.carried };
        let ant = FastAnt {
            state: AntState::CarryingFood,
            target: AntTarget::Food(f.id),
            last_food_source: Some(f.id),
            carried,
            ..a
        };
        (ant, food)
    } else {
        (FastAnt { state: AntState::Wandering, target: AntTarget::Unset, ..a }, food)
    }
}

/// One Deposit of ant `a` at colony `c`: everything carried goes into the
/// colony's food. The ant goes back to its last source if that still holds
/// food (`source_has_food`), and wanders otherwise.
pub fn deposit(a: FastAnt, c: FastColony, source_has_food: bool) -> (r: (FastAnt, FastColony))
    requires
        c.resources.food + a.carried.total() <= u32::MAX,
    ensures
        r.1.resources.food == c.resources.food + a.carried.total(),
        r.1 == (FastColony {
            resources: Resources { food: r.1.resources.food, ..c.resources },
            ..c
        }),
        r.0.carried == Resources::empty(),
        r.0.carried.total() == 0,
        (source_has_food && a.last_food_source.is_some()) ==> r.0 == (FastAnt {
            carried: Resources::empty(),
            state: AntState::SeekingFood,
            target: AntTarget::Food(a.last_food_source.unwrap()),
            ..a
        }),
        !(source_has_food && a.last_food_source.is_some()) ==> r.0 == (FastAnt {
            carried: Resources::empty(),
            state: AntState::Wandering,
            target: AntTarget::Unset,
            ..a
        }),
{
    let total: u64 = a.carried.sum();
    let colony = FastColony {
        resources: Resources { food: (c.resources.food as u64 + total) as u32, ..c.resources },
        ..c
    };
    let (state, target) = match a.last_food_source {
        Some(id) => if source_has_food {
            (AntState::SeekingFood, AntTarget::Food(id))
        } else {
            (AntState::Wandering, AntTarget::Unset)
        },
        None => (AntState::Wandering, AntTarget::Unset),
    };
    (FastAnt { carried: Resources::none(), state, target, ..a }, colony)
}

} // verus!
