//! One tick of one ant: age, decide, act and move.
use vstd::prelude::*;
use crate::behavior::{
    age_ant, age_spec, collect, decide, decide_spec, deposit, source_quality, source_quality_spec,
    take_spec, Action,
};
use crate::geometry::{
    circ_dist, coord_ok, cosine_spec, distance_squared, is_heading, is_within, normalize_angle,
    sine_spec, within, Point, WorldBounds, HALF_TURN, MAX_EXTENT, SCALE, TURN,
};
use crate::model::{AntState, AntTarget, FastAnt, FastColony, FastFoodSource, PheromoneType};
use crate::motion::{
    advance, bounce_spec, heading_after, step_spec, turn_spec, turn_toward, turned_then_mirrored,
};
use crate::pheromone::STRENGTH_ONE;
use crate::steering::{angle_between_points, blend_heading, heading_spec, Influence};

verus! {

/// The widest random change of heading asked for in one tick.
pub const MAX_JITTER: i64 = 5000;

/// Strength of the Food trail laid while carrying.
pub const CARRY_TRAIL: u32 = 500_000;

/// Strength of the Food trail laid at a source when collecting.
pub const COLLECT_TRAIL: u32 = 800_000;

/// Strength of the Home trail laid while heading for food.
pub const SEEK_TRAIL: u32 = 300_000;

/// Strength of the Exploration trail laid by explorers.
pub const EXPLORE_TRAIL: u32 = 100_000;

/// Strength of the Home trail laid at the colony on a deposit.
pub const DEPOSIT_TRAIL: u32 = 200_000;

/// What an ant senses and is given for one tick.
#[derive(Clone, Copy, Debug, PartialEq, Eq, Structural)]
pub struct Surroundings {
    pub bounds: WorldBounds,
    pub max_turn: u32,
    /// The lifespan of the ant's type.
    pub lifespan: i64,
    /// The nearest food source within scanning range.
    pub nearby_food: Option<FastFoodSource>,
    /// The food source named by the ant's target, if it still exists.
    pub target_food: Option<FastFoodSource>,
    /// The ant's colony, if it still exists.
    pub colony: Option<FastColony>,
    /// Whether the source the ant last took from still holds food.
    pub last_source_has_food: bool,
    /// The pull of the trails the ant's role samples.
    pub influence: Influence,
    /// The pull of Home trails alone.
    pub home_influence: Influence,
    /// A random change of heading, at most `MAX_JITTER` either way.
    pub jitter: i64,
}

/// A trail an ant lays this tick.
#[derive(Clone, Copy, Debug, PartialEq, Eq, Structural)]
pub struct TrailRequest {
    pub kind: PheromoneType,
    pub position: crate::geometry::Point,
    pub strength: u32,
    pub quality: u32,
    pub target_food: Option<i32>,
}

/// What one tick of an ant did.
#[derive(Clone, Copy, Debug, PartialEq, Eq, Structural)]
pub struct Outcome {
    pub ant: FastAnt,
    pub action: Option<Action>,
    /// The target food source after a Collect.
    pub food: Option<FastFoodSource>,
    /// The colony after a Deposit.
    pub colony: Option<FastColony>,
    pub trail: Option<TrailRequest>,
}

pub open spec fn surroundings_wf(s: Surroundings) -> bool {
    &&& s.bounds.wf()
    &&& -MAX_JITTER <= s.jitter <= MAX_JITTER
    &&& (s.nearby_food matches Some(f) ==> s.bounds.contains(f.position))
    &&& (s.target_food matches Some(f) ==> f.wf(s.bounds))
    &&& (s.colony matches Some(c) ==> c.wf(s.bounds))
    &&& is_heading(s.influence.direction as int)
    &&& is_heading(s.home_influence.direction as int)
}

pub open spec fn nearby_spec(a: FastAnt, s: Surroundings) -> Option<(i32, int)> {
    match s.nearby_food {
        Some(f) => Some((f.id, crate::geometry::dist2(a.position, f.position))),
        None => None,
    }
}

proof fn lemma_unturned(h: int, max_turn: int)
    requires
        is_heading(h),
        max_turn >= 0,
    ensures
        turned_then_mirrored(h, h, max_turn),
{
    assert(circ_dist(h, h) == 0);
}

/// `a` after turning toward `desired` by at most the turn rate, then one step
/// of `speed` reflected off the edges.
pub open spec fn stepped(a: FastAnt, desired: int, speed: int, s: Surroundings) -> FastAnt {
    let h = turn_spec(a.angle as int, desired, s.max_turn as int);
    let dx = step_spec(speed, cosine_spec(h));
    let dy = step_spec(speed, sine_spec(h));
    FastAnt {
        position: Point {
            x: bounce_spec(a.position.x as int, dx, s.bounds.width as int) as i64,
            y: bounce_spec(a.position.y as int, dy, s.bounds.height as int) as i64,
        },
        angle: heading_after(a.position, dx, dy, h, s.bounds) as u32,
        ..a
    }
}

/// The heading an ant takes at random: its own, changed by the jitter.
pub open spec fn jitter_heading(a: FastAnt, s: Surroundings) -> int {
    (a.angle + s.jitter) % (TURN as int)
}

/// The heading from `a` toward `p`.
pub open spec fn toward(a: FastAnt, p: Point) -> int {
    heading_spec(p.x - a.position.x, p.y - a.position.y)
}

/// The ant after aging this tick.
pub open spec fn aged_spec(a: FastAnt, s: Surroundings) -> FastAnt {
    age_spec(a, s.lifespan as int)
}

/// The action the aged ant decides on.
pub open spec fn action_spec(a: FastAnt, s: Surroundings) -> Action {
    let g = aged_spec(a, s);
    decide_spec(g, nearby_spec(g, s), s.target_food, s.influence.strength as int)
}

/// A carrying ant in its colony that can deposit there.
pub open spec fn can_deposit(g: FastAnt, c: FastColony) -> bool {
    within(g.position, c.center, c.radius as int) && c.resources.food + g.carried.total() <= u32::MAX
}

/// What the action decided on does, for the aged ant `g`.
pub open spec fn acts_as_decided(g: FastAnt, s: Surroundings, act: Action, r: Outcome) -> bool {
    match act {
        Action::Collect(_) => {
            let f = s.target_food.unwrap();
            let t = take_spec(g, f);
            &&& r.food == Some(FastFoodSource { amount: (f.amount - t) as u32, ..f })
            &&& r.colony.is_none()
            &&& r.ant.position == g.position && r.ant.angle == g.angle
            &&& r.ant.carried.food == g.carried.food + t
            &&& (t > 0 ==> r.ant.state == AntState::CarryingFood && r.ant.target == AntTarget::Food(f.id)
                && r.trail == Some(TrailRequest {
                kind: PheromoneType::Food,
                position: f.position,
                strength: COLLECT_TRAIL,
                quality: source_quality_spec(f) as u32,
                target_food: Some(f.id),
            }))
            &&& (t == 0 ==> r.ant.state == AntState::Wandering && r.ant.target == AntTarget::Unset
                && r.trail.is_none())
        },
        Action::ReturnToColony => match s.colony {
            None => {
                &&& r.ant.state == AntState::Wandering && r.ant.target == AntTarget::Unset
                &&& r.food.is_none() && r.colony.is_none() && r.trail.is_none()
            },
            Some(c) => if can_deposit(g, c) {
                &&& r.colony matches Some(c2) && c2.resources.food == c.resources.food + g.carried.total()
                &&& r.food.is_none()
                &&& r.ant.carried.total() == 0
                &&& r.ant.position == g.position
                &&& r.trail == Some(TrailRequest {
                    kind: PheromoneType::Home,
                    position: c.center,
                    strength: DEPOSIT_TRAIL,
                    quality: 0,
                    target_food: None,
                })
            } else {
                &&& r.food.is_none() && r.colony.is_none()
                &&& r.ant.state == AntState::CarryingFood && r.ant.carried == g.carried
                &&& r.trail == Some(TrailRequest {
                    kind: PheromoneType::Food,
                    position: r.ant.position,
                    strength: CARRY_TRAIL,
                    quality: 0,
                    target_food: g.last_food_source,
                })
                &&& (s.home_influence.strength == 0 ==> r.ant == stepped(g, toward(g, c.center), g.speed as int, s))
            },
        },
        Action::MoveToTarget => {
            let f = s.target_food.unwrap();
            &&& r.ant == stepped(g, toward(g, f.position), g.speed as int, s)
            &&& r.food.is_none() && r.colony.is_none()
            &&& r.trail == Some(TrailRequest {
                kind: PheromoneType::Home,
                position: r.ant.position,
                strength: SEEK_TRAIL,
                quality: 0,
                target_food: Some(f.id),
            })
        },
        Action::SeekFood(id) => {
            let f = s.nearby_food.unwrap();
            &&& r.ant == stepped(
                FastAnt { state: AntState::SeekingFood, target: AntTarget::Food(id), ..g },
                toward(g, f.position),
                g.speed as int,
                s,
            )
            &&& r.food.is_none() && r.colony.is_none() && r.trail.is_none()
        },
        Action::Follow => {
            &&& r.ant.state == AntState::Following && r.ant.target == g.target
            &&& r.food.is_none() && r.colony.is_none() && r.trail.is_none()
        },
        Action::Explore => {
            &&& r.ant == stepped(FastAnt { state: AntState::Exploring, ..g }, jitter_heading(g, s), g.speed as int, s)
            &&& r.food.is_none() && r.colony.is_none()
            &&& r.trail == Some(TrailRequest {
                kind: PheromoneType::Exploration,
                position: r.ant.position,
                strength: EXPLORE_TRAIL,
                quality: 0,
                target_food: None,
            })
        },
        Action::Patrol => {
            &&& r.ant == stepped(FastAnt { state: AntState::Patrolling, ..g }, jitter_heading(g, s), g.speed as int, s)
            &&& r.food.is_none() && r.colony.is_none() && r.trail.is_none()
        },
        Action::Wander => {
            &&& r.ant == stepped(
                FastAnt { state: AntState::Wandering, target: AntTarget::Unset, ..g },
                jitter_heading(g, s),
                g.speed as int,
                s,
            )
            &&& r.food.is_none() && r.colony.is_none() && r.trail.is_none()
        },
        _ => true,
    }
}

/// Move `a` one step after turning toward `desired`, with `speed`.
fn move_toward(a: FastAnt, desired: u32, speed: i64, s: &Surroundings) -> (r: FastAnt)
    requires
        a.wf(s.bounds),
        s.bounds.wf(),
        is_heading(desired as int),
        0 <= speed <= MAX_EXTENT,
    ensures
        r.wf(s.bounds),
        r == stepped(a, desired as int, speed as int, *s),
        circ_dist(r.angle as int, a.angle as int) <= s.max_turn + HALF_TURN,
        turned_then_mirrored(r.angle as int, a.angle as int, s.max_turn as int),
{
    let h = turn_toward(a.angle, desired, s.max_turn);
    let (p, h2) = advance(a.position, h, speed, s.bounds);
    assert(circ_dist(h as int, a.angle as int) <= s.max_turn);
    FastAnt { position: p, angle: h2, ..a }
}

/// The heading `a` would take at random this tick.
fn jittered(a: &FastAnt, s: &Surroundings) -> (r: u32)
    requires
        is_heading(a.angle as int),
        -MAX_JITTER <= s.jitter <= MAX_JITTER,
    ensures
        is_heading(r as int),
        r == jitter_heading(*a, *s),
{
    normalize_angle(a.angle as i64 + s.jitter)
}

/// One tick of ant `a`. The dead are left as they are; the living age, then
/// decide (see `decide_spec`) and act. A Collect moves food from the target
/// source to the ant; a Deposit moves everything carried into the colony's food.
pub fn step_ant(a: FastAnt, s: &Surroundings) -> (r: Outcome)
    requires
        a.wf(s.bounds),
        a.age_ticks < i64::MAX,
        surroundings_wf(*s),
    ensures
        r.ant.wf(s.bounds),
        r.ant.id == a.id,
        r.ant.colony_id == a.colony_id,
        a.state == AntState::Dead ==> r == (Outcome {
            ant: a,
            action: None,
            food: None,
            colony: None,
            trail: None,
        }),
        r.ant.state == AntState::Dead ==> r.action.is_none() && r.food.is_none()
            && r.colony.is_none(),
        circ_dist(r.ant.angle as int, a.angle as int) <= s.max_turn + HALF_TURN,
        turned_then_mirrored(r.ant.angle as int, a.angle as int, s.max_turn as int),
        a.state != AntState::Dead ==> r.ant.age_ticks == aged_spec(a, *s).age_ticks
            && r.ant.energy == aged_spec(a, *s).energy,
        (a.state != AntState::Dead && aged_spec(a, *s).state == AntState::Dead) ==> r == (Outcome {
            ant: aged_spec(a, *s),
            action: None,
            food: None,
            colony: None,
            trail: None,
        }),
        (a.state != AntState::Dead && aged_spec(a, *s).state != AntState::Dead) ==> {
            &&& r.action == Some(action_spec(a, *s))
            &&& acts_as_decided(aged_spec(a, *s), *s, action_spec(a, *s), r)
        },
        r.action matches Some(act) ==> act == decide_spec(
            age_spec(a, s.lifespan as int),
            nearby_spec(age_spec(a, s.lifespan as int), *s),
            s.target_food,
            s.influence.strength as int,
        ),
        r.food matches Some(f2) ==> {
            &&& s.target_food matches Some(f)
            &&& f2 == (FastFoodSource { amount: f2.amount, ..f })
            &&& f.amount - f2.amount == r.ant.carried.total() - a.carried.total()
            &&& f.amount - f2.amount >= 0
            &&& f2.amount <= f2.max_amount
        },
        r.colony matches Some(c2) ==> {
            &&& s.colony matches Some(c)
            &&& c2 == (FastColony {
                resources: crate::model::Resources { food: c2.resources.food, ..c.resources },
                ..c
            })
            &&& c2.resources.food - c.resources.food == a.carried.total()
            &&& r.ant.carried.total() == 0
        },
        r.trail matches Some(t) ==> t.strength <= STRENGTH_ONE && t.quality <= SCALE
            && s.bounds.contains(t.position),
{
    proof {
        lemma_unturned(a.angle as int, s.max_turn as int);
    }
    if a.state == AntState::Dead {
        return Outcome { ant: a, action: None, food: None, colony: None, trail: None };
    }
    let aged = age_ant(a, s.lifespan);
    if aged.state == AntState::Dead {
        return Outcome { ant: aged, action: None, food: None, colony: None, trail: None };
    }
    let nearby = match s.nearby_food {
        Some(f) => Some((f.id, distance_squared(aged.position, f.position))),
        None => None,
    };
    let action = decide(&aged, nearby, s.target_food, s.influence.strength);
    let speed = aged.speed;
    match action {
        Action::Collect(_) => {
            let f = s.target_food.unwrap();
            let quality = source_quality(&f);
            let (ant, food) = collect(aged, f);
            let trail = if food.amount < f.amount {
                Some(TrailRequest {
                    kind: PheromoneType::Food,
                    position: f.position,
                    strength: COLLECT_TRAIL,
                    quality,
                    target_food: Some(f.id),
                })
            } else {
                None
            };
            Outcome { ant, action: Some(action), food: Some(food), colony: None, trail }
        },
        Action::ReturnToColony => match s.colony {
            Some(c) => {
                let home = is_within(aged.position, c.center, c.radius);
                let total = aged.carried.sum();
                if home && c.resources.food as u64 + total <= u32::MAX as u64 {
                    let (ant, colony) = deposit(aged, c, s.last_source_has_food);
                    let trail = Some(TrailRequest {
                        kind: PheromoneType::Home,
                        position: c.center,
                        strength: DEPOSIT_TRAIL,
                        quality: 0,
                        target_food: None,
                    });
                    Outcome { ant, action: Some(action), food: None, colony: Some(colony), trail }
                } else {
                    let toward = angle_between_points(aged.position, c.center);
                    let w: u64 = if s.home_influence.strength == 0 {
                        0
                    } else if s.home_influence.strength >= (STRENGTH_ONE / 2) as u128 {
                        3000
                    } else {
                        (s.home_influence.strength as u64 * 6000 / STRENGTH_ONE as u64)
                    };
                    let desired = blend_heading(toward, s.home_influence.direction, w as u32);
                    let ant = move_toward(aged, desired, speed, s);
                    let trail = Some(TrailRequest {
                        kind: PheromoneType::Food,
                        position: ant.position,
                        strength: CARRY_TRAIL,
                        quality: 0,
                        target_food: aged.last_food_source,
                    });
                    Outcome { ant, action: Some(action), food: None, colony: None, trail }
                }
            },
            None => {
                let lost = FastAnt { state: AntState::Wandering, target: AntTarget::Unset, ..aged };
                let ant = move_toward(lost, jittered(&aged, s), speed, s);
                Outcome { ant, action: Some(action), food: None, colony: None, trail: None }
            },
        },
        Action::MoveToTarget => {
            let f = s.target_food.unwrap();
            let ant = move_toward(aged, angle_between_points(aged.position, f.position), speed, s);
            let trail = Some(TrailRequest {
                kind: PheromoneType::Home,
                position: ant.position,
                strength: SEEK_TRAIL,
                quality: 0,
                target_food: Some(f.id),
            });
            Outcome { ant, action: Some(action), food: None, colony: None, trail }
        },
        Action::SeekFood(id) => {
            let f = s.nearby_food.unwrap();
            let seeking = FastAnt { state: AntState::SeekingFood, target: AntTarget::Food(id), ..aged };
            let ant = move_toward(seeking, angle_between_points(aged.position, f.position), speed, s);
            Outcome { ant, action: Some(action), food: None, colony: None, trail: None }
        },
        Action::Follow => {
            let st: u128 = s.influence.strength;
            let w: u32 = if st >= (STRENGTH_ONE as u128) * 2 / 5 {
                8000
            } else {
                let v: u64 = st as u64 * 2 * SCALE as u64 / STRENGTH_ONE as u64;
                assert(v <= 8000) by (nonlinear_arith)
                    requires v == st * 2 * SCALE / STRENGTH_ONE as int, st < STRENGTH_ONE * 2 / 5;
                v as u32
            };
            assert(-MAX_JITTER * SCALE <= s.jitter * (SCALE - w) <= MAX_JITTER * SCALE)
                by (nonlinear_arith)
                requires -MAX_JITTER <= s.jitter <= MAX_JITTER, 0 <= SCALE - w <= SCALE;
            let free: i64 = s.jitter * (SCALE - w as i64) / SCALE;
            let wander = normalize_angle(aged.angle as i64 + free);
            let desired = blend_heading(wander, s.influence.direction, w);
            let boost: i64 = if st >= STRENGTH_ONE as u128 {
                speed / 2
            } else {
                assert(0 <= speed * st <= MAX_EXTENT * STRENGTH_ONE) by (nonlinear_arith)
                    requires 0 <= speed <= MAX_EXTENT, 0 <= st < STRENGTH_ONE;
                let v: i128 = speed as i128 * st as i128 / (2 * STRENGTH_ONE) as i128;
                assert(0 <= v <= speed) by (nonlinear_arith)
                    requires v == speed * st / (2 * STRENGTH_ONE) as int, 0 <= st < STRENGTH_ONE,
                        0 <= speed;
                v as i64
            };
            let fast: i64 = if speed + boost > MAX_EXTENT { MAX_EXTENT } else { speed + boost };
            let following = FastAnt { state: AntState::Following, ..aged };
            let ant = move_toward(following, desired, fast, s);
            Outcome { ant, action: Some(action), food: None, colony: None, trail: None }
        },
        Action::Explore => {
            let exploring = FastAnt { state: AntState::Exploring, ..aged };
            let ant = move_toward(exploring, jittered(&aged, s), speed, s);
            let trail = Some(TrailRequest {
                kind: PheromoneType::Exploration,
                position: ant.position,
                strength: EXPLORE_TRAIL,
                quality: 0,
                target_food: None,
            });
            Outcome { ant, action: Some(action), food: None, colony: None, trail }
        },
        Action::Patrol => {
            let patrolling = FastAnt { state: AntState::Patrolling, ..aged };
            let ant = move_toward(patrolling, jittered(&aged, s), speed, s);
            Outcome { ant, action: Some(action), food: None, colony: None, trail: None }
        },
        _ => {
            let wandering = FastAnt { state: AntState::Wandering, target: AntTarget::Unset, ..aged };
            let ant = move_toward(wandering, jittered(&aged, s), speed, s);
            Outcome { ant, action: Some(action), food: None, colony: None, trail: None }
        },
    }
}

} // verus!
