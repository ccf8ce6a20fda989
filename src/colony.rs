//! The colony manager: population accounting, upkeep and spawning.
use vstd::prelude::*;
use crate::geometry::{clamp_spec, is_heading, within, Point, WorldBounds, MAX_EXTENT, UNIT};
use crate::model::{AntState, AntTarget, FastAnt, FastColony, Resources, Role};

verus! {

/// Food taken from a colony for each new ant.
pub const SPAWN_COST: u32 = 10;

/// New ants appear within this distance of the colony center on each axis.
pub const SPAWN_SPREAD: i64 = 10 * UNIT;

/// The live ants of `ants` that belong to colony `id`.
pub open spec fn population_spec(ants: Seq<FastAnt>, id: i32) -> int
    decreases ants.len(),
{
    if ants.len() == 0 {
        0
    } else {
        population_spec(ants.drop_last(), id) + if ants.last().colony_id == id && ants.last().state
            != AntState::Dead {
            1int
        } else {
            0int
        }
    }
}

proof fn lemma_population_bound(ants: Seq<FastAnt>, id: i32)
    ensures
        0 <= population_spec(ants, id) <= ants.len(),
    decreases ants.len(),
{
    if ants.len() > 0 {
        lemma_population_bound(ants.drop_last(), id);
    }
}

/// A colony's count is never negative.
pub proof fn lemma_population_nonneg(ants: Seq<FastAnt>, id: i32)
    ensures
        0 <= population_spec(ants, id) <= ants.len(),
{
    lemma_population_bound(ants, id);
}

/// Count the live ants of colony `id`.
pub fn count_population(ants: &[FastAnt], id: i32) -> (r: i32)
    requires
        ants.len() <= i32::MAX,
    ensures
        r == population_spec(ants@, id),
{
    let mut n: i32 = 0;
    let mut i: usize = 0;
    while i < ants.len()
        invariant
            i <= ants.len() <= i32::MAX,
            n == population_spec(ants@.subrange(0, i as int), id),
        decreases ants.len() - i,
    {
        proof {
            assert(ants@.subrange(0, i + 1).drop_last() =~= ants@.subrange(0, i as int));
            lemma_population_bound(ants@.subrange(0, i as int), id);
        }
        if ants[i].colony_id == id && ants[i].state != AntState::Dead {
            n = n + 1;
        }
        i += 1;
    }
    assert(ants@.subrange(0, ants.len() as int) =~= ants@);
    n
}

/// What a colony owes after adding one tenth of a unit per member: the whole
/// units due now and the tenths carried over.
pub open spec fn demand_spec(c: FastColony) -> (int, int) {
    let owed = c.hunger_tenths + c.population;
    (owed / 10, owed % 10)
}

/// The stock after drawing `demand` from seeds, then sugar, then protein, then
/// food, as far as each lasts: the food brought home is the reserve drawn last.
pub open spec fn draw_spec(r: Resources, demand: int) -> Resources {
    let d1 = if demand < r.seeds { demand } else { r.seeds as int };
    let left1 = demand - d1;
    let d2 = if left1 < r.sugar { left1 } else { r.sugar as int };
    let left2 = left1 - d2;
    let d3 = if left2 < r.protein { left2 } else { r.protein as int };
    let left3 = left2 - d3;
    let d4 = if left3 < r.food { left3 } else { r.food as int };
    Resources {
        seeds: (r.seeds - d1) as u32,
        sugar: (r.sugar - d2) as u32,
        protein: (r.protein - d3) as u32,
        food: (r.food - d4) as u32,
    }
}

fn take_up_to(have: u32, want: u64) -> (r: (u32, u64))
    ensures
        r.0 == have - (if want < have { want as int } else { have as int }),
        r.1 == want - (if want < have { want as int } else { have as int }),
{
    if want < have as u64 {
        (have - want as u32, 0)
    } else {
        (0, want - have as u64)
    }
}

/// One tick of upkeep: a tenth of a unit per member, drawn in priority order
/// (seeds, sugar, protein, food) until the demand is met or the stock is out.
pub fn consume_resources(c: FastColony) -> (r: FastColony)
    requires
        c.wf_upkeep(),
    ensures
        r == (FastColony {
            resources: draw_spec(c.resources, demand_spec(c).0),
            hunger_tenths: demand_spec(c).1 as u32,
            ..c
        }),
        r.resources.total() <= c.resources.total(),
{
    let owed: u64 = c.hunger_tenths as u64 + c.population as u64;
    let demand: u64 = owed / 10;
    let (seeds, left) = take_up_to(c.resources.seeds, demand);
    let (sugar, left) = take_up_to(c.resources.sugar, left);
    let (protein, left) = take_up_to(c.resources.protein, left);
    let (food, _left) = take_up_to(c.resources.food, left);
    FastColony {
        resources: Resources { food, seeds, sugar, protein },
        hunger_tenths: (owed % 10) as u32,
        ..c
    }
}

impl FastColony {
    pub open spec fn wf_upkeep(self) -> bool {
        self.population >= 0 && self.hunger_tenths < 10
    }
}

/// A colony spawns on ticks that are a multiple of `interval`, while it is
/// below its cap and can pay the spawn cost.
pub open spec fn should_spawn_spec(c: FastColony, tick: int, interval: int) -> bool {
    &&& tick % interval == 0
    &&& c.population < c.max_population
    &&& c.resources.food >= SPAWN_COST
}

/// Whether colony `c` spawns an ant at `tick`.
pub fn should_spawn(c: &FastColony, tick: i64, interval: i64) -> (r: bool)
    requires
        interval > 0,
        tick >= 0,
    ensures
        r == should_spawn_spec(*c, tick as int, interval as int),
        c.population >= c.max_population ==> !r,
{
    tick % interval == 0 && c.population < c.max_population && c.resources.food >= SPAWN_COST
}

/// A new ant of colony `c` with `role`, placed at `offset` from its center
/// (held inside the world) with `heading`; the colony pays the spawn cost and
/// counts it. An offset within the colony's radius keeps the ant within it.
pub fn spawn_ant(
    c: FastColony,
    id: i32,
    ant_type_id: i32,
    role: Role,
    heading: u32,
    offset: Point,
    speed: i64,
    bounds: WorldBounds,
) -> (r: (FastColony, FastAnt))
    requires
        c.wf(bounds),
        bounds.wf(),
        c.resources.food >= SPAWN_COST,
        c.population < c.max_population,
        is_heading(heading as int),
        -c.radius <= offset.x <= c.radius,
        -c.radius <= offset.y <= c.radius,
        0 <= speed <= MAX_EXTENT,
    ensures
        r.0 == (FastColony {
            population: (c.population + 1) as i32,
            resources: Resources { food: (c.resources.food - SPAWN_COST) as u32, ..c.resources },
            ..c
        }),
        r.1 == (FastAnt {
            id,
            colony_id: c.id,
            ant_type_id,
            role,
            position: Point {
                x: clamp_spec(c.center.x + offset.x, 0, bounds.width as int) as i64,
                y: clamp_spec(c.center.y + offset.y, 0, bounds.height as int) as i64,
            },
            angle: heading,
            speed,
            health: 100,
            energy: 100,
            age_ticks: 0,
            state: AntState::Wandering,
            target: AntTarget::Unset,
            carried: Resources::empty(),
            last_action_tick: 0,
            last_food_source: None,
        }),
        r.1.wf(bounds),
        offset.x * offset.x + offset.y * offset.y <= c.radius * c.radius ==> within(
            r.1.position,
            c.center,
            c.radius as int,
        ),
{
    let x = crate::geometry::clamp(c.center.x + offset.x, 0, bounds.width);
    let y = crate::geometry::clamp(c.center.y + offset.y, 0, bounds.height);
    proof {
        let ex = x - c.center.x;
        let ey = y - c.center.y;
        assert(ex * ex <= offset.x * offset.x) by (nonlinear_arith)
            requires
                (offset.x >= 0 ==> 0 <= ex <= offset.x),
                (offset.x < 0 ==> offset.x <= ex <= 0);
        assert(ey * ey <= offset.y * offset.y) by (nonlinear_arith)
            requires
                (offset.y >= 0 ==> 0 <= ey <= offset.y),
                (offset.y < 0 ==> offset.y <= ey <= 0);
    }
    let ant = FastAnt {
        id,
        colony_id: c.id,
        ant_type_id,
        role,
        position: Point { x, y },
        angle: heading,
        speed,
        health: 100,
        energy: 100,
        age_ticks: 0,
        state: AntState::Wandering,
        target: AntTarget::Unset,
        carried: Resources::none(),
        last_action_tick: 0,
        last_food_source: None,
    };
    let colony = FastColony {
        population: c.population + 1,
        resources: Resources { food: c.resources.food - SPAWN_COST, ..c.resources },
        ..c
    };
    (colony, ant)
}

/// A starting colony: on the center line, `side` (-1 or 1) half the spacing
/// from the center, the spacing being four tenths of the world's smaller side;
/// radius 30 units, no population, cap 100, a stock of 100 seeds, 50 sugar and
/// 25 protein.
pub open spec fn bootstrap_spec(bounds: WorldBounds, id: i32, side: int) -> FastColony {
    let small = if bounds.width < bounds.height { bounds.width } else { bounds.height };
    let spacing = small * 4 / 10;
    FastColony {
        id,
        center: Point { x: (bounds.width / 2 + side * (spacing / 2)) as i64, y: (bounds.height / 2) as i64 },
        radius: 30_000,
        population: 0,
        max_population: 100,
        resources: Resources { food: 0, seeds: 100, sugar: 50, protein: 25 },
        territory_radius: 100_000,
        aggression: 5000,
        hunger_tenths: 0,
    }
}

/// The two colonies created when a world starts without any: either side of the
/// center, apart by four tenths of the world's smaller side, each with a
/// starting stock.
pub fn bootstrap_colonies(bounds: WorldBounds, first_id: i32) -> (r: Vec<FastColony>)
    requires
        bounds.wf(),
        first_id < i32::MAX,
    ensures
        r@.len() == 2,
        forall|i: int| 0 <= i < 2 ==> (#[trigger] r@[i]).wf(bounds),
        r@[0].id == first_id,
        r@[1].id == first_id + 1,
        r@[0].center.y == bounds.height / 2,
        r@[1].center.y == bounds.height / 2,
        r@[0].center.x < r@[1].center.x || bounds.width < 5 || bounds.height < 5,
        r@[0] == bootstrap_spec(bounds, first_id, -1),
        r@[1] == bootstrap_spec(bounds, (first_id + 1) as i32, 1),
{
    let side: i64 = if bounds.width < bounds.height { bounds.width } else { bounds.height };
    let spacing: i64 = side * 4 / 10;
    let cx: i64 = bounds.width / 2;
    let cy: i64 = bounds.height / 2;
    let stock = Resources { food: 0, seeds: 100, sugar: 50, protein: 25 };
    let left = FastColony {
        id: first_id,
        center: Point { x: cx - spacing / 2, y: cy },
        radius: 30 * UNIT,
        population: 0,
        max_population: 100,
        resources: stock,
        territory_radius: 100 * UNIT,
        aggression: 5000,
        hunger_tenths: 0,
    };
    let right = FastColony { id: first_id + 1, center: Point { x: cx + spacing / 2, y: cy }, ..left };
    let mut v: Vec<FastColony> = Vec::new();
    v.push(left);
    v.push(right);
    v
}

} // verus!
