//! Rows written to and read from the persistent store.
use vstd::prelude::*;
use crate::geometry::{clamp, clamp_spec, normalize_angle, Point, WorldBounds, MAX_EXTENT, SCALE, UNIT};
use crate::model::{AntState, AntTarget, FastAnt, FastColony, FastFoodSource, FoodKind, Resources, Role};

verus! {

/// The stored name of a state.
pub open spec fn state_name_spec(s: AntState) -> Seq<char> {
    match s {
        AntState::Wandering => "wandering"@,
        AntState::SeekingFood => "seeking_food"@,
        AntState::CarryingFood => "carrying_food"@,
        AntState::Following => "following"@,
        AntState::Exploring => "exploring"@,
        AntState::Patrolling => "patrolling"@,
        AntState::Dead => "dead"@,
    }
}

/// The stored name of a state.
pub fn state_name(s: AntState) -> (r: &'static str)
    ensures
        r@ == state_name_spec(s),
{
    match s {
        AntState::Wandering => "wandering",
        AntState::SeekingFood => "seeking_food",
        AntState::CarryingFood => "carrying_food",
        AntState::Following => "following",
        AntState::Exploring => "exploring",
        AntState::Patrolling => "patrolling",
        AntState::Dead => "dead",
    }
}

/// What is written of an ant: position in whole world units, heading, speed,
/// health, energy, age and state.
#[derive(Clone, Copy, Debug, PartialEq, Eq, Structural)]
pub struct AntRow {
    pub id: i32,
    pub position_x: i64,
    pub position_y: i64,
    pub angle: u32,
    pub current_speed: i64,
    pub health: i32,
    pub energy: i32,
    pub age_ticks: i64,
    pub state: AntState,
}

/// What is written of a colony.
#[derive(Clone, Copy, Debug, PartialEq, Eq, Structural)]
pub struct ColonyRow {
    pub id: i32,
    pub population: i32,
    pub resources: Resources,
}

/// What is written of a food source.
#[derive(Clone, Copy, Debug, PartialEq, Eq, Structural)]
pub struct FoodRow {
    pub id: i32,
    pub amount: u32,
}

pub open spec fn ant_row_spec(a: FastAnt) -> AntRow {
    AntRow {
        id: a.id,
        position_x: (a.position.x as int / UNIT as int) as i64,
        position_y: (a.position.y as int / UNIT as int) as i64,
        angle: a.angle,
        current_speed: a.speed,
        health: a.health,
        energy: a.energy,
        age_ticks: a.age_ticks,
        state: a.state,
    }
}

/// The row of an ant.
pub fn ant_row(a: &FastAnt) -> (r: AntRow)
    requires
        a.position.x >= 0,
        a.position.y >= 0,
    ensures
        r == ant_row_spec(*a),
{
    AntRow {
        id: a.id,
        position_x: a.position.x / UNIT,
        position_y: a.position.y / UNIT,
        angle: a.angle,
        current_speed: a.speed,
        health: a.health,
        energy: a.energy,
        age_ticks: a.age_ticks,
        state: a.state,
    }
}

/// The row of a colony.
pub fn colony_row(c: &FastColony) -> (r: ColonyRow)
    ensures
        r == (ColonyRow { id: c.id, population: c.population, resources: c.resources }),
{
    ColonyRow { id: c.id, population: c.population, resources: c.resources }
}

/// The row of a food source.
pub fn food_row(f: &FastFoodSource) -> (r: FoodRow)
    ensures
        r == (FoodRow { id: f.id, amount: f.amount }),
{
    FoodRow { id: f.id, amount: f.amount }
}

/// A table of ant rows after upserting `rows` in order: each id ends with the
/// last of its rows.
pub open spec fn upsert_ants(table: Map<i32, AntRow>, rows: Seq<AntRow>) -> Map<i32, AntRow>
    decreases rows.len(),
{
    if rows.len() == 0 {
        table
    } else {
        upsert_ants(table, rows.drop_last()).insert(rows.last().id, rows.last())
    }
}

/// `k` is the position of the last row of `rows` for `id`.
pub open spec fn last_row_at(rows: Seq<AntRow>, id: i32, k: int) -> bool {
    0 <= k < rows.len() && rows[k].id == id && forall|j: int| k < j < rows.len() ==> rows[j].id != id
}

proof fn lemma_upsert_shape(table: Map<i32, AntRow>, rows: Seq<AntRow>, id: i32)
    ensures
        (exists|k: int| last_row_at(rows, id, k)) ==> ({
            let k = choose|k: int| last_row_at(rows, id, k);
            upsert_ants(table, rows).contains_key(id) && upsert_ants(table, rows)[id] == rows[k]
        }),
        (forall|j: int| 0 <= j < rows.len() ==> rows[j].id != id) ==> (upsert_ants(table, rows).contains_key(id)
            == table.contains_key(id) && (table.contains_key(id) ==> upsert_ants(table, rows)[id] == table[id])),
    decreases rows.len(),
{
    if rows.len() > 0 {
        let pre = rows.drop_last();
        lemma_upsert_shape(table, pre, id);
        if rows.last().id != id {
            if exists|k: int| last_row_at(rows, id, k) {
                let k = choose|k: int| last_row_at(rows, id, k);
                assert(last_row_at(pre, id, k));
                assert forall|k2: int| last_row_at(pre, id, k2) implies k2 == k by {
                    if k2 < k {
                        assert(rows[k].id == id);
                    } else if k < k2 {
                        assert(rows[k2].id == id);
                    }
                }
            }
            if forall|j: int| 0 <= j < rows.len() ==> rows[j].id != id {
                assert forall|j: int| 0 <= j < pre.len() implies pre[j].id != id by {
                    assert(pre[j] == rows[j]);
                }
            }
        } else {
            assert(last_row_at(rows, id, rows.len() - 1));
            assert forall|k2: int| last_row_at(rows, id, k2) implies k2 == rows.len() - 1 by {}
        }
    }
}

/// Writing the same batch of ant rows twice leaves the same table as writing
/// it once.
pub proof fn lemma_upsert_idempotent(table: Map<i32, AntRow>, rows: Seq<AntRow>)
    ensures
        upsert_ants(upsert_ants(table, rows), rows) == upsert_ants(table, rows),
{
    let once = upsert_ants(table, rows);
    let twice = upsert_ants(once, rows);
    assert forall|id: i32| #[trigger] twice.contains_key(id) == once.contains_key(id) && (once.contains_key(id) ==> twice[id] == once[id]) by {
        lemma_upsert_shape(table, rows, id);
        lemma_upsert_shape(once, rows, id);
        if !(exists|k: int| last_row_at(rows, id, k)) {
            assert forall|j: int| 0 <= j < rows.len() implies rows[j].id != id by {
                if rows[j].id == id {
                    lemma_last_exists(rows, id, j);
                }
            }
        }
    }
    assert(twice =~= once);
}

proof fn lemma_last_exists(rows: Seq<AntRow>, id: i32, j: int)
    requires
        0 <= j < rows.len(),
        rows[j].id == id,
    ensures
        exists|k: int| last_row_at(rows, id, k),
    decreases rows.len() - j,
{
    if forall|m: int| j < m < rows.len() ==> rows[m].id != id {
        assert(last_row_at(rows, id, j));
    } else {
        let m = choose|m: int| j < m < rows.len() && rows[m].id == id;
        lemma_last_exists(rows, id, m);
    }
}

/// The rows of the ants in `ants`, in order.
pub fn ant_rows(ants: &[FastAnt]) -> (r: Vec<AntRow>)
    requires
        forall|i: int| 0 <= i < ants.len() ==> (#[trigger] ants[i]).position.x >= 0 && ants[i].position.y >= 0,
    ensures
        r@ == ants@.map_values(|a: FastAnt| ant_row_spec(a)),
{
    let mut out: Vec<AntRow> = Vec::new();
    let mut i: usize = 0;
    while i < ants.len()
        invariant
            i <= ants.len(),
            forall|j: int| 0 <= j < ants.len() ==> (#[trigger] ants[j]).position.x >= 0 && ants[j].position.y >= 0,
            out@ == ants@.subrange(0, i as int).map_values(|a: FastAnt| ant_row_spec(a)),
        decreases ants.len() - i,
    {
        let row = ant_row(&ants[i]);
        out.push(row);
        i += 1;
        assert(out@ =~= ants@.subrange(0, i as int).map_values(|a: FastAnt| ant_row_spec(a)));
    }
    assert(ants@.subrange(0, ants.len() as int) =~= ants@);
    out
}

/// A stored ant, as read back: whole world units, heading, speed, health,
/// energy and age. Only living ants are stored for loading.
#[derive(Clone, Copy, Debug, PartialEq, Eq, Structural)]
pub struct StoredAnt {
    pub id: i32,
    pub colony_id: i32,
    pub ant_type_id: i32,
    pub position_x: i64,
    pub position_y: i64,
    pub angle: i64,
    pub current_speed: i64,
    pub health: i32,
    pub energy: i32,
    pub age_ticks: i64,
}

/// An ant loaded from the store: a wandering worker at the stored place, held
/// inside the world, with its heading brought into range.
pub fn ant_from_row(row: &StoredAnt, bounds: WorldBounds) -> (r: FastAnt)
    requires
        bounds.wf(),
    ensures
        r.wf(bounds),
        r.id == row.id,
        r.colony_id == row.colony_id,
        r.state == AntState::Wandering,
        0 <= row.position_x <= bounds.width / UNIT ==> r.position.x == row.position_x * UNIT,
        0 <= row.position_y <= bounds.height / UNIT ==> r.position.y == row.position_y * UNIT,
{
    let px: i64 = clamp(row.position_x, 0, bounds.width / UNIT);
    let py: i64 = clamp(row.position_y, 0, bounds.height / UNIT);
    FastAnt {
        id: row.id,
        colony_id: row.colony_id,
        ant_type_id: row.ant_type_id,
        role: Role::Worker,
        position: Point { x: px * UNIT, y: py * UNIT },
        angle: normalize_angle(row.angle),
        speed: clamp(row.current_speed, 0, MAX_EXTENT),
        health: row.health,
        energy: if row.energy < 0 { 0 } else { row.energy },
        age_ticks: if row.age_ticks < 0 { 0 } else { row.age_ticks },
        state: AntState::Wandering,
        target: AntTarget::Unset,
        carried: Resources::none(),
        last_action_tick: 0,
        last_food_source: None,
    }
}

/// A stored colony, as read back: whole world units and resource amounts.
#[derive(Clone, Copy, Debug, PartialEq, Eq, Structural)]
pub struct StoredColony {
    pub id: i32,
    pub center_x: i64,
    pub center_y: i64,
    pub radius: i64,
    pub population: i32,
    pub resources: Resources,
    pub territory_radius: i64,
    pub aggression_level: i64,
}

/// A stored food source, as read back.
#[derive(Clone, Copy, Debug, PartialEq, Eq, Structural)]
pub struct StoredFood {
    pub id: i32,
    pub position_x: i64,
    pub position_y: i64,
    pub food_type: FoodKind,
    pub amount: i64,
    pub max_amount: i64,
    pub regeneration_rate: i64,
    pub nutritional_value: i64,
    pub spoilage_rate: i64,
    pub is_renewable: bool,
}

/// A whole-unit coordinate held inside `[0, limit]` position units.
pub open spec fn unit_coord(v: int, limit: int) -> int {
    clamp_spec(v, 0, limit / UNIT as int) * UNIT
}

/// A count held inside `[0, u32::MAX]`.
pub open spec fn count_spec(v: int) -> int {
    clamp_spec(v, 0, u32::MAX as int)
}

fn unit_coord_of(v: i64, limit: i64) -> (r: i64)
    requires
        0 <= limit <= MAX_EXTENT,
    ensures
        r == unit_coord(v as int, limit as int),
        0 <= r <= limit,
{
    let c = clamp(v, 0, limit / UNIT);
    c * UNIT
}

fn count_of(v: i64) -> (r: u32)
    ensures
        r == count_spec(v as int),
{
    clamp(v, 0, u32::MAX as i64) as u32
}

/// A colony loaded from the store: center and radii held inside the world,
/// population at least zero, cap 100, nothing owed.
pub fn colony_from_row(row: &StoredColony, bounds: WorldBounds) -> (r: FastColony)
    requires
        bounds.wf(),
    ensures
        r.wf(bounds),
        r == (FastColony {
            id: row.id,
            center: Point {
                x: unit_coord(row.center_x as int, bounds.width as int) as i64,
                y: unit_coord(row.center_y as int, bounds.height as int) as i64,
            },
            radius: unit_coord(row.radius as int, MAX_EXTENT as int) as i64,
            population: if row.population < 0 { 0 } else { row.population },
            max_population: 100,
            resources: row.resources,
            territory_radius: unit_coord(row.territory_radius as int, MAX_EXTENT as int) as i64,
            aggression: clamp_spec(row.aggression_level as int, 0, SCALE as int) as u32,
            hunger_tenths: 0,
        }),
{
    FastColony {
        id: row.id,
        center: Point { x: unit_coord_of(row.center_x, bounds.width), y: unit_coord_of(row.center_y, bounds.height) },
        radius: unit_coord_of(row.radius, MAX_EXTENT),
        population: if row.population < 0 { 0 } else { row.population },
        max_population: 100,
        resources: row.resources,
        territory_radius: unit_coord_of(row.territory_radius, MAX_EXTENT),
        aggression: clamp(row.aggression_level, 0, SCALE) as u32,
        hunger_tenths: 0,
    }
}

/// A food source loaded from the store: position held inside the world,
/// amounts held inside `[0, u32::MAX]` and the amount at most the maximum.
pub fn food_from_row(row: &StoredFood, bounds: WorldBounds) -> (r: FastFoodSource)
    requires
        bounds.wf(),
    ensures
        r.wf(bounds),
        r == (FastFoodSource {
            id: row.id,
            position: Point {
                x: unit_coord(row.position_x as int, bounds.width as int) as i64,
                y: unit_coord(row.position_y as int, bounds.height as int) as i64,
            },
            food_type: row.food_type,
            amount: clamp_spec(row.amount as int, 0, count_spec(row.max_amount as int)) as u32,
            max_amount: count_spec(row.max_amount as int) as u32,
            regeneration_rate: count_spec(row.regeneration_rate as int) as u32,
            is_renewable: row.is_renewable,
            nutritional_value: count_spec(row.nutritional_value as int) as u32,
            spoilage_rate: count_spec(row.spoilage_rate as int) as u32,
        }),
{
    let max_amount = count_of(row.max_amount);
    FastFoodSource {
        id: row.id,
        position: Point {
            x: unit_coord_of(row.position_x, bounds.width),
            y: unit_coord_of(row.position_y, bounds.height),
        },
        food_type: row.food_type,
        amount: clamp(row.amount, 0, max_amount as i64) as u32,
        max_amount,
        regeneration_rate: count_of(row.regeneration_rate),
        is_renewable: row.is_renewable,
        nutritional_value: count_of(row.nutritional_value),
        spoilage_rate: count_of(row.spoilage_rate),
    }
}

} // verus!
