//! The environment manager: regrowth, spoilage and new food sources.
use vstd::prelude::*;
use crate::geometry::{coord_ok, dist2, distance_squared, Point, WorldBounds, UNIT};
use crate::model::{FastColony, FastFoodSource, FoodKind};
use crate::random::RandomStream;

verus! {

/// Renewable sources regrow on ticks that are a multiple of this.
pub const REGROWTH_INTERVAL: i64 = 10;

/// Spoilage is taken on ticks that are a multiple of this.
pub const SPOILAGE_INTERVAL: i64 = 100;

/// New sources appear on ticks that are a multiple of this.
pub const FOOD_SPAWN_INTERVAL: i64 = 1000;

/// A bonus source may appear on ticks that are a multiple of this.
pub const BONUS_SPAWN_INTERVAL: i64 = 100;

/// The most food sources a world holds.
pub const MAX_FOOD_SOURCES: usize = 75;

/// New sources keep at least this distance from every colony center.
pub const COLONY_CLEARANCE: i64 = 30 * UNIT;

/// Positions tried before a new source is given up.
pub const PLACEMENT_ATTEMPTS: u64 = 10;

/// One regrowth step: a renewable source below its maximum gains its rate,
/// up to the maximum; other sources stay as they are.
pub open spec fn regrow_spec(f: FastFoodSource) -> FastFoodSource {
    if f.is_renewable && f.amount < f.max_amount {
        let n = f.amount + f.regeneration_rate;
        FastFoodSource { amount: if n < f.max_amount { n as u32 } else { f.max_amount }, ..f }
    } else {
        f
    }
}

/// Regrow a source (see `regrow_spec`).
pub fn regrow(f: FastFoodSource) -> (r: FastFoodSource)
    requires
        f.amount <= f.max_amount,
    ensures
        r == regrow_spec(f),
        r.amount <= r.max_amount,
        r.amount >= f.amount,
{
    if f.is_renewable && f.amount < f.max_amount {
        let n: u64 = f.amount as u64 + f.regeneration_rate as u64;
        FastFoodSource {
            amount: if n < f.max_amount as u64 { n as u32 } else { f.max_amount },
            ..f
        }
    } else {
        f
    }
}

/// One spoilage step: the source loses its spoilage rate, down to zero.
pub fn spoil(f: FastFoodSource) -> (r: FastFoodSource)
    requires
        f.amount <= f.max_amount,
    ensures
        r == (FastFoodSource {
            amount: if f.amount > f.spoilage_rate { (f.amount - f.spoilage_rate) as u32 } else { 0 },
            ..f
        }),
        r.amount <= r.max_amount,
{
    FastFoodSource {
        amount: if f.amount > f.spoilage_rate { f.amount - f.spoilage_rate } else { 0 },
        ..f
    }
}

/// An empty source that does not regrow is removed.
pub fn is_exhausted(f: &FastFoodSource) -> (r: bool)
    ensures
        r == (f.amount == 0 && !f.is_renewable),
{
    f.amount == 0 && !f.is_renewable
}

/// A source after one tick at `tick`: regrowth on its cadence, then spoilage
/// on its cadence.
pub open spec fn tended_spec(f: FastFoodSource, tick: int) -> FastFoodSource {
    let g1 = if tick % REGROWTH_INTERVAL as int == 0 { regrow_spec(f) } else { f };
    if tick % SPOILAGE_INTERVAL as int == 0 {
        FastFoodSource {
            amount: if g1.amount > g1.spoilage_rate { (g1.amount - g1.spoilage_rate) as u32 } else { 0 },
            ..g1
        }
    } else {
        g1
    }
}

/// One tick of the environment for one source at `tick` (see `tended_spec`).
/// `None` when the source is removed: empty and not renewable.
pub fn tend_food_source(f: FastFoodSource, tick: i64) -> (r: Option<FastFoodSource>)
    requires
        f.amount <= f.max_amount,
        tick >= 0,
    ensures
        r is None <==> (tended_spec(f, tick as int).amount == 0 && !tended_spec(f, tick as int).is_renewable),
        r matches Some(g) ==> g == tended_spec(f, tick as int),
        r matches Some(g) ==> g.amount <= g.max_amount && g.id == f.id && g.position == f.position,
{
    let g1 = if tick % REGROWTH_INTERVAL == 0 { regrow(f) } else { f };
    let g2 = if tick % SPOILAGE_INTERVAL == 0 { spoil(g1) } else { g1 };
    if is_exhausted(&g2) {
        None
    } else {
        Some(g2)
    }
}

/// `p` keeps the clearance from every colony center.
pub open spec fn clear_of_colonies(p: Point, colonies: Seq<FastColony>) -> bool {
    forall|i: int|
        0 <= i < colonies.len() ==> dist2(p, #[trigger] colonies[i].center) >= COLONY_CLEARANCE
            * COLONY_CLEARANCE
}

/// Whether `p` keeps the clearance from every colony center.
pub fn is_clear_of_colonies(p: Point, colonies: &[FastColony]) -> (r: bool)
    requires
        coord_ok(p),
        forall|i: int| 0 <= i < colonies.len() ==> coord_ok(#[trigger] colonies[i].center),
    ensures
        r == clear_of_colonies(p, colonies@),
{
    let mut i: usize = 0;
    while i < colonies.len()
        invariant
            i <= colonies.len(),
            coord_ok(p),
            forall|j: int| 0 <= j < colonies.len() ==> coord_ok(#[trigger] colonies[j].center),
            forall|j: int|
                0 <= j < i ==> dist2(p, #[trigger] colonies@[j].center) >= COLONY_CLEARANCE
                    * COLONY_CLEARANCE,
        decreases colonies.len() - i,
    {
        let d = distance_squared(p, colonies[i].center);
        if d < (COLONY_CLEARANCE * COLONY_CLEARANCE) as i128 {
            return false;
        }
        i += 1;
    }
    true
}

/// The first candidate position clear of every colony, if any.
pub fn pick_food_position(candidates: &[Point], colonies: &[FastColony]) -> (r: Option<Point>)
    requires
        forall|i: int| 0 <= i < candidates.len() ==> coord_ok(#[trigger] candidates[i]),
        forall|i: int| 0 <= i < colonies.len() ==> coord_ok(#[trigger] colonies[i].center),
    ensures
        r matches Some(p) ==> exists|k: int|
            0 <= k < candidates.len() && candidates@[k] == p && clear_of_colonies(p, colonies@)
                && forall|j: int| 0 <= j < k ==> !clear_of_colonies(#[trigger] candidates@[j], colonies@),
        r is None ==> forall|j: int|
            0 <= j < candidates.len() ==> !clear_of_colonies(#[trigger] candidates@[j], colonies@),
{
    let mut i: usize = 0;
    while i < candidates.len()
        invariant
            i <= candidates.len(),
            forall|j: int| 0 <= j < candidates.len() ==> coord_ok(#[trigger] candidates[j]),
            forall|j: int| 0 <= j < colonies.len() ==> coord_ok(#[trigger] colonies[j].center),
            forall|j: int| 0 <= j < i ==> !clear_of_colonies(#[trigger] candidates@[j], colonies@),
        decreases candidates.len() - i,
    {
        if is_clear_of_colonies(candidates[i], colonies) {
            return Some(candidates[i]);
        }
        i += 1;
    }
    None
}

/// Whether the environment tries to add a source at `tick`: on the regular
/// cadence `interval`, or on the bonus cadence when `bonus` came up, and only
/// while fewer than `cap` sources exist.
pub fn food_spawn_due(tick: i64, count: usize, bonus: bool, interval: i64, cap: usize) -> (r: bool)
    requires
        tick >= 0,
        interval > 0,
    ensures
        r == (count < cap && (tick % interval == 0 || (tick % BONUS_SPAWN_INTERVAL == 0 && bonus))),
        count >= cap ==> !r,
{
    count < cap && (tick % interval == 0 || (tick % BONUS_SPAWN_INTERVAL == 0 && bonus))
}

/// A food kind chosen by index.
pub fn food_kind_at(i: u64) -> (r: FoodKind)
    ensures
        i == 0 ==> r == FoodKind::Berries,
        i == 1 ==> r == FoodKind::Leaves,
        i == 2 ==> r == FoodKind::Seeds,
        i >= 3 ==> r == FoodKind::Nuts,
{
    if i == 0 {
        FoodKind::Berries
    } else if i == 1 {
        FoodKind::Leaves
    } else if i == 2 {
        FoodKind::Seeds
    } else {
        FoodKind::Nuts
    }
}

/// Sources keep at least this distance from the world's edges, where the
/// world is wide and tall enough.
pub const EDGE_MARGIN: i64 = 50 * UNIT;

/// A new, full, renewable source at the first candidate position clear of the
/// colonies, with the kind, maximum, regrowth rate and nutritional value the
/// draws give: kind by `kind_draw`, maximum `50 + amount_draw`, rate
/// `1 + rate_draw`, value `10 + value_draw`. `None` exactly when every
/// candidate is too close to a colony.
pub fn place_food_source(
    id: i32,
    candidates: &[Point],
    colonies: &[FastColony],
    kind_draw: u64,
    amount_draw: u32,
    rate_draw: u32,
    value_draw: u32,
) -> (r: Option<FastFoodSource>)
    requires
        forall|i: int| 0 <= i < candidates.len() ==> coord_ok(#[trigger] candidates[i]),
        forall|i: int| 0 <= i < colonies.len() ==> coord_ok(#[trigger] colonies[i].center),
        amount_draw < 150,
        rate_draw < 2,
        value_draw < 40,
    ensures
        r is None <==> forall|j: int|
            0 <= j < candidates.len() ==> !clear_of_colonies(#[trigger] candidates@[j], colonies@),
        r matches Some(f) ==> {
            &&& exists|k: int|
                0 <= k < candidates.len() && candidates@[k] == f.position && clear_of_colonies(f.position, colonies@)
                    && forall|j: int| 0 <= j < k ==> !clear_of_colonies(#[trigger] candidates@[j], colonies@)
            &&& f.id == id
            &&& f.amount == f.max_amount
            &&& f.max_amount == 50 + amount_draw
            &&& f.regeneration_rate == 1 + rate_draw
            &&& f.nutritional_value == 10 + value_draw
            &&& f.is_renewable
            &&& f.spoilage_rate == 1
            &&& (kind_draw == 0 ==> f.food_type == FoodKind::Berries)
            &&& (kind_draw == 1 ==> f.food_type == FoodKind::Leaves)
            &&& (kind_draw == 2 ==> f.food_type == FoodKind::Seeds)
            &&& (kind_draw >= 3 ==> f.food_type == FoodKind::Nuts)
        },
{
    match pick_food_position(candidates, colonies) {
        None => None,
        Some(p) => {
            let max_amount: u32 = 50 + amount_draw;
            Some(FastFoodSource {
                id,
                position: p,
                food_type: food_kind_at(kind_draw),
                amount: max_amount,
                max_amount,
                regeneration_rate: 1 + rate_draw,
                is_renewable: true,
                nutritional_value: 10 + value_draw,
                spoilage_rate: 1,
            })
        },
    }
}

/// The range a coordinate of a new source is drawn from in `[0, limit]`: the
/// margin is kept where the extent is more than twice the margin.
pub open spec fn margin_lo(limit: int) -> int {
    if limit > 2 * EDGE_MARGIN { EDGE_MARGIN as int } else { 0 }
}

pub open spec fn margin_hi(limit: int) -> int {
    if limit > 2 * EDGE_MARGIN { limit - EDGE_MARGIN } else { limit }
}

/// A new source at a random place (see `place_food_source`), drawing
/// `PLACEMENT_ATTEMPTS` candidate positions inside the edge margin. With no
/// colonies a source is always made.
pub fn spawn_food_source(
    id: i32,
    bounds: WorldBounds,
    colonies: &[FastColony],
    rng: &mut RandomStream,
) -> (r: Option<FastFoodSource>)
    requires
        bounds.wf(),
        forall|i: int| 0 <= i < colonies.len() ==> coord_ok(#[trigger] colonies[i].center),
    ensures
        colonies.len() == 0 ==> r is Some,
        r matches Some(f) ==> {
            &&& f.wf(bounds)
            &&& margin_lo(bounds.width as int) <= f.position.x <= margin_hi(bounds.width as int)
            &&& margin_lo(bounds.height as int) <= f.position.y <= margin_hi(bounds.height as int)
            &&& f.id == id
            &&& f.amount == f.max_amount
            &&& 50 <= f.max_amount < 200
            &&& 1 <= f.regeneration_rate < 3
            &&& 10 <= f.nutritional_value < 50
            &&& f.is_renewable
            &&& clear_of_colonies(f.position, colonies@)
        },
{
    let x_lo: i64 = if bounds.width > 2 * EDGE_MARGIN { EDGE_MARGIN } else { 0 };
    let x_hi: i64 = if bounds.width > 2 * EDGE_MARGIN { bounds.width - EDGE_MARGIN } else { bounds.width };
    let y_lo: i64 = if bounds.height > 2 * EDGE_MARGIN { EDGE_MARGIN } else { 0 };
    let y_hi: i64 = if bounds.height > 2 * EDGE_MARGIN { bounds.height - EDGE_MARGIN } else { bounds.height };
    let mut candidates: Vec<Point> = Vec::new();
    let mut k: u64 = 0;
    while k < PLACEMENT_ATTEMPTS
        invariant
            bounds.wf(),
            k <= PLACEMENT_ATTEMPTS,
            candidates.len() == k,
            x_lo == margin_lo(bounds.width as int),
            x_hi == margin_hi(bounds.width as int),
            y_lo == margin_lo(bounds.height as int),
            y_hi == margin_hi(bounds.height as int),
            forall|i: int| 0 <= i < candidates.len() ==> {
                &&& bounds.contains(#[trigger] candidates@[i])
                &&& x_lo <= candidates@[i].x <= x_hi
                &&& y_lo <= candidates@[i].y <= y_hi
            },
        decreases PLACEMENT_ATTEMPTS - k,
    {
        let x = rng.between(x_lo, x_hi);
        let y = rng.between(y_lo, y_hi);
        candidates.push(Point { x, y });
        k += 1;
    }
    let kind_draw = rng.below(4);
    let amount_draw = rng.below(150) as u32;
    let rate_draw = rng.below(2) as u32;
    let value_draw = rng.below(40) as u32;
    proof {
        if colonies.len() == 0 {
            assert(clear_of_colonies(candidates@[0], colonies@));
        }
    }
    place_food_source(id, candidates.as_slice(), colonies, kind_draw, amount_draw, rate_draw, value_draw)
}

} // verus!
