//! The pheromone field: emission, decay, consolidation and strength falloff.
use vstd::prelude::*;
use crate::geometry::{coord_ok, cosine, cosine_spec, sine_spec, dist2, distance_squared, is_heading, Point, WorldBounds, MAX_EXTENT, SCALE};
use crate::steering::{heading_of, heading_spec};
use crate::model::{FastPheromoneTrail, PheromoneType, Role};

verus! {

/// One unit of trail strength, in millionths.
pub const STRENGTH_ONE: u32 = 1_000_000;

/// Trails at or below this strength are dropped.
pub const EPSILON: u32 = 100;

/// Trails closer than this (in position units) may merge.
pub const MERGE_DISTANCE: i64 = 3000;

/// How long a trail of each kind lasts, in ticks.
pub open spec fn horizon_spec(kind: PheromoneType) -> int {
    match kind {
        PheromoneType::Food => 15000,
        PheromoneType::Home => 20000,
        PheromoneType::Exploration => 5000,
        PheromoneType::Danger => 3000,
        PheromoneType::Territory => 30000,
        PheromoneType::Recruitment => 4000,
        PheromoneType::Nest => 40000,
        PheromoneType::Water => 15000,
        PheromoneType::Enemy => 3000,
        PheromoneType::Quality => 10000,
        PheromoneType::Distance => 10000,
    }
}

/// The decay rate of each kind, in millionths of the strength per tick.
pub open spec fn decay_spec(kind: PheromoneType) -> int {
    match kind {
        PheromoneType::Food => 300,
        PheromoneType::Home => 200,
        PheromoneType::Exploration => 800,
        PheromoneType::Danger => 1500,
        PheromoneType::Territory => 100,
        PheromoneType::Recruitment => 1000,
        PheromoneType::Nest => 50,
        PheromoneType::Water => 300,
        PheromoneType::Enemy => 1500,
        PheromoneType::Quality => 400,
        PheromoneType::Distance => 400,
    }
}

/// How strongly each role reacts to each kind, in ten-thousandths.
pub open spec fn sensitivity_spec(role: Role, kind: PheromoneType) -> int {
    match (role, kind) {
        (Role::Worker, PheromoneType::Food) => 18000,
        (Role::Worker, PheromoneType::Home) => 12000,
        (Role::Scout, PheromoneType::Exploration) => 15000,
        (Role::Scout, PheromoneType::Food) => 12000,
        (Role::Soldier, PheromoneType::Danger) => 20000,
        (Role::Soldier, PheromoneType::Enemy) => 18000,
        (Role::Soldier, PheromoneType::Territory) => 15000,
        (Role::Queen, PheromoneType::Nest) => 15000,
        _ => 10000,
    }
}

/// How long a trail of this kind lasts, in ticks.
pub fn horizon(kind: PheromoneType) -> (r: i64)
    ensures
        r == horizon_spec(kind),
{
    match kind {
        PheromoneType::Food => 15000,
        PheromoneType::Home => 20000,
        PheromoneType::Exploration => 5000,
        PheromoneType::Danger => 3000,
        PheromoneType::Territory => 30000,
        PheromoneType::Recruitment => 4000,
        PheromoneType::Nest => 40000,
        PheromoneType::Water => 15000,
        PheromoneType::Enemy => 3000,
        PheromoneType::Quality => 10000,
        PheromoneType::Distance => 10000,
    }
}

/// The default decay rate of this kind.
pub fn default_decay(kind: PheromoneType) -> (r: u32)
    ensures
        r == decay_spec(kind),
{
    match kind {
        PheromoneType::Food => 300,
        PheromoneType::Home => 200,
        PheromoneType::Exploration => 800,
        PheromoneType::Danger => 1500,
        PheromoneType::Territory => 100,
        PheromoneType::Recruitment => 1000,
        PheromoneType::Nest => 50,
        PheromoneType::Water => 300,
        PheromoneType::Enemy => 1500,
        PheromoneType::Quality => 400,
        PheromoneType::Distance => 400,
    }
}

/// How strongly `role` reacts to trails of `kind`.
pub fn role_sensitivity(role: Role, kind: PheromoneType) -> (r: u32)
    ensures
        r == sensitivity_spec(role, kind),
{
    match (role, kind) {
        (Role::Worker, PheromoneType::Food) => 18000,
        (Role::Worker, PheromoneType::Home) => 12000,
        (Role::Scout, PheromoneType::Exploration) => 15000,
        (Role::Scout, PheromoneType::Food) => 12000,
        (Role::Soldier, PheromoneType::Danger) => 20000,
        (Role::Soldier, PheromoneType::Enemy) => 18000,
        (Role::Soldier, PheromoneType::Territory) => 15000,
        (Role::Queen, PheromoneType::Nest) => 15000,
        _ => 10000,
    }
}

/// A new trail: full strength, the kind's decay, and an expiry one horizon ahead.
pub fn emit_trail(
    id: i32,
    colony_id: i32,
    kind: PheromoneType,
    position: Point,
    strength: u32,
    quality: u32,
    source_ant: i32,
    target_food: Option<i32>,
    current_tick: i64,
) -> (r: FastPheromoneTrail)
    requires
        strength <= STRENGTH_ONE,
        quality <= SCALE,
        0 <= current_tick <= i64::MAX - 40000,
    ensures
        r.id == id,
        r.colony_id == colony_id,
        r.trail_type == kind,
        r.position == position,
        r.strength == strength,
        r.max_strength == strength,
        r.quality == quality,
        r.decay_rate == decay_spec(kind),
        r.expires_at == current_tick + horizon_spec(kind),
        r.source_ant == source_ant,
        r.target_food == target_food,
        r.age == 0,
        r.reinforcement_count == 0,
        r.direction.is_none(),
        !r.consolidated,
{
    FastPheromoneTrail {
        id,
        colony_id,
        trail_type: kind,
        position,
        strength,
        max_strength: strength,
        decay_rate: default_decay(kind),
        expires_at: current_tick + horizon(kind),
        target_food,
        source_ant,
        age: 0,
        reinforcement_count: 0,
        quality,
        direction: None,
        consolidated: false,
    }
}

/// The share of strength lost in one tick, in millionths: the trail's rate,
/// lowered by its quality (by up to 30%) and by consolidation (to 70%).
pub open spec fn loss_spec(t: FastPheromoneTrail) -> int {
    let q = t.decay_rate * (SCALE - 3 * t.quality / 10) / SCALE as int;
    if t.consolidated { q * 7 / 10 } else { q }
}

/// The strength after one tick: the loss, then the environment's 0.999.
pub open spec fn decayed_spec(t: FastPheromoneTrail) -> int {
    t.strength * (STRENGTH_ONE - loss_spec(t)) / STRENGTH_ONE as int * 999 / 1000
}

pub open spec fn trail_wf(t: FastPheromoneTrail) -> bool {
    &&& t.strength <= t.max_strength
    &&& t.quality <= SCALE
    &&& t.decay_rate <= STRENGTH_ONE
}

/// One tick of decay at `current_tick`. The trail is dropped when the tick has
/// reached its expiry or its strength has fallen to `EPSILON` or below.
pub fn decay_trail(t: FastPheromoneTrail, current_tick: i64) -> (r: Option<FastPheromoneTrail>)
    requires
        trail_wf(t),
    ensures
        r is None <==> (current_tick >= t.expires_at || decayed_spec(t) <= EPSILON),
        r matches Some(n) ==> {
            &&& n == FastPheromoneTrail {
                strength: decayed_spec(t) as u32,
                age: if t.age < u32::MAX { (t.age + 1) as u32 } else { t.age },
                ..t
            }
            &&& n.strength <= t.strength
            &&& trail_wf(n)
            &&& current_tick < n.expires_at
        },
{
    let factor: u64 = SCALE as u64 - 3 * t.quality as u64 / 10;
    assert(t.decay_rate * factor <= STRENGTH_ONE * SCALE) by (nonlinear_arith)
        requires t.decay_rate <= STRENGTH_ONE, factor <= SCALE;
    let q: u64 = t.decay_rate as u64 * factor / SCALE as u64;
    assert(q <= t.decay_rate) by (nonlinear_arith)
        requires
            q == t.decay_rate * factor / SCALE as int,
            0 <= factor <= SCALE,
            t.decay_rate >= 0,
    ;
    let loss: u64 = if t.consolidated { q * 7 / 10 } else { q };
    assert(loss <= STRENGTH_ONE);
    let keep: u64 = STRENGTH_ONE as u64 - loss;
    assert(t.strength * keep <= u32::MAX * STRENGTH_ONE) by (nonlinear_arith)
        requires t.strength <= u32::MAX, keep <= STRENGTH_ONE;
    let kept: u64 = t.strength as u64 * keep / STRENGTH_ONE as u64;
    assert(kept <= t.strength) by (nonlinear_arith)
        requires
            kept == t.strength * (STRENGTH_ONE - loss) / STRENGTH_ONE as int,
            keep == STRENGTH_ONE - loss,
            0 <= keep <= STRENGTH_ONE,
            t.strength >= 0,
    ;
    let s: u64 = kept * 999 / 1000;
    if current_tick >= t.expires_at || s <= EPSILON as u64 {
        None
    } else {
        let age: u32 = if t.age < u32::MAX { t.age + 1 } else { t.age };
        Some(FastPheromoneTrail { strength: s as u32, age, ..t })
    }
}

/// Strength left at `distance` from a source of `base_strength` that reaches
/// `max_distance`: falls linearly to zero at `max_distance`.
pub fn calculate_pheromone_strength(base_strength: u32, distance: i64, max_distance: i64) -> (r: u32)
    requires
        0 <= distance,
        0 < max_distance <= MAX_EXTENT,
    ensures
        r == base_strength * (max_distance - if distance < max_distance { distance } else {
            max_distance
        }) / max_distance as int,
        r <= base_strength,
{
    let d: i64 = if distance < max_distance { distance } else { max_distance };
    let left: u128 = (max_distance - d) as u128;
    assert(base_strength * left <= u32::MAX * MAX_EXTENT) by (nonlinear_arith)
        requires base_strength <= u32::MAX, left <= MAX_EXTENT;
    let v: u128 = base_strength as u128 * left / max_distance as u128;
    assert(v <= base_strength) by (nonlinear_arith)
        requires
            v == base_strength * left / max_distance as int,
            0 <= left <= max_distance,
            max_distance > 0,
            base_strength >= 0,
    ;
    v as u32
}

/// Two trails may merge when they are of one kind and closer than `merge_distance`.
pub fn should_merge_pheromones(
    pos1: Point,
    pos2: Point,
    type1: PheromoneType,
    type2: PheromoneType,
    merge_distance: i64,
) -> (r: bool)
    requires
        coord_ok(pos1),
        coord_ok(pos2),
        0 < merge_distance <= MAX_EXTENT,
    ensures
        r == (type1 == type2 && dist2(pos1, pos2) < merge_distance * merge_distance),
{
    let d: i128 = distance_squared(pos1, pos2);
    let m: i128 = merge_distance as i128;
    assert(m * m <= MAX_EXTENT * MAX_EXTENT) by (nonlinear_arith)
        requires 0 < m <= MAX_EXTENT;
    let close = d < m * m;
    type1 == type2 && close
}

/// Two trails may be consolidated: neither is yet, they are of one colony and
/// one kind, and closer than `MERGE_DISTANCE`.
pub open spec fn mergeable(a: FastPheromoneTrail, b: FastPheromoneTrail) -> bool {
    &&& !a.consolidated
    &&& !b.consolidated
    &&& a.colony_id == b.colony_id
    &&& a.trail_type == b.trail_type
    &&& dist2(a.position, b.position) < MERGE_DISTANCE * MERGE_DISTANCE
}

/// The trail two trails merge into, kept under the first one's id and place:
/// strength `min((s1 + s2) * 1.2, max(max1, max2))`, the mean quality, the sum
/// of reinforcements (held at the largest count), the later expiry.
pub open spec fn merged_spec(a: FastPheromoneTrail, b: FastPheromoneTrail) -> FastPheromoneTrail {
    let cap = if a.max_strength >= b.max_strength { a.max_strength } else { b.max_strength };
    let boosted = (a.strength + b.strength) * 12 / 10;
    let r = a.reinforcement_count + b.reinforcement_count;
    FastPheromoneTrail {
        strength: if boosted < cap { boosted as u32 } else { cap },
        max_strength: cap,
        quality: ((a.quality + b.quality) / 2) as u32,
        reinforcement_count: if r <= u32::MAX { r as u32 } else { u32::MAX },
        expires_at: if a.expires_at >= b.expires_at { a.expires_at } else { b.expires_at },
        consolidated: true,
        direction: a.direction,
        ..a
    }
}

/// The heading of the strength-weighted sum of two unit directions.
pub open spec fn weighted_direction(wa: int, da: int, wb: int, db: int) -> int {
    heading_spec(
        cosine_spec(da) * wa + cosine_spec(db) * wb,
        sine_spec(da) * wa + sine_spec(db) * wb,
    )
}

/// Merge two trails (see `merged_spec`); where both have a direction the
/// merged direction is their strength-weighted mean, else the one there is.
pub fn merge_trails(a: &FastPheromoneTrail, b: &FastPheromoneTrail) -> (r: FastPheromoneTrail)
    requires
        trail_wf(*a),
        trail_wf(*b),
        a.direction matches Some(d) ==> is_heading(d as int),
        b.direction matches Some(d) ==> is_heading(d as int),
    ensures
        r == (FastPheromoneTrail { direction: r.direction, ..merged_spec(*a, *b) }),
        a.direction is None ==> r.direction == b.direction,
        b.direction is None ==> r.direction == a.direction,
        (a.direction is Some && b.direction is Some) ==> r.direction == Some(
            weighted_direction(
                a.strength as int,
                a.direction.unwrap() as int,
                b.strength as int,
                b.direction.unwrap() as int,
            ) as u32,
        ),
        r.direction matches Some(d) ==> is_heading(d as int),
        trail_wf(r),
        r.strength <= r.max_strength,
{
    let cap: u32 = if a.max_strength >= b.max_strength { a.max_strength } else { b.max_strength };
    let boosted: u64 = (a.strength as u64 + b.strength as u64) * 12 / 10;
    let r: u64 = a.reinforcement_count as u64 + b.reinforcement_count as u64;
    let direction = match (a.direction, b.direction) {
        (Some(da), Some(db)) => {
            let wa: i128 = a.strength as i128;
            let wb: i128 = b.strength as i128;
            let ca: i128 = cosine(da) as i128;
            let cb: i128 = cosine(db) as i128;
            let sa: i128 = crate::geometry::sine(da) as i128;
            let sb: i128 = crate::geometry::sine(db) as i128;
            assert(-(u32::MAX * SCALE) <= ca * wa <= u32::MAX * SCALE) by (nonlinear_arith)
                requires -SCALE <= ca <= SCALE, 0 <= wa <= u32::MAX;
            assert(-(u32::MAX * SCALE) <= cb * wb <= u32::MAX * SCALE) by (nonlinear_arith)
                requires -SCALE <= cb <= SCALE, 0 <= wb <= u32::MAX;
            assert(-(u32::MAX * SCALE) <= sa * wa <= u32::MAX * SCALE) by (nonlinear_arith)
                requires -SCALE <= sa <= SCALE, 0 <= wa <= u32::MAX;
            assert(-(u32::MAX * SCALE) <= sb * wb <= u32::MAX * SCALE) by (nonlinear_arith)
                requires -SCALE <= sb <= SCALE, 0 <= wb <= u32::MAX;
            Some(heading_of(ca * wa + cb * wb, sa * wa + sb * wb))
        },
        (Some(da), None) => Some(da),
        (None, db) => db,
    };
    FastPheromoneTrail {
        strength: if boosted < cap as u64 { boosted as u32 } else { cap },
        max_strength: cap,
        quality: ((a.quality as u64 + b.quality as u64) / 2) as u32,
        reinforcement_count: if r <= u32::MAX as u64 { r as u32 } else { u32::MAX },
        expires_at: if a.expires_at >= b.expires_at { a.expires_at } else { b.expires_at },
        consolidated: true,
        direction,
        ..*a
    }
}

/// One consolidation: the merged trail and the id of the trail it absorbed.
#[derive(Clone, Copy, Debug, PartialEq, Eq, Structural)]
pub struct Merge {
    pub merged: FastPheromoneTrail,
    pub absorbed: i32,
}

/// A trail with id `id` takes part in one of `merges`.
pub open spec fn in_some_merge(merges: Seq<Merge>, id: i32) -> bool {
    exists|k: int| 0 <= k < merges.len() && (merges[k].merged.id == id || merges[k].absorbed == id)
}

/// No two trails of `trails` share an id.
pub open spec fn unique_trail_ids(trails: Seq<FastPheromoneTrail>) -> bool {
    forall|i: int, j: int| 0 <= i < trails.len() && 0 <= j < trails.len() && trails[i].id == trails[j].id ==> i == j
}

/// `m` merges two trails of `trails`, the earlier absorbing the later.
pub open spec fn is_merge_of(m: Merge, trails: Seq<FastPheromoneTrail>) -> bool {
    exists|i: int, j: int|
        0 <= i < j < trails.len() && mergeable(trails[i], trails[j]) && m.merged == (
        FastPheromoneTrail { direction: m.merged.direction, ..merged_spec(trails[i], trails[j]) })
            && m.absorbed == trails[j].id
}

/// Consolidation of `trails`: each trail, in order, not yet taken, merges with
/// the first later mergeable trail not yet taken. With distinct ids, no trail
/// takes part in two merges, and no two trails left out of every merge are
/// mergeable.
pub fn consolidate(trails: &[FastPheromoneTrail], bounds: WorldBounds) -> (r: Vec<Merge>)
    requires
        bounds.wf(),
        forall|i: int| 0 <= i < trails.len() ==> (#[trigger] trails[i]).wf(bounds),
    ensures
        unique_trail_ids(trails@) ==> forall|k1: int, k2: int|
            0 <= k1 < r.len() && 0 <= k2 < r.len() && k1 != k2 ==> {
                &&& (#[trigger] r@[k1]).absorbed != (#[trigger] r@[k2]).absorbed
                &&& r@[k1].merged.id != r@[k2].merged.id
                &&& r@[k1].merged.id != r@[k2].absorbed
            },
        unique_trail_ids(trails@) ==> forall|k: int| 0 <= k < r.len() ==> (#[trigger] r@[k]).merged.id != r@[k].absorbed,
        unique_trail_ids(trails@) ==> forall|x: int, y: int|
            0 <= x < y < trails.len() && !in_some_merge(r@, trails@[x].id) && !in_some_merge(r@, trails@[y].id)
                ==> !#[trigger] mergeable(trails@[x], trails@[y]),
        forall|k: int| 0 <= k < r.len() ==> is_merge_of(#[trigger] r@[k], trails@),
        forall|k: int| 0 <= k < r.len() ==> (#[trigger] r@[k]).merged.wf(bounds),
{
    let mut used: Vec<bool> = Vec::new();
    let mut n: usize = 0;
    while n < trails.len()
        invariant
            n <= trails.len(),
            used@.len() == n,
            forall|x: int| 0 <= x < n ==> !used@[x],
        decreases trails.len() - n,
    {
        used.push(false);
        n += 1;
    }
    let mut out: Vec<Merge> = Vec::new();
    let ghost mut pairs: Seq<(int, int)> = Seq::empty();
    let mut i: usize = 0;
    while i < trails.len()
        invariant
            bounds.wf(),
            forall|m: int| 0 <= m < trails.len() ==> (#[trigger] trails[m]).wf(bounds),
            used@.len() == trails.len(),
            i <= trails.len(),
            forall|k: int| 0 <= k < out.len() ==> is_merge_of(#[trigger] out@[k], trails@),
            forall|k: int| 0 <= k < out.len() ==> (#[trigger] out@[k]).merged.wf(bounds),
            pairs.len() == out.len(),
            forall|k: int| 0 <= k < pairs.len() ==> {
                &&& 0 <= (#[trigger] pairs[k]).0 < pairs[k].1 < trails.len()
                &&& used@[pairs[k].0] && used@[pairs[k].1]
                &&& out@[k].merged.id == trails@[pairs[k].0].id
                &&& out@[k].absorbed == trails@[pairs[k].1].id
            },
            forall|k1: int, k2: int| 0 <= k1 < pairs.len() && 0 <= k2 < pairs.len() && k1 != k2 ==> {
                &&& (#[trigger] pairs[k1]).0 != (#[trigger] pairs[k2]).0
                &&& pairs[k1].0 != pairs[k2].1
                &&& pairs[k1].1 != pairs[k2].0
                &&& pairs[k1].1 != pairs[k2].1
            },
            forall|x: int, y: int| 0 <= x < i && x < y < trails.len() && !used@[x] && !used@[y]
                ==> !#[trigger] mergeable(trails@[x], trails@[y]),
            forall|x: int| 0 <= x < trails.len() && #[trigger] used@[x] ==> exists|k: int|
                0 <= k < pairs.len() && (pairs[k].0 == x || pairs[k].1 == x),
        decreases trails.len() - i,
    {
        let a = trails[i];
        if !used[i] && !a.consolidated {
            let mut j: usize = i + 1;
            let mut found: bool = false;
            while j < trails.len() && !found
                invariant
                    bounds.wf(),
                    forall|m: int| 0 <= m < trails.len() ==> (#[trigger] trails[m]).wf(bounds),
                    used@.len() == trails.len(),
                    i < trails.len(),
                    a == trails[i as int],
                    i + 1 <= j <= trails.len(),
                    forall|k: int| 0 <= k < out.len() ==> is_merge_of(#[trigger] out@[k], trails@),
                    !a.consolidated,
                    forall|k: int| 0 <= k < out.len() ==> (#[trigger] out@[k]).merged.wf(bounds),
                    found || !used@[i as int],
                    pairs.len() == out.len(),
                    forall|k: int| 0 <= k < pairs.len() ==> {
                        &&& 0 <= (#[trigger] pairs[k]).0 < pairs[k].1 < trails.len()
                        &&& used@[pairs[k].0] && used@[pairs[k].1]
                        &&& out@[k].merged.id == trails@[pairs[k].0].id
                        &&& out@[k].absorbed == trails@[pairs[k].1].id
                    },
                    forall|k1: int, k2: int| 0 <= k1 < pairs.len() && 0 <= k2 < pairs.len() && k1 != k2 ==> {
                        &&& (#[trigger] pairs[k1]).0 != (#[trigger] pairs[k2]).0
                        &&& pairs[k1].0 != pairs[k2].1
                        &&& pairs[k1].1 != pairs[k2].0
                        &&& pairs[k1].1 != pairs[k2].1
                    },
                    forall|x: int, y: int| 0 <= x < i && x < y < trails.len() && !used@[x] && !used@[y]
                        ==> !#[trigger] mergeable(trails@[x], trails@[y]),
                    forall|x: int| 0 <= x < trails.len() && #[trigger] used@[x] ==> exists|k: int|
                        0 <= k < pairs.len() && (pairs[k].0 == x || pairs[k].1 == x),
                    !found ==> forall|y: int| i < y < j ==> used@[y] || !#[trigger] mergeable(trails@[i as int], trails@[y]),
                    found ==> used@[i as int],
                    a.consolidated == trails@[i as int].consolidated,
                decreases trails.len() - j, if found { 0int } else { 1int },
            {
                let b = trails[j];
                if !used[j] && !b.consolidated && a.colony_id == b.colony_id && a.trail_type
                    == b.trail_type {
                    let d = distance_squared(a.position, b.position);
                    if d < (MERGE_DISTANCE * MERGE_DISTANCE) as i128 {
                        let merged = merge_trails(&a, &b);
                        let m = Merge { merged, absorbed: b.id };
                        assert(mergeable(trails@[i as int], trails@[j as int]));
                        assert(is_merge_of(m, trails@));
                        let ghost old_used = used@;
                        let ghost old_pairs = pairs;
                        out.push(m);
                        proof {
                            pairs = pairs.push((i as int, j as int));
                        }
                        used.set(i, true);
                        used.set(j, true);
                        found = true;
                        proof {
                            assert forall|x: int| 0 <= x < trails.len() && #[trigger] used@[x] implies exists|k: int|
                                0 <= k < pairs.len() && (pairs[k].0 == x || pairs[k].1 == x) by {
                                if x == i || x == j {
                                    assert(pairs[pairs.len() - 1].0 == i && pairs[pairs.len() - 1].1 == j);
                                } else {
                                    assert(old_used[x]);
                                    let k = choose|k: int| 0 <= k < old_pairs.len() && (old_pairs[k].0 == x || old_pairs[k].1 == x);
                                    assert(pairs[k] == old_pairs[k]);
                                }
                            }
                        }
                    }
                }
                if !found {
                    j += 1;
                }
            }
        }
        i += 1;
    }
    proof {
        if unique_trail_ids(trails@) {
            assert forall|k1: int, k2: int| 0 <= k1 < out.len() && 0 <= k2 < out.len() && k1 != k2 implies {
                &&& (#[trigger] out@[k1]).absorbed != (#[trigger] out@[k2]).absorbed
                &&& out@[k1].merged.id != out@[k2].merged.id
                &&& out@[k1].merged.id != out@[k2].absorbed
            } by {
                assert(pairs[k1].0 != pairs[k2].0);
                assert(pairs[k1].1 != pairs[k2].1);
                assert(pairs[k1].0 != pairs[k2].1);
            }
            assert forall|k: int| 0 <= k < out.len() implies (#[trigger] out@[k]).merged.id != out@[k].absorbed by {
                assert(pairs[k].0 != pairs[k].1);
            }
            assert forall|x: int, y: int|
                0 <= x < y < trails.len() && !in_some_merge(out@, trails@[x].id) && !in_some_merge(out@, trails@[y].id)
                    implies !#[trigger] mergeable(trails@[x], trails@[y]) by {
                if used@[x] {
                    let k = choose|k: int| 0 <= k < pairs.len() && (pairs[k].0 == x || pairs[k].1 == x);
                    assert(out@[k].merged.id == trails@[x].id || out@[k].absorbed == trails@[x].id);
                }
                if used@[y] {
                    let k = choose|k: int| 0 <= k < pairs.len() && (pairs[k].0 == y || pairs[k].1 == y);
                    assert(out@[k].merged.id == trails@[y].id || out@[k].absorbed == trails@[y].id);
                }
            }
        }
    }
    out
}

} // verus!
