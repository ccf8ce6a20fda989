//! Headings toward points, blending of headings, and sensing of trails.
use vstd::prelude::*;
use crate::geometry::{
    circ_dist, coord_ok, cosine, cosine_spec, sine_spec, dist2, distance_squared, is_heading, normalize_angle, sine,
    within, Point, HALF_TURN, MAX_EXTENT, QUARTER_TURN, SCALE, TURN,
};
use crate::model::{FastPheromoneTrail, PheromoneType, Role};
use crate::pheromone::{role_sensitivity, sensitivity_spec, trail_wf};

verus! {

/// The angle of `(ax, ay)` in the first quadrant, linear in the slope within
/// each octant.
pub open spec fn octant_angle(ax: int, ay: int) -> int {
    if ay <= ax {
        (QUARTER_TURN / 2) as int * ay / ax
    } else {
        QUARTER_TURN - (QUARTER_TURN / 2) as int * ax / ay
    }
}

/// The heading of `(dx, dy)` (see `heading_of`).
pub open spec fn heading_spec(dx: int, dy: int) -> int {
    let ax = if dx < 0 { -dx } else { dx };
    let ay = if dy < 0 { -dy } else { dy };
    if ax == 0 && ay == 0 {
        0
    } else {
        let a = octant_angle(ax, ay);
        let r = if dx >= 0 && dy >= 0 {
            a
        } else if dx < 0 && dy >= 0 {
            HALF_TURN - a
        } else if dx < 0 {
            HALF_TURN + a
        } else {
            TURN - a
        };
        if r >= TURN { 0 } else { r }
    }
}

/// The heading of the vector `(dx, dy)`, by a piecewise-linear arctangent
/// (exact on the axes and diagonals). The zero vector has heading 0.
pub fn heading_of(dx: i128, dy: i128) -> (r: u32)
    requires
        -MAX_EXTENT * MAX_EXTENT * SCALE * 8 <= dx <= MAX_EXTENT * MAX_EXTENT * SCALE * 8,
        -MAX_EXTENT * MAX_EXTENT * SCALE * 8 <= dy <= MAX_EXTENT * MAX_EXTENT * SCALE * 8,
    ensures
        r == heading_spec(dx as int, dy as int),
        is_heading(r as int),
        dy == 0 && dx >= 0 ==> r == 0,
        dy == 0 && dx < 0 ==> r == HALF_TURN,
        dx == 0 && dy > 0 ==> r == QUARTER_TURN,
        dx == 0 && dy < 0 ==> r == 3 * QUARTER_TURN,
{
    let ax: i128 = if dx < 0 { -dx } else { dx };
    let ay: i128 = if dy < 0 { -dy } else { dy };
    if ax == 0 && ay == 0 {
        return 0;
    }
    let eighth: i128 = (QUARTER_TURN / 2) as i128;
    // angle of (ax, ay) within the first quadrant
    let a: i128 = if ay <= ax {
        assert(0 <= eighth * ay <= eighth * ax <= 8000 * (MAX_EXTENT * MAX_EXTENT * SCALE * 8))
            by (nonlinear_arith)
            requires 0 <= ay <= ax <= MAX_EXTENT * MAX_EXTENT * SCALE * 8, 0 < eighth <= 8000;
        let v = eighth * ay / ax;
        assert(v <= eighth) by (nonlinear_arith)
            requires v == eighth * ay / (ax as int), 0 <= ay <= ax, ax > 0, eighth > 0;
        v
    } else {
        assert(0 <= eighth * ax <= eighth * ay <= 8000 * (MAX_EXTENT * MAX_EXTENT * SCALE * 8))
            by (nonlinear_arith)
            requires 0 <= ax < ay <= MAX_EXTENT * MAX_EXTENT * SCALE * 8, 0 < eighth <= 8000;
        let v = eighth * ax / ay;
        assert(v <= eighth) by (nonlinear_arith)
            requires v == eighth * ax / (ay as int), 0 <= ax < ay, eighth > 0;
        QUARTER_TURN as i128 - v
    };
    assert(0 <= a <= QUARTER_TURN);
    let r: i128 = if dx >= 0 && dy >= 0 {
        a
    } else if dx < 0 && dy >= 0 {
        HALF_TURN as i128 - a
    } else if dx < 0 {
        HALF_TURN as i128 + a
    } else {
        TURN as i128 - a
    };
    if r >= TURN as i128 {
        0
    } else {
        r as u32
    }
}

/// The heading from `from` toward `to`.
pub fn angle_between_points(from: Point, to: Point) -> (r: u32)
    requires
        coord_ok(from),
        coord_ok(to),
    ensures
        r == heading_spec(to.x - from.x, to.y - from.y),
        is_heading(r as int),
{
    heading_of(to.x as i128 - from.x as i128, to.y as i128 - from.y as i128)
}

/// The signed turn from `a` to `b` the shorter way, in `(-HALF_TURN, HALF_TURN]`.
pub open spec fn signed_turn(a: int, b: int) -> int {
    let d = (b - a) % (TURN as int);
    if d <= HALF_TURN { d } else { d - TURN }
}

/// The part of the turn from `a` to `b` taken at weight `w`, rounded toward zero.
pub open spec fn blend_part(a: int, b: int, w: int) -> int {
    let s = signed_turn(a, b);
    if s >= 0 { s * w / SCALE as int } else { -((-s) * w / SCALE as int) }
}

/// `a` turned toward `b` by `w` ten-thousandths of the way.
pub fn blend_heading(a: u32, b: u32, w: u32) -> (r: u32)
    requires
        is_heading(a as int),
        is_heading(b as int),
        w <= SCALE,
    ensures
        is_heading(r as int),
        (r - (a + blend_part(a as int, b as int, w as int))) % (TURN as int) == 0,
        w == 0 ==> r == a,
{
    if w == 0 {
        return a;
    }
    let d: i64 = ((b as i64 + TURN as i64) - a as i64) % TURN as i64;
    assert(d == (b - a) % (TURN as int)) by {
        vstd::arithmetic::div_mod::lemma_mod_add_multiples_vanish(b - a, TURN as int);
    }
    let s: i64 = if d <= HALF_TURN as i64 { d } else { d - TURN as i64 };
    assert(-(HALF_TURN as int) <= s <= HALF_TURN);
    let part: i64 = if s >= 0 {
        assert(0 <= s * w <= HALF_TURN * SCALE) by (nonlinear_arith)
            requires 0 <= s <= HALF_TURN, 0 <= w <= SCALE;
        s * w as i64 / SCALE
    } else {
        let n: i64 = -s;
        assert(0 <= n * w <= HALF_TURN * SCALE) by (nonlinear_arith)
            requires 0 <= n <= HALF_TURN, 0 <= w <= SCALE;
        -(n * w as i64 / SCALE)
    };
    normalize_angle(a as i64 + part)
}

/// The distance falloff of a trail's pull, in ten-thousandths: one at the
/// center, falling as `1 / (1 + 9 d^2 / r^2)`.
pub open spec fn falloff_spec(d2: int, r: int) -> int {
    SCALE * (r * r) / (r * r + 9 * d2)
}

/// A trail's pull on an ant of `role` at squared distance `d2` within `radius`.
pub open spec fn weight_spec(t: FastPheromoneTrail, role: Role, d2: int, radius: int) -> int {
    let qf = if t.trail_type == PheromoneType::Food { SCALE + t.quality / 2 } else { SCALE as int };
    t.strength * falloff_spec(d2, radius) / SCALE as int * sensitivity_spec(role, t.trail_type)
        / SCALE as int * qf / SCALE as int
}

/// The trails that pull: of the colony, of an accepted kind, within the radius.
pub open spec fn pulls(
    t: FastPheromoneTrail,
    p: Point,
    colony_id: i32,
    radius: int,
    kinds: Seq<PheromoneType>,
) -> bool {
    t.colony_id == colony_id && kinds.contains(t.trail_type) && within(t.position, p, radius)
}

/// The total pull on an ant of `role` at `p` of the first `n` trails.
pub open spec fn total_weight(
    trails: Seq<FastPheromoneTrail>,
    n: int,
    p: Point,
    colony_id: i32,
    radius: int,
    kinds: Seq<PheromoneType>,
    role: Role,
) -> int
    decreases n,
{
    if n <= 0 {
        0
    } else {
        let t = trails[n - 1];
        total_weight(trails, n - 1, p, colony_id, radius, kinds, role) + if pulls(
            t,
            p,
            colony_id,
            radius,
            kinds,
        ) {
            weight_spec(t, role, dist2(t.position, p), radius)
        } else {
            0
        }
    }
}

/// The weighted sum of the x (`axis_x`) or y components of the directions from
/// `p` toward the pulling trails among the first `n`.
pub open spec fn pull_sum(
    trails: Seq<FastPheromoneTrail>,
    n: int,
    p: Point,
    colony_id: i32,
    radius: int,
    kinds: Seq<PheromoneType>,
    role: Role,
    axis_x: bool,
) -> int
    decreases n,
{
    if n <= 0 {
        0
    } else {
        let t = trails[n - 1];
        let h = heading_spec(t.position.x - p.x, t.position.y - p.y);
        let c = if axis_x { cosine_spec(h) } else { sine_spec(h) };
        pull_sum(trails, n - 1, p, colony_id, radius, kinds, role, axis_x) + if pulls(t, p, colony_id, radius, kinds) {
            c * weight_spec(t, role, dist2(t.position, p), radius)
        } else {
            0
        }
    }
}

/// The most a single trail can pull.
pub const MAX_WEIGHT: i128 = 20_000_000_000_000;

proof fn lemma_weight_bounds(t: FastPheromoneTrail, role: Role, d2: int, radius: int)
    requires
        0 <= d2,
        0 < radius,
        t.quality <= SCALE,
    ensures
        0 <= weight_spec(t, role, d2, radius) <= MAX_WEIGHT,
{
    let f = falloff_spec(d2, radius);
    let rr = radius * radius;
    assert(rr > 0) by (nonlinear_arith)
        requires radius > 0, rr == radius * radius;
    assert(0 <= f <= SCALE) by (nonlinear_arith)
        requires f == SCALE * rr / (rr + 9 * d2), rr > 0, d2 >= 0;
    let s = sensitivity_spec(role, t.trail_type);
    assert(0 <= s <= 20000);
    let a = t.strength * f / SCALE as int;
    assert(0 <= a <= t.strength) by (nonlinear_arith)
        requires a == t.strength * f / SCALE as int, 0 <= f <= SCALE, t.strength >= 0;
    let b = a * s / SCALE as int;
    assert(0 <= b <= 2 * a) by (nonlinear_arith)
        requires b == a * s / SCALE as int, 0 <= s <= 20000, a >= 0;
    let qf = if t.trail_type == PheromoneType::Food { SCALE + t.quality / 2 } else { SCALE as int };
    let c = b * qf / SCALE as int;
    assert(0 <= c <= 2 * b) by (nonlinear_arith)
        requires c == b * qf / SCALE as int, 0 <= qf <= 2 * SCALE, b >= 0;
}

/// What a sampling of the field returns: the heading toward the pull (0 when
/// there is none) and its total strength.
#[derive(Clone, Copy, Debug, PartialEq, Eq, Structural)]
pub struct Influence {
    pub direction: u32,
    pub strength: u128,
}

/// The pull of the trails on an ant of `role` at `p`: the summed weights of the
/// trails of `colony_id`, of a kind in `kinds`, within `radius`, and the heading
/// of the weighted sum of the directions toward them.
pub fn influence(
    trails: &[FastPheromoneTrail],
    p: Point,
    colony_id: i32,
    radius: i64,
    kinds: &[PheromoneType],
    role: Role,
) -> (r: Influence)
    requires
        coord_ok(p),
        0 < radius <= MAX_EXTENT,
        trails.len() <= 1_000_000_000,
        forall|i: int| 0 <= i < trails.len() ==> coord_ok(#[trigger] trails[i].position),
        forall|i: int| 0 <= i < trails.len() ==> trail_wf(#[trigger] trails[i]),
    ensures
        r.strength == total_weight(trails@, trails.len() as int, p, colony_id, radius as int, kinds@, role),
        is_heading(r.direction as int),
        r.strength == 0 ==> r.direction == 0,
        r.strength != 0 ==> r.direction == heading_spec(
            pull_sum(trails@, trails.len() as int, p, colony_id, radius as int, kinds@, role, true),
            pull_sum(trails@, trails.len() as int, p, colony_id, radius as int, kinds@, role, false),
        ),
{
    let mut sum: u128 = 0;
    let mut sx: i128 = 0;
    let mut sy: i128 = 0;
    let mut i: usize = 0;
    while i < trails.len()
        invariant
            i <= trails.len(),
            trails.len() <= 1_000_000_000,
            coord_ok(p),
            0 < radius <= MAX_EXTENT,
            forall|j: int| 0 <= j < trails.len() ==> coord_ok(#[trigger] trails[j].position),
            forall|j: int| 0 <= j < trails.len() ==> trail_wf(#[trigger] trails[j]),
            sum == total_weight(trails@, i as int, p, colony_id, radius as int, kinds@, role),
            sum <= i * MAX_WEIGHT,
            sx == pull_sum(trails@, i as int, p, colony_id, radius as int, kinds@, role, true),
            sy == pull_sum(trails@, i as int, p, colony_id, radius as int, kinds@, role, false),
            -(i * MAX_WEIGHT * SCALE) <= sx <= i * MAX_WEIGHT * SCALE,
            -(i * MAX_WEIGHT * SCALE) <= sy <= i * MAX_WEIGHT * SCALE,
        decreases trails.len() - i,
    {
        let t = trails[i];
        let mut accepted = false;
        let mut k: usize = 0;
        while k < kinds.len()
            invariant
                k <= kinds.len(),
                accepted == exists|j: int| 0 <= j < k && kinds@[j] == t.trail_type,
            decreases kinds.len() - k,
        {
            if kinds[k] == t.trail_type {
                accepted = true;
            }
            k += 1;
        }
        assert(accepted == kinds@.contains(t.trail_type));
        if t.colony_id == colony_id && accepted {
            let d2: i128 = distance_squared(t.position, p);
            assert(0 < radius * radius <= MAX_EXTENT * MAX_EXTENT) by (nonlinear_arith)
                requires 0 < radius <= MAX_EXTENT;
            let rr: i128 = radius as i128 * radius as i128;
            assert(rr == radius * radius);
            if d2 <= rr {
                assert(0 < rr <= MAX_EXTENT * MAX_EXTENT) by (nonlinear_arith)
                    requires rr == radius * radius, 0 < radius <= MAX_EXTENT;
                let f: i128 = SCALE as i128 * rr / (rr + 9 * d2);
                let s: i128 = role_sensitivity(role, t.trail_type) as i128;
                let qf: i128 = if t.trail_type == PheromoneType::Food {
                    SCALE as i128 + t.quality as i128 / 2
                } else {
                    SCALE as i128
                };
                proof {
                    lemma_weight_bounds(t, role, d2 as int, radius as int);
                    assert(0 <= f <= SCALE) by (nonlinear_arith)
                        requires f == SCALE * rr / (rr + 9 * d2), rr > 0, d2 >= 0;
                    assert(t.strength * f <= u32::MAX * SCALE) by (nonlinear_arith)
                        requires 0 <= f <= SCALE, t.strength <= u32::MAX;
                }
                let a: i128 = t.strength as i128 * f / SCALE as i128;
                assert(0 <= a <= u32::MAX) by (nonlinear_arith)
                    requires a == t.strength * f / SCALE as int, 0 <= f <= SCALE, t.strength <= u32::MAX;
                assert(0 <= a * s <= u32::MAX * 20000) by (nonlinear_arith)
                    requires 0 <= a <= u32::MAX, 0 <= s <= 20000;
                let b: i128 = a * s / SCALE as i128;
                assert(0 <= b <= 2 * a) by (nonlinear_arith)
                    requires b == a * s / SCALE as int, 0 <= s <= 20000, a >= 0;
                assert(b * qf <= MAX_WEIGHT * SCALE) by (nonlinear_arith)
                    requires 0 <= b <= 2 * a, a <= u32::MAX, 0 <= qf <= 2 * SCALE;
                let w: i128 = b * qf / SCALE as i128;
                assert(w == weight_spec(t, role, dist2(t.position, p), radius as int));
                let h = angle_between_points(p, t.position);
                let cx: i128 = cosine(h) as i128;
                let cy: i128 = sine(h) as i128;
                assert(-(MAX_WEIGHT * SCALE) <= cx * w <= MAX_WEIGHT * SCALE) by (nonlinear_arith)
                    requires 0 <= w <= MAX_WEIGHT, -SCALE <= cx <= SCALE;
                assert(-(MAX_WEIGHT * SCALE) <= cy * w <= MAX_WEIGHT * SCALE) by (nonlinear_arith)
                    requires 0 <= w <= MAX_WEIGHT, -SCALE <= cy <= SCALE;
                sum = sum + w as u128;
                sx = sx + cx * w;
                sy = sy + cy * w;
            }
        }
        proof {
            assert(trails@[i as int] == t);
        }
        i += 1;
        assert(sum <= i * MAX_WEIGHT) by (nonlinear_arith)
            requires sum <= (i - 1) * MAX_WEIGHT + MAX_WEIGHT;
    }
    if sum == 0 {
        return Influence { direction: 0, strength: 0 };
    }
    assert(i * MAX_WEIGHT * SCALE <= MAX_EXTENT * MAX_EXTENT * SCALE * 8) by (nonlinear_arith)
        requires i <= 1_000_000_000;
    Influence { direction: heading_of(sx, sy), strength: sum }
}

} // verus!
