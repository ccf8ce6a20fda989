//! Locomotion: bounded turning, stepping and reflection off the world's edges.
use vstd::prelude::*;
use crate::geometry::{
    circ_dist, clamp, clamp_spec, cosine, cosine_spec, faces_right, faces_up, is_heading, mirror_x,
    mirror_y, sine, sine_spec, Point, WorldBounds, HALF_TURN, MAX_EXTENT, SCALE, TURN,
};

verus! {

/// The signed distance covered along one axis by `speed` with direction
/// component `c` (in ten-thousandths), rounded toward zero.
pub open spec fn step_spec(speed: int, c: int) -> int {
    if c >= 0 { speed * c / SCALE as int } else { -(speed * (-c) / SCALE as int) }
}

/// Where a coordinate lands after moving by `d` in `[0, limit]`: mirrored across
/// the edge it crossed, then held inside.
pub open spec fn bounce_spec(pos: int, d: int, limit: int) -> int {
    let n = pos + d;
    let m = if n < 0 { -n } else if n > limit { 2 * limit - n } else { n };
    clamp_spec(m, 0, limit)
}

pub open spec fn crosses(pos: int, d: int, limit: int) -> bool {
    pos + d < 0 || pos + d > limit
}

/// The heading after moving from `p` by `(dx, dy)` inside `bounds`.
pub open spec fn heading_after(p: Point, dx: int, dy: int, h: int, bounds: WorldBounds) -> int {
    let hx = if crosses(p.x as int, dx, bounds.width as int) { mirror_x(h) } else { h };
    if crosses(p.y as int, dy, bounds.height as int) { mirror_y(hx) } else { hx }
}

/// `new` is `old` turned by at most `max_turn`, then perhaps mirrored across a
/// vertical edge, a horizontal edge, or both.
pub open spec fn turned_then_mirrored(new: int, old: int, max_turn: int) -> bool {
    exists|h: int|
        is_heading(h) && #[trigger] circ_dist(h, old) <= max_turn && (new == h || new == mirror_x(h)
            || new == mirror_y(h) || new == mirror_y(mirror_x(h)))
}

/// The heading turned from `current` toward `desired` by at most `max_turn`,
/// the shorter way round.
pub open spec fn turn_spec(current: int, desired: int, max_turn: int) -> int {
    let diff = (desired - current) % (TURN as int);
    if diff <= HALF_TURN {
        let s = if diff <= max_turn { diff } else { max_turn };
        (current + s) % (TURN as int)
    } else {
        let back = TURN - diff;
        let s = if back <= max_turn { back } else { max_turn };
        (current + TURN - s) % (TURN as int)
    }
}

/// Distance covered along one axis in one step.
pub fn step_along(speed: i64, c: i64) -> (r: i64)
    requires
        0 <= speed <= MAX_EXTENT,
        -SCALE <= c <= SCALE,
    ensures
        r == step_spec(speed as int, c as int),
        -speed <= r <= speed,
        c < 0 ==> r <= 0,
        c >= 0 ==> r >= 0,
{
    if c >= 0 {
        assert(0 <= speed * c <= speed * SCALE) by (nonlinear_arith)
            requires 0 <= speed, 0 <= c <= SCALE;
        assert(speed * c / (SCALE as int) <= speed) by (nonlinear_arith)
            requires 0 <= speed * c <= speed * SCALE;
        speed * c / SCALE
    } else {
        let nc: i64 = -c;
        assert(0 <= speed * nc <= speed * SCALE) by (nonlinear_arith)
            requires 0 <= speed, 0 <= nc <= SCALE;
        assert(speed * nc / (SCALE as int) <= speed) by (nonlinear_arith)
            requires 0 <= speed * nc <= speed * SCALE;
        -(speed * nc / SCALE)
    }
}

/// A coordinate moved by `d` and reflected back inside `[0, limit]`.
pub fn bounce(pos: i64, d: i64, limit: i64) -> (r: i64)
    requires
        0 <= pos <= limit <= MAX_EXTENT,
        -MAX_EXTENT <= d <= MAX_EXTENT,
    ensures
        r == bounce_spec(pos as int, d as int, limit as int),
        0 <= r <= limit,
{
    let n: i64 = pos + d;
    let m: i64 = if n < 0 {
        -n
    } else if n > limit {
        2 * limit - n
    } else {
        n
    };
    clamp(m, 0, limit)
}

/// Turn from `current` toward `desired`, by at most `max_turn`.
pub fn turn_toward(current: u32, desired: u32, max_turn: u32) -> (r: u32)
    requires
        is_heading(current as int),
        is_heading(desired as int),
    ensures
        r == turn_spec(current as int, desired as int, max_turn as int),
        is_heading(r as int),
        circ_dist(r as int, current as int) <= max_turn,
        circ_dist(desired as int, current as int) <= max_turn ==> r == desired,
{
    let diff: u32 = ((desired + TURN) - current) % TURN;
    assert(diff == (desired - current) % (TURN as int)) by {
        vstd::arithmetic::div_mod::lemma_mod_add_multiples_vanish(
            desired - current,
            TURN as int,
        );
    }
    if diff <= HALF_TURN {
        let s: u32 = if diff <= max_turn { diff } else { max_turn };
        let r: u32 = (current + s) % TURN;
        assert(circ_dist(r as int, current as int) == s);
        proof {
            if circ_dist(desired as int, current as int) <= max_turn {
                assert(desired == (current + diff) % (TURN as int));
            }
        }
        r
    } else {
        let back: u32 = TURN - diff;
        let s: u32 = if back <= max_turn { back } else { max_turn };
        let r: u32 = (current + TURN - s) % TURN;
        assert(circ_dist(r as int, current as int) == s);
        proof {
            if circ_dist(desired as int, current as int) <= max_turn {
                assert(desired == (current + TURN - back) % (TURN as int));
            }
        }
        r
    }
}

proof fn lemma_mirror_x(h: int)
    requires
        is_heading(h),
    ensures
        is_heading(mirror_x(h)),
        !faces_right(h) ==> faces_right(mirror_x(h)),
{
}

proof fn lemma_mirror_y(h: int)
    requires
        is_heading(h),
    ensures
        is_heading(mirror_y(h)),
        faces_right(h) ==> faces_right(mirror_y(h)),
        !faces_up(h) ==> faces_up(mirror_y(h)),
{
}

/// The heading mirrored across a vertical edge.
pub fn mirror_heading_x(h: u32) -> (r: u32)
    requires
        is_heading(h as int),
    ensures
        r == mirror_x(h as int),
        is_heading(r as int),
{
    if h <= HALF_TURN { HALF_TURN - h } else { TURN + HALF_TURN - h }
}

/// The heading mirrored across a horizontal edge.
pub fn mirror_heading_y(h: u32) -> (r: u32)
    requires
        is_heading(h as int),
    ensures
        r == mirror_y(h as int),
        is_heading(r as int),
{
    if h == 0 { 0 } else { TURN - h }
}

/// One step of length `speed` along `heading` from `p`, reflected off the
/// world's edges. Returns the new position and heading.
pub fn advance(p: Point, heading: u32, speed: i64, bounds: WorldBounds) -> (r: (Point, u32))
    requires
        bounds.wf(),
        bounds.contains(p),
        is_heading(heading as int),
        0 <= speed <= MAX_EXTENT,
    ensures
        ({
            let dx = step_spec(speed as int, cosine_spec(heading as int));
            let dy = step_spec(speed as int, sine_spec(heading as int));
            &&& r.0.x == bounce_spec(p.x as int, dx, bounds.width as int)
            &&& r.0.y == bounce_spec(p.y as int, dy, bounds.height as int)
            &&& r.1 == heading_after(p, dx, dy, heading as int, bounds)
            &&& (p.x + dx < 0 ==> faces_right(r.1 as int))
            &&& (p.y + dy < 0 ==> faces_up(r.1 as int))
        }),
        bounds.contains(r.0),
        is_heading(r.1 as int),
        circ_dist(r.1 as int, heading as int) <= HALF_TURN,
{
    let c: i64 = cosine(heading);
    let s: i64 = sine(heading);
    let dx: i64 = step_along(speed, c);
    let dy: i64 = step_along(speed, s);
    let x: i64 = bounce(p.x, dx, bounds.width);
    let y: i64 = bounce(p.y, dy, bounds.height);
    let nx: i64 = p.x + dx;
    let ny: i64 = p.y + dy;
    let h1: u32 = if nx < 0 || nx > bounds.width { mirror_heading_x(heading) } else { heading };
    proof {
        lemma_mirror_x(heading as int);
    }
    let h2: u32 = if ny < 0 || ny > bounds.height { mirror_heading_y(h1) } else { h1 };
    proof {
        lemma_mirror_y(h1 as int);
    }
    (Point { x, y }, h2)
}

} // verus!
