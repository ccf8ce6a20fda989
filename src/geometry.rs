//! Fixed-point geometry: world units, headings, turning and reflection.
use vstd::prelude::*;

verus! {

/// One world unit in position units (positions are thousandths of a unit).
pub const UNIT: i64 = 1000;

/// The largest coordinate and world extent that positions may take.
pub const MAX_EXTENT: i64 = 1_000_000_000_000;

/// Ratios (strengths, qualities, sines) are in ten-thousandths.
pub const SCALE: i64 = 10000;

/// A full turn in heading units (ten-thousandths of a radian).
pub const TURN: u32 = 62832;

/// Half a turn (pi).
pub const HALF_TURN: u32 = 31416;

/// A quarter turn (pi / 2).
pub const QUARTER_TURN: u32 = 15708;

/// A point of the world, in position units.
#[derive(Clone, Copy, Debug, PartialEq, Eq, Structural)]
pub struct Point {
    pub x: i64,
    pub y: i64,
}

/// A world of `width` by `height` position units with its origin at a corner.
#[derive(Clone, Copy, Debug, PartialEq, Eq, Structural)]
pub struct WorldBounds {
    pub width: i64,
    pub height: i64,
}

impl WorldBounds {
    pub open spec fn wf(self) -> bool {
        1 <= self.width <= MAX_EXTENT && 1 <= self.height <= MAX_EXTENT
    }

    pub open spec fn contains(self, p: Point) -> bool {
        0 <= p.x <= self.width && 0 <= p.y <= self.height
    }
}

pub open spec fn coord_ok(p: Point) -> bool {
    -MAX_EXTENT <= p.x <= MAX_EXTENT && -MAX_EXTENT <= p.y <= MAX_EXTENT
}

/// Squared Euclidean distance.
pub open spec fn dist2(a: Point, b: Point) -> int {
    (a.x - b.x) * (a.x - b.x) + (a.y - b.y) * (a.y - b.y)
}

/// `p` lies within the closed disc of radius `r` around `c`.
pub open spec fn within(p: Point, c: Point, r: int) -> bool {
    dist2(p, c) <= r * r
}

pub open spec fn is_heading(a: int) -> bool {
    0 <= a < TURN
}

/// Distance between two headings along the circle.
pub open spec fn circ_dist(a: int, b: int) -> int {
    let d = if a >= b { a - b } else { b - a };
    if d > HALF_TURN { TURN - d } else { d }
}

/// The heading mirrored across a vertical edge (its x component negated).
pub open spec fn mirror_x(a: int) -> int {
    if a <= HALF_TURN { HALF_TURN - a } else { TURN + HALF_TURN - a }
}

/// The heading mirrored across a horizontal edge (its y component negated).
pub open spec fn mirror_y(a: int) -> int {
    if a == 0 { 0 } else { TURN - a }
}

/// Headings whose x component is not negative.
pub open spec fn faces_right(a: int) -> bool {
    a <= QUARTER_TURN || a >= 3 * QUARTER_TURN
}

/// Headings whose y component is not negative.
pub open spec fn faces_up(a: int) -> bool {
    a <= HALF_TURN
}

pub open spec fn clamp_spec(v: int, lo: int, hi: int) -> int {
    if v < lo { lo } else if v > hi { hi } else { v }
}

/// The center of a world.
pub fn world_center(bounds: WorldBounds) -> (r: Point)
    requires
        bounds.wf(),
    ensures
        r.x == bounds.width / 2,
        r.y == bounds.height / 2,
        bounds.contains(r),
{
    Point { x: bounds.width / 2, y: bounds.height / 2 }
}

/// The world's extent as a pair (width, height).
pub fn get_world_bounds(bounds: WorldBounds) -> (r: (i64, i64))
    ensures
        r == (bounds.width, bounds.height),
{
    (bounds.width, bounds.height)
}

/// The world's extent as (min_x, max_x, min_y, max_y).
pub fn get_centered_world_bounds(bounds: WorldBounds) -> (r: (i64, i64, i64, i64))
    ensures
        r == (0i64, bounds.width, 0i64, bounds.height),
{
    (0, bounds.width, 0, bounds.height)
}

/// `value` limited to the interval `[lo, hi]`.
pub fn clamp(value: i64, lo: i64, hi: i64) -> (r: i64)
    requires
        lo <= hi,
    ensures
        r == clamp_spec(value as int, lo as int, hi as int),
        lo <= r <= hi,
{
    if value < lo {
        lo
    } else if value > hi {
        hi
    } else {
        value
    }
}

/// `d * t / SCALE`, rounded toward zero.
pub open spec fn scaled_toward_zero(d: int, t: int) -> int {
    if d >= 0 { d * t / SCALE as int } else { -((-d) * t / SCALE as int) }
}

/// Linear interpolation from `a` toward `b` by `t` ten-thousandths of the way,
/// rounded toward `a`.
pub fn lerp(a: i64, b: i64, t: i64) -> (r: i64)
    requires
        -MAX_EXTENT <= a <= MAX_EXTENT,
        -MAX_EXTENT <= b <= MAX_EXTENT,
        0 <= t <= SCALE,
    ensures
        r == a + scaled_toward_zero(b - a, t as int),
        t == 0 ==> r == a,
        t == SCALE ==> r == b,
{
    let d: i128 = b as i128 - a as i128;
    let part: i128 = if d >= 0 {
        assert(0 <= d * t <= 2 * MAX_EXTENT * SCALE) by (nonlinear_arith)
            requires 0 <= d <= 2 * MAX_EXTENT, 0 <= t <= SCALE;
        d * t as i128 / SCALE as i128
    } else {
        let n: i128 = -d;
        assert(0 <= n * t <= 2 * MAX_EXTENT * SCALE) by (nonlinear_arith)
            requires 0 <= n <= 2 * MAX_EXTENT, 0 <= t <= SCALE;
        -(n * t as i128 / SCALE as i128)
    };
    if t == SCALE {
        assert(d * SCALE / (SCALE as int) == d) by (nonlinear_arith);
        assert((-d) * SCALE / (SCALE as int) == -d) by (nonlinear_arith);
    }
    (a as i128 + part) as i64
}

/// Whether `p` lies within distance `r` of `c` (Euclidean, boundary included).
pub fn is_within(p: Point, c: Point, r: i64) -> (b: bool)
    requires
        coord_ok(p),
        coord_ok(c),
        0 <= r <= MAX_EXTENT,
    ensures
        b == within(p, c, r as int),
{
    let dx: i128 = p.x as i128 - c.x as i128;
    let dy: i128 = p.y as i128 - c.y as i128;
    assert(dx * dx <= 4 * MAX_EXTENT * MAX_EXTENT) by (nonlinear_arith)
        requires -2 * MAX_EXTENT <= dx <= 2 * MAX_EXTENT;
    assert(dy * dy <= 4 * MAX_EXTENT * MAX_EXTENT) by (nonlinear_arith)
        requires -2 * MAX_EXTENT <= dy <= 2 * MAX_EXTENT;
    assert(0 <= dx * dx) by (nonlinear_arith);
    assert(0 <= dy * dy) by (nonlinear_arith);
    assert(r * r <= MAX_EXTENT * MAX_EXTENT) by (nonlinear_arith)
        requires 0 <= r <= MAX_EXTENT;
    let rr: i128 = (r as i128) * (r as i128);
    dx * dx + dy * dy <= rr
}

/// Squared distance between two points.
pub fn distance_squared(p: Point, c: Point) -> (r: i128)
    requires
        coord_ok(p),
        coord_ok(c),
    ensures
        r == dist2(p, c),
        0 <= r <= 8 * MAX_EXTENT * MAX_EXTENT,
{
    let dx: i128 = p.x as i128 - c.x as i128;
    let dy: i128 = p.y as i128 - c.y as i128;
    assert(0 <= dx * dx <= 4 * MAX_EXTENT * MAX_EXTENT) by (nonlinear_arith)
        requires -2 * MAX_EXTENT <= dx <= 2 * MAX_EXTENT;
    assert(0 <= dy * dy <= 4 * MAX_EXTENT * MAX_EXTENT) by (nonlinear_arith)
        requires -2 * MAX_EXTENT <= dy <= 2 * MAX_EXTENT;
    dx * dx + dy * dy
}

/// The Euclidean distance between two points, rounded down.
pub fn distance(p: Point, c: Point) -> (r: i64)
    requires
        coord_ok(p),
        coord_ok(c),
    ensures
        r * r <= dist2(p, c) < (r + 1) * (r + 1),
        r >= 0,
{
    let d: i128 = distance_squared(p, c);
    // the root lies in [lo, hi)
    let mut lo: i128 = 0;
    let mut hi: i128 = 3 * MAX_EXTENT as i128;
    assert(d < hi * hi) by (nonlinear_arith)
        requires d <= 8 * MAX_EXTENT * MAX_EXTENT, hi == 3 * MAX_EXTENT;
    while lo + 1 < hi
        invariant
            0 <= lo < hi <= 3 * MAX_EXTENT,
            lo * lo <= d < hi * hi,
        decreases hi - lo,
    {
        let mid: i128 = lo + (hi - lo) / 2;
        assert(mid * mid <= 9 * MAX_EXTENT * MAX_EXTENT) by (nonlinear_arith)
            requires 0 <= mid <= 3 * MAX_EXTENT;
        if mid * mid <= d {
            lo = mid;
        } else {
            hi = mid;
        }
    }
    assert(hi == lo + 1);
    lo as i64
}

/// Any integer angle brought into `[0, TURN)`.
pub fn normalize_angle(angle: i64) -> (r: u32)
    ensures
        is_heading(r as int),
        r == (angle as int) % (TURN as int),
        (r - angle) % (TURN as int) == 0,
{
    let t: i64 = TURN as i64;
    if angle >= 0 {
        let m: i64 = angle % t;
        proof {
            let k = (angle as int) / (t as int);
            assert(angle == k * t + m);
            assert(m - angle == (-k) * t);
            vstd::arithmetic::div_mod::lemma_mod_multiples_basic(-k, t as int);
        }
        m as u32
    } else {
        let q: i64 = ((-(angle as i128)) % (t as i128)) as i64;
        let r: i64 = if q == 0 { 0 } else { t - q };
        proof {
            let k = (-(angle as int)) / (t as int);
            assert(-angle == k * t + q);
            let c: int = if q == 0 { k } else { k + 1 };
            assert(r - angle == c * t) by (nonlinear_arith)
                requires -angle == k * t + q, c == (if q == 0 { k } else { k + 1 }), r == (if q == 0 { 0 } else { t - q });
            vstd::arithmetic::div_mod::lemma_mod_multiples_basic(c, t as int);
            vstd::arithmetic::div_mod::lemma_mod_multiples_vanish(c, angle as int, t as int);
            assert(t * c + angle == r) by (nonlinear_arith)
                requires r - angle == c * t;
            vstd::arithmetic::div_mod::lemma_small_mod(r as nat, t as nat);
        }
        r as u32
    }
}

/// The Bhaskara approximation of sine on `[0, HALF_TURN]`, in ten-thousandths.
pub open spec fn half_sine(x: int) -> int {
    let p = x * (HALF_TURN - x);
    16 * p * SCALE / (5 * HALF_TURN * HALF_TURN - 4 * p)
}

pub open spec fn sine_spec(a: int) -> int {
    if a <= HALF_TURN { half_sine(a) } else { -half_sine(a - HALF_TURN) }
}

pub open spec fn cosine_spec(a: int) -> int {
    sine_spec((a + QUARTER_TURN) % (TURN as int))
}

proof fn lemma_half_sine_bounds(x: int)
    requires
        0 <= x <= HALF_TURN,
    ensures
        0 <= half_sine(x) <= SCALE,
{
    let p = x * (HALF_TURN - x);
    let h = HALF_TURN as int;
    assert(0 <= p) by (nonlinear_arith)
        requires p == x * (h - x), 0 <= x <= h;
    assert(4 * p <= h * h) by (nonlinear_arith)
        requires p == x * (h - x);
    let den = 5 * h * h - 4 * p;
    assert(den > 0);
    assert(16 * p * SCALE <= SCALE * den);
    assert(16 * p * SCALE / den <= SCALE) by (nonlinear_arith)
        requires 16 * p * SCALE <= SCALE * den, den > 0;
    assert(0 <= 16 * p * SCALE / den) by (nonlinear_arith)
        requires 0 <= p, den > 0;
}

/// Sine of a heading, in ten-thousandths (Bhaskara's approximation).
pub fn sine(a: u32) -> (r: i64)
    requires
        is_heading(a as int),
    ensures
        r == sine_spec(a as int),
        -SCALE <= r <= SCALE,
        a <= HALF_TURN ==> r >= 0,
        a >= HALF_TURN ==> r <= 0,
{
    let h: i64 = HALF_TURN as i64;
    let x: i64 = if a <= HALF_TURN { a as i64 } else { a as i64 - h };
    proof {
        lemma_half_sine_bounds(x as int);
    }
    assert(0 <= x * (h - x) <= h * h) by (nonlinear_arith)
        requires 0 <= x <= h;
    let p: i64 = x * (h - x);
    let v: i64 = 16 * p * SCALE / (5 * h * h - 4 * p);
    assert(half_sine(HALF_TURN as int) == 0);
    if a <= HALF_TURN {
        v
    } else {
        assert(half_sine(0) == 0);
        -v
    }
}

/// Cosine of a heading, in ten-thousandths.
pub fn cosine(a: u32) -> (r: i64)
    requires
        is_heading(a as int),
    ensures
        r == cosine_spec(a as int),
        -SCALE <= r <= SCALE,
        faces_right(a as int) ==> r >= 0,
        !faces_right(a as int) ==> r <= 0,
{
    let b: u32 = (a + QUARTER_TURN) % TURN;
    sine(b)
}

} // verus!
