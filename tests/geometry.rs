use ant_colony_simulator::geometry::{
    clamp, cosine, distance, distance_squared, lerp, get_centered_world_bounds, get_world_bounds, is_within,
    normalize_angle, sine, world_center, Point, WorldBounds, HALF_TURN, QUARTER_TURN, TURN, UNIT,
};
use ant_colony_simulator::motion::{advance, bounce, step_along, turn_toward};
use ant_colony_simulator::steering::{blend_heading, heading_of, angle_between_points};

#[test]
fn normalize_angle_wraps_both_ways() {
    assert_eq!(normalize_angle(0), 0);
    assert_eq!(normalize_angle(TURN as i64), 0);
    assert_eq!(normalize_angle(TURN as i64 + 5), 5);
    assert_eq!(normalize_angle(-1), TURN - 1);
    assert_eq!(normalize_angle(-(TURN as i64) * 3 - 7), TURN - 7);
    assert_eq!(normalize_angle(i64::MIN) < TURN, true);
}

#[test]
fn clamp_limits_to_interval() {
    assert_eq!(clamp(5, 0, 10), 5);
    assert_eq!(clamp(-3, 0, 10), 0);
    assert_eq!(clamp(12, 0, 10), 10);
}

#[test]
fn sine_and_cosine_on_the_axes() {
    assert_eq!(sine(0), 0);
    assert_eq!(sine(QUARTER_TURN), 10000);
    assert_eq!(sine(HALF_TURN), 0);
    assert_eq!(sine(3 * QUARTER_TURN), -10000);
    assert_eq!(cosine(0), 10000);
    assert_eq!(cosine(HALF_TURN), -10000);
    assert_eq!(cosine(QUARTER_TURN), 0);
}

#[test]
fn sine_is_close_to_the_true_value() {
    // Bhaskara's approximation stays within 0.002 of the sine.
    for a in (0..TURN).step_by(97) {
        let exact = ((a as f64) / 10000.0).sin() * 10000.0;
        let got = sine(a) as f64;
        assert!((exact - got).abs() <= 20.0, "angle {} exact {} got {}", a, exact, got);
    }
}

#[test]
fn world_center_and_bounds() {
    let b = WorldBounds { width: 1000 * UNIT, height: 800 * UNIT };
    assert_eq!(world_center(b), Point { x: 500 * UNIT, y: 400 * UNIT });
    assert_eq!(get_world_bounds(b), (1000 * UNIT, 800 * UNIT));
    assert_eq!(get_centered_world_bounds(b), (0, 1000 * UNIT, 0, 800 * UNIT));
}

#[test]
fn within_is_euclidean_and_inclusive() {
    let c = Point { x: 0, y: 0 };
    assert!(is_within(Point { x: 3, y: 4 }, c, 5));
    assert!(!is_within(Point { x: 3, y: 5 }, c, 5));
    assert_eq!(distance_squared(Point { x: 3, y: 4 }, c), 25);
}

#[test]
fn turning_is_limited_and_takes_the_short_way() {
    assert_eq!(turn_toward(0, 500, 1000), 500);
    assert_eq!(turn_toward(0, 5000, 1000), 1000);
    assert_eq!(turn_toward(0, TURN - 5000, 1000), TURN - 1000);
    assert_eq!(turn_toward(TURN - 100, 100, 1000), 100);
}

#[test]
fn bounce_mirrors_across_the_edges() {
    assert_eq!(bounce(5, -8, 100), 3);
    assert_eq!(bounce(95, 10, 100), 95);
    assert_eq!(bounce(50, 10, 100), 60);
    assert_eq!(bounce(1, -1000, 100), 100);
}

#[test]
fn step_rounds_toward_zero() {
    assert_eq!(step_along(1000, 10000), 1000);
    assert_eq!(step_along(1000, -5000), -500);
    assert_eq!(step_along(3, -3333), -0);
}

#[test]
fn advance_reflects_off_the_left_edge() {
    let b = WorldBounds { width: 1000 * UNIT, height: 1000 * UNIT };
    let (p, h) = advance(Point { x: UNIT, y: 500 * UNIT }, HALF_TURN, 2 * UNIT, b);
    assert_eq!(p, Point { x: UNIT, y: 500 * UNIT });
    assert_eq!(h, 0);
    assert!(cosine(h) >= 0);
}

#[test]
fn headings_toward_points() {
    assert_eq!(heading_of(5, 0), 0);
    assert_eq!(heading_of(0, 5), QUARTER_TURN);
    assert_eq!(heading_of(-5, 0), HALF_TURN);
    assert_eq!(heading_of(0, -5), 3 * QUARTER_TURN);
    assert_eq!(heading_of(5, 5), QUARTER_TURN / 2);
    assert_eq!(angle_between_points(Point { x: 10, y: 10 }, Point { x: 0, y: 10 }), HALF_TURN);
}

#[test]
fn blending_headings() {
    assert_eq!(blend_heading(0, 1000, 0), 0);
    assert_eq!(blend_heading(0, 1000, 5000), 500);
    assert_eq!(blend_heading(0, TURN - 1000, 10000), TURN - 1000);
}

#[test]
fn distance_rounds_down() {
    assert_eq!(distance(Point { x: 0, y: 0 }, Point { x: 3, y: 4 }), 5);
    assert_eq!(distance(Point { x: 0, y: 0 }, Point { x: 1, y: 1 }), 1);
    assert_eq!(distance(Point { x: 10, y: 10 }, Point { x: 10, y: 10 }), 0);
    assert_eq!(distance(Point { x: 0, y: 0 }, Point { x: 1_000_000_000_000, y: 0 }), 1_000_000_000_000);
}

#[test]
fn lerp_moves_part_of_the_way() {
    assert_eq!(lerp(0, 100, 5000), 50);
    assert_eq!(lerp(100, 0, 2500), 75);
    assert_eq!(lerp(0, -3, 5000), -1);
    assert_eq!(lerp(7, 9, 0), 7);
    assert_eq!(lerp(7, 9, 10000), 9);
}
