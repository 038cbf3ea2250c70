use overlay_editor::geometry::{distance_point_to_segment, isqrt, DistSq, ScreenPoint};

fn pt(x: i64, y: i64) -> ScreenPoint {
    ScreenPoint { x, y }
}

#[test]
fn distance_zero_on_segment_point() {
    // Interior point of the segment: exactly zero.
    let d = distance_point_to_segment(pt(5, 0), pt(0, 0), pt(10, 0));
    assert_eq!(d.num, 0);
    // Endpoint of the segment: exactly zero.
    let d = distance_point_to_segment(pt(0, 0), pt(0, 0), pt(10, 0));
    assert_eq!(d.num, 0);
}

#[test]
fn distance_perpendicular_interior() {
    // Projection lands inside the segment: 25 = 2500 / 100 exactly.
    let d = distance_point_to_segment(pt(5, 5), pt(0, 0), pt(10, 0));
    assert_eq!(d.num, 2500);
    assert_eq!(d.den, 100);
}

#[test]
fn distance_projection_before_start() {
    // Projection falls before the segment: distance to the start point.
    let d = distance_point_to_segment(pt(-3, 4), pt(0, 0), pt(10, 0));
    assert_eq!(d.num, 25);
    assert_eq!(d.den, 1);
}

#[test]
fn distance_projection_past_end() {
    // Projection falls past the segment: distance to the end point.
    let d = distance_point_to_segment(pt(13, -4), pt(0, 0), pt(10, 0));
    assert_eq!(d.num, 25);
    assert_eq!(d.den, 1);
}

#[test]
fn distance_zero_length_segment() {
    // Degenerate segment: the plain point-to-point distance, 3-4-5.
    let d = distance_point_to_segment(pt(3, 4), pt(0, 0), pt(0, 0));
    assert_eq!(d.num, 25);
    assert_eq!(d.den, 1);
    // And exactly zero when the point coincides with it.
    let d = distance_point_to_segment(pt(7, -2), pt(7, -2), pt(7, -2));
    assert_eq!(d.num, 0);
}

#[test]
fn distance_diagonal_segment_exact_rational() {
    // Segment (0,0)-(3,3), point (3,0): cross = 3*3 - 0*3 = 9,
    // numerator 81, denominator 18: squared distance 4.5 exactly.
    let d = distance_point_to_segment(pt(3, 0), pt(0, 0), pt(3, 3));
    assert_eq!(d.num, 81);
    assert_eq!(d.den, 18);
}

#[test]
fn rational_comparison_is_exact() {
    // 81/18 (= 4.5) against 5/1 and 4/1.
    let d = distance_point_to_segment(pt(3, 0), pt(0, 0), pt(3, 3));
    let five = DistSq { num: 5, den: 1 };
    let four = DistSq { num: 4, den: 1 };
    assert!(d.lt(&five));
    assert!(!d.lt(&four));
    assert!(four.lt(&d));
}

#[test]
fn from_radius_squares() {
    let r = DistSq::from_radius(128);
    assert_eq!(r.num, 16384);
    assert_eq!(r.den, 1);
}

#[test]
fn isqrt_exact_values() {
    assert_eq!(isqrt(0), 0);
    assert_eq!(isqrt(1), 1);
    assert_eq!(isqrt(2), 1);
    assert_eq!(isqrt(24), 4);
    assert_eq!(isqrt(25), 5);
    assert_eq!(isqrt(26), 5);
    assert_eq!(isqrt(1_000_000), 1000);
    // Largest accepted input.
    assert_eq!(isqrt((1u64 << 40) - 1), (1u64 << 20) - 1);
}
