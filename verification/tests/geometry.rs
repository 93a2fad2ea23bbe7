//! Tests of the geometric kernel: containment, intersection, distances and
//! tangent construction. One world unit is 10_000 ticks, so the tolerances
//! of a thousandth of a unit become 10 ticks.

use hulk_core::arc::Arc;
use hulk_core::circle::{Circle, CircleTangents, TwoLineSegments};
use hulk_core::frames::{Field, Point};
use hulk_core::line_segment::LineSegment;
use hulk_core::orientation::Orientation;

#[derive(Clone, Copy, Debug, PartialEq, Eq)]
struct SomeFrame;

fn pt(x: i64, y: i64) -> Point<SomeFrame> {
    Point::new(x, y)
}

fn close(a: i64, b: i64, tolerance: i64) -> bool {
    (a - b).abs() <= tolerance
}

fn segment_close(
    s: &LineSegment<SomeFrame>,
    ax: i64,
    ay: i64,
    bx: i64,
    by: i64,
    tolerance: i64,
) -> bool {
    close(s.0.x, ax, tolerance)
        && close(s.0.y, ay, tolerance)
        && close(s.1.x, bx, tolerance)
        && close(s.1.y, by, tolerance)
}

#[test]
fn circle_line_intersection() {
    let circle = Circle::<SomeFrame>::new(pt(0, 0), 10_000);
    let fully_outside = LineSegment(pt(20_000, 0), pt(0, 20_000));
    let middle_intersection = LineSegment(pt(-10_000, -10_000), pt(10_000, 5_000));
    let p1_interior = LineSegment(pt(5_000, 5_000), pt(50_000, 15_000));
    let p2_interior = LineSegment(pt(550_000, 421_230), pt(2_500, 3_000));
    let fully_enclosed = LineSegment(pt(-5_000, -5_000), pt(5_000, 5_000));

    assert!(!circle.intersects_line_segment(&fully_outside));
    assert!(circle.intersects_line_segment(&middle_intersection));
    assert!(circle.intersects_line_segment(&p1_interior));
    assert!(circle.intersects_line_segment(&p2_interior));
    assert!(circle.intersects_line_segment(&fully_enclosed));
}

#[test]
fn circle_line_intersection_is_strict_at_the_boundary() {
    let circle = Circle::<SomeFrame>::new(pt(0, 0), 10_000);
    // A vertical segment tangent to the circle: its shortest distance to the
    // center is exactly the radius, so it does not intersect.
    let tangent = LineSegment(pt(10_000, -10_000), pt(10_000, 10_000));
    assert!(!circle.intersects_line_segment(&tangent));
    // One tick closer, the distance is strictly below the radius.
    let just_inside = LineSegment(pt(9_999, -10_000), pt(9_999, 10_000));
    assert!(circle.intersects_line_segment(&just_inside));
    // The same tangency seen at an endpoint rather than the interior.
    let endpoint_tangent = LineSegment(pt(0, 10_000), pt(0, 30_000));
    assert!(!circle.intersects_line_segment(&endpoint_tangent));
}

#[test]
fn tangents_between_circle_and_point() {
    // Radius sqrt(2)/2 of a unit, tangent point at (1, 0): the tangents are
    // the segments from (0.5, +-0.5) to the point, within a thousandth.
    let circle = Circle::<SomeFrame>::new(pt(0, 0), 7_071);
    let point = pt(10_000, 0);

    let tangents = circle
        .tangents_with_point(point)
        .expect("Could not generate tangents");

    assert!(segment_close(&tangents.0, 5_000, 5_000, 10_000, 0, 10));
    assert!(segment_close(&tangents.1, 5_000, -5_000, 10_000, 0, 10));
}

#[test]
fn tangents_between_degenerate_circles() {
    let point_left = pt(-10_000, 0);
    let point_right = pt(10_000, 0);
    let circle_left = Circle::new(point_left, 0);
    let circle_right = Circle::new(point_right, 0);

    let tangents = circle_left
        .tangents_with_circle(circle_right)
        .expect("Could not generate tangents");

    let direct = LineSegment(point_left, point_right);
    assert_eq!(
        tangents,
        CircleTangents::<SomeFrame> {
            inner: Some(TwoLineSegments(direct, direct)),
            outer: TwoLineSegments(direct, direct),
        }
    );
}

#[test]
fn tangents_with_one_degenerate_circle() {
    let point_left = pt(-10_000, 0);
    let point_right = pt(0, 0);
    let circle_left = Circle::new(point_left, 7_071);
    let circle_right = Circle::new(point_right, 0);

    let tangents = circle_left
        .tangents_with_circle(circle_right)
        .expect("Could not generate tangents");

    let inner = tangents.inner.expect("Could not generate inner tangents");
    assert!(segment_close(&inner.0, -5_000, 5_000, 0, 0, 10));
    assert!(segment_close(&inner.1, -5_000, -5_000, 0, 0, 10));
    assert!(segment_close(&tangents.outer.0, -5_000, 5_000, 0, 0, 10));
    assert!(segment_close(&tangents.outer.1, -5_000, -5_000, 0, 0, 10));
}

#[test]
fn no_tangents_for_enclosing_circles() {
    let small_circle = Circle::<SomeFrame>::new(pt(0, 0), 10_000);
    let large_circle = Circle::<SomeFrame>::new(pt(0, 0), 20_000);

    assert_eq!(small_circle.tangents_with_circle(large_circle), None);
    assert_eq!(large_circle.tangents_with_circle(small_circle), None);
}

#[test]
fn tangents_with_touching_circles() {
    let circle_left = Circle::new(pt(-5_000, 0), 10_000);
    let circle_right = Circle::new(pt(5_000, 0), 10_000);

    let tangents = circle_left
        .tangents_with_circle(circle_right)
        .expect("Could not generate tangents");

    assert!(tangents.inner.is_none());
    assert!(segment_close(&tangents.outer.0, -5_000, 10_000, 5_000, 10_000, 10));
    assert!(segment_close(&tangents.outer.1, -5_000, -10_000, 5_000, -10_000, 10));
}

#[test]
fn tangents_with_disconnected_circles() {
    let circle_left = Circle::new(pt(-5_000, 0), 10_000);
    let circle_right = Circle::new(pt(5_000, 0), 10_000);

    let tangents = circle_left
        .tangents_with_circle(circle_right)
        .expect("Could not generate tangents");

    assert!(tangents.inner.is_none());
    assert!(segment_close(&tangents.outer.0, -5_000, 10_000, 5_000, 10_000, 10));
    assert!(segment_close(&tangents.outer.1, -5_000, -10_000, 5_000, -10_000, 10));
}

#[test]
fn line_segment_lengths() {
    let line_segment = LineSegment::<SomeFrame>(pt(0, 0), pt(0, 50_000));
    assert_eq!(line_segment.norm(), 50_000);
    assert_eq!(line_segment.norm_squared(), 2_500_000_000);
    let diagonal = LineSegment::<SomeFrame>(pt(-10_000, -10_000), pt(10_000, 10_000));
    assert_eq!(diagonal.norm(), 28_284);
    assert_eq!(diagonal.norm_squared(), 800_000_000);
}

#[test]
fn shortest_distance_between_point_and_line_segment() {
    let line_segment = LineSegment::<SomeFrame>(pt(-10_000, 0), pt(10_000, 0));

    assert_eq!(line_segment.shortest_distance_to_point(pt(-10_000, 0)), 0);
    assert_eq!(line_segment.shortest_distance_to_point(pt(10_000, 0)), 0);
    assert_eq!(line_segment.shortest_distance_to_point(pt(0, 10_000)), 10_000);
    assert_eq!(line_segment.shortest_distance_to_point(pt(20_000, -10_000)), 14_142);
    assert_eq!(line_segment.shortest_distance_to_point(pt(-5_000, -5_000)), 5_000);
}

fn test_all_permutations(
    reference_line_segment: LineSegment<SomeFrame>,
    line_segment: LineSegment<SomeFrame>,
    intersects: bool,
) {
    assert_eq!(
        reference_line_segment.intersects_line_segment(line_segment),
        intersects
    );
    assert_eq!(
        reference_line_segment.intersects_line_segment(line_segment.flip()),
        intersects
    );
    assert_eq!(
        reference_line_segment
            .flip()
            .intersects_line_segment(line_segment),
        intersects
    );
    assert_eq!(
        reference_line_segment
            .flip()
            .intersects_line_segment(line_segment.flip()),
        intersects
    );
    assert_eq!(
        line_segment.intersects_line_segment(reference_line_segment),
        intersects
    );
    assert_eq!(
        line_segment.intersects_line_segment(reference_line_segment.flip()),
        intersects
    );
    assert_eq!(
        line_segment
            .flip()
            .intersects_line_segment(reference_line_segment),
        intersects
    );
    assert_eq!(
        line_segment
            .flip()
            .intersects_line_segment(reference_line_segment.flip()),
        intersects
    );
}

#[test]
fn parallel_lines_intersection() {
    let reference_line_segment = LineSegment(pt(0, 0), pt(10_000, 0));
    let line_segment = LineSegment(pt(10_000, 10_000), pt(20_000, 10_000));
    test_all_permutations(reference_line_segment, line_segment, false);
}

#[test]
fn crossing_lines_intersection() {
    let reference_line_segment = LineSegment(pt(0, 0), pt(10_000, 0));
    let line_segment = LineSegment(pt(5_000, -10_000), pt(5_000, 10_000));
    test_all_permutations(reference_line_segment, line_segment, true);
}

#[test]
fn t_shaped_lines_intersection() {
    let reference_line_segment = LineSegment(pt(0, 0), pt(10_000, 0));
    let line_segment = LineSegment(pt(11_000, -10_000), pt(11_000, 10_000));
    test_all_permutations(reference_line_segment, line_segment, false);
}

#[test]
fn skew_lines_intersection() {
    let reference_line_segment = LineSegment(pt(0, 0), pt(10_000, 0));
    let line_segment = LineSegment(pt(50_000, 40_000), pt(40_000, 50_000));
    test_all_permutations(reference_line_segment, line_segment, false);
}

#[test]
fn boundary_point_is_contained() {
    // Containment is reflexive at the boundary: distance exactly the radius.
    let circle = Circle::<SomeFrame>::new(pt(0, 0), 10_000);
    assert!(circle.contains(pt(10_000, 0)));
    assert!(circle.contains(pt(0, -10_000)));
    assert!(circle.contains(pt(9_999, 0)));
    assert!(!circle.contains(pt(10_001, 0)));
}

#[test]
fn collinear_segments_touching_at_vertex_do_not_intersect() {
    // The deliberate edge policy: collinear segments sharing exactly one
    // endpoint are treated as non-intersecting, while collinear segments
    // that overlap along a stretch are.
    let lower = LineSegment::<SomeFrame>(pt(0, 0), pt(10_000, 10_000));
    let upper = LineSegment::<SomeFrame>(pt(10_000, 10_000), pt(20_000, 20_000));
    assert!(!lower.intersects_line_segment(upper));
    let overlapping = LineSegment::<SomeFrame>(pt(5_000, 5_000), pt(15_000, 15_000));
    assert!(lower.intersects_line_segment(overlapping));
}

#[test]
fn circle_overlaps_arc_by_sweep_direction() {
    let arc = Arc::new(
        Circle::<Field>::new(Point::new(0, 0), 10_000),
        Point::new(10_000, 0),
        Point::new(0, 10_000),
    );
    let obstacle = Circle::<Field>::new(Point::new(7_071, 7_071), 1_000);
    assert!(obstacle.overlaps_arc(arc, Orientation::Counterclockwise));
    let arc_again = Arc::new(
        Circle::<Field>::new(Point::new(0, 0), 10_000),
        Point::new(10_000, 0),
        Point::new(0, 10_000),
    );
    assert!(!obstacle.overlaps_arc(arc_again, Orientation::Clockwise));
}

#[test]
fn segment_overlaps_arc_at_crossing() {
    let arc = Arc::new(
        Circle::<Field>::new(Point::new(0, 0), 10_000),
        Point::new(10_000, 0),
        Point::new(0, 10_000),
    );
    let crossing = LineSegment::<Field>(Point::new(9_000, -5_000), Point::new(9_000, 5_000));
    assert!(crossing.overlaps_arc(arc, Orientation::Counterclockwise));
    let far = LineSegment::<Field>(Point::new(30_000, -5_000), Point::new(30_000, 5_000));
    let arc_again = Arc::new(
        Circle::<Field>::new(Point::new(0, 0), 10_000),
        Point::new(10_000, 0),
        Point::new(0, 10_000),
    );
    assert!(!far.overlaps_arc(arc_again, Orientation::Counterclockwise));
}

#[test]
fn circle_bounding_box_is_center_plus_minus_radius() {
    let circle = Circle::<SomeFrame>::new(pt(1_000, 2_000), 500);
    let bounding_box = circle.bounding_box();
    assert_eq!(bounding_box.min.x, 500);
    assert_eq!(bounding_box.min.y, 1_500);
    assert_eq!(bounding_box.max.x, 1_500);
    assert_eq!(bounding_box.max.y, 2_500);
}

#[test]
fn projection_factor_is_a_fixed_point_fraction() {
    // A quarter of the way along the segment: 0.25 units of the unit scale.
    let segment = LineSegment::<SomeFrame>(pt(0, 0), pt(10_000, 0));
    assert_eq!(segment.projection_factor(pt(2_500, 5_000)), 2_500);
    assert_eq!(segment.projection_factor(pt(10_000, -3_000)), 10_000);
}

#[test]
fn closest_point_clamps_to_the_endpoints() {
    let segment = LineSegment::<SomeFrame>(pt(0, 0), pt(10_000, 0));
    let before = segment.closest_point(pt(-5_000, 3_000));
    assert_eq!((before.x, before.y), (0, 0));
    let after = segment.closest_point(pt(20_000, 3_000));
    assert_eq!((after.x, after.y), (10_000, 0));
    let inside = segment.closest_point(pt(2_500, 3_000));
    assert_eq!((inside.x, inside.y), (2_500, 0));
}
