use sweepslide::geo::fixed::{fx_sqrt, EPSILON, SCALE};
use sweepslide::geo::line_segment::{LineSegment, LineSegmentIntersection};
use sweepslide::geo::vec2::{Vec2, VecOpVecToScalar};

/// One world unit in raw scalar units.
fn fx(v: i64) -> i64 {
    v * SCALE
}

/// Two scalars within the kernel's tolerance of each other.
fn about_eq(left: i64, right: i64) -> bool {
    (left - right).abs() <= EPSILON
}

/// Two points within the kernel's tolerance of each other.
fn vec2_about_eq(left: &Vec2, right: &Vec2) -> bool {
    left.minus(right).length() <= EPSILON
}

/// Expects a single-point intersection at (about) the given point.
fn expect_point(result: LineSegmentIntersection, point: Vec2) {
    match result {
        LineSegmentIntersection::Point(hit) => {
            assert!(vec2_about_eq(&hit, &point), "hit {:?} vs {:?}", hit, point);
        },
        other => panic!("Expected single point intersection but got {:?}", other),
    }
}

#[test]
fn line_segment_overlaps() {
    // Bounding boxes don't overlap.
    assert!(!LineSegment::new(&Vec2::new(0, fx(1)), &Vec2::new(fx(1), 0))
        .check_if_intersects_with_line_segment(&LineSegment::new(
            &Vec2::new(fx(2), fx(3)),
            &Vec2::new(fx(3), fx(2)),
        )));

    // Normal perpendicular where points are clearly on opposite sides of
    // the other line.
    assert!(LineSegment::new(&Vec2::new(0, fx(1)), &Vec2::new(fx(1), 0))
        .check_if_intersects_with_line_segment(&LineSegment::new(
            &Vec2::new(fx(2), fx(2)),
            &Vec2::new(fx(-2), fx(-2)),
        )));

    // T-shape, where one point is on the other line. Swap around for 4
    // possible point orderings.
    assert!(LineSegment::new(&Vec2::new(fx(1), fx(1)), &Vec2::new(fx(3), fx(5)))
        .check_if_intersects_with_line_segment(&LineSegment::new(
            &Vec2::new(0, fx(3)),
            &Vec2::new(fx(2), fx(3)),
        )));
    assert!(LineSegment::new(&Vec2::new(fx(1), fx(1)), &Vec2::new(fx(3), fx(5)))
        .check_if_intersects_with_line_segment(&LineSegment::new(
            &Vec2::new(fx(2), fx(3)),
            &Vec2::new(0, fx(3)),
        )));
    assert!(LineSegment::new(&Vec2::new(0, fx(3)), &Vec2::new(fx(2), fx(3)))
        .check_if_intersects_with_line_segment(&LineSegment::new(
            &Vec2::new(fx(1), fx(1)),
            &Vec2::new(fx(3), fx(5)),
        )));
    assert!(LineSegment::new(&Vec2::new(fx(2), fx(3)), &Vec2::new(0, fx(3)))
        .check_if_intersects_with_line_segment(&LineSegment::new(
            &Vec2::new(fx(1), fx(1)),
            &Vec2::new(fx(3), fx(5)),
        )));

    // Then try colinear with all 4 possible combinations.
    assert!(LineSegment::new(&Vec2::new(fx(1), fx(1)), &Vec2::new(fx(3), fx(3)))
        .check_if_intersects_with_line_segment(&LineSegment::new(
            &Vec2::new(0, 0),
            &Vec2::new(fx(2), fx(2)),
        )));
    assert!(LineSegment::new(&Vec2::new(fx(1), fx(1)), &Vec2::new(fx(3), fx(3)))
        .check_if_intersects_with_line_segment(&LineSegment::new(
            &Vec2::new(fx(2), fx(2)),
            &Vec2::new(0, 0),
        )));
    assert!(LineSegment::new(&Vec2::new(fx(3), fx(3)), &Vec2::new(fx(1), fx(1)))
        .check_if_intersects_with_line_segment(&LineSegment::new(
            &Vec2::new(0, 0),
            &Vec2::new(fx(2), fx(2)),
        )));
    assert!(LineSegment::new(&Vec2::new(fx(3), fx(3)), &Vec2::new(fx(1), fx(1)))
        .check_if_intersects_with_line_segment(&LineSegment::new(
            &Vec2::new(fx(2), fx(2)),
            &Vec2::new(0, 0),
        )));

    // Try a degenerate case where one line is a point. Have it: on the
    // line, beyond the end point of the line, and way off the line.
    assert!(LineSegment::new(&Vec2::new(fx(3), fx(3)), &Vec2::new(fx(1), fx(1)))
        .check_if_intersects_with_line_segment(&LineSegment::new(
            &Vec2::new(fx(2), fx(2)),
            &Vec2::new(fx(2), fx(2)),
        )));
    assert!(!LineSegment::new(&Vec2::new(fx(3), fx(3)), &Vec2::new(fx(1), fx(1)))
        .check_if_intersects_with_line_segment(&LineSegment::new(
            &Vec2::new(fx(4), fx(4)),
            &Vec2::new(fx(4), fx(4)),
        )));
    assert!(!LineSegment::new(&Vec2::new(fx(3), fx(3)), &Vec2::new(fx(1), fx(1)))
        .check_if_intersects_with_line_segment(&LineSegment::new(
            &Vec2::new(fx(6), fx(3)),
            &Vec2::new(fx(6), fx(3)),
        )));

    // Check that the "on same side" checking is right.
    assert!(!LineSegment::new(&Vec2::new(fx(1), fx(1)), &Vec2::new(fx(10), fx(10)))
        .check_if_intersects_with_line_segment(&LineSegment::new(
            &Vec2::new(fx(5) + SCALE / 2, fx(4) + SCALE / 2),
            &Vec2::new(fx(6), fx(4)),
        )));
}

#[test]
fn check_shortest_distance() {
    let line = LineSegment::new(&Vec2::new(fx(1), fx(1)), &Vec2::new(fx(3), fx(3)));
    assert!(about_eq(fx_sqrt(fx(2)), line.shortest_distance_to_point(&Vec2::new(fx(3), fx(1)))));
    assert!(about_eq(fx(1), line.shortest_distance_to_point(&Vec2::new(fx(4), fx(3)))));
    assert!(about_eq(fx(1), line.shortest_distance_to_point(&Vec2::new(fx(1), 0))));
    assert!(about_eq(fx_sqrt(fx(2)), line.shortest_distance_to_point(&Vec2::new(0, 0))));
}

/// Simple white-box testing for the find_intersection_with_line_segment()
/// function.
#[test]
fn check_find_intersection_with_line_segment() {
    // Check when the bounding boxes don't even overlap.
    assert!(LineSegment::new(&Vec2::new(fx(1), fx(1)), &Vec2::new(0, 0))
        .find_intersection_with_line_segment(&LineSegment::new(
            &Vec2::new(fx(1), fx(-1)),
            &Vec2::new(fx(5), fx(-5)),
        ))
        .is_none());

    // Check parallel but not on same "infinite line".
    assert!(LineSegment::new(&Vec2::new(fx(1), fx(1)), &Vec2::new(fx(5), fx(5)))
        .find_intersection_with_line_segment(&LineSegment::new(
            &Vec2::new(fx(1), fx(2)),
            &Vec2::new(fx(5), fx(6)),
        ))
        .is_none());

    // Check on same "infinite line" and hits at a point vs over a range of
    // points.
    expect_point(
        LineSegment::new(&Vec2::new(fx(5), fx(5)), &Vec2::new(fx(1), fx(1)))
            .find_intersection_with_line_segment(&LineSegment::new(
                &Vec2::new(fx(5), fx(5)),
                &Vec2::new(fx(6), fx(6)),
            )),
        Vec2::new(fx(5), fx(5)),
    );

    let result = LineSegment::new(&Vec2::new(fx(5), fx(5)), &Vec2::new(fx(1), fx(1)))
        .find_intersection_with_line_segment(&LineSegment::new(
            &Vec2::new(fx(4), fx(4)),
            &Vec2::new(fx(6), fx(6)),
        ));
    if let LineSegmentIntersection::Many(segment) = result {
        // Note: the order really doesn't matter here.
        assert!(vec2_about_eq(&segment.start, &Vec2::new(fx(5), fx(5))));
        assert!(vec2_about_eq(&segment.end, &Vec2::new(fx(4), fx(4))));
    } else {
        panic!("Expected multipoint intersection but got {:?}", result);
    }

    // Check could intersect except past one of the line segments' start or
    // end points. Shuffle the values around to check different start/end
    // point combinations.
    assert!(LineSegment::new(&Vec2::new(fx(1), fx(1)), &Vec2::new(fx(5), fx(5)))
        .find_intersection_with_line_segment(&LineSegment::new(
            &Vec2::new(fx(2) + SCALE / 2, fx(1) + SCALE / 2),
            &Vec2::new(fx(5), 0),
        ))
        .is_none());
    assert!(LineSegment::new(&Vec2::new(fx(1), fx(1)), &Vec2::new(fx(5), fx(5)))
        .find_intersection_with_line_segment(&LineSegment::new(
            &Vec2::new(fx(5), 0),
            &Vec2::new(fx(2) + SCALE / 2, fx(1) + SCALE / 2),
        ))
        .is_none());
    assert!(LineSegment::new(&Vec2::new(fx(1), fx(1)), &Vec2::new(fx(5), fx(5)))
        .find_intersection_with_line_segment(&LineSegment::new(
            &Vec2::new(fx(2) + SCALE / 2, fx(1) + SCALE / 2),
            &Vec2::new(fx(5), 0),
        ))
        .is_none());
    assert!(LineSegment::new(&Vec2::new(fx(5), fx(5)), &Vec2::new(fx(1), fx(1)))
        .find_intersection_with_line_segment(&LineSegment::new(
            &Vec2::new(fx(5), 0),
            &Vec2::new(fx(2) + SCALE / 2, fx(1) + SCALE / 2),
        ))
        .is_none());

    // Check simple intersection in the middle of both segments.
    expect_point(
        LineSegment::new(&Vec2::new(fx(5), fx(5)), &Vec2::new(fx(1), fx(1)))
            .find_intersection_with_line_segment(&LineSegment::new(
                &Vec2::new(fx(5), 0),
                &Vec2::new(0, fx(5)),
            )),
        Vec2::new(fx(2) + SCALE / 2, fx(2) + SCALE / 2),
    );

    // Check intersection at the end points (all 4).
    expect_point(
        LineSegment::new(&Vec2::new(fx(3), fx(3)), &Vec2::new(fx(1), fx(1)))
            .find_intersection_with_line_segment(&LineSegment::new(
                &Vec2::new(fx(3), fx(3)),
                &Vec2::new(fx(5), fx(5)),
            )),
        Vec2::new(fx(3), fx(3)),
    );
    expect_point(
        LineSegment::new(&Vec2::new(fx(3), fx(3)), &Vec2::new(fx(1), fx(1)))
            .find_intersection_with_line_segment(&LineSegment::new(
                &Vec2::new(fx(5), fx(5)),
                &Vec2::new(fx(3), fx(3)),
            )),
        Vec2::new(fx(3), fx(3)),
    );
    expect_point(
        LineSegment::new(&Vec2::new(fx(3), fx(3)), &Vec2::new(fx(1), fx(1)))
            .find_intersection_with_line_segment(&LineSegment::new(
                &Vec2::new(fx(3), fx(3)),
                &Vec2::new(fx(5), fx(5)),
            )),
        Vec2::new(fx(3), fx(3)),
    );
    expect_point(
        LineSegment::new(&Vec2::new(fx(1), fx(1)), &Vec2::new(fx(3), fx(3)))
            .find_intersection_with_line_segment(&LineSegment::new(
                &Vec2::new(fx(5), fx(5)),
                &Vec2::new(fx(3), fx(3)),
            )),
        Vec2::new(fx(3), fx(3)),
    );
}

/// The other end point helper and degenerate construction.
#[test]
fn other_end_and_degenerate() {
    let seg = LineSegment::new(&Vec2::new(0, 0), &Vec2::new(fx(2), 0));
    let other = seg.get_other_end_point(&Vec2::new(0, 0));
    assert_eq!(other.x, fx(2));
    let tiny = LineSegment::new(&Vec2::new(fx(1), fx(1)), &Vec2::new(fx(1), fx(1)));
    assert_eq!(tiny.length, 0);
    assert_eq!(tiny.direction.x, 0);
    assert_eq!(tiny.direction.y, 0);
    let _ = Vec2::new(fx(1), 0).ext(Vec2::new(0, fx(1)));
}
