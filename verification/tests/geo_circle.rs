use sweepslide::geo::circle::{deflect_with_line_segment_middle, Circle};
use sweepslide::geo::collider::Collider;
use sweepslide::geo::fixed::{fx_sqrt, EPSILON, SCALE};
use sweepslide::geo::line::Line;
use sweepslide::geo::line_segment::LineSegment;
use sweepslide::geo::vec2::{Vec2, VecOp};

/// One world unit in raw scalar units.
fn fx(v: i64) -> i64 {
    v * SCALE
}

/// Two scalars within the kernel's tolerance of each other.
fn about_eq(left: i64, right: i64) -> bool {
    (left - right).abs() <= EPSILON
}

/// Two points within the kernel's tolerance of each other.
fn vec2_about_eq(left: &Vec2, right: &Vec2) -> bool {
    left.minus(right).length() <= EPSILON
}

#[test]
fn no_hit_parallel() {
    let circle = Circle::new(&Vec2::new(0, 0), fx(5));
    let line = Line::new(&Vec2::new(fx(10), 0), &Vec2::new(0, fx(10)));
    let result = circle.deflect_with(&Vec2::new(fx(10), fx(-10)), &line);
    assert!(result.is_none());
}

#[test]
fn no_hit_too_short() {
    let circle = Circle::new(&Vec2::new(0, 0), fx(3));
    let line = Line::new(&Vec2::new(fx(10), 0), &Vec2::new(0, fx(10)));
    let result = circle.deflect_with(&Vec2::new(fx(1), fx(1)), &line);
    assert!(result.is_none());
}

#[test]
fn no_hit_just_touch() {
    let circle = Circle::new(&Vec2::new(0, 0), fx(1));
    let line = Line::new(&Vec2::new(fx(2), fx(10)), &Vec2::new(fx(2), fx(-10)));
    let result = circle.deflect_with(&Vec2::new(fx(1), 0), &line);
    let hit = result.unwrap();
    assert!(about_eq(hit.times.min().unwrap(), fx(1)));
    assert!(vec2_about_eq(&hit.normal, &Vec2::new(fx(-1), 0)));
    assert_eq!(hit.deflected, false);
}

#[test]
fn no_hit_skim() {
    let circle = Circle::new(&Vec2::new(0, 0), fx(1));
    let line = Line::new(&Vec2::new(fx(-5), fx(1)), &Vec2::new(fx(5), fx(1)));
    let result = circle.deflect_with(&Vec2::new(fx(1), 0), &line);
    let hit = result.unwrap();
    assert!(hit.times.min().unwrap() < 0);
    assert!(hit.times.max().unwrap() > fx(-1));
    assert!(vec2_about_eq(&hit.normal, &Vec2::new(0, fx(-1))));
    assert_eq!(hit.deflected, false);
}

#[test]
fn no_hit_away() {
    let circle = Circle::new(&Vec2::new(0, 0), fx(1));
    let line = Line::new(&Vec2::new(fx(10), 0), &Vec2::new(0, fx(10)));
    let result = circle.deflect_with(&Vec2::new(fx(-10), fx(-10)), &line);
    assert!(result.is_none());
}

#[test]
fn no_hit_off_wall() {
    let circle = Circle::new(&Vec2::new(0, 0), fx(1));
    let line = Line::new(&Vec2::new(fx(-10), fx(-1)), &Vec2::new(fx(10), fx(-1)));
    let result = circle.deflect_with(&Vec2::new(0, fx(10)), &line);
    let hit = result.unwrap();
    assert!(hit.times.min().unwrap() < 0);
    assert!(about_eq(hit.times.max().unwrap(), 0));
    assert!(vec2_about_eq(&hit.normal, &Vec2::new(0, fx(1))));
    assert_eq!(hit.deflected, false);
}

#[test]
fn hit_stop() {
    let circle = Circle::new(&Vec2::new(0, 0), fx(1));
    let line = Line::new(&Vec2::new(fx(2), fx(10)), &Vec2::new(fx(2), fx(-10)));
    let result = circle.deflect_with(&Vec2::new(fx(2), 0), &line);
    assert!(result.is_some());
    let hit = result.unwrap();
    assert_eq!(hit.times.min().unwrap(), SCALE / 2);
    assert!(vec2_about_eq(&hit.normal, &Vec2::new(fx(-1), 0)));
    assert_eq!(hit.deflected, true);
    assert!(vec2_about_eq(&hit.position, &Vec2::new(fx(1), 0)));
    assert!(vec2_about_eq(&hit.remainder, &Vec2::new(0, 0)));
}

#[test]
fn hit_deflect() {
    let circle = Circle::new(&Vec2::new(0, fx(1)), fx(1));
    let line = Line::new(&Vec2::new(fx(-2), fx(10)), &Vec2::new(fx(-2), fx(-10)));
    let result = circle.deflect_with(&Vec2::new(fx(-2), fx(-2)), &line);
    assert!(result.is_some());
    let hit = result.unwrap();
    assert_eq!(hit.times.min().unwrap(), SCALE / 2);
    assert!(vec2_about_eq(&hit.normal, &Vec2::new(fx(1), 0)));
    assert_eq!(hit.deflected, true);
    assert!(vec2_about_eq(&hit.position, &Vec2::new(fx(-1), 0)));
    assert!(vec2_about_eq(&hit.remainder, &Vec2::new(0, fx(-1))));
}

#[test]
fn start_inside() {
    let circle = Circle::new(&Vec2::new(fx(1), SCALE / 2), fx(2));
    let line = Line::new(&Vec2::new(fx(-5), 0), &Vec2::new(fx(5), 0));
    let result = circle.deflect_with(&Vec2::new(fx(1), fx(1)), &line);
    assert!(result.is_some());
    let hit = result.unwrap();
    assert!(hit.times.min().unwrap() < 0);
    assert!(about_eq(hit.times.max().unwrap(), 0));
    assert!(vec2_about_eq(&hit.normal, &Vec2::new(0, fx(1))));
    assert_eq!(hit.deflected, false);
}

#[test]
fn no_hit_basic() {
    let circle = Circle::new(&Vec2::new(0, 0), fx(5));
    let point = Vec2::new(fx(1), fx(-6));
    let result = circle.deflect_with(&Vec2::new(fx(1), 0), &point);
    assert!(result.is_none());
}

#[test]
fn circle_no_hit_too_short() {
    let circle = Circle::new(&Vec2::new(0, 0), fx(1));
    let point = Vec2::new(fx(10), 0);
    let result = circle.deflect_with(&Vec2::new(fx(1), 0), &point);
    assert!(result.is_none());
}

#[test]
fn no_hit_moving_away() {
    let circle = Circle::new(&Vec2::new(0, 0), fx(1));
    let point = Vec2::new(fx(1), 0);
    let result = circle.deflect_with(&Vec2::new(fx(-1), 0), &point);
    let hit = result.unwrap();
    assert_eq!(hit.times.max().unwrap(), 0);
    assert!(vec2_about_eq(&hit.normal, &Vec2::new(fx(-1), 0)));
    assert_eq!(hit.deflected, false);
}

#[test]
fn no_hit_orthogonal_skim() {
    let circle = Circle::new(&Vec2::new(fx(-1), fx(1)), fx(1));
    let point = Vec2::new(0, fx(2));
    let result = circle.deflect_with(&Vec2::new(fx(2), 0), &point);
    let hit = result.unwrap();
    assert!(about_eq(hit.times.min().unwrap(), SCALE / 2));
    assert!(about_eq(hit.times.max().unwrap(), SCALE / 2));
    assert!(vec2_about_eq(&hit.normal, &Vec2::new(0, fx(-1))));
    assert_eq!(hit.deflected, false);
}

#[test]
fn start_inside_no_move() {
    let circle = Circle::new(&Vec2::new(0, fx(1)), fx(1));
    let point = Vec2::new(0, fx(1) + SCALE / 2);
    let result = circle.deflect_with(&Vec2::new(0, 0), &point);
    let hit = result.unwrap();
    assert!(hit.times.contains(0));
    assert!(vec2_about_eq(&hit.normal, &Vec2::new(0, fx(-1))));
    assert_eq!(hit.deflected, false);
    assert!(vec2_about_eq(&hit.position, &Vec2::new(0, SCALE / 2)));
}

#[test]
fn circle_hit_stop() {
    let circle = Circle::new(&Vec2::new(fx(1), fx(1)), fx(1));
    let point = Vec2::new(fx(3), fx(1));
    let result = circle.deflect_with(&Vec2::new(fx(2), 0), &point);
    let hit = result.unwrap();
    assert!(about_eq(hit.times.min().unwrap(), SCALE / 2));
    assert!(about_eq(hit.times.max().unwrap(), fx(1) + SCALE / 2));
    assert!(vec2_about_eq(&hit.normal, &Vec2::new(fx(-1), 0)));
    assert_eq!(hit.deflected, true);
    assert!(vec2_about_eq(&hit.position, &Vec2::new(fx(2), fx(1))));
    assert!(vec2_about_eq(&hit.remainder, &Vec2::new(0, 0)));
}

#[test]
fn circle_hit_deflect() {
    let circle = Circle::new(&Vec2::new(fx(1), fx(1)), fx_sqrt(fx(2)));
    let point = Vec2::new(fx(3), 0);
    let result = circle.deflect_with(&Vec2::new(fx(2), 0), &point);
    let hit = result.unwrap();
    assert!(about_eq(hit.times.min().unwrap(), SCALE / 2));
    assert!(hit.times.max().unwrap() > SCALE / 2);
    assert!(vec2_about_eq(&hit.normal, &Vec2::new(fx(-1), fx(1)).norm()));
    assert_eq!(hit.deflected, true);
    assert!(vec2_about_eq(&hit.position, &Vec2::new(fx(2), fx(1))));
    assert!(vec2_about_eq(&hit.remainder, &Vec2::new(SCALE / 2, SCALE / 2)));
}

#[test]
fn push_out() {
    let circle = Circle::new(&Vec2::new(fx(-1), fx(1)), fx(2));
    let seg = LineSegment::new(&Vec2::new(fx(-5), 0), &Vec2::new(fx(5), 0));
    let result = deflect_with_line_segment_middle(&circle, &Vec2::new(fx(1), fx(1)), &seg);
    let hit = result.unwrap();
    assert_eq!(hit.times.max().unwrap(), 0);
    assert!(vec2_about_eq(&hit.normal, &Vec2::new(0, fx(1))));
    assert_eq!(hit.deflected, false);
    assert!(vec2_about_eq(&hit.position, &Vec2::new(fx(-1), fx(2))));
}

#[test]
fn no_push_out() {
    let circle = Circle::new(&Vec2::new(fx(-1), fx(1)), fx(2));
    let seg = LineSegment::new(&Vec2::new(fx(-5), 0), &Vec2::new(fx(-15), 0));
    let result = deflect_with_line_segment_middle(&circle, &Vec2::new(fx(1), fx(1)), &seg);
    assert!(result.is_none());
}

#[test]
fn hit_beyond_end_points() {
    let circle = Circle::new(&Vec2::new(fx(-1), fx(3)), fx(1));
    let seg = LineSegment::new(&Vec2::new(fx(-5), 0), &Vec2::new(fx(-15), 0));
    let result = deflect_with_line_segment_middle(&circle, &Vec2::new(0, fx(-6)), &seg);
    assert!(result.is_none());
}

#[test]
fn hit_between_end_points() {
    let circle = Circle::new(&Vec2::new(fx(-1), fx(2)), fx(1));
    let seg = LineSegment::new(&Vec2::new(fx(-5), 0), &Vec2::new(fx(5), 0));
    let result = deflect_with_line_segment_middle(&circle, &Vec2::new(0, fx(-2)), &seg);
    let hit = result.unwrap();
    assert!(about_eq(hit.times.min().unwrap(), SCALE / 2));
    assert!(vec2_about_eq(&hit.normal, &Vec2::new(0, fx(1))));
    assert_eq!(hit.deflected, true);
    assert!(vec2_about_eq(&hit.position, &Vec2::new(fx(-1), fx(1))));
    assert!(vec2_about_eq(&hit.remainder, &Vec2::new(0, 0)));
}

/// Skimming along the segment's infinite line beyond an end point is no
/// contact: the projection falls outside the segment and nothing was
/// pushed out.
#[test]
fn no_skim_beyond_end_points() {
    let circle = Circle::new(&Vec2::new(fx(20), fx(1)), fx(1));
    let seg = LineSegment::new(&Vec2::new(0, 0), &Vec2::new(fx(10), 0));
    let result = deflect_with_line_segment_middle(&circle, &Vec2::new(fx(1), 0), &seg);
    assert!(result.is_none());
    let whole = circle.deflect_with(&Vec2::new(fx(1), 0), &seg);
    assert!(whole.is_none());
}

/// Skimming between the end points is still reported as an all-time
/// contact without deflection.
#[test]
fn skim_between_end_points() {
    let circle = Circle::new(&Vec2::new(fx(5), fx(1)), fx(1));
    let seg = LineSegment::new(&Vec2::new(0, 0), &Vec2::new(fx(10), 0));
    let result = deflect_with_line_segment_middle(&circle, &Vec2::new(fx(1), 0), &seg);
    let hit = result.unwrap();
    assert!(hit.times.contains(0));
    assert!(hit.times.contains(fx(1)));
    assert_eq!(hit.deflected, false);
}

#[test]
fn complete_miss() {
    let circle = Circle::new(&Vec2::new(fx(1), fx(1)), fx(1));
    let seg = LineSegment::new(&Vec2::new(fx(-5), fx(-1)), &Vec2::new(fx(5), fx(-1)));
    let result = circle.deflect_with(&Vec2::new(fx(1), fx(1)), &seg);
    assert!(result.is_none());
}

#[test]
fn hit_middle() {
    let circle = Circle::new(&Vec2::new(fx(1), fx(1)), fx(1));
    let seg = LineSegment::new(&Vec2::new(fx(-5), fx(-1)), &Vec2::new(fx(5), fx(-1)));
    let result = circle.deflect_with(&Vec2::new(0, fx(-2)), &seg);
    let hit = result.unwrap();
    assert!(about_eq(hit.times.min().unwrap(), SCALE / 2));
    assert!(vec2_about_eq(&hit.normal, &Vec2::new(0, fx(1))));
    assert_eq!(hit.deflected, true);
    assert!(vec2_about_eq(&hit.position, &Vec2::new(fx(1), 0)));
    assert!(vec2_about_eq(&hit.remainder, &Vec2::new(0, 0)));
}

#[test]
fn hit_start() {
    let circle = Circle::new(&Vec2::new(fx(-7), fx(-1)), fx(1));
    let seg = LineSegment::new(&Vec2::new(fx(-5), fx(-1)), &Vec2::new(fx(5), fx(-1)));
    let result = circle.deflect_with(&Vec2::new(fx(2), 0), &seg);
    let hit = result.unwrap();
    assert!(about_eq(hit.times.min().unwrap(), SCALE / 2));
    assert!(vec2_about_eq(&hit.normal, &Vec2::new(fx(-1), 0)));
    assert_eq!(hit.deflected, true);
    assert!(vec2_about_eq(&hit.position, &Vec2::new(fx(-6), fx(-1))));
    assert!(vec2_about_eq(&hit.remainder, &Vec2::new(0, 0)));
}

#[test]
fn hit_end() {
    let circle = Circle::new(&Vec2::new(fx(7), fx(-1)), fx(1));
    let seg = LineSegment::new(&Vec2::new(fx(-5), fx(-1)), &Vec2::new(fx(5), fx(-1)));
    let result = circle.deflect_with(&Vec2::new(fx(-2), 0), &seg);
    let hit = result.unwrap();
    assert!(about_eq(hit.times.min().unwrap(), SCALE / 2));
    assert!(vec2_about_eq(&hit.normal, &Vec2::new(fx(1), 0)));
    assert_eq!(hit.deflected, true);
    assert!(vec2_about_eq(&hit.position, &Vec2::new(fx(6), fx(-1))));
    assert!(vec2_about_eq(&hit.remainder, &Vec2::new(0, 0)));
}
