//! Concrete checks of the behaviors the kernel promises: the interval
//! algebra laws on sample values, the canonical contact scenarios, and the
//! enable/disable semantics of the obstacle registry.

use sweepslide::color::TexturePositionAsColor;
use sweepslide::display_text::TextAlignment;
use sweepslide::gamepad::Button;
use sweepslide::geo::circle::Circle;
use sweepslide::geo::collider::{limit_movement_with_normals, Collider};
use sweepslide::geo::collision_system::{
    classify_contacts, slide_step, CircleObstacle, CollisionSystem,
};
use sweepslide::geo::common::sign;
use sweepslide::geo::fixed::{fx_sqrt, EPSILON, SCALE};
use sweepslide::geo::line::Line;
use sweepslide::geo::line_segment::LineSegment;
use sweepslide::geo::range::{Range, RangeCover, RangeIntersect};
use sweepslide::geo::vec2::Vec2;
use sweepslide::mouse::MouseButton;

/// One world unit in raw scalar units.
fn fx(v: i64) -> i64 {
    v * SCALE
}

/// Two scalars within the kernel's tolerance of each other.
fn about_eq(left: i64, right: i64) -> bool {
    (left - right).abs() <= EPSILON
}

/// Two points within the kernel's tolerance of each other.
fn vec2_about_eq(left: &Vec2, right: &Vec2) -> bool {
    left.minus(right).length() <= EPSILON
}

/// The union hull is commutative and associative, and intersection has the
/// all-values range as identity and the empty range as absorbing element,
/// on sample values.
#[test]
fn interval_algebra() {
    let a = Range::from_values(fx(-3), fx(1));
    let b = Range::from_values(fx(2), fx(7));
    let c = Range::from_value(fx(5));
    let e = Range::empty();

    let ab = a.cover(b);
    let ba = b.cover(a);
    assert_eq!(ab.min().unwrap(), ba.min().unwrap());
    assert_eq!(ab.max().unwrap(), ba.max().unwrap());

    let ab_c = a.cover(b).cover(c);
    let a_bc = a.cover(b.cover(c));
    assert_eq!(ab_c.min().unwrap(), a_bc.min().unwrap());
    assert_eq!(ab_c.max().unwrap(), a_bc.max().unwrap());

    let with_all = a.intersect(Range::all());
    assert_eq!(with_all.min().unwrap(), fx(-3));
    assert_eq!(with_all.max().unwrap(), fx(1));

    assert!(a.intersect(e).is_empty());
    assert!(e.intersect(a).is_empty());
    assert!(e.cover(a).min().unwrap() == fx(-3));
}

/// The quadratic solver finds `[-r, r]` for `x*x - r*r`, and handles the
/// degenerate constant equations.
#[test]
fn quadratic_zeros_shapes() {
    let r = fx(3);
    let x = Range::from_quadratic_zeros(fx(1), 0, -fx(9));
    assert_eq!(x.min().unwrap(), -r);
    assert_eq!(x.max().unwrap(), r);
    assert!(Range::from_quadratic_zeros(0, 0, 0).is_all());
    assert!(Range::from_quadratic_zeros(0, 0, fx(1)).is_empty());
}

/// Moving directly at a stationary point with exactly the distance that
/// leaves the circle touching it: contact at the very end of the step, and
/// no deflection.
#[test]
fn just_touching_point() {
    let circle = Circle::new(&Vec2::new(0, 0), fx(1));
    let point = Vec2::new(fx(2), 0);
    // movement length == distance - radius == 1.
    let result = circle.deflect_with(&Vec2::new(fx(1), 0), &point);
    let hit = result.unwrap();
    assert!(hit.times.contains(fx(1)));
    assert!(about_eq(hit.times.min().unwrap(), fx(1)));
    assert_eq!(hit.deflected, false);
}

/// A circle of radius 1 at (0, 1) moving (2, 0) against the vertical line
/// x = 2 stops one radius short of the wall with the wall's normal.
#[test]
fn wall_stop() {
    let mut system = CollisionSystem::new();
    system.add_obstacle(CircleObstacle::Line(Line::new(
        &Vec2::new(fx(2), fx(10)),
        &Vec2::new(fx(2), fx(-10)),
    )));
    let result = system.collide_circle_step(&Vec2::new(0, fx(1)), fx(1), &Vec2::new(fx(2), 0));
    let total = result.unwrap();
    assert!(vec2_about_eq(&total.final_position, &Vec2::new(fx(1), fx(1))));
    assert_eq!(total.normals.len(), 1);
    assert!(vec2_about_eq(&total.normals[0], &Vec2::new(fx(-1), 0)));
    assert!(total.deflections[0].deflected);
}

/// The mover's resting position never overlaps the obstacle it was pushed
/// against by more than the tolerance (sampled here against a line, a
/// point and a segment).
#[test]
fn resolved_position_clear_of_obstacles() {
    let radius = fx(1);

    let mut system = CollisionSystem::new();
    let line = Line::new(&Vec2::new(fx(2), fx(10)), &Vec2::new(fx(2), fx(-10)));
    system.add_obstacle(CircleObstacle::Line(line));
    let result = system.collide_circle(&Vec2::new(0, 0), radius, &Vec2::new(fx(5), 0));
    let rest = result.last().unwrap().final_position;
    assert!(line.ortho_distance_to(&rest) >= radius - EPSILON);

    let mut system2 = CollisionSystem::new();
    let point = Vec2::new(fx(3), 0);
    system2.add_obstacle(CircleObstacle::Point(point));
    let result2 = system2.collide_circle(&Vec2::new(0, 0), radius, &Vec2::new(fx(5), 0));
    let rest2 = result2.last().unwrap().final_position;
    assert!(rest2.minus(&point).length() >= radius - EPSILON);

    let mut system3 = CollisionSystem::new();
    let seg = LineSegment::new(&Vec2::new(fx(-4), fx(2)), &Vec2::new(fx(4), fx(2)));
    system3.add_obstacle(CircleObstacle::LineSegment(seg));
    let result3 = system3.collide_circle(&Vec2::new(0, 0), radius, &Vec2::new(0, fx(5)));
    let rest3 = result3.last().unwrap().final_position;
    assert!(seg.shortest_distance_to_point(&rest3) >= radius - EPSILON);
}

/// Disabling an obstacle makes collisions behave as if it did not exist,
/// and re-enabling brings it back, with the handle staying valid.
#[test]
fn disabled_obstacle_is_invisible() {
    let mut system = CollisionSystem::new();
    let handle = system.add_obstacle(CircleObstacle::Line(Line::new(
        &Vec2::new(fx(2), fx(10)),
        &Vec2::new(fx(2), fx(-10)),
    )));

    let start = Vec2::new(0, fx(1));
    let movement = Vec2::new(fx(2), 0);
    assert!(system.collide_circle_step(&start, fx(1), &movement).is_some());

    system.set_enabled(handle, false);
    assert!(system.collide_circle_step(&start, fx(1), &movement).is_none());
    assert_eq!(system.collide_circle(&start, fx(1), &movement).len(), 0);

    system.set_enabled(handle, true);
    assert!(system.collide_circle_step(&start, fx(1), &movement).is_some());
}

/// A mover wedged between two opposing surfaces has its movement zeroed by
/// the normal-rejection pass.
#[test]
fn wedged_movement_zeroed() {
    let normals = vec![Vec2::new(fx(-1), 0), Vec2::new(0, fx(-1))];
    let limited = limit_movement_with_normals(&Vec2::new(fx(1), fx(1)), &normals);
    assert_eq!(limited.x, 0);
    assert_eq!(limited.y, 0);

    // A single normal just strips its own component.
    let one = vec![Vec2::new(fx(-1), 0)];
    let slid = limit_movement_with_normals(&Vec2::new(fx(1), fx(1)), &one);
    assert_eq!(slid.x, 0);
    assert_eq!(slid.y, fx(1));
}

/// One shared sweep-and-slide iteration splits movement at the contact and
/// reports the surfaces; the classification half recognizes ground.
#[test]
fn slide_step_and_classification() {
    let mut system = CollisionSystem::new();
    system.add_obstacle(CircleObstacle::Line(Line::new(
        &Vec2::new(fx(-10), 0),
        &Vec2::new(fx(10), 0),
    )));
    // Fall straight down onto the floor from (0, 3) with radius 1.
    let step = slide_step(
        &system,
        &Vec2::new(0, fx(3)),
        fx(1),
        &Vec2::new(0, fx(-4)),
        &Vec::new(),
    );
    assert!(step.collided);
    assert!(about_eq(step.safe_movement.y, fx(-2)));
    assert!(vec2_about_eq(&step.position, &Vec2::new(0, fx(1))));
    assert!(about_eq(step.remainder_scale, SCALE / 2));
    assert_eq!(step.normals.len(), 1);

    assert!(step.deflections.len() >= 1);
    let report = classify_contacts(&step.deflections, &Vec2::new(0, fx(-1)), &Vec2::new(0, 0));
    assert!(report.on_ground);
    assert!(!report.hit_ceiling);
    assert!(vec2_about_eq(&report.surface_normal, &Vec2::new(0, fx(1))));
}

/// A circle obstacle reduces to a point with the radii added: a unit
/// circle moving straight at another unit circle stops two radii short of
/// its center.
#[test]
fn circle_obstacle_stop() {
    let mut system = CollisionSystem::new();
    system.add_obstacle(CircleObstacle::Circle(Circle::new(&Vec2::new(fx(4), 0), fx(1))));
    let result = system.collide_circle(&Vec2::new(0, 0), fx(1), &Vec2::new(fx(4), 0));
    let rest = result.last().unwrap().final_position;
    assert!(vec2_about_eq(&rest, &Vec2::new(fx(2), 0)));

    // With nothing in the way, one slide step executes the whole movement.
    let empty_system = CollisionSystem::new();
    let step = slide_step(&empty_system, &Vec2::new(0, 0), fx(1), &Vec2::new(fx(3), 0), &Vec::new());
    assert!(!step.collided);
    assert_eq!(step.position.x, fx(3));
    assert_eq!(step.remainder_scale, 0);
    assert_eq!(step.normals.len(), 0);
}

/// The small shared helpers keep their exact values.
#[test]
fn helper_values() {
    assert_eq!(sign(fx(3)), SCALE);
    assert_eq!(sign(fx(-3)), -SCALE);
    assert_eq!(sign(EPSILON / 2), 0);

    assert_eq!(fx_sqrt(fx(4)), fx(2));
    assert_eq!(fx_sqrt(fx(100)), fx(10));
    assert_eq!(fx_sqrt(0), 0);
    assert_eq!(fx_sqrt(-fx(1)), 0);

    assert_eq!(TextAlignment::JUSTIFY.to_css(), "justify");
    assert_eq!(TextAlignment::LEFT.to_css(), "left");

    let position = TexturePositionAsColor::new(0x0102, 0x0304);
    assert_eq!(position.raw_bytes(true), (0x02, 0x01, 0x04, 0x03));
    assert_eq!(position.raw_bytes(false), (0x01, 0x02, 0x03, 0x04));

    assert_eq!(Button::R.index(), 4);
    assert_eq!(MouseButton::MIDDLE.mask(), 4);
    assert!(MouseButton::LEFT.is_down_in(0x05));
    assert!(!MouseButton::RIGHT.is_down_in(0x05));
}
