use sweepslide::geo::circle::Circle;
use sweepslide::geo::fixed::SCALE;
use sweepslide::geo::polygon::{
    do_polygons_overlap, does_circle_overlap_polygon, is_point_inside_polygon,
};
use sweepslide::geo::vec2::Vec2;

/// One world unit in raw scalar units.
fn fx(v: i64) -> i64 {
    v * SCALE
}

/// One tenth of a world unit in raw scalar units.
fn tenths(v: i64) -> i64 {
    v * SCALE / 10
}

#[test]
fn easy_outside() {
    // Ray hits nothing.
    assert_eq!(
        is_point_inside_polygon(
            &Vec2::new(fx(10), fx(10)),
            &vec![Vec2::new(fx(5), fx(5)), Vec2::new(fx(7), fx(3)), Vec2::new(fx(1), fx(1))],
        ),
        false,
    );

    // Ray hits middle of two lines.
    assert_eq!(
        is_point_inside_polygon(
            &Vec2::new(fx(5), fx(5)),
            &vec![Vec2::new(fx(1), fx(9)), Vec2::new(fx(3), fx(5)), Vec2::new(fx(1), fx(1))],
        ),
        false,
    );

    // Ray hits middle of a line, and one of the corner points.
    assert_eq!(
        is_point_inside_polygon(
            &Vec2::new(fx(5), fx(5)),
            &vec![Vec2::new(fx(1), fx(9)), Vec2::new(fx(3), fx(5)), Vec2::new(fx(1), fx(1))],
        ),
        false,
    );

    // Ray hits top corner point.
    assert_eq!(
        is_point_inside_polygon(
            &Vec2::new(fx(5), fx(9)),
            &vec![Vec2::new(fx(1), fx(9)), Vec2::new(fx(3), fx(5)), Vec2::new(fx(1), fx(1))],
        ),
        false,
    );

    // Ray hits bottom corner point.
    assert_eq!(
        is_point_inside_polygon(
            &Vec2::new(fx(5), fx(1)),
            &vec![Vec2::new(fx(1), fx(9)), Vec2::new(fx(3), fx(5)), Vec2::new(fx(1), fx(1))],
        ),
        false,
    );

    // Ray hits a parallel end side.
    assert_eq!(
        is_point_inside_polygon(
            &Vec2::new(fx(6), fx(5)),
            &vec![
                Vec2::new(fx(1), fx(1)),
                Vec2::new(fx(1), fx(5)),
                Vec2::new(fx(5), fx(5)),
                Vec2::new(fx(5), fx(1)),
            ],
        ),
        false,
    );

    // Ray hits a parallel end side.
    assert_eq!(
        is_point_inside_polygon(
            &Vec2::new(fx(6), fx(1)),
            &vec![
                Vec2::new(fx(1), fx(1)),
                Vec2::new(fx(1), fx(5)),
                Vec2::new(fx(5), fx(5)),
                Vec2::new(fx(5), fx(1)),
            ],
        ),
        false,
    );
}

#[test]
fn easy_inside() {
    // Hits one line.
    assert_eq!(
        is_point_inside_polygon(
            &Vec2::new(fx(2), fx(4)),
            &vec![Vec2::new(fx(5), fx(5)), Vec2::new(fx(1), fx(5)), Vec2::new(fx(1), fx(1))],
        ),
        true,
    );

    // Hits a corner point.
    assert_eq!(
        is_point_inside_polygon(
            &Vec2::new(fx(2), fx(5)),
            &vec![Vec2::new(fx(3), fx(9)), Vec2::new(fx(1), fx(5)), Vec2::new(fx(3), fx(1))],
        ),
        true,
    );

    // Hits the apex of a "v".
    assert_eq!(
        is_point_inside_polygon(
            &Vec2::new(fx(3), fx(2)),
            &vec![
                Vec2::new(fx(1), fx(1)),
                Vec2::new(fx(2), fx(2)),
                Vec2::new(fx(3), fx(1)),
                Vec2::new(fx(4), fx(1)),
                Vec2::new(fx(4), fx(3)),
                Vec2::new(fx(1), fx(3)),
            ],
        ),
        true,
    );

    // Hits a horizontal line.
    assert_eq!(
        is_point_inside_polygon(
            &Vec2::new(fx(3), fx(2)),
            &vec![
                Vec2::new(fx(1), fx(2)),
                Vec2::new(fx(2), fx(2)),
                Vec2::new(fx(3), fx(1)),
                Vec2::new(fx(4), fx(1)),
                Vec2::new(fx(4), fx(3)),
                Vec2::new(fx(1), fx(3)),
            ],
        ),
        true,
    );

    // Hits a horizontal line with many points in between.
    assert_eq!(
        is_point_inside_polygon(
            &Vec2::new(fx(3), fx(2)),
            &vec![
                Vec2::new(fx(1), fx(2)),
                Vec2::new(fx(1) + tenths(5), fx(2)),
                Vec2::new(fx(1) + tenths(6), fx(2)),
                Vec2::new(fx(1) + tenths(7), fx(2)),
                Vec2::new(fx(1) + tenths(8), fx(2)),
                Vec2::new(fx(1) + tenths(9), fx(2)),
                Vec2::new(fx(2), fx(2)),
                Vec2::new(fx(3), fx(1)),
                Vec2::new(fx(4), fx(1)),
                Vec2::new(fx(4), fx(3)),
                Vec2::new(fx(1), fx(3)),
            ],
        ),
        true,
    );
}

#[test]
fn on_boundary() {
    // On top horizontal line.
    assert_eq!(
        is_point_inside_polygon(
            &Vec2::new(fx(2), fx(5)),
            &vec![Vec2::new(fx(5), fx(5)), Vec2::new(fx(1), fx(5)), Vec2::new(fx(1), fx(1))],
        ),
        true,
    );

    // On top right corner.
    assert_eq!(
        is_point_inside_polygon(
            &Vec2::new(fx(5), fx(5)),
            &vec![Vec2::new(fx(5), fx(5)), Vec2::new(fx(1), fx(5)), Vec2::new(fx(1), fx(1))],
        ),
        true,
    );

    // On right side.
    assert_eq!(
        is_point_inside_polygon(
            &Vec2::new(fx(3), fx(3)),
            &vec![Vec2::new(fx(5), fx(5)), Vec2::new(fx(1), fx(5)), Vec2::new(fx(1), fx(1))],
        ),
        true,
    );

    // On bottom point.
    assert_eq!(
        is_point_inside_polygon(
            &Vec2::new(fx(1), fx(1)),
            &vec![Vec2::new(fx(5), fx(5)), Vec2::new(fx(1), fx(5)), Vec2::new(fx(1), fx(1))],
        ),
        true,
    );

    // On left side.
    assert_eq!(
        is_point_inside_polygon(
            &Vec2::new(fx(1), fx(3)),
            &vec![Vec2::new(fx(5), fx(5)), Vec2::new(fx(1), fx(5)), Vec2::new(fx(1), fx(1))],
        ),
        true,
    );

    // On top-left corner.
    assert_eq!(
        is_point_inside_polygon(
            &Vec2::new(fx(1), fx(5)),
            &vec![Vec2::new(fx(5), fx(5)), Vec2::new(fx(1), fx(5)), Vec2::new(fx(1), fx(1))],
        ),
        true,
    );
}

#[test]
fn easy_apart() {
    assert!(!do_polygons_overlap(
        &vec![Vec2::new(fx(1), fx(1)), Vec2::new(fx(2), fx(2)), Vec2::new(fx(1), fx(3))],
        &vec![Vec2::new(fx(3), fx(-1)), Vec2::new(fx(4), fx(1)), Vec2::new(fx(3), fx(3))],
    ));
}

#[test]
fn easy_overlap() {
    assert!(do_polygons_overlap(
        &vec![Vec2::new(fx(1), fx(1)), Vec2::new(fx(3), fx(2)), Vec2::new(fx(1), fx(3))],
        &vec![Vec2::new(fx(3), fx(1)), Vec2::new(0, fx(2)), Vec2::new(fx(3), fx(3))],
    ));
}

#[test]
fn fully_inside() {
    assert!(do_polygons_overlap(
        &vec![Vec2::new(0, 0), Vec2::new(fx(9), 0), Vec2::new(0, fx(9))],
        &vec![Vec2::new(fx(1), fx(1)), Vec2::new(fx(2), fx(1)), Vec2::new(fx(1), fx(2))],
    ));
    assert!(do_polygons_overlap(
        &vec![Vec2::new(fx(1), fx(1)), Vec2::new(fx(2), fx(1)), Vec2::new(fx(1), fx(2))],
        &vec![Vec2::new(0, 0), Vec2::new(fx(9), 0), Vec2::new(0, fx(9))],
    ));
}

#[test]
fn easy_checks() {
    // Apart.
    assert!(!does_circle_overlap_polygon(
        &Circle::new(&Vec2::new(fx(-2), fx(-2)), tenths(1)),
        &vec![Vec2::new(0, 0), Vec2::new(fx(8), 0), Vec2::new(0, fx(8))],
    ));
    // Fully inside.
    assert!(does_circle_overlap_polygon(
        &Circle::new(&Vec2::new(fx(2), fx(2)), tenths(1)),
        &vec![Vec2::new(0, 0), Vec2::new(fx(8), 0), Vec2::new(0, fx(8))],
    ));

    // Just-barely on a line.
    assert!(does_circle_overlap_polygon(
        &Circle::new(&Vec2::new(0, fx(4)), fx(1)),
        &vec![Vec2::new(fx(1), fx(1)), Vec2::new(fx(8), fx(8)), Vec2::new(fx(1), fx(8))],
    ));

    // Centered on a line.
    assert!(does_circle_overlap_polygon(
        &Circle::new(&Vec2::new(fx(4), fx(4)), tenths(1)),
        &vec![Vec2::new(fx(1), fx(1)), Vec2::new(fx(8), fx(8)), Vec2::new(fx(1), fx(8))],
    ));
}
