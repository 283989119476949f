//! Polygon tests used by level geometry: point-in-polygon by the even-odd
//! rule, polygon/polygon overlap, and circle/polygon overlap.

use vstd::prelude::*;

use crate::geo::circle::Circle;
use crate::geo::fixed::{
    abs_s, fadd_s, fdiv_s, fmul_s, fsub_s, fx_abs, fx_add, fx_div, fx_mul, fx_sub, EPSILON,
    SCALE,
};
use crate::geo::line_segment::{
    seg_intersects_s, seg_new_s, seg_shortest_distance_s, LineSegment,
};
use crate::geo::vec2::Vec2;

verus! {

/// The index of the point that follows `i` around the polygon.
pub open spec fn next_point_s(count: int, i: int) -> int {
    if i + 1 < count {
        i + 1
    } else {
        0
    }
}

/// The side (above the ray or not) of the nearest earlier point whose
/// height differs from the ray's by at least the tolerance, walking
/// backward around the polygon from the edge at `index`.
pub open spec fn prev_side_s(point: Vec2, polygon: Seq<Vec2>, index: int, offset: int) -> Option<
    bool,
>
    decreases polygon.len() - 1 - offset,
{
    if offset < 1 || offset >= polygon.len() - 1 {
        Option::None
    } else {
        let prev_index = if index - offset >= 0 {
            index - offset
        } else {
            index - offset + polygon.len()
        };
        let prev = polygon[prev_index];
        if (EPSILON as int) < abs_s(fsub_s(prev.y as int, point.y as int)) {
            Option::Some(prev.y > point.y)
        } else {
            prev_side_s(point, polygon, index, offset + 1)
        }
    }
}

/// Whether a ray crossing at an edge's start point should be ignored: it
/// is, when the points on both sides of the start lie on the same side of
/// the ray (the boundary only grazes the ray there).
pub open spec fn ignore_start_crossing_s(
    point: Vec2,
    polygon: Seq<Vec2>,
    index: int,
    after_side: bool,
) -> bool {
    match prev_side_s(point, polygon, index, 1) {
        Option::Some(before_side) => before_side == after_side,
        Option::None => false,
    }
}

/// The even-odd scan from edge `index` on, given how many crossings were
/// seen so far: each edge the leftward ray from `point` properly crosses
/// flips `inside`, and landing on the boundary counts as inside outright.
pub open spec fn point_in_rec_s(point: Vec2, polygon: Seq<Vec2>, index: int, inside: bool) -> bool
    decreases polygon.len() - index,
{
    if index < 0 || index >= polygon.len() {
        inside
    } else {
        let start = polygon[index];
        let end = polygon[next_point_s(polygon.len() as int, index)];
        let denom = fsub_s(end.y as int, start.y as int);
        if abs_s(denom) < EPSILON as int {
            // Ignore all basically horizontal lines.
            point_in_rec_s(point, polygon, index + 1, inside)
        } else {
            let t = fdiv_s(fsub_s(point.y as int, start.y as int), denom);
            if -(EPSILON as int) > t || EPSILON as int > fsub_s(SCALE as int, t) {
                // Ignore before the start and after (or at) the end.
                point_in_rec_s(point, polygon, index + 1, inside)
            } else {
                let hit_x = fadd_s(
                    fmul_s(end.x as int, t),
                    fmul_s(start.x as int, fsub_s(SCALE as int, t)),
                );
                if hit_x > point.x as int {
                    // Ignore crossings on the far side of the point.
                    point_in_rec_s(point, polygon, index + 1, inside)
                } else if EPSILON as int > abs_s(fsub_s(hit_x, point.x as int)) {
                    // On a border: always inside.
                    true
                } else if EPSILON as int > abs_s(t) && ignore_start_crossing_s(
                    point,
                    polygon,
                    index,
                    end.y > point.y,
                ) {
                    point_in_rec_s(point, polygon, index + 1, inside)
                } else {
                    point_in_rec_s(point, polygon, index + 1, !inside)
                }
            }
        }
    }
}

/// What `is_point_inside_polygon` returns.
pub open spec fn point_in_polygon_s(point: Vec2, polygon: Seq<Vec2>) -> bool {
    point_in_rec_s(point, polygon, 0, false)
}

/// The edge of a polygon that starts at point `i`.
pub open spec fn polygon_edge_s(polygon: Seq<Vec2>, i: int) -> LineSegment {
    seg_new_s(polygon[i], polygon[next_point_s(polygon.len() as int, i)])
}

/// Whether some edge of one polygon intersects some edge of the other.
pub open spec fn polygon_edges_cross_s(first: Seq<Vec2>, second: Seq<Vec2>) -> bool {
    exists|i: int, j: int|
        0 <= i < first.len() && 0 <= j < second.len() && #[trigger] seg_intersects_s(
            polygon_edge_s(first, i),
            polygon_edge_s(second, j),
        )
}

/// What `do_polygons_overlap` returns: the boundaries cross, or one
/// polygon lies entirely within the other.
pub open spec fn polygons_overlap_s(first: Seq<Vec2>, second: Seq<Vec2>) -> bool {
    polygon_edges_cross_s(first, second) || point_in_polygon_s(first[0], second)
        || point_in_polygon_s(second[0], first)
}

/// What `does_circle_overlap_polygon` returns: the center is inside, or
/// some edge passes within the radius (up to tolerance).
pub open spec fn circle_overlaps_polygon_s(circle: Circle, polygon: Seq<Vec2>) -> bool {
    point_in_polygon_s(circle.center, polygon) || exists|i: int|
        0 <= i < polygon.len() && fsub_s(
            #[trigger] seg_shortest_distance_s(polygon_edge_s(polygon, i), circle.center),
            circle.radius as int,
        ) < EPSILON as int
}

/// Checks if a point is inside the given polygon.
/// This uses the even-odd crossing counting rule, so it works on basically
/// any polygon, including self-intersecting ones.  Being on the border
/// counts as being inside the polygon.
pub fn is_point_inside_polygon(point: &Vec2, polygon: &Vec<Vec2>) -> (r: bool)
    requires
        2 < polygon@.len(),
    ensures
        r == point_in_polygon_s(*point, polygon@),
{
    let mut inside = false;
    let count = polygon.len();
    let mut index: usize = 0;
    while index < count
        invariant
            2 < count == polygon@.len(),
            0 <= index <= count,
            point_in_rec_s(*point, polygon@, index as int, inside) == point_in_polygon_s(
                *point,
                polygon@,
            ),
        decreases count - index,
    {
        let start = polygon[index];
        let end = polygon[if index + 1 < count {
            index + 1
        } else {
            0
        }];
        // Find the hit between the leftward ray from the point and the
        // start-end line segment.
        let denom = fx_sub(end.y, start.y);
        if fx_abs(denom) < EPSILON {
            // Ignore all basically horizontal lines.
            index = index + 1;
            continue ;
        }
        let t = fx_div(fx_sub(point.y, start.y), denom);
        if -EPSILON > t || EPSILON > fx_sub(SCALE, t) {
            // Ignore before the start and after (or at) the end; "at the
            // end" is ignored so end points are not double-counted.
            index = index + 1;
            continue ;
        }
        let hit_x = fx_add(fx_mul(end.x, t), fx_mul(start.x, fx_sub(SCALE, t)));
        if hit_x > point.x {
            // Ignore if the crossing is on the far side of the point.
            index = index + 1;
            continue ;
        }
        if EPSILON > fx_abs(fx_sub(hit_x, point.x)) {
            // If on a border, then that's always inside.
            return true;
        }
        if EPSILON > fx_abs(t) {
            // At the edge's start point: only count this as a crossing if
            // the non-horizontal neighbors of the start lie on opposite
            // sides of the ray.
            let after_side = end.y > point.y;
            let mut ignore = false;
            let mut found = false;
            let mut offset: usize = 1;
            while !found && offset < count - 1
                invariant
                    2 < count == polygon@.len(),
                    0 <= index < count,
                    1 <= offset <= count - 1,
                    !found ==> prev_side_s(*point, polygon@, index as int, offset as int)
                        == prev_side_s(*point, polygon@, index as int, 1),
                    found ==> (match prev_side_s(*point, polygon@, index as int, 1) {
                        Option::Some(before_side) => ignore == (before_side == after_side),
                        Option::None => false,
                    }),
                    !found ==> !ignore,
                decreases count - offset + if found {
                    0int
                } else {
                    1int
                },
            {
                let prev_index = if offset <= index {
                    index - offset
                } else {
                    count - (offset - index)
                };
                let prev = polygon[prev_index];
                if EPSILON < fx_abs(fx_sub(prev.y, point.y)) {
                    let before_side = prev.y > point.y;
                    ignore = before_side == after_side;
                    found = true;
                } else {
                    offset = offset + 1;
                }
            }
            if ignore {
                index = index + 1;
                continue ;
            }
        }
        // A crossing that flips whether the point is inside.
        inside = !inside;
        index = index + 1;
    }
    inside
}

/// Converts a "polygon" into a vector of the lines that compose it.
/// Consecutive lines are connected, and each entry starts at the point
/// with the same index in the passed-in vector.
pub fn make_polygon_lines(polygon: &Vec<Vec2>) -> (r: Vec<LineSegment>)
    ensures
        r@.len() == polygon@.len(),
        forall|i: int|
            0 <= i < polygon@.len() ==> #[trigger] r@[i] == polygon_edge_s(polygon@, i),
{
    let len = polygon.len();
    let mut lines: Vec<LineSegment> = Vec::new();
    let mut start_index: usize = 0;
    while start_index < len
        invariant
            0 <= start_index <= len == polygon@.len(),
            lines@.len() == start_index,
            forall|i: int|
                0 <= i < start_index ==> #[trigger] lines@[i] == polygon_edge_s(polygon@, i),
        decreases len - start_index,
    {
        let mut end_index = start_index + 1;
        if len <= end_index {
            end_index = end_index - len;
        }
        lines.push(LineSegment::new(&polygon[start_index], &polygon[end_index]));
        start_index = start_index + 1;
    }
    lines
}

/// Check if two polygons overlap.  Sharing a border or a single point
/// counts as an overlap.  This follows the even-odd rule for
/// self-intersecting polygons.
pub fn do_polygons_overlap(first: &Vec<Vec2>, second: &Vec<Vec2>) -> (r: bool)
    requires
        2 < first@.len(),
        2 < second@.len(),
    ensures
        r == polygons_overlap_s(first@, second@),
{
    // First create one LineSegment instance for every line in the
    // polygons, then check if any pair of them intersects.
    let first_len = first.len();
    let second_len = second.len();
    let first_lines = make_polygon_lines(first);
    let second_lines = make_polygon_lines(second);
    let mut first_index: usize = 0;
    while first_index < first_len
        invariant
            first_len == first@.len(),
            second_len == second@.len(),
            0 <= first_index <= first_len,
            first_lines@.len() == first_len,
            second_lines@.len() == second_len,
            forall|i: int|
                0 <= i < first_len ==> #[trigger] first_lines@[i] == polygon_edge_s(first@, i),
            forall|i: int|
                0 <= i < second_len ==> #[trigger] second_lines@[i] == polygon_edge_s(
                    second@,
                    i,
                ),
            forall|i: int, j: int|
                0 <= i < first_index && 0 <= j < second_len ==> !#[trigger] seg_intersects_s(
                    polygon_edge_s(first@, i),
                    polygon_edge_s(second@, j),
                ),
        decreases first_len - first_index,
    {
        let mut second_index: usize = 0;
        while second_index < second_len
            invariant
                first_len == first@.len(),
                second_len == second@.len(),
                0 <= first_index < first_len,
                0 <= second_index <= second_len,
                first_lines@.len() == first_len,
                second_lines@.len() == second_len,
                forall|i: int|
                    0 <= i < first_len ==> #[trigger] first_lines@[i] == polygon_edge_s(
                        first@,
                        i,
                    ),
                forall|i: int|
                    0 <= i < second_len ==> #[trigger] second_lines@[i] == polygon_edge_s(
                        second@,
                        i,
                    ),
                forall|j: int|
                    0 <= j < second_index ==> !#[trigger] seg_intersects_s(
                        polygon_edge_s(first@, first_index as int),
                        polygon_edge_s(second@, j),
                    ),
            decreases second_len - second_index,
        {
            if first_lines[first_index].check_if_intersects_with_line_segment(
                &second_lines[second_index],
            ) {
                proof {
                    assert(seg_intersects_s(
                        polygon_edge_s(first@, first_index as int),
                        polygon_edge_s(second@, second_index as int),
                    ));
                }
                return true;
            }
            second_index = second_index + 1;
        }
        first_index = first_index + 1;
    }
    // If no lines intersect, the polygons can still overlap when one is
    // completely inside the other; either could be the contained one.
    is_point_inside_polygon(&first[0], second) || is_point_inside_polygon(&second[0], first)
}

/// Checks if a circle and a polygon share any points.
pub fn does_circle_overlap_polygon(circle: &Circle, polygon: &Vec<Vec2>) -> (r: bool)
    requires
        2 < polygon@.len(),
    ensures
        r == circle_overlaps_polygon_s(*circle, polygon@),
{
    // If the circle's center is in the polygon, then it definitely
    // overlaps.
    if is_point_inside_polygon(&circle.center, polygon) {
        return true;
    }
    // Otherwise see if any of the polygon's lines are within the radius of
    // the circle.
    let lines = make_polygon_lines(polygon);
    let mut i: usize = 0;
    while i < lines.len()
        invariant
            lines@.len() == polygon@.len(),
            0 <= i <= lines@.len(),
            forall|j: int|
                0 <= j < polygon@.len() ==> #[trigger] lines@[j] == polygon_edge_s(polygon@, j),
            forall|j: int|
                0 <= j < i ==> !(fsub_s(
                    #[trigger] seg_shortest_distance_s(polygon_edge_s(polygon@, j), circle.center),
                    circle.radius as int,
                ) < EPSILON as int),
        decreases lines@.len() - i,
    {
        if fx_sub(lines[i].shortest_distance_to_point(&circle.center), circle.radius) < EPSILON {
            proof {
                assert(fsub_s(
                    seg_shortest_distance_s(polygon_edge_s(polygon@, i as int), circle.center),
                    circle.radius as int,
                ) < EPSILON as int);
            }
            return true;
        }
        i = i + 1;
    }
    false
}

} // verus!
