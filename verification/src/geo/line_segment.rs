//! A bounded 2D line segment, with a precomputed unit direction and length,
//! plus segment/segment intersection helpers used by level geometry.

use vstd::prelude::*;

use crate::geo::bounds2::{from_points_s, Bounds2};
use crate::geo::common::{sign, sign_s};
use crate::geo::fixed::{
    abs_s, fdiv_s, fneg_s, fsub_s, fx_abs, fx_div, fx_neg, fx_sub, EPSILON,
};
use crate::geo::range::{Range, RangeIntersect};
use crate::geo::vec2::{
    vadd_s, vdot_s, vext_s, vlength_s, vnorm_s, vscale_s, vsub_s, Vec2, VecOp, VecOpScalar,
    VecOpVecToScalar,
};

verus! {

broadcast use crate::geo::range::lemma_range_bounds_fit;

/// A line segment.
#[derive(Debug, Clone, Copy)]
pub struct LineSegment {
    pub start: Vec2,  // One of the end points.
    pub end: Vec2,  // The other end point.
    pub length: i64,  // The distance between the end points.
    pub direction: Vec2,  // The unit direction from start to end; zero when the segment is just a point.
}

/// All possible results of two line segments intersecting.
#[derive(Debug, Clone, Copy)]
pub enum LineSegmentIntersection {
    /// A single point.
    Point(Vec2),
    /// A range of points because the line segments share an entire
    /// line-segment worth of points.
    Many(LineSegment),
    /// No intersection.
    Nothing,
}

impl LineSegmentIntersection {
    /// A simple way to check for "no intersection". Mainly for the
    /// automated tests.
    pub fn is_none(&self) -> (r: bool)
        ensures
            r == (*self is Nothing),
    {
        match self {
            LineSegmentIntersection::Nothing => true,
            _ => false,
        }
    }
}

/// What `LineSegment::new` builds: degenerate (shorter than the tolerance)
/// segments get zero length and a zero direction.
pub open spec fn seg_new_s(start: Vec2, end: Vec2) -> LineSegment {
    let delta = vsub_s(end, start);
    let raw_length = vlength_s(delta);
    let length = if raw_length < EPSILON as int {
        0
    } else {
        raw_length
    };
    LineSegment {
        start,
        end,
        length: length as i64,
        direction: if length == 0 {
            Vec2 { x: 0, y: 0 }
        } else {
            vnorm_s(delta)
        },
    }
}

/// What `check_if_intersects_with_line_segment` returns.
pub open spec fn seg_intersects_s(a: LineSegment, b: LineSegment) -> bool {
    if !from_points_s(a.start, a.end).overlaps_s(from_points_s(b.start, b.end)) {
        false
    } else {
        let other_start_to_self_start = vsub_s(a.start, b.start);
        let other_start_to_self_end = vsub_s(a.end, b.start);
        let self_start_to_other_start = vsub_s(b.start, a.start);
        let self_start_to_other_end = vsub_s(b.end, a.start);
        let self_start_side = sign_s(vext_s(b.direction, other_start_to_self_start));
        let self_end_side = sign_s(vext_s(b.direction, other_start_to_self_end));
        let other_start_side = sign_s(vext_s(a.direction, self_start_to_other_start));
        let other_end_side = sign_s(vext_s(a.direction, self_start_to_other_end));
        if self_start_side != self_end_side && other_start_side != other_end_side {
            true
        } else if self_start_side == 0 && self_end_side == 0 && other_start_side == 0
            && other_end_side == 0 {
            // Both segments are colinear: check if an end point of one lies
            // between the end points of the other.
            let a1 = vdot_s(b.direction, other_start_to_self_start);
            let a2 = vdot_s(b.direction, other_start_to_self_end);
            let a3 = vdot_s(a.direction, self_start_to_other_start);
            let a4 = vdot_s(a.direction, self_start_to_other_end);
            (-(EPSILON as int) < a1 && fsub_s(a1, b.length as int) < EPSILON as int) || (-(
            EPSILON as int) < a2 && fsub_s(a2, b.length as int) < EPSILON as int) || (-(
            EPSILON as int) < a3 && fsub_s(a3, a.length as int) < EPSILON as int) || (-(
            EPSILON as int) < a4 && fsub_s(a4, a.length as int) < EPSILON as int)
        } else {
            false
        }
    }
}

/// What `shortest_distance_to_point` returns.
pub open spec fn seg_shortest_distance_s(seg: LineSegment, point: Vec2) -> int {
    let offset = vsub_s(point, seg.start);
    let along = vdot_s(seg.direction, offset);
    if -(EPSILON as int) < along && fsub_s(along, seg.length as int) < EPSILON as int {
        abs_s(vext_s(seg.direction, offset))
    } else if 0 > along {
        vlength_s(offset)
    } else {
        vlength_s(vsub_s(point, seg.end))
    }
}

/// What `find_intersection_with_line_segment` returns.
pub open spec fn seg_find_intersection_s(a: LineSegment, b: LineSegment)
    -> LineSegmentIntersection {
    if !from_points_s(a.start, a.end).overlaps_s(from_points_s(b.start, b.end)) {
        LineSegmentIntersection::Nothing
    } else {
        let start_offset = vsub_s(b.start, a.start);
        let start_perp_dist = vext_s(a.direction, start_offset);
        let perp_direction = vext_s(a.direction, b.direction);
        if abs_s(perp_direction) < EPSILON as int {
            // The segments are parallel.
            if (EPSILON as int) < abs_s(start_perp_dist) {
                LineSegmentIntersection::Nothing
            } else {
                // Colinear, and the bounding boxes overlap, so they share
                // at least one point.
                let self_range = Range::from_values_s(0, a.length as int);
                let other_range = Range::from_values_s(
                    vdot_s(a.direction, start_offset),
                    vdot_s(a.direction, vsub_s(b.end, a.start)),
                );
                let overlap = self_range.intersect_s(other_range);
                let hit_start = vadd_s(vscale_s(a.direction, overlap.min_s()), a.start);
                let hit_end = vadd_s(vscale_s(a.direction, overlap.max_s()), a.start);
                if vlength_s(vsub_s(hit_end, hit_start)) < EPSILON as int {
                    LineSegmentIntersection::Point(hit_start)
                } else {
                    LineSegmentIntersection::Many(seg_new_s(hit_start, hit_end))
                }
            }
        } else {
            let t = fdiv_s(fneg_s(start_perp_dist), perp_direction);
            if t < -(EPSILON as int) {
                LineSegmentIntersection::Nothing
            } else {
                let possible = vadd_s(vscale_s(b.direction, t), b.start);
                let self_along = vdot_s(a.direction, vsub_s(possible, a.start));
                let other_along = vdot_s(b.direction, vsub_s(possible, b.start));
                if -(EPSILON as int) > self_along || (EPSILON as int) < fsub_s(
                    self_along,
                    a.length as int,
                ) || -(EPSILON as int) > other_along || (EPSILON as int) < fsub_s(
                    other_along,
                    b.length as int,
                ) {
                    LineSegmentIntersection::Nothing
                } else if 0 <= fsub_s(self_along, a.length as int) {
                    LineSegmentIntersection::Point(a.end)
                } else if 0 >= self_along {
                    LineSegmentIntersection::Point(a.start)
                } else if 0 <= fsub_s(other_along, b.length as int) {
                    LineSegmentIntersection::Point(b.end)
                } else if 0 >= other_along {
                    LineSegmentIntersection::Point(b.start)
                } else {
                    LineSegmentIntersection::Point(possible)
                }
            }
        }
    }
}

/// The caller's duty for `find_intersection_with_line_segment`: when two
/// overlapping segments are parallel and colinear, their projections onto
/// the first segment's direction must actually share a value.  (With exact
/// geometry this follows from the bounding boxes overlapping; it is stated
/// here because the fixed-point projections are computed with rounding.)
pub open spec fn seg_colinear_overlap_nonempty(a: LineSegment, b: LineSegment) -> bool {
    (from_points_s(a.start, a.end).overlaps_s(from_points_s(b.start, b.end)) && abs_s(
        vext_s(a.direction, b.direction),
    ) < EPSILON as int && !((EPSILON as int) < abs_s(vext_s(a.direction, vsub_s(b.start, a.start)))))
        ==> !Range::from_values_s(0, a.length as int).intersect_s(
        Range::from_values_s(
            vdot_s(a.direction, vsub_s(b.start, a.start)),
            vdot_s(a.direction, vsub_s(b.end, a.start)),
        ),
    ).is_empty_s()
}

/// What `get_other_end_point` returns.
pub open spec fn seg_other_end_s(seg: LineSegment, check: Vec2) -> Vec2 {
    if vlength_s(vsub_s(seg.start, check)) < EPSILON as int {
        seg.end
    } else {
        seg.start
    }
}

impl LineSegment {
    /// Creates a line segment with the given end points.
    pub fn new(start: &Vec2, end: &Vec2) -> (r: LineSegment)
        ensures
            r == seg_new_s(*start, *end),
    {
        let delta = end.minus(start);
        let mut length = delta.length();
        if length < EPSILON {
            length = 0;
        }
        LineSegment {
            start: *start,
            end: *end,
            length,
            direction: if 0 == length {
                Vec2::zero()
            } else {
                delta.norm()
            },
        }
    }

    /// Check if two line segments overlap. Tries to be efficient and
    /// doesn't find where they overlap.
    pub fn check_if_intersects_with_line_segment(&self, other: &LineSegment) -> (r: bool)
        ensures
            r == seg_intersects_s(*self, *other),
    {
        // If the bounding boxes don't even overlap, then they definitely
        // don't intersect.
        if !Bounds2::from_points(&self.start, &self.end).overlaps(
            &Bounds2::from_points(&other.start, &other.end),
        ) {
            return false;
        }
        // If each pair of end points is on either side of the opposite
        // line, then they intersect.
        let other_start_to_self_start = self.start.minus(&other.start);
        let other_start_to_self_end = self.end.minus(&other.start);
        let self_start_to_other_start = other.start.minus(&self.start);
        let self_start_to_other_end = other.end.minus(&self.start);
        let self_start_side = sign(other.direction.ext(other_start_to_self_start));
        let self_end_side = sign(other.direction.ext(other_start_to_self_end));
        let other_start_side = sign(self.direction.ext(self_start_to_other_start));
        let other_end_side = sign(self.direction.ext(self_start_to_other_end));
        // Note having one zero should be fine: it just means one of the end
        // points is on the other line.
        if self_start_side != self_end_side && other_start_side != other_end_side {
            return true;
        }
        // One last way they could be intersecting: if both lines are
        // colinear. At that point all "sides" would be 0.
        if 0 == self_start_side && 0 == self_end_side && 0 == other_start_side && 0
            == other_end_side {
            // At this point, use the dot product to see if any of the
            // start/end points are between the other line's.
            let mut along: i64 = other.direction.dot(other_start_to_self_start);
            if -EPSILON < along && fx_sub(along, other.length) < EPSILON {
                return true;
            }
            along = other.direction.dot(other_start_to_self_end);
            if -EPSILON < along && fx_sub(along, other.length) < EPSILON {
                return true;
            }
            along = self.direction.dot(self_start_to_other_start);
            if -EPSILON < along && fx_sub(along, self.length) < EPSILON {
                return true;
            }
            along = self.direction.dot(self_start_to_other_end);
            if -EPSILON < along && fx_sub(along, self.length) < EPSILON {
                return true;
            }
        }
        false  // If all else fails, then they're not intersecting.
    }

    /// Gets the shortest distance to a point from somewhere on this line
    /// segment.
    pub fn shortest_distance_to_point(&self, point: &Vec2) -> (r: i64)
        ensures
            r as int == seg_shortest_distance_s(*self, *point),
    {
        let offset = point.minus(&self.start);
        let along = self.direction.dot(offset);
        if -EPSILON < along && fx_sub(along, self.length) < EPSILON {
            fx_abs(self.direction.ext(offset))
        } else if 0 > along {
            // Must be the starting end point.
            offset.length()
        } else {
            point.minus(&self.end).length()
        }
    }

    /// Find the intersection between two line segments (if one exists).
    pub fn find_intersection_with_line_segment(&self, other: &LineSegment) -> (r:
        LineSegmentIntersection)
        requires
            seg_colinear_overlap_nonempty(*self, *other),
        ensures
            r == seg_find_intersection_s(*self, *other),
    {
        // If the bounding boxes don't even overlap, then they definitely
        // don't intersect.
        if !Bounds2::from_points(&self.start, &self.end).overlaps(
            &Bounds2::from_points(&other.start, &other.end),
        ) {
            return LineSegmentIntersection::Nothing;
        }
        // To find the probable point of intersection get the perpendicular
        // distance from this line segment to the other's starting point.
        // Then convert the other line segment's direction into how quickly
        // it moves toward/away from this line segment, and use that to
        // figure out where the segments would have to intersect.
        let start_offset = other.start.minus(&self.start);
        let start_perp_dist = self.direction.ext(start_offset);
        let perp_direction = self.direction.ext(other.direction);
        // If the lines are parallel, things degenerate quickly.
        if fx_abs(perp_direction) < EPSILON {
            // If they're not fully colinear lines, then no intersection.
            if EPSILON < fx_abs(start_perp_dist) {
                return LineSegmentIntersection::Nothing;
            }
            // Otherwise the lines are on the same infinite line, and must
            // overlap because their bounding boxes do.
            let self_range = Range::from_values(0, self.length);
            let other_range = Range::from_values(
                self.direction.dot(start_offset),
                self.direction.dot(other.end.minus(&self.start)),
            );
            let overlap = self_range.intersect(other_range);
            let (overlap_min, overlap_max) = match overlap.min_max() {
                Option::Some(pair) => pair,
                Option::None => unreached(),
            };
            proof {
                crate::geo::range::lemma_range_bounds_fit(overlap);
            }
            let hit_start = self.direction.scale(overlap_min).plus(&self.start);
            let hit_end = self.direction.scale(overlap_max).plus(&self.start);
            return if hit_end.minus(&hit_start).length() < EPSILON {
                LineSegmentIntersection::Point(hit_start)
            } else {
                LineSegmentIntersection::Many(LineSegment::new(&hit_start, &hit_end))
            };
        }
        // Otherwise, they're not parallel, and there's one (possible) point
        // of intersection where: 0 = start_perp_dist + perp_direction * t
        let t = fx_div(fx_neg(start_perp_dist), perp_direction);
        // If the time is negative, then it's before the other line
        // segment's start, so no intersection.
        if t < -EPSILON {
            return LineSegmentIntersection::Nothing;
        }
        let possible = other.direction.scale(t).plus(&other.start);
        // Last check to see if the point is between the start and end of
        // both line segments.
        let self_along = self.direction.dot(possible.minus(&self.start));
        let other_along = other.direction.dot(possible.minus(&other.start));
        if -EPSILON > self_along || EPSILON < fx_sub(self_along, self.length) || -EPSILON
            > other_along || EPSILON < fx_sub(other_along, other.length) {
            return LineSegmentIntersection::Nothing;  // Past one of the end points.
        }
        // At this point, it's definitely a valid intersection.
        // Do a little snapping (to end points) if it goes past them.
        if 0 <= fx_sub(self_along, self.length) {
            LineSegmentIntersection::Point(self.end)
        } else if 0 >= self_along {
            LineSegmentIntersection::Point(self.start)
        } else if 0 <= fx_sub(other_along, other.length) {
            LineSegmentIntersection::Point(other.end)
        } else if 0 >= other_along {
            LineSegmentIntersection::Point(other.start)
        } else {
            LineSegmentIntersection::Point(possible)
        }
    }

    /// Gets the end point that doesn't match the one passed in.
    pub fn get_other_end_point(&self, check: &Vec2) -> (r: Vec2)
        ensures
            r == seg_other_end_s(*self, *check),
    {
        if self.start.minus(check).length() < EPSILON {
            self.end
        } else {
            self.start
        }
    }
}

} // verus!
