//! An infinite 2D line in normal form.

use vstd::prelude::*;

use crate::geo::fixed::{abs_s, clamp_s, fx_abs};
use crate::geo::vec2::{
    vdot_s, vext_s, vnorm_s, vsub_s, Vec2, VecOp, VecOpVecToScalar,
};

verus! {

/// An infinite 2D line.
/// The line is defined as: delta.x * x + delta.y * y = c
#[derive(Debug, Clone, Copy)]
pub struct Line {
    pub delta: Vec2,  // The coefficients. The vector is unit-length.
    pub c: i64,  // The constant offset.
    pub origin: Vec2,  // A point on the line.
}

/// The line through two points.
pub open spec fn line_new_s(p1: Vec2, p2: Vec2) -> Line {
    let delta = vnorm_s(vsub_s(p2, p1));
    Line { delta, c: vdot_s(delta, p1) as i64, origin: p1 }
}

/// The distance from a point to its closest point on the line.
pub open spec fn ortho_distance_s(line: Line, point: Vec2) -> int {
    clamp_s(abs_s(vext_s(line.delta, vsub_s(point, line.origin))))
}

impl Line {
    /// Creates a line given two points on it.
    pub fn new(p1: &Vec2, p2: &Vec2) -> (r: Line)
        ensures
            r == line_new_s(*p1, *p2),
    {
        let delta = p2.minus(p1).norm();
        Line { c: delta.dot(*p1), delta, origin: *p1 }
    }

    /// Gets the distance from the closest point on the line to a given point.
    pub fn ortho_distance_to(&self, point: &Vec2) -> (r: i64)
        ensures
            r as int == ortho_distance_s(*self, *point),
    {
        fx_abs(self.delta.ext(point.minus(&self.origin)))
    }
}

} // verus!
