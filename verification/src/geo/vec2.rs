//! A 2D vector of fixed-point scalars, with the five operations the whole
//! kernel is built from: add/subtract/scale, dot product, exterior (2D
//! cross) product, plus normalization and orthogonals.

use vstd::prelude::*;

use crate::geo::fixed::{
    abs_s, fadd_s, fdiv_s, fmul_s, fneg_s, fsqrt_s, fsub_s, fx_abs, fx_add, fx_div, fx_mul,
    fx_neg, fx_sqrt, fx_sub, EPSILON, SCALE,
};

verus! {

/// A 2D vector.
#[derive(Debug, Copy, Clone)]
pub struct Vec2 {
    pub x: i64,  // The x component.
    pub y: i64,  // The y component.
}

/// Component-wise saturating sum.
pub open spec fn vadd_s(a: Vec2, b: Vec2) -> Vec2 {
    Vec2 { x: fadd_s(a.x as int, b.x as int) as i64, y: fadd_s(a.y as int, b.y as int) as i64 }
}

/// Component-wise saturating difference.
pub open spec fn vsub_s(a: Vec2, b: Vec2) -> Vec2 {
    Vec2 { x: fsub_s(a.x as int, b.x as int) as i64, y: fsub_s(a.y as int, b.y as int) as i64 }
}

/// Scaling by a raw scalar factor.
pub open spec fn vscale_s(a: Vec2, factor: int) -> Vec2 {
    Vec2 { x: fmul_s(a.x as int, factor) as i64, y: fmul_s(a.y as int, factor) as i64 }
}

/// The dot product.
pub open spec fn vdot_s(a: Vec2, b: Vec2) -> int {
    fadd_s(fmul_s(a.x as int, b.x as int), fmul_s(a.y as int, b.y as int))
}

/// The exterior (2D cross) product.
pub open spec fn vext_s(a: Vec2, b: Vec2) -> int {
    fsub_s(fmul_s(a.x as int, b.y as int), fmul_s(a.y as int, b.x as int))
}

/// The length of a vector.
pub open spec fn vlength_s(a: Vec2) -> int {
    fsqrt_s(fadd_s(fmul_s(a.x as int, a.x as int), fmul_s(a.y as int, a.y as int)))
}

/// Normalization: division of both components by the length (saturating
/// when the vector is zero).
pub open spec fn vnorm_s(a: Vec2) -> Vec2 {
    let len = vlength_s(a);
    Vec2 { x: fdiv_s(a.x as int, len) as i64, y: fdiv_s(a.y as int, len) as i64 }
}

/// The counter-clockwise orthogonal vector.
pub open spec fn vortho_s(a: Vec2) -> Vec2 {
    Vec2 { x: fneg_s(a.y as int) as i64, y: a.x }
}

/// Setting the length of a vector (saturating when the vector is zero).
pub open spec fn vset_length_s(a: Vec2, len: int) -> Vec2 {
    vscale_s(a, fdiv_s(len, vlength_s(a)))
}

/// The orthogonal of `a` that lies within 90 degrees of `toward`.
pub open spec fn vortho_like_s(a: Vec2, toward: Vec2) -> Vec2 {
    let o = vortho_s(a);
    if vdot_s(o, toward) < 0 {
        vscale_s(o, -(SCALE as int))
    } else {
        o
    }
}

/// Whether three points are colinear, to within `EPSILON`.
pub open spec fn colinear_s(p1: Vec2, p2: Vec2, p3: Vec2) -> bool {
    abs_s(vext_s(vsub_s(p2, p1), vsub_s(p3, p1))) < EPSILON as int
}

impl Vec2 {
    /// Creates a new instance.
    pub fn new(x: i64, y: i64) -> (r: Vec2)
        ensures
            r == (Vec2 { x, y }),
    {
        Vec2 { x, y }
    }

    /// Creates a new zero vector.
    pub fn zero() -> (r: Vec2)
        ensures
            r == (Vec2 { x: 0i64, y: 0i64 }),
    {
        Vec2 { x: 0, y: 0 }
    }

    /// The vector's length.
    pub fn length(&self) -> (r: i64)
        ensures
            r as int == vlength_s(*self),
    {
        fx_sqrt(fx_add(fx_mul(self.x, self.x), fx_mul(self.y, self.y)))
    }

    /// The component-wise sum with another vector.
    pub fn plus(&self, right: &Vec2) -> (r: Vec2)
        ensures
            r == vadd_s(*self, *right),
    {
        Vec2 { x: fx_add(self.x, right.x), y: fx_add(self.y, right.y) }
    }

    /// The component-wise difference with another vector.
    pub fn minus(&self, right: &Vec2) -> (r: Vec2)
        ensures
            r == vsub_s(*self, *right),
    {
        Vec2 { x: fx_sub(self.x, right.x), y: fx_sub(self.y, right.y) }
    }
}

/// For unary operators on a Vec2.
pub trait VecOp {
    type Output;

    /// What `norm` returns.
    spec fn norm_spec(self) -> Self::Output;

    /// What `ortho` returns.
    spec fn ortho_spec(self) -> Self::Output;

    /// Normalizes the vector.
    fn norm(self) -> (r: Self::Output)
        ensures
            r == self.norm_spec(),
    ;

    /// Creates an orthogonal vector.
    fn ortho(self) -> (r: Self::Output)
        ensures
            r == self.ortho_spec(),
    ;
}

impl VecOp for Vec2 {
    type Output = Vec2;

    open spec fn norm_spec(self) -> Vec2 {
        vnorm_s(self)
    }

    open spec fn ortho_spec(self) -> Vec2 {
        vortho_s(self)
    }

    fn norm(self) -> (r: Vec2) {
        let len = self.length();
        Vec2 { x: fx_div(self.x, len), y: fx_div(self.y, len) }
    }

    fn ortho(self) -> (r: Vec2) {
        Vec2 { x: fx_neg(self.y), y: self.x }
    }
}

/// For operators between a Vec2 and a scalar.
pub trait VecOpScalar<Scalar> {
    type Output;

    /// What `scale` returns.
    spec fn scale_spec(self, factor: Scalar) -> Self::Output;

    /// What `set_length` returns.
    spec fn set_length_spec(self, length: Scalar) -> Self::Output;

    /// Scales the vector by a given factor.
    fn scale(self, factor: Scalar) -> (r: Self::Output)
        ensures
            r == self.scale_spec(factor),
    ;

    /// Sets the length of the vector to a given value.
    fn set_length(self, length: Scalar) -> (r: Self::Output)
        ensures
            r == self.set_length_spec(length),
    ;
}

impl VecOpScalar<i64> for Vec2 {
    type Output = Vec2;

    open spec fn scale_spec(self, factor: i64) -> Vec2 {
        vscale_s(self, factor as int)
    }

    open spec fn set_length_spec(self, length: i64) -> Vec2 {
        vset_length_s(self, length as int)
    }

    fn scale(self, factor: i64) -> (r: Vec2) {
        Vec2 { x: fx_mul(self.x, factor), y: fx_mul(self.y, factor) }
    }

    fn set_length(self, length: i64) -> (r: Vec2) {
        let factor = fx_div(length, self.length());
        self.scale(factor)
    }
}

/// For binary operators between a Vec2 and another Vec2 that yield a scalar.
pub trait VecOpVecToScalar<Right> {
    /// What `dot` returns.
    spec fn dot_spec(self, right: Right) -> i64;

    /// What `ext` returns.
    spec fn ext_spec(self, right: Right) -> i64;

    /// Computes the dot product.
    fn dot(self, right: Right) -> (r: i64)
        ensures
            r == self.dot_spec(right),
    ;

    /// Computes the exterior product.
    fn ext(self, right: Right) -> (r: i64)
        ensures
            r == self.ext_spec(right),
    ;
}

impl VecOpVecToScalar<Vec2> for Vec2 {
    open spec fn dot_spec(self, right: Vec2) -> i64 {
        vdot_s(self, right) as i64
    }

    open spec fn ext_spec(self, right: Vec2) -> i64 {
        vext_s(self, right) as i64
    }

    fn dot(self, right: Vec2) -> (r: i64) {
        fx_add(fx_mul(self.x, right.x), fx_mul(self.y, right.y))
    }

    fn ext(self, right: Vec2) -> (r: i64) {
        fx_sub(fx_mul(self.x, right.y), fx_mul(self.y, right.x))
    }
}

/// For binary operators between a Vec2 and another Vec2.
pub trait VecOpVecToVec<Right> {
    type Output;

    /// What `ortho_like` returns.
    spec fn ortho_like_spec(self, right: Right) -> Self::Output;

    /// Gets an orthogonal vector that's within 90 degrees of the given
    /// right vector.
    fn ortho_like(self, right: Right) -> (r: Self::Output)
        ensures
            r == self.ortho_like_spec(right),
    ;
}

impl VecOpVecToVec<Vec2> for Vec2 {
    type Output = Vec2;

    open spec fn ortho_like_spec(self, right: Vec2) -> Vec2 {
        vortho_like_s(self, right)
    }

    fn ortho_like(self, right: Vec2) -> (r: Vec2) {
        let o = self.ortho();
        if o.dot(right) < 0 {
            o.scale(-SCALE)
        } else {
            o
        }
    }
}

/// Checks if any 3 points are colinear (to within EPSILON).  All points
/// being the same counts.
pub fn points_are_colinear(p1: &Vec2, p2: &Vec2, p3: &Vec2) -> (r: bool)
    ensures
        r == colinear_s(*p1, *p2, *p3),
{
    fx_abs(p2.minus(p1).ext(p3.minus(p1))) < EPSILON
}

} // verus!
