//! A continuous range over a 1D value, used for the "times" during which a
//! moving circle is in contact with an obstacle (0 = start of the movement
//! step, `SCALE` = end of it).
//!
//! A range is either empty, or a closed interval `[min, max]` of raw
//! scalars; the unbounded range runs from `-FX_INF` to `FX_INF`.

use vstd::prelude::*;

use crate::geo::fixed::{
    abs_s, clamp_s, fadd_s, fdiv_s, fmul_s, fneg_s, fsqrt_s, fsub_s, fx_abs, fx_add, fx_div,
    fx_mul, fx_neg, fx_ok, fx_sqrt, fx_sub, lemma_sqrt_floor_square, sqrt_floor, EPSILON,
    FX_INF, SCALE,
};

verus! {

/// A continuous range over a 1D value.
#[derive(Debug, Clone, Copy)]
pub struct Range {
    min: i64,  // The lower value.
    max: i64,  // The upper value.
    empty: bool,  // Whether the range holds no values at all.
}

impl Range {
    /// Whether the range holds no values.
    pub closed spec fn is_empty_s(self) -> bool {
        self.empty
    }

    /// The lower bound (meaningful only when not empty).
    pub closed spec fn min_s(self) -> int {
        self.min as int
    }

    /// The upper bound (meaningful only when not empty).
    pub closed spec fn max_s(self) -> int {
        self.max as int
    }

    /// Well-formed ranges: the empty range is kept in one canonical shape,
    /// and a non-empty range has ordered bounds within the representable
    /// band.  Every constructor establishes this and every operation
    /// preserves it.
    pub closed spec fn wf(self) -> bool {
        if self.empty {
            self.min == 0 && self.max == 0
        } else {
            fx_ok(self.min as int) && fx_ok(self.max as int) && self.min <= self.max
        }
    }

    /// The canonical empty range.
    pub closed spec fn empty_s() -> Range {
        Range { min: 0, max: 0, empty: false }.with_empty()
    }

    /// The range holding every representable value.
    pub closed spec fn all_s() -> Range {
        Range { min: (-(FX_INF as int)) as i64, max: FX_INF, empty: false }
    }

    /// Helper giving the canonical empty shape.
    closed spec fn with_empty(self) -> Range {
        Range { min: 0, max: 0, empty: true }
    }

    /// The range holding exactly one value (saturated to the band).
    pub open spec fn from_value_s(v: int) -> Range {
        Range::from_values_s(v, v)
    }

    /// The range between two values, automatically ordered (each saturated
    /// to the band).
    pub closed spec fn from_values_s(a: int, b: int) -> Range {
        let ca = clamp_s(a);
        let cb = clamp_s(b);
        if ca <= cb {
            Range { min: ca as i64, max: cb as i64, empty: false }
        } else {
            Range { min: cb as i64, max: ca as i64, empty: false }
        }
    }

    /// Whether this is the all-values range.
    pub closed spec fn is_all_s(self) -> bool {
        !self.empty && self.min == -FX_INF && self.max == FX_INF
    }

    /// The union hull of two ranges.
    pub closed spec fn cover_range_s(self, other: Range) -> Range {
        if self.empty {
            other
        } else if other.empty {
            self
        } else {
            Range {
                min: if self.min <= other.min {
                    self.min
                } else {
                    other.min
                },
                max: if self.max >= other.max {
                    self.max
                } else {
                    other.max
                },
                empty: false,
            }
        }
    }

    /// The union hull of a range and one value (the value saturated to the
    /// band).
    pub closed spec fn cover_value_s(self, v: int) -> Range {
        let c = clamp_s(v) as i64;
        if self.empty {
            Range { min: c, max: c, empty: false }
        } else if c < self.min {
            Range { min: c, max: self.max, empty: false }
        } else if c > self.max {
            Range { min: self.min, max: c, empty: false }
        } else {
            self
        }
    }

    /// The meet of two ranges: empty when they do not overlap.
    pub closed spec fn intersect_s(self, other: Range) -> Range {
        if self.empty || other.empty {
            Range::empty_s()
        } else {
            let lo = if self.min >= other.min {
                self.min
            } else {
                other.min
            };
            let hi = if self.max <= other.max {
                self.max
            } else {
                other.max
            };
            if hi < lo {
                Range::empty_s()
            } else {
                Range { min: lo, max: hi, empty: false }
            }
        }
    }

    /// Whether the range holds `v`, with no tolerance.
    pub open spec fn contains_exactly_s(self, v: int) -> bool {
        !self.is_empty_s() && self.min_s() <= v <= self.max_s()
    }

    /// Whether the range holds `v`, allowing the tolerance `EPSILON` at
    /// either bound.
    pub open spec fn contains_s(self, v: int) -> bool {
        !self.is_empty_s() && (self.min_s() <= v <= self.max_s() || abs_s(self.min_s() - v)
            < EPSILON as int || abs_s(self.max_s() - v) < EPSILON as int)
    }

    /// The range solving `a*t*t + b*t + c == 0` (in world units), degrading
    /// to the linear, the all-values, or the empty case when the leading
    /// coefficients are within tolerance of zero.
    pub closed spec fn from_quadratic_zeros_s(a: int, b: int, c: int) -> Range {
        if abs_s(a) < EPSILON as int {
            if abs_s(b) < EPSILON as int {
                if abs_s(c) < EPSILON as int {
                    Range::all_s()
                } else {
                    Range::empty_s()
                }
            } else {
                Range::from_value_s(fdiv_s(fneg_s(c), b))
            }
        } else {
            let denom = fmul_s(2 * (SCALE as int), a);
            let det = fsub_s(fmul_s(b, b), fmul_s(fmul_s(4 * (SCALE as int), a), c));
            if det < -(EPSILON as int) {
                Range::empty_s()
            } else if det < EPSILON as int {
                Range::from_value_s(fdiv_s(fneg_s(b), denom))
            } else {
                let root = fsqrt_s(det);
                Range::from_values_s(
                    fdiv_s(fadd_s(fneg_s(b), root), denom),
                    fdiv_s(fsub_s(fneg_s(b), root), denom),
                )
            }
        }
    }

    /// Creates a new instance containing no values.
    pub fn empty() -> (r: Range)
        ensures
            r == Range::empty_s(),
            r.wf(),
    {
        Range { min: 0, max: 0, empty: true }
    }

    /// Creates a new instance containing two values.
    pub fn from_values(val1: i64, val2: i64) -> (r: Range)
        ensures
            r == Range::from_values_s(val1 as int, val2 as int),
            r.wf(),
    {
        let c1 = clamp64(val1);
        let c2 = clamp64(val2);
        if c1 <= c2 {
            Range { min: c1, max: c2, empty: false }
        } else {
            Range { min: c2, max: c1, empty: false }
        }
    }

    /// Creates a new instance containing one value.
    pub fn from_value(value: i64) -> (r: Range)
        ensures
            r == Range::from_value_s(value as int),
            r.wf(),
    {
        let c = clamp64(value);
        Range { min: c, max: c, empty: false }
    }

    /// Creates a new instance containing all values.
    pub fn all() -> (r: Range)
        ensures
            r == Range::all_s(),
            r.wf(),
    {
        Range { min: -FX_INF, max: FX_INF, empty: false }
    }

    /// Creates a range with end points at the zeros of a quadratic (or
    /// linear, or constant) whose coefficients are raw scalars.
    pub fn from_quadratic_zeros(a: i64, b: i64, c: i64) -> (r: Range)
        ensures
            r == Range::from_quadratic_zeros_s(a as int, b as int, c as int),
            r.wf(),
    {
        if fx_abs(a) < EPSILON {
            // If a is basically zero, then this is not a quadratic.
            if fx_abs(b) < EPSILON {
                // A "constant equation": solvable everywhere or nowhere.
                if fx_abs(c) < EPSILON {
                    Range::all()
                } else {
                    Range::empty()
                }
            } else {
                // A linear equation with one solution.
                Range::from_value(fx_div(fx_neg(c), b))
            }
        } else {
            // Definitely a quadratic; the usual formula.
            let denom = fx_mul(2 * SCALE, a);
            let det = fx_sub(fx_mul(b, b), fx_mul(fx_mul(4 * SCALE, a), c));
            if det < -EPSILON {
                // A negative determinant means no zeros.
                Range::empty()
            } else if det < EPSILON {
                Range::from_value(fx_div(fx_neg(b), denom))
            } else {
                let root = fx_sqrt(det);
                Range::from_values(
                    fx_div(fx_add(fx_neg(b), root), denom),
                    fx_div(fx_sub(fx_neg(b), root), denom),
                )
            }
        }
    }

    /// Makes this range contain no values.
    pub fn make_empty(&mut self)
        ensures
            *final(self) == Range::empty_s(),
            final(self).wf(),
    {
        self.min = 0;
        self.max = 0;
        self.empty = true;
    }

    /// Makes this range contain all values.
    pub fn make_all(&mut self)
        ensures
            *final(self) == Range::all_s(),
            final(self).wf(),
    {
        self.min = -FX_INF;
        self.max = FX_INF;
        self.empty = false;
    }

    /// If this range contains NO values.
    pub fn is_empty(&self) -> (r: bool)
        ensures
            r == self.is_empty_s(),
    {
        self.empty
    }

    /// If the range covers all values.
    pub fn is_all(&self) -> (r: bool)
        ensures
            r == self.is_all_s(),
    {
        !self.empty && self.min == -FX_INF && self.max == FX_INF
    }

    /// Gets the minimum boundary.
    pub fn min(&self) -> (r: Option<i64>)
        ensures
            r == if self.is_empty_s() {
                Option::<i64>::None
            } else {
                Option::Some(self.min_s() as i64)
            },
    {
        if self.empty {
            Option::None
        } else {
            Option::Some(self.min)
        }
    }

    /// Gets the maximum boundary.
    pub fn max(&self) -> (r: Option<i64>)
        ensures
            r == if self.is_empty_s() {
                Option::<i64>::None
            } else {
                Option::Some(self.max_s() as i64)
            },
    {
        if self.empty {
            Option::None
        } else {
            Option::Some(self.max)
        }
    }

    /// Gets the min and max at the same time.
    pub fn min_max(&self) -> (r: Option<(i64, i64)>)
        ensures
            r == if self.is_empty_s() {
                Option::<(i64, i64)>::None
            } else {
                Option::Some((self.min_s() as i64, self.max_s() as i64))
            },
    {
        if self.empty {
            Option::None
        } else {
            Option::Some((self.min, self.max))
        }
    }

    /// Check if the range contains a given value.
    pub fn contains_exactly(&self, value: i64) -> (r: bool)
        ensures
            r == self.contains_exactly_s(value as int),
    {
        !self.empty && self.min <= value && value <= self.max
    }

    /// Check if the range contains a given value with some epsilon.
    pub fn contains(&self, value: i64) -> (r: bool)
        ensures
            r == self.contains_s(value as int),
    {
        if self.empty {
            return false;
        }
        if self.min <= value && value <= self.max {
            return true;
        }
        fx_abs(fx_sub(self.min, value)) < EPSILON || fx_abs(fx_sub(self.max, value)) < EPSILON
    }
}

/// Saturates one raw value to the representable band.
fn clamp64(v: i64) -> (r: i64)
    ensures
        r as int == clamp_s(v as int),
{
    if v > FX_INF {
        FX_INF
    } else if v < -FX_INF {
        -FX_INF
    } else {
        v
    }
}

/// For the cover() operator on Ranges.
pub trait RangeCover<Other> {
    type Output;

    /// What `cover` returns.
    spec fn cover_spec(self, other: Other) -> Self::Output;

    /// Expands the existing range to include the other.
    fn cover(self, other: Other) -> (r: Self::Output)
        ensures
            r == self.cover_spec(other),
    ;
}

impl RangeCover<i64> for Range {
    type Output = Range;

    open spec fn cover_spec(self, value: i64) -> Range {
        self.cover_value_s(value as int)
    }

    fn cover(self, value: i64) -> (r: Range) {
        let c = clamp64(value);
        if self.empty {
            Range { min: c, max: c, empty: false }
        } else if c < self.min {
            Range { min: c, max: self.max, empty: false }
        } else if c > self.max {
            Range { min: self.min, max: c, empty: false }
        } else {
            self
        }
    }
}

impl RangeCover<Range> for Range {
    type Output = Range;

    open spec fn cover_spec(self, other: Range) -> Range {
        self.cover_range_s(other)
    }

    fn cover(self, other: Range) -> (r: Range) {
        if self.empty {
            other
        } else if other.empty {
            self
        } else {
            Range {
                min: if self.min <= other.min {
                    self.min
                } else {
                    other.min
                },
                max: if self.max >= other.max {
                    self.max
                } else {
                    other.max
                },
                empty: false,
            }
        }
    }
}

/// For the intersect() operator on Ranges.
pub trait RangeIntersect<Other> {
    type Output;

    /// What `intersect` returns.
    spec fn intersect_spec(self, other: Other) -> Self::Output;

    /// Finds the common values between this Range and another.
    fn intersect(self, other: Other) -> (r: Self::Output)
        ensures
            r == self.intersect_spec(other),
    ;
}

impl RangeIntersect<Range> for Range {
    type Output = Range;

    open spec fn intersect_spec(self, other: Range) -> Range {
        self.intersect_s(other)
    }

    fn intersect(self, other: Range) -> (r: Range) {
        if self.empty || other.empty {
            Range::empty()
        } else {
            let lo = if self.min >= other.min {
                self.min
            } else {
                other.min
            };
            let hi = if self.max <= other.max {
                self.max
            } else {
                other.max
            };
            if hi < lo {
                Range::empty()
            } else {
                Range { min: lo, max: hi, empty: false }
            }
        }
    }
}

/// The exact bounds a two-value window carries.
pub proof fn lemma_from_values_bounds(a: int, b: int)
    ensures
        ({
            let r = Range::from_values_s(a, b);
            &&& !r.is_empty_s()
            &&& r.min_s() == if clamp_s(a) <= clamp_s(b) {
                clamp_s(a)
            } else {
                clamp_s(b)
            }
            &&& r.max_s() == if clamp_s(a) <= clamp_s(b) {
                clamp_s(b)
            } else {
                clamp_s(a)
            }
        }),
{
}

/// The exact bounds of an intersection of overlapping ranges.
pub proof fn lemma_intersect_bounds(a: Range, b: Range)
    requires
        !a.is_empty_s(),
        !b.is_empty_s(),
        (if a.min_s() >= b.min_s() {
            a.min_s()
        } else {
            b.min_s()
        }) <= (if a.max_s() <= b.max_s() {
            a.max_s()
        } else {
            b.max_s()
        }),
    ensures
        ({
            let r = a.intersect_s(b);
            &&& !r.is_empty_s()
            &&& r.min_s() == if a.min_s() >= b.min_s() {
                a.min_s()
            } else {
                b.min_s()
            }
            &&& r.max_s() == if a.max_s() <= b.max_s() {
                a.max_s()
            } else {
                b.max_s()
            }
        }),
{
    crate::geo::range::lemma_range_bounds_fit(a);
    crate::geo::range::lemma_range_bounds_fit(b);
}

/// What the quadratic solver computes when the equation is genuinely
/// quadratic, spelled out for callers outside this module.
pub proof fn lemma_quadratic_zeros_unfold(a: int, b: int, c: int)
    requires
        abs_s(a) >= EPSILON as int,
    ensures
        ({
            let denom = fmul_s(2 * (SCALE as int), a);
            let det = fsub_s(fmul_s(b, b), fmul_s(fmul_s(4 * (SCALE as int), a), c));
            &&& (det < -(EPSILON as int)) ==> Range::from_quadratic_zeros_s(a, b, c)
                == Range::empty_s()
            &&& (-(EPSILON as int) <= det < EPSILON as int)
                ==> Range::from_quadratic_zeros_s(a, b, c) == Range::from_value_s(
                fdiv_s(fneg_s(b), denom),
            )
            &&& (det >= EPSILON as int) ==> Range::from_quadratic_zeros_s(a, b, c)
                == Range::from_values_s(
                fdiv_s(fadd_s(fneg_s(b), fsqrt_s(det)), denom),
                fdiv_s(fsub_s(fneg_s(b), fsqrt_s(det)), denom),
            )
        }),
{
}

/// Solving x*x == r*r finds exactly the two roots -r and r, for any
/// non-negative radius whose square sits on the fixed-point grid; when the
/// discriminant falls within tolerance of zero the pair collapses to the
/// single root 0.
pub proof fn lemma_quadratic_square_roots(r: int)
    requires
        0 <= r,
        (r * r) % (SCALE as int) == 0,
        4 * r * r <= (FX_INF as int) * (SCALE as int),
    ensures
        ({
            let roots = Range::from_quadratic_zeros_s(SCALE as int, 0, -fmul_s(r, r));
            if 4 * fmul_s(r, r) < EPSILON as int {
                roots == Range::from_value_s(0)
            } else {
                !roots.is_empty_s() && roots.min_s() == -r && roots.max_s() == r
            }
        }),
{
    let scale = SCALE as int;
    let q0 = (r * r) / scale;
    assert(r * r == scale * q0) by (nonlinear_arith)
        requires
            0 < scale,
            (r * r) % scale == 0,
            q0 == (r * r) / scale,
    ;
    assert(4 * q0 <= FX_INF as int) by (nonlinear_arith)
        requires
            0 < scale,
            r * r == scale * q0,
            4 * r * r <= (FX_INF as int) * scale,
    ;
    assert(0 <= q0) by (nonlinear_arith)
        requires
            0 < scale,
            0 <= r * r == scale * q0,
    ;
    assert(fmul_s(r, r) == q0);
    assert(2 * r <= FX_INF as int) by (nonlinear_arith)
        requires
            0 <= r,
            4 * r * r <= (FX_INF as int) * scale,
            0 < scale <= FX_INF as int,
    ;

    // The computed coefficients and discriminant.
    assert((2 * scale * scale) / scale == 2 * scale) by (nonlinear_arith)
        requires
            0 < scale,
    ;
    assert(fmul_s(2 * scale, scale) == 2 * scale);
    assert((4 * scale * scale) / scale == 4 * scale) by (nonlinear_arith)
        requires
            0 < scale,
    ;
    assert(fmul_s(4 * scale, scale) == 4 * scale);
    assert(4 * scale * q0 == (4 * scale) * q0) by (nonlinear_arith);
    assert(((4 * scale) * q0) / scale == 4 * q0) by (nonlinear_arith)
        requires
            0 < scale,
            4 * scale * q0 == (4 * scale) * q0,
    ;
    assert(fmul_s(4 * scale, -q0) == -4 * q0);
    assert(fmul_s(0, 0) == 0);
    let det = fsub_s(fmul_s(0, 0), fmul_s(fmul_s(4 * scale, SCALE as int), -q0));
    assert(det == 4 * q0);

    if det < EPSILON as int {
        assert(fdiv_s(fneg_s(0), 2 * scale) == 0);
    } else {
        // The square root of the discriminant is exactly 2r.
        assert(4 * q0 * scale == (2 * r) * (2 * r)) by (nonlinear_arith)
            requires
                r * r == scale * q0,
        ;
        lemma_sqrt_floor_square(2 * r);
        assert(fsqrt_s(det) == 2 * r);
        // And the two roots divide out exactly.
        assert((2 * r * scale) / (2 * scale) == r) by (nonlinear_arith)
            requires
                0 <= r,
                0 < scale,
        ;
        assert(fdiv_s(fadd_s(fneg_s(0), 2 * r), 2 * scale) == r);
        assert(fsub_s(0, 2 * r) == -2 * r);
        assert(fdiv_s(-2 * r, 2 * scale) == -r);
    }
}

/// Covering a value over the empty range yields a range that holds it.
pub proof fn lemma_cover_value_contains(v: int)
    ensures
        Range::empty_s().cover_value_s(v).contains_exactly_s(clamp_s(v)),
{
}

/// The union hull keeps every value its left operand held.
pub proof fn lemma_cover_range_keeps(a: Range, b: Range, v: int)
    requires
        a.contains_exactly_s(v),
    ensures
        a.cover_range_s(b).contains_exactly_s(v),
{
}

/// A value both ranges hold is in their intersection, which is then not
/// empty.
pub proof fn lemma_intersect_contains(a: Range, b: Range, v: int)
    requires
        a.contains_exactly_s(v),
        b.contains_exactly_s(v),
    ensures
        a.intersect_s(b).contains_exactly_s(v),
        !a.intersect_s(b).is_empty_s(),
{
}

/// The all-values range holds every representable value.
pub proof fn lemma_all_contains(v: int)
    requires
        fx_ok(v),
    ensures
        Range::all_s().contains_exactly_s(v),
{
}

/// A bounded window holds its own lower end.
pub proof fn lemma_from_values_contains_low(a: int, b: int)
    requires
        0 <= a <= b,
        fx_ok(a),
        fx_ok(b),
    ensures
        Range::from_values_s(a, b).contains_exactly_s(a),
{
}

/// A non-empty intersection can only come from non-empty operands.
pub proof fn lemma_intersect_nonempty_left(a: Range, b: Range)
    ensures
        !a.intersect_s(b).is_empty_s() ==> !a.is_empty_s(),
{
}

/// The all-values range holds values.
pub proof fn lemma_all_not_empty()
    ensures
        !Range::all_s().is_empty_s(),
{
}

/// The bounds of a range always fit in a raw scalar, whatever operations
/// produced it.
pub broadcast proof fn lemma_range_bounds_fit(r: Range)
    ensures
        #[trigger] r.min_s() == r.min_s() as i64 as int,
        #[trigger] r.max_s() == r.max_s() as i64 as int,
{
}

/// Covering preserves well-formedness.
pub proof fn lemma_cover_wf(a: Range, b: Range)
    requires
        a.wf(),
        b.wf(),
    ensures
        a.cover_range_s(b).wf(),
{
}

/// Intersection preserves well-formedness.
pub proof fn lemma_intersect_wf(a: Range, b: Range)
    requires
        a.wf(),
        b.wf(),
    ensures
        a.intersect_s(b).wf(),
{
}

/// The union hull of ranges does not depend on the order of its arguments.
pub proof fn lemma_cover_commutative(a: Range, b: Range)
    requires
        a.wf(),
        b.wf(),
    ensures
        a.cover_range_s(b) == b.cover_range_s(a),
{
}

/// The union hull of ranges can be built in any grouping.
pub proof fn lemma_cover_associative(a: Range, b: Range, c: Range)
    requires
        a.wf(),
        b.wf(),
        c.wf(),
    ensures
        a.cover_range_s(b).cover_range_s(c) == a.cover_range_s(b.cover_range_s(c)),
{
}

/// Intersecting a well-formed range with the all-values range leaves it
/// unchanged.
pub proof fn lemma_intersect_all_identity(a: Range)
    requires
        a.wf(),
    ensures
        a.intersect_s(Range::all_s()) == a,
{
}

/// Intersecting any range with the empty range gives the empty range.
pub proof fn lemma_intersect_empty(a: Range)
    ensures
        a.intersect_s(Range::empty_s()) == Range::empty_s(),
{
}

} // verus!
