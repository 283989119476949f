//! A 2D axis-aligned bounding box, with overlap tests and a swept
//! point-versus-box intersection.

use vstd::prelude::*;

use crate::geo::fixed::{fadd_s, fdiv_s, fsub_s, fx_abs, fx_add, fx_div, fx_sub, EPSILON,
    SCALE};
use crate::geo::vec2::{vadd_s, vscale_s, vsub_s, Vec2, VecOpScalar};

verus! {

/// A 2D bounding box.
#[derive(Debug, Clone, Copy)]
pub struct Bounds2 {
    x_min: i64,
    x_max: i64,
    y_min: i64,
    y_max: i64,
}

/// Where a value sits relative to a closed interval.
#[derive(PartialEq, Eq, Structural)]
enum RelativePosition {
    Above,
    Between,
    Below,
}

/// The box centered on a point with the given (absolute) width and height.
pub closed spec fn from_centered_rect_s(center: Vec2, width: int, height: int) -> Bounds2 {
    let w = fdiv_s(crate::geo::fixed::clamp_s(crate::geo::fixed::abs_s(width)), 2 * (SCALE as int));
    let h = fdiv_s(crate::geo::fixed::clamp_s(crate::geo::fixed::abs_s(height)), 2 * (SCALE as int));
    Bounds2 {
        x_min: fsub_s(center.x as int, w) as i64,
        x_max: fadd_s(center.x as int, w) as i64,
        y_min: fsub_s(center.y as int, h) as i64,
        y_max: fadd_s(center.y as int, h) as i64,
    }
}

/// The smallest box containing two points.
pub closed spec fn from_points_s(first: Vec2, second: Vec2) -> Bounds2 {
    Bounds2 {
        x_min: if first.x < second.x {
            first.x
        } else {
            second.x
        },
        x_max: if first.x < second.x {
            second.x
        } else {
            first.x
        },
        y_min: if first.y < second.y {
            first.y
        } else {
            second.y
        },
        y_max: if first.y < second.y {
            second.y
        } else {
            first.y
        },
    }
}

impl Bounds2 {
    /// The lower x bound.
    pub closed spec fn x_min_s(self) -> int {
        self.x_min as int
    }

    /// The upper x bound.
    pub closed spec fn x_max_s(self) -> int {
        self.x_max as int
    }

    /// The lower y bound.
    pub closed spec fn y_min_s(self) -> int {
        self.y_min as int
    }

    /// The upper y bound.
    pub closed spec fn y_max_s(self) -> int {
        self.y_max as int
    }

    /// The box translated by a vector.
    pub closed spec fn translate_s(self, amount: Vec2) -> Bounds2 {
        Bounds2 {
            x_min: fadd_s(self.x_min_s(), amount.x as int) as i64,
            x_max: fadd_s(self.x_max_s(), amount.x as int) as i64,
            y_min: fadd_s(self.y_min_s(), amount.y as int) as i64,
            y_max: fadd_s(self.y_max_s(), amount.y as int) as i64,
        }
    }

    /// The box expanded to include an x value.
    pub closed spec fn expand_to_x_s(self, x: int) -> Bounds2 {
        Bounds2 {
            x_min: if x < self.x_min_s() {
                x as i64
            } else {
                self.x_min as i64
            },
            x_max: if x > self.x_max_s() {
                x as i64
            } else {
                self.x_max as i64
            },
            y_min: self.y_min,
            y_max: self.y_max,
        }
    }

    /// The box expanded to include a y value.
    pub closed spec fn expand_to_y_s(self, y: int) -> Bounds2 {
        Bounds2 {
            x_min: self.x_min,
            x_max: self.x_max,
            y_min: if y < self.y_min_s() {
                y as i64
            } else {
                self.y_min as i64
            },
            y_max: if y > self.y_max_s() {
                y as i64
            } else {
                self.y_max as i64
            },
        }
    }

    /// Whether two boxes overlap, to within `EPSILON`.
    pub open spec fn overlaps_s(self, other: Bounds2) -> bool {
        EPSILON as int >= fsub_s(self.x_min_s(), other.x_max_s()) && EPSILON as int >= fsub_s(
            other.x_min_s(),
            self.x_max_s(),
        ) && EPSILON as int >= fsub_s(self.y_min_s(), other.y_max_s()) && EPSILON as int
            >= fsub_s(other.y_min_s(), self.y_max_s())
    }

    /// Whether the box contains a point (exactly).
    pub open spec fn overlaps_point_s(self, other: Vec2) -> bool {
        self.x_min_s() <= other.x <= self.x_max_s() && self.y_min_s() <= other.y
            <= self.y_max_s()
    }

    /// Creates an instance where a rectangle is centered on a point.
    pub fn from_centered_rect(center: &Vec2, width: i64, height: i64) -> (r: Bounds2)
        ensures
            r == from_centered_rect_s(*center, width as int, height as int),
    {
        let w = fx_div(fx_abs(width), 2 * SCALE);
        let h = fx_div(fx_abs(height), 2 * SCALE);
        Bounds2 {
            x_min: fx_sub(center.x, w),
            x_max: fx_add(center.x, w),
            y_min: fx_sub(center.y, h),
            y_max: fx_add(center.y, h),
        }
    }

    /// Creates an instance that contains a pair of points.
    pub fn from_points(first: &Vec2, second: &Vec2) -> (r: Bounds2)
        ensures
            r == from_points_s(*first, *second),
    {
        let mut ret = Bounds2 { x_min: 0, x_max: 0, y_min: 0, y_max: 0 };
        if first.x < second.x {
            ret.x_min = first.x;
            ret.x_max = second.x;
        } else {
            ret.x_min = second.x;
            ret.x_max = first.x;
        }
        if first.y < second.y {
            ret.y_min = first.y;
            ret.y_max = second.y;
        } else {
            ret.y_min = second.y;
            ret.y_max = first.y;
        }
        ret
    }

    /// Translates this instance in place.
    pub fn translate(&mut self, amount: &Vec2)
        ensures
            *final(self) == old(self).translate_s(*amount),
    {
        self.x_min = fx_add(self.x_min, amount.x);
        self.y_min = fx_add(self.y_min, amount.y);
        self.x_max = fx_add(self.x_max, amount.x);
        self.y_max = fx_add(self.y_max, amount.y);
    }

    /// Expands to include a given x value.
    pub fn expand_to_x(&mut self, x: i64)
        ensures
            *final(self) == old(self).expand_to_x_s(x as int),
    {
        if x < self.x_min {
            self.x_min = x;
        }
        if x > self.x_max {
            self.x_max = x;
        }
    }

    /// Expands to include a given y value.
    pub fn expand_to_y(&mut self, y: i64)
        ensures
            *final(self) == old(self).expand_to_y_s(y as int),
    {
        if y < self.y_min {
            self.y_min = y;
        }
        if y > self.y_max {
            self.y_max = y;
        }
    }

    /// The lower x bound.
    pub fn x_min(&self) -> (r: i64)
        ensures
            r as int == self.x_min_s(),
    {
        self.x_min
    }

    /// The upper x bound.
    pub fn x_max(&self) -> (r: i64)
        ensures
            r as int == self.x_max_s(),
    {
        self.x_max
    }

    /// The lower y bound.
    pub fn y_min(&self) -> (r: i64)
        ensures
            r as int == self.y_min_s(),
    {
        self.y_min
    }

    /// The upper y bound.
    pub fn y_max(&self) -> (r: i64)
        ensures
            r as int == self.y_max_s(),
    {
        self.y_max
    }

    /// Checks if this range overlaps another. This IS NOT exact (so is to
    /// within EPSILON).
    pub fn overlaps(&self, other: &Bounds2) -> (r: bool)
        ensures
            r == self.overlaps_s(*other),
    {
        EPSILON >= fx_sub(self.x_min, other.x_max) && EPSILON >= fx_sub(other.x_min, self.x_max)
            && EPSILON >= fx_sub(self.y_min, other.y_max) && EPSILON >= fx_sub(
            other.y_min,
            self.y_max,
        )
    }

    /// Checks if this overlaps a given point.
    pub fn overlaps_point(&self, other: &Vec2) -> (r: bool)
        ensures
            r == self.overlaps_point_s(*other),
    {
        self.x_min <= other.x && other.x <= self.x_max && self.y_min <= other.y && other.y
            <= self.y_max
    }

    /// Where a swept point first meets this box, if it does: the exact
    /// value `collide_with_line_segment` returns.
    pub closed spec fn collide_with_line_segment_spec(self, start: Vec2, end: Vec2) -> Option<
        Vec2,
    > {
        let x_rel = if (start.x as int) > self.x_max_s() {
            RelativePosition::Above
        } else if (start.x as int) < self.x_min_s() {
            RelativePosition::Below
        } else {
            RelativePosition::Between
        };
        let y_rel = if (start.y as int) > self.y_max_s() {
            RelativePosition::Above
        } else if (start.y as int) < self.y_min_s() {
            RelativePosition::Below
        } else {
            RelativePosition::Between
        };
        if x_rel == RelativePosition::Between && y_rel == RelativePosition::Between {
            Option::Some(start)
        } else {
            let delta = vsub_s(end, start);
            let x_hit = if x_rel == RelativePosition::Above && -(EPSILON as int) > delta.x as int
                && (end.x as int) <= self.x_max_s() {
                let hit = vadd_s(
                    start,
                    vscale_s(delta, fdiv_s(fsub_s(self.x_max_s(), start.x as int), delta.x as int)),
                );
                if self.y_min_s() <= (hit.y as int) <= self.y_max_s() {
                    Option::Some(hit)
                } else {
                    Option::<Vec2>::None
                }
            } else if x_rel == RelativePosition::Below && (EPSILON as int) < delta.x as int
                && (end.x as int) >= self.x_min_s() {
                let hit = vadd_s(
                    start,
                    vscale_s(delta, fdiv_s(fsub_s(self.x_min_s(), start.x as int), delta.x as int)),
                );
                if self.y_min_s() <= (hit.y as int) <= self.y_max_s() {
                    Option::Some(hit)
                } else {
                    Option::<Vec2>::None
                }
            } else {
                Option::<Vec2>::None
            };
            if x_hit is Some {
                x_hit
            } else if y_rel == RelativePosition::Above && -(EPSILON as int) > delta.y as int
                && (end.y as int) <= self.y_max_s() {
                let hit = vadd_s(
                    start,
                    vscale_s(delta, fdiv_s(fsub_s(self.y_max_s(), start.y as int), delta.y as int)),
                );
                if self.x_min_s() <= (hit.x as int) <= self.x_max_s() {
                    Option::Some(hit)
                } else {
                    Option::<Vec2>::None
                }
            } else if y_rel == RelativePosition::Below && (EPSILON as int) < delta.y as int
                && (end.y as int) >= self.y_min_s() {
                let hit = vadd_s(
                    start,
                    vscale_s(delta, fdiv_s(fsub_s(self.y_min_s(), start.y as int), delta.y as int)),
                );
                if self.x_min_s() <= (hit.x as int) <= self.x_max_s() {
                    Option::Some(hit)
                } else {
                    Option::<Vec2>::None
                }
            } else {
                Option::<Vec2>::None
            }
        }
    }

    /// Finds the point on the line segment that intersects with this
    /// instance.  When possible tries to find the point that's closest to
    /// the start.
    pub fn collide_with_line_segment(&self, start: &Vec2, end: &Vec2) -> (r: Option<Vec2>)
        ensures
            r == self.collide_with_line_segment_spec(*start, *end),
    {
        let x_relative = if start.x > self.x_max {
            RelativePosition::Above
        } else if start.x < self.x_min {
            RelativePosition::Below
        } else {
            RelativePosition::Between
        };
        let y_relative = if start.y > self.y_max {
            RelativePosition::Above
        } else if start.y < self.y_min {
            RelativePosition::Below
        } else {
            RelativePosition::Between
        };

        // If it starts inside, then that's the closest point.
        if RelativePosition::Between == x_relative && RelativePosition::Between == y_relative {
            return Option::Some(*start);
        }
        // Otherwise, check if it crosses any of the outer boundaries of the
        // rectangle, trying the x walls first.
        let delta = end.minus(start);
        if RelativePosition::Above == x_relative && -EPSILON > delta.x && end.x <= self.x_max {
            let hit = start.plus(&delta.scale(fx_div(fx_sub(self.x_max, start.x), delta.x)));
            if self.y_min <= hit.y && hit.y <= self.y_max {
                return Option::Some(hit);
            }
        } else if RelativePosition::Below == x_relative && EPSILON < delta.x && end.x
            >= self.x_min {
            let hit = start.plus(&delta.scale(fx_div(fx_sub(self.x_min, start.x), delta.x)));
            if self.y_min <= hit.y && hit.y <= self.y_max {
                return Option::Some(hit);
            }
        }
        if RelativePosition::Above == y_relative && -EPSILON > delta.y && end.y <= self.y_max {
            let hit = start.plus(&delta.scale(fx_div(fx_sub(self.y_max, start.y), delta.y)));
            if self.x_min <= hit.x && hit.x <= self.x_max {
                return Option::Some(hit);
            }
        } else if RelativePosition::Below == y_relative && EPSILON < delta.y && end.y
            >= self.y_min {
            let hit = start.plus(&delta.scale(fx_div(fx_sub(self.y_min, start.y), delta.y)));
            if self.x_min <= hit.x && hit.x <= self.x_max {
                return Option::Some(hit);
            }
        }
        // If nothing happened, then there is no intersection.
        Option::None
    }
}

} // verus!
