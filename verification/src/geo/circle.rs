//! A 2D circle, and the time-of-impact solvers that deflect a moving
//! circle with each kind of static obstacle: an infinite line, a single
//! point, and a bounded line segment (its middle plus its two end caps).

use vstd::prelude::*;

use crate::geo::collider::{
    calc_deflection_s, lemma_soonest_rec_in_range, soonest_s, split_remainder_s, Collider,
    Deflection, Handle, TotalDeflection,
};
use crate::geo::fixed::{
    abs_s, fabs_s, fadd_s, fdiv_s, fmul_s, fneg_s, fsqrt_s, fsub_s, fx_abs, fx_add, fx_div, fx_mul,
    fx_neg, fx_sub, lemma_fdiv_exact, lemma_fmul_exact, lemma_fsqrt_exact, EPSILON, FX_INF,
    SCALE,
};
use crate::geo::line::Line;
use crate::geo::line_segment::LineSegment;
use crate::geo::range::{
    lemma_all_contains, lemma_all_not_empty, lemma_cover_range_keeps, lemma_cover_value_contains,
    lemma_from_values_bounds, lemma_from_values_contains_low, lemma_intersect_bounds,
    lemma_intersect_contains, lemma_intersect_nonempty_left, lemma_quadratic_zeros_unfold,
    lemma_range_bounds_fit, Range, RangeCover, RangeIntersect,
};
use crate::geo::vec2::{
    vadd_s, vdot_s, vext_s, vlength_s, vnorm_s, vortho_like_s, vscale_s, vset_length_s, vsub_s,
    Vec2, VecOp, VecOpScalar, VecOpVecToScalar, VecOpVecToVec,
};

verus! {

/// A 2D circle.
#[derive(Debug, Copy, Clone)]
pub struct Circle {
    pub center: Vec2,  // The center.
    pub radius: i64,  // The radius.
}

impl Circle {
    /// Creates a new instance.
    pub fn new(center: &Vec2, radius: i64) -> (r: Circle)
        ensures
            r == (Circle { center: *center, radius }),
    {
        Circle { center: *center, radius }
    }
}

/// What deflecting a moving circle with an infinite line returns.
pub open spec fn deflect_line_s(c: Circle, movement: Vec2, obstacle: Line) -> Option<
    Deflection,
> {
    let d0 = Deflection {
        times: Range::empty_s(),
        normal: vortho_like_s(obstacle.delta, vsub_s(c.center, obstacle.origin)),
        deflected: false,
        position: c.center,
        remainder: movement,
        source: Handle { index: 0, generation: 0 },
    };
    let ortho0 = vext_s(vsub_s(c.center, obstacle.origin), obstacle.delta);
    let ortho_dist0 = fabs_s(ortho0);
    let pushed = ortho_dist0 < c.radius as int;
    let d1 = if pushed {
        Deflection {
            times: d0.times.cover_value_s(0),
            position: vadd_s(d0.position, vscale_s(d0.normal, fsub_s(c.radius as int, ortho_dist0))),
            ..d0
        }
    } else {
        d0
    };
    let ortho = if pushed {
        vext_s(vsub_s(d1.position, obstacle.origin), obstacle.delta)
    } else {
        ortho0
    };
    let ortho_dist = fabs_s(ortho);
    let denom = vext_s(movement, obstacle.delta);
    if fabs_s(denom) < EPSILON as int && fabs_s(fsub_s(ortho_dist, c.radius as int)) < (
    EPSILON as int) {
        // Start just touching while moving parallel to the line: skimming.
        Option::Some(Deflection { times: Range::all_s(), ..d1 })
    } else {
        let d2 = Deflection {
            times: d1.times.cover_range_s(
                Range::from_values_s(
                    fdiv_s(fsub_s(fneg_s(ortho), c.radius as int), denom),
                    fdiv_s(fadd_s(fneg_s(ortho), c.radius as int), denom),
                ),
            ),
            ..d1
        };
        let split = split_remainder_s(d2);
        if split.1 {
            Option::None
        } else {
            Option::Some(calc_deflection_s(split.0))
        }
    }
}

/// What deflecting a moving circle with a stationary point returns.
pub open spec fn deflect_point_s(c: Circle, movement: Vec2, obstacle: Vec2) -> Option<
    Deflection,
> {
    let outward = vsub_s(c.center, obstacle);
    let push_out_distance = fsub_s(c.radius as int, vlength_s(outward));
    let position0 = if 0 < push_out_distance {
        vadd_s(c.center, vset_length_s(outward, push_out_distance))
    } else {
        c.center
    };
    let start_offset = vsub_s(position0, obstacle);
    let times = Range::from_quadratic_zeros_s(
        vdot_s(movement, movement),
        fmul_s(2 * (SCALE as int), vdot_s(start_offset, movement)),
        fsub_s(vdot_s(start_offset, start_offset), fmul_s(c.radius as int, c.radius as int)),
    );
    let bounded = times.intersect_s(Range::from_values_s(0, SCALE as int));
    if bounded.is_empty_s() {
        Option::None
    } else {
        let time = bounded.min_s();
        let position1 = vadd_s(position0, vscale_s(movement, time));
        Option::Some(
            calc_deflection_s(
                Deflection {
                    times,
                    normal: vnorm_s(vsub_s(position1, obstacle)),
                    deflected: false,
                    position: position1,
                    remainder: vscale_s(movement, fsub_s(SCALE as int, time)),
                    source: Handle { index: 0, generation: 0 },
                },
            ),
        )
    }
}

/// What deflecting a moving circle with the straight middle part of a line
/// segment returns (the end caps are handled as point obstacles).
pub open spec fn deflect_segment_middle_s(c: Circle, movement: Vec2, obstacle: LineSegment)
    -> Option<Deflection> {
    let d0 = Deflection {
        times: Range::empty_s(),
        normal: vortho_like_s(obstacle.direction, vsub_s(c.center, obstacle.start)),
        deflected: false,
        position: c.center,
        remainder: movement,
        source: Handle { index: 0, generation: 0 },
    };
    let starting_offset = vsub_s(c.center, obstacle.start);
    let ortho0 = vext_s(starting_offset, obstacle.direction);
    let ortho_dist0 = fabs_s(ortho0);
    let distance_along0 = vdot_s(starting_offset, obstacle.direction);
    let pushed = ortho_dist0 < c.radius as int && 0 < distance_along0 && distance_along0 < (
    obstacle.length as int);
    let d1 = if pushed {
        Deflection {
            times: d0.times.cover_value_s(0),
            position: vadd_s(d0.position, vscale_s(d0.normal, fsub_s(c.radius as int, ortho_dist0))),
            ..d0
        }
    } else {
        d0
    };
    let ortho = if pushed {
        vext_s(vsub_s(d1.position, obstacle.start), obstacle.direction)
    } else {
        ortho0
    };
    let ortho_dist = fabs_s(ortho);
    let denom = vext_s(movement, obstacle.direction);
    if fabs_s(denom) < EPSILON as int && fabs_s(fsub_s(ortho_dist, c.radius as int)) < (
    EPSILON as int) {
        // Skimming along the segment's line: like every other contact it
        // counts only between the end points, unless the start was pushed
        // out from between them.
        let skim_along = vdot_s(vsub_s(d1.position, obstacle.start), obstacle.direction);
        if (0 > skim_along || skim_along > obstacle.length as int) && !pushed {
            Option::None
        } else {
            Option::Some(Deflection { times: Range::all_s(), ..d1 })
        }
    } else {
        let d2 = Deflection {
            times: d1.times.cover_range_s(
                Range::from_values_s(
                    fdiv_s(fsub_s(fneg_s(ortho), c.radius as int), denom),
                    fdiv_s(fadd_s(fneg_s(ortho), c.radius as int), denom),
                ),
            ),
            ..d1
        };
        let split = split_remainder_s(d2);
        if split.1 {
            Option::None
        } else {
            // The contact must lie in between the end points, unless the
            // start was pushed out while already between them.
            let d3 = split.0;
            let distance_along = vdot_s(vsub_s(d3.position, obstacle.start), obstacle.direction);
            if 0 > distance_along || distance_along > obstacle.length as int {
                if pushed {
                    Option::Some(d3)
                } else {
                    Option::None
                }
            } else {
                Option::Some(calc_deflection_s(d3))
            }
        }
    }
}

/// What deflecting a moving circle with a full line segment returns: the
/// earliest of the two end-cap contacts and the middle contact.
pub open spec fn deflect_segment_s(c: Circle, movement: Vec2, obstacle: LineSegment) -> Option<
    Deflection,
> {
    let s0 = Seq::<Deflection>::empty();
    let s1 = match deflect_point_s(c, movement, obstacle.start) {
        Option::Some(d) => s0.push(d),
        Option::None => s0,
    };
    let s2 = match deflect_segment_middle_s(c, movement, obstacle) {
        Option::Some(d) => s1.push(d),
        Option::None => s1,
    };
    let s3 = match deflect_point_s(c, movement, obstacle.end) {
        Option::Some(d) => s2.push(d),
        Option::None => s2,
    };
    match crate::geo::collider::try_new_s(s3) {
        Option::None => Option::None,
        Option::Some(parts) => Option::Some(parts.2[0]),
    }
}

/// Any deflection the line solver hands back has a non-empty contact range.
pub proof fn lemma_line_deflection_times(c: Circle, movement: Vec2, obstacle: Line)
    ensures
        deflect_line_s(c, movement, obstacle) matches Option::Some(d)
            ==> !d.times.is_empty_s(),
{
    lemma_all_not_empty();
    if deflect_line_s(c, movement, obstacle) is Some {
        let d = deflect_line_s(c, movement, obstacle)->Some_0;
        if d.times == Range::all_s() {
            assert(!d.times.is_empty_s());
        } else {
            lemma_intersect_nonempty_left(
                d.times,
                Range::from_values_s(0, SCALE as int),
            );
            assert(!d.times.is_empty_s());
        }
    }
}

/// Any deflection the point solver hands back has a non-empty contact range.
pub proof fn lemma_point_deflection_times(c: Circle, movement: Vec2, obstacle: Vec2)
    ensures
        deflect_point_s(c, movement, obstacle) matches Option::Some(d)
            ==> !d.times.is_empty_s(),
{
    if deflect_point_s(c, movement, obstacle) is Some {
        let d = deflect_point_s(c, movement, obstacle)->Some_0;
        lemma_intersect_nonempty_left(d.times, Range::from_values_s(0, SCALE as int));
    }
}

/// Any deflection the segment-middle solver hands back has a non-empty
/// contact range.
pub proof fn lemma_segment_middle_deflection_times(
    c: Circle,
    movement: Vec2,
    obstacle: LineSegment,
)
    ensures
        deflect_segment_middle_s(c, movement, obstacle) matches Option::Some(d)
            ==> !d.times.is_empty_s(),
{
    lemma_all_not_empty();
    if deflect_segment_middle_s(c, movement, obstacle) is Some {
        let d = deflect_segment_middle_s(c, movement, obstacle)->Some_0;
        if d.times == Range::all_s() {
            assert(!d.times.is_empty_s());
        } else {
            lemma_intersect_nonempty_left(
                d.times,
                Range::from_values_s(0, SCALE as int),
            );
            assert(!d.times.is_empty_s());
        }
    }
}

/// Any deflection the full-segment solver hands back has a non-empty
/// contact range.
pub proof fn lemma_segment_deflection_times(c: Circle, movement: Vec2, obstacle: LineSegment)
    ensures
        deflect_segment_s(c, movement, obstacle) matches Option::Some(d)
            ==> !d.times.is_empty_s(),
{
    let s0 = Seq::<Deflection>::empty();
    let s1 = match deflect_point_s(c, movement, obstacle.start) {
        Option::Some(d) => s0.push(d),
        Option::None => s0,
    };
    let s2 = match deflect_segment_middle_s(c, movement, obstacle) {
        Option::Some(d) => s1.push(d),
        Option::None => s1,
    };
    let s3 = match deflect_point_s(c, movement, obstacle.end) {
        Option::Some(d) => s2.push(d),
        Option::None => s2,
    };
    lemma_point_deflection_times(c, movement, obstacle.start);
    lemma_segment_middle_deflection_times(c, movement, obstacle);
    lemma_point_deflection_times(c, movement, obstacle.end);
    lemma_soonest_rec_in_range(s3, 0, FX_INF as int, s3.len() as int);
    assert forall|j: int| 0 <= j < s3.len() implies !(#[trigger] s3[j]).times.is_empty_s() by {}
    if deflect_segment_s(c, movement, obstacle) is Some {
        let winner_index = soonest_s(s3).1;
        assert(0 <= winner_index < s3.len());
    }
}

/// The push-out guarantee: a mover that starts embedded in an infinite
/// line is pushed to its surface and always reports a contact whose time
/// range covers the very start of the step.  Callers rely on this to
/// detect resting contact.
pub proof fn lemma_embedded_line_contact(c: Circle, movement: Vec2, obstacle: Line)
    requires
        fabs_s(vext_s(vsub_s(c.center, obstacle.origin), obstacle.delta)) < c.radius as int,
    ensures
        deflect_line_s(c, movement, obstacle) matches Option::Some(d)
            ==> d.times.contains_exactly_s(0),
        deflect_line_s(c, movement, obstacle) is Some,
{
    let covered = Range::empty_s().cover_value_s(0);
    lemma_cover_value_contains(0);
    let ortho0 = vext_s(vsub_s(c.center, obstacle.origin), obstacle.delta);
    let ortho_dist0 = fabs_s(ortho0);
    let d1_normal = vortho_like_s(obstacle.delta, vsub_s(c.center, obstacle.origin));
    let d1_position = vadd_s(c.center, vscale_s(d1_normal, fsub_s(c.radius as int, ortho_dist0)));
    let ortho = vext_s(vsub_s(d1_position, obstacle.origin), obstacle.delta);
    let ortho_dist = fabs_s(ortho);
    let denom = vext_s(movement, obstacle.delta);
    if fabs_s(denom) < EPSILON as int && fabs_s(fsub_s(ortho_dist, c.radius as int)) < (
    EPSILON as int) {
        // Skimming: the contact range is every value.
        lemma_all_contains(0);
    } else {
        let window = Range::from_values_s(
            fdiv_s(fsub_s(fneg_s(ortho), c.radius as int), denom),
            fdiv_s(fadd_s(fneg_s(ortho), c.radius as int), denom),
        );
        let times = covered.cover_range_s(window);
        lemma_cover_range_keeps(covered, window, 0);
        lemma_from_values_contains_low(0, SCALE as int);
        lemma_intersect_contains(times, Range::from_values_s(0, SCALE as int), 0);
    }
}

/// The same push-out guarantee for the straight middle of a line segment:
/// a mover that starts embedded between the end points always reports a
/// contact whose time range covers the very start of the step.
pub proof fn lemma_embedded_segment_middle_contact(
    c: Circle,
    movement: Vec2,
    obstacle: LineSegment,
)
    requires
        fabs_s(vext_s(vsub_s(c.center, obstacle.start), obstacle.direction)) < c.radius as int,
        0 < vdot_s(vsub_s(c.center, obstacle.start), obstacle.direction),
        vdot_s(vsub_s(c.center, obstacle.start), obstacle.direction) < obstacle.length as int,
    ensures
        deflect_segment_middle_s(c, movement, obstacle) matches Option::Some(d)
            ==> d.times.contains_exactly_s(0),
        deflect_segment_middle_s(c, movement, obstacle) is Some,
{
    let covered = Range::empty_s().cover_value_s(0);
    lemma_cover_value_contains(0);
    let starting_offset = vsub_s(c.center, obstacle.start);
    let ortho0 = vext_s(starting_offset, obstacle.direction);
    let ortho_dist0 = fabs_s(ortho0);
    let d1_normal = vortho_like_s(obstacle.direction, starting_offset);
    let d1_position = vadd_s(c.center, vscale_s(d1_normal, fsub_s(c.radius as int, ortho_dist0)));
    let ortho = vext_s(vsub_s(d1_position, obstacle.start), obstacle.direction);
    let ortho_dist = fabs_s(ortho);
    let denom = vext_s(movement, obstacle.direction);
    if fabs_s(denom) < EPSILON as int && fabs_s(fsub_s(ortho_dist, c.radius as int)) < (
    EPSILON as int) {
        // Skimming: the contact range is every value.
        lemma_all_contains(0);
    } else {
        let window = Range::from_values_s(
            fdiv_s(fsub_s(fneg_s(ortho), c.radius as int), denom),
            fdiv_s(fadd_s(fneg_s(ortho), c.radius as int), denom),
        );
        let times = covered.cover_range_s(window);
        lemma_cover_range_keeps(covered, window, 0);
        lemma_from_values_contains_low(0, SCALE as int);
        lemma_intersect_contains(times, Range::from_values_s(0, SCALE as int), 0);
    }
}

/// The just-touching law for the point solver, on the whole-unit grid: a
/// circle moving straight at a stationary point, with the movement exactly
/// as long as the gap between them, makes contact exactly at the end of
/// the step (time one world unit), is not deflected, and ends with the
/// whole movement executed and nothing left over.
pub proof fn lemma_just_touching_point(c: Vec2, units_distance: int, units_radius: int)
    requires
        0 < units_radius < units_distance <= 500,
        abs_s(c.x as int) <= (FX_INF as int) / 2,
        abs_s(c.y as int) <= (FX_INF as int) / 2,
    ensures
        ({
            let s = SCALE as int;
            let target = Vec2 { x: (c.x + units_distance * s) as i64, y: c.y };
            let movement = Vec2 { x: ((units_distance - units_radius) * s) as i64, y: 0 };
            let mover = Circle { center: c, radius: (units_radius * s) as i64 };
            let touch = deflect_point_s(mover, movement, target);
            &&& touch is Some
            &&& touch->Some_0.times.min_s() == SCALE as int
            &&& !touch->Some_0.deflected
            &&& touch->Some_0.position == vadd_s(c, movement)
            &&& touch->Some_0.remainder == (Vec2 { x: 0, y: 0 })
        }),
{
    let s = SCALE as int;
    let big_d = units_distance;
    let big_r = units_radius;
    let gap_u = big_d - big_r;
    let dd = big_d * s;
    let rr = big_r * s;
    let gap = gap_u * s;
    assert(s <= dd <= 500 * s && s <= rr < dd && s <= gap <= 500 * s && dd == rr + gap)
        by (nonlinear_arith)
        requires
            0 < big_r < big_d <= 500,
            dd == big_d * s,
            rr == big_r * s,
            gap == (big_d - big_r) * s,
            s == 1_000_000,
    ;
    let target = Vec2 { x: (c.x + dd) as i64, y: c.y };
    let movement = Vec2 { x: gap as i64, y: 0 };
    let mover = Circle { center: c, radius: rr as i64 };
    assert(target.x as int == c.x + dd);
    assert(movement.x as int == gap);
    assert(mover.radius as int == rr);

    // Every product the solver computes, evaluated on the unit grid.
    let len2 = big_d * big_d * s;
    let a_val = gap_u * gap_u * s;
    let dot_om = -(big_d * gap_u) * s;
    let b_val = 2 * dot_om;
    let r2 = big_r * big_r * s;
    let c_val = (big_d * big_d - big_r * big_r) * s;
    let denom_val = 2 * a_val;
    let b2_val = 4 * big_d * big_d * gap_u * gap_u * s;
    let four_ac = 4 * gap_u * gap_u * (big_d * big_d - big_r * big_r) * s;
    let det_val = 4 * gap_u * gap_u * big_r * big_r * s;
    let root_val = 2 * gap_u * big_r * s;
    let neg_b = 2 * big_d * gap_u * s;
    let num1 = 2 * gap_u * (big_d + big_r) * s;
    assert((-dd) * (-dd) == s * len2 && len2 * s == dd * dd && 0 < len2 <= 250_000 * s && gap
        * gap == s * a_val && 0 < a_val <= 250_000 * s && (-dd) * gap == s * dot_om && 0 < -(
    dot_om) <= 250_000 * s && rr * rr == s * r2 && r2 * s == rr * rr && 0 < r2 <= 250_000 * s
        && 0 <= c_val <= 250_000 * s && c_val == len2 - r2) by (nonlinear_arith)
        requires
            s == 1_000_000,
            dd == big_d * s,
            rr == big_r * s,
            gap == gap_u * s,
            gap_u == big_d - big_r,
            0 < big_r < big_d <= 500,
            len2 == big_d * big_d * s,
            a_val == gap_u * gap_u * s,
            dot_om == -(big_d * gap_u) * s,
            r2 == big_r * big_r * s,
            c_val == (big_d * big_d - big_r * big_r) * s,
    ;
    assert((2 * s) * dot_om == s * b_val && (2 * s) * a_val == s * denom_val && (4 * s) * a_val
        == s * (4 * a_val) && b_val * b_val == s * b2_val && 0 <= b2_val <= 250_000_000_000 * s
        && (4 * a_val) * c_val == s * four_ac && 0 <= four_ac <= 250_000_000_000 * s && b2_val
        - four_ac == det_val && 4 * s <= det_val <= 250_000_000_000 * s && det_val * s
        == root_val * root_val && 0 < root_val <= 500_000 * s) by (nonlinear_arith)
        requires
            s == 1_000_000,
            gap_u == big_d - big_r,
            0 < big_r < big_d <= 500,
            a_val == gap_u * gap_u * s,
            dot_om == -(big_d * gap_u) * s,
            b_val == 2 * dot_om,
            c_val == (big_d * big_d - big_r * big_r) * s,
            denom_val == 2 * a_val,
            b2_val == 4 * big_d * big_d * gap_u * gap_u * s,
            four_ac == 4 * gap_u * gap_u * (big_d * big_d - big_r * big_r) * s,
            det_val == 4 * gap_u * gap_u * big_r * big_r * s,
            root_val == 2 * gap_u * big_r * s,
    ;
    assert(neg_b + root_val == num1 && neg_b - root_val == denom_val && 0 < neg_b <= 500_000 * s
        && s <= denom_val <= num1 <= 1_000_000 * s && -(b_val) == neg_b) by (nonlinear_arith)
        requires
            s == 1_000_000,
            gap_u == big_d - big_r,
            0 < big_r < big_d <= 500,
            b_val == 2 * (-(big_d * gap_u) * s),
            neg_b == 2 * big_d * gap_u * s,
            root_val == 2 * gap_u * big_r * s,
            denom_val == 2 * (gap_u * gap_u * s),
            num1 == 2 * gap_u * (big_d + big_r) * s,
    ;
    assert(gap * s == s * gap && gap * 0 == s * 0 && 0 * s == s * 0 && 0 * 0 == s * 0 && 0 * (
    -s) == s * 0 && (-rr) * (-rr) == s * r2 && (-rr) * s == rr * (-s) && 0 * s == rr * 0
        && denom_val * s == denom_val * s) by (nonlinear_arith)
        requires
            s == 1_000_000,
            rr == big_r * s,
            r2 == big_r * big_r * s,
            0 < big_r,
    ;

    // The start is exactly `dd` away, so nothing is pushed out.
    let outward = vsub_s(c, target);
    assert(outward == (Vec2 { x: (-dd) as i64, y: 0 }));
    lemma_fmul_exact(-dd, -dd, len2);
    lemma_fmul_exact(0, 0, 0);
    assert(vlength_s(outward) == fsqrt_s(len2)) by {
        assert(fadd_s(len2, 0) == len2);
    }
    lemma_fsqrt_exact(len2, dd);
    assert(!(0 < fsub_s(rr, vlength_s(outward))));

    // The quadratic coefficients land exactly on the grid values above.
    lemma_fmul_exact(gap, gap, a_val);
    assert(vdot_s(movement, movement) == a_val);
    lemma_fmul_exact(-dd, gap, dot_om);
    assert(vdot_s(outward, movement) == dot_om);
    lemma_fmul_exact(2 * s, dot_om, b_val);
    assert(vdot_s(outward, outward) == len2) by {
        assert(fadd_s(len2, 0) == len2);
    }
    lemma_fmul_exact(rr, rr, r2);
    assert(fsub_s(len2, r2) == c_val);

    // The discriminant and its exact square root.
    assert(abs_s(a_val) >= EPSILON as int);
    lemma_quadratic_zeros_unfold(a_val, b_val, c_val);
    lemma_fmul_exact(2 * s, a_val, denom_val);
    lemma_fmul_exact(b_val, b_val, b2_val);
    lemma_fmul_exact(4 * s, a_val, 4 * a_val);
    lemma_fmul_exact(4 * a_val, c_val, four_ac);
    assert(fsub_s(b2_val, four_ac) == det_val);
    lemma_fsqrt_exact(det_val, root_val);

    // The two roots: the near one is exactly one world unit.
    assert(fneg_s(b_val) == neg_b);
    assert(fadd_s(neg_b, root_val) == num1);
    let q1 = (num1 * s) / denom_val;
    vstd::arithmetic::div_mod::lemma_fundamental_div_mod(num1 * s, denom_val);
    vstd::arithmetic::div_mod::lemma_mod_bound(num1 * s, denom_val);
    assert(s <= q1 <= num1) by (nonlinear_arith)
        requires
            num1 * s == denom_val * q1 + (num1 * s) % denom_val,
            0 <= (num1 * s) % denom_val < denom_val,
            0 < s <= denom_val <= num1,
    ;
    assert(fdiv_s(num1, denom_val) == q1) by {
        assert(crate::geo::fixed::trunc_div_s(num1 * s, denom_val) == q1);
    }
    assert(fsub_s(neg_b, root_val) == denom_val);
    lemma_fdiv_exact(denom_val, denom_val, s);

    // Assemble the contact-time range and intersect it with the step.
    let times = Range::from_quadratic_zeros_s(a_val, b_val, c_val);
    assert(times == Range::from_values_s(q1, s));
    lemma_from_values_bounds(q1, s);
    lemma_from_values_bounds(0, s);
    let window = Range::from_values_s(0, s);
    lemma_intersect_bounds(times, window);
    assert(times.intersect_s(window).min_s() == s);

    // The touch position, surface normal, and leftover movement.
    lemma_fmul_exact(gap, s, gap);
    lemma_fmul_exact(0, s, 0);
    let position1 = vadd_s(c, movement);
    assert(vscale_s(movement, s) == movement);
    let back = vsub_s(position1, target);
    assert(back == (Vec2 { x: (-rr) as i64, y: 0 }));
    lemma_fmul_exact(-rr, -rr, r2);
    assert(vlength_s(back) == fsqrt_s(r2)) by {
        assert(fadd_s(r2, 0) == r2);
    }
    lemma_fsqrt_exact(r2, rr);
    lemma_fdiv_exact(-rr, rr, -s);
    lemma_fdiv_exact(0, rr, 0);
    assert(vnorm_s(back) == (Vec2 { x: (-s) as i64, y: 0 }));
    assert(fsub_s(s, s) == 0);
    lemma_fmul_exact(gap, 0, 0);
    assert(vscale_s(movement, 0) == (Vec2 { x: 0, y: 0 }));
    lemma_fmul_exact(0, -s, 0);
    assert(vdot_s(Vec2 { x: 0, y: 0 }, Vec2 { x: (-s) as i64, y: 0 }) == 0);
}

impl Collider<Line> for Circle {
    open spec fn deflect_with_spec(self, movement: Vec2, obstacle: Line) -> Option<Deflection> {
        deflect_line_s(self, movement, obstacle)
    }

    /// Deflects a collider's movement with the given obstacle.
    fn deflect_with(&self, movement: &Vec2, obstacle: &Line) -> (r: Option<Deflection>) {
        let mut deflection = Deflection {
            times: Range::empty(),
            normal: obstacle.delta.ortho_like(self.center.minus(&obstacle.origin)),
            deflected: false,  // Assume not deflected until that part runs.
            position: self.center,
            remainder: *movement,
            source: Handle::from_raw_parts(0, 0),  // Replaced by the caller.
        };

        // Push the start away from the line if it's too close.
        let mut ortho = self.center.minus(&obstacle.origin).ext(obstacle.delta);
        let mut ortho_dist = fx_abs(ortho);
        if ortho_dist < self.radius {
            // Since the start had to move out of the line, it is in
            // contact at the very beginning.
            deflection.times = deflection.times.cover(0i64);
            deflection.position = deflection.position.plus(
                &deflection.normal.scale(fx_sub(self.radius, ortho_dist)),
            );
            // Recalculate now that the starting point has moved.
            ortho = deflection.position.minus(&obstacle.origin).ext(obstacle.delta);
            ortho_dist = fx_abs(ortho);
        }

        // Find if/when the movement would hit.
        let denom = movement.ext(obstacle.delta);
        if fx_abs(denom) < EPSILON && fx_abs(fx_sub(ortho_dist, self.radius)) < EPSILON {
            // Starting just touching and moving parallel to the line:
            // skimming contact over the whole step.
            deflection.times.make_all();
            return Option::Some(deflection);
        }
        deflection.times = deflection.times.cover(
            Range::from_values(
                fx_div(fx_sub(fx_neg(ortho), self.radius), denom),
                fx_div(fx_add(fx_neg(ortho), self.radius), denom),
            ),
        );

        // If no time between the start and the end of the step, there was
        // no hit.
        if deflection.split_remainder() {
            return Option::None;
        }

        // The circle did contact the line; decide whether the contact
        // actually redirected the movement.
        deflection.calc_deflection();
        Option::Some(deflection)
    }
}

impl Collider<Vec2> for Circle {
    open spec fn deflect_with_spec(self, movement: Vec2, obstacle: Vec2) -> Option<Deflection> {
        deflect_point_s(self, movement, obstacle)
    }

    /// Deflects a collider's movement with the given obstacle.
    fn deflect_with(&self, movement: &Vec2, obstacle: &Vec2) -> (r: Option<Deflection>) {
        // Check if starting inside; if so push the start to the surface.
        let mut position = self.center;
        let outward = self.center.minus(obstacle);
        let push_out_distance = fx_sub(self.radius, outward.length());
        if 0 < push_out_distance {
            position = position.plus(&outward.set_length(push_out_distance));
        }

        // Find when it would hit (if ever).
        let start_offset = position.minus(obstacle);
        let mut deflection = Deflection {
            times: Range::from_quadratic_zeros(
                movement.dot(*movement),
                fx_mul(2 * SCALE, start_offset.dot(*movement)),
                fx_sub(start_offset.dot(start_offset), fx_mul(self.radius, self.radius)),
            ),
            normal: Vec2::zero(),
            deflected: false,  // Assume not deflected until that part runs.
            position,
            remainder: *movement,
            source: Handle::from_raw_parts(0, 0),  // Replaced by the caller.
        };

        // If no time between the start and the end of the step, there was
        // no hit.
        let bounded = deflection.times.intersect(Range::from_values(0, SCALE));
        if bounded.is_empty() {
            return Option::None;
        }
        let time = match bounded.min() {
            Option::Some(t) => t,
            Option::None => unreached(),
        };
        proof {
            lemma_range_bounds_fit(bounded);
        }
        deflection.position = deflection.position.plus(&movement.scale(time));
        deflection.normal = deflection.position.minus(obstacle).norm();
        deflection.remainder = deflection.remainder.scale(fx_sub(SCALE, time));

        // The circle did contact the point; decide whether the contact
        // actually redirected the movement.
        deflection.calc_deflection();
        Option::Some(deflection)
    }
}

/// For just the deflections that occur when the circle hits the straight
/// part of a line segment's geometry (the part between the end points, as
/// opposed to the rounded end-point caps).
pub fn deflect_with_line_segment_middle(
    circle: &Circle,
    movement: &Vec2,
    obstacle: &LineSegment,
) -> (r: Option<Deflection>)
    ensures
        r == deflect_segment_middle_s(*circle, *movement, *obstacle),
{
    let mut deflection = Deflection {
        times: Range::empty(),
        normal: obstacle.direction.ortho_like(circle.center.minus(&obstacle.start)),
        deflected: false,  // Assume not deflected until that part runs.
        position: circle.center,
        remainder: *movement,
        source: Handle::from_raw_parts(0, 0),  // Replaced by the caller.
    };

    // Push the start away from the segment's line if it's too close and
    // lies between the end points.
    let starting_offset = circle.center.minus(&obstacle.start);
    let mut ortho = starting_offset.ext(obstacle.direction);
    let mut ortho_dist = fx_abs(ortho);
    let mut distance_along = starting_offset.dot(obstacle.direction);
    let moved = ortho_dist < circle.radius && 0 < distance_along && distance_along
        < obstacle.length;
    if moved {
        // Since the start had to move out of the line, it is in contact at
        // the very beginning.
        deflection.times = deflection.times.cover(0i64);
        deflection.position = deflection.position.plus(
            &deflection.normal.scale(fx_sub(circle.radius, ortho_dist)),
        );
        // Recalculate now that the starting point has moved.
        ortho = deflection.position.minus(&obstacle.start).ext(obstacle.direction);
        ortho_dist = fx_abs(ortho);
    }

    // Find if/when the movement would hit.
    let denom = movement.ext(obstacle.direction);
    if fx_abs(denom) < EPSILON && fx_abs(fx_sub(ortho_dist, circle.radius)) < EPSILON {
        // Starting just touching and moving parallel to the line: skimming
        // contact over the whole step.  Like every other contact it counts
        // only between the end points, unless the start was pushed out
        // from between them.
        let skim_along = deflection.position.minus(&obstacle.start).dot(obstacle.direction);
        if (0 > skim_along || skim_along > obstacle.length) && !moved {
            return Option::None;
        }
        deflection.times.make_all();
        return Option::Some(deflection);
    }
    deflection.times = deflection.times.cover(
        Range::from_values(
            fx_div(fx_sub(fx_neg(ortho), circle.radius), denom),
            fx_div(fx_add(fx_neg(ortho), circle.radius), denom),
        ),
    );

    // If no time between the start and the end of the step, there was no
    // hit.
    if deflection.split_remainder() {
        return Option::None;
    }

    // Make sure the deflection occurs in between the end points. If not
    // then there is no deflection, unless the start was pushed out while
    // already between them (that contact must still be reported).
    distance_along = deflection.position.minus(&obstacle.start).dot(obstacle.direction);
    if 0 > distance_along || distance_along > obstacle.length {
        return if moved {
            Option::Some(deflection)
        } else {
            Option::None
        };
    }

    // The circle did contact the segment; decide whether the contact
    // actually redirected the movement.
    deflection.calc_deflection();
    Option::Some(deflection)
}

impl Collider<LineSegment> for Circle {
    open spec fn deflect_with_spec(self, movement: Vec2, obstacle: LineSegment) -> Option<
        Deflection,
    > {
        deflect_segment_s(self, movement, obstacle)
    }

    /// Deflects a collider's movement with the given obstacle: the two end
    /// caps are solved as point obstacles, the middle as a bounded line,
    /// and the earliest of the up-to-three contacts wins.
    fn deflect_with(&self, movement: &Vec2, obstacle: &LineSegment) -> (r: Option<Deflection>) {
        let mut deflections: Vec<Deflection> = Vec::new();
        if let Option::Some(deflection) = self.deflect_with(movement, &obstacle.start) {
            deflections.push(deflection);
        }
        if let Option::Some(deflection) = deflect_with_line_segment_middle(
            self,
            movement,
            obstacle,
        ) {
            deflections.push(deflection);
        }
        if let Option::Some(deflection) = self.deflect_with(movement, &obstacle.end) {
            deflections.push(deflection);
        }
        proof {
            lemma_point_deflection_times(*self, *movement, obstacle.start);
            lemma_segment_middle_deflection_times(*self, *movement, *obstacle);
            lemma_point_deflection_times(*self, *movement, obstacle.end);
        }
        match TotalDeflection::try_new(deflections) {
            Option::Some(total) => {
                let mut firsts = total.deflections;
                Option::Some(firsts.remove(0))
            },
            Option::None => Option::None,
        }
    }
}

} // verus!
