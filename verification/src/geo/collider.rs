//! The result of deflecting a moving circle with one obstacle, and the
//! combiner that merges the deflections of every obstacle seen in one
//! movement step into a single authoritative contact plus a slide-adjusted
//! final position.

use vstd::prelude::*;

use crate::geo::fixed::{fsub_s, fx_sub, EPSILON, FX_INF, SCALE};
use crate::geo::range::{Range, RangeIntersect};
use crate::geo::vec2::{
    vadd_s, vdot_s, vext_s, vlength_s, vscale_s, vsub_s, Vec2, VecOpScalar, VecOpVecToScalar,
};

verus! {

broadcast use crate::geo::range::lemma_range_bounds_fit;

/// A stable reference to one piece of collision geometry in a registry.
#[derive(Debug, Clone, Copy, PartialEq, Eq, Structural)]
pub struct Handle {
    pub index: usize,  // The slot in the registry.
    pub generation: u64,  // The age of the slot when the entry was made.
}

impl Handle {
    /// Builds a handle from its raw parts.
    pub fn from_raw_parts(index: usize, generation: u64) -> (r: Handle)
        ensures
            r == (Handle { index, generation }),
    {
        Handle { index, generation }
    }
}

/// The result of deflecting a collider.
#[derive(Debug, Clone, Copy)]
pub struct Deflection {
    /// When in contact with the obstacle. Zero means at start. `SCALE`
    /// (one world unit) means at end.
    pub times: Range,
    /// The surface normal. Should be pointing away from the surface toward
    /// the collider. Must be unit length.
    pub normal: Vec2,
    /// Whether a deflection occurred. If false, then just passing back that
    /// the collider was in contact with some surface.
    pub deflected: bool,
    /// The position of the collider when the deflection happened.
    pub position: Vec2,
    /// The remaining (deflected) movement.
    pub remainder: Vec2,
    /// A way to keep track of which piece of collision geometry caused this.
    pub source: Handle,
}

pub trait Collider<Obstacle> {
    /// What `deflect_with` returns.
    spec fn deflect_with_spec(self, movement: Vec2, obstacle: Obstacle) -> Option<Deflection>;

    /// Deflects a collider's movement with the given obstacle.
    fn deflect_with(&self, movement: &Vec2, obstacle: &Obstacle) -> (r: Option<Deflection>)
        ensures
            r == self.deflect_with_spec(*movement, *obstacle),
    ;
}

/// What `split_remainder` leaves behind: the updated deflection and the
/// "give up" flag (true when no contact time lies within the step).
pub open spec fn split_remainder_s(d: Deflection) -> (Deflection, bool) {
    let bounded = d.times.intersect_s(Range::from_values_s(0, SCALE as int));
    if !bounded.is_empty_s() {
        let time = bounded.min_s();
        (
            Deflection {
                position: vadd_s(d.position, vscale_s(d.remainder, time)),
                remainder: vscale_s(d.remainder, fsub_s(SCALE as int, time)),
                ..d
            },
            false,
        )
    } else {
        (d, true)
    }
}

/// What `calc_deflection` leaves behind.
pub open spec fn calc_deflection_s(d: Deflection) -> Deflection {
    let coincidence = vdot_s(d.remainder, d.normal);
    if -(EPSILON as int) <= coincidence {
        // Moving away from the wall or parallel to it.
        Deflection { deflected: false, ..d }
    } else {
        Deflection {
            deflected: true,
            remainder: vadd_s(d.remainder, vscale_s(d.normal, -coincidence)),
            ..d
        }
    }
}

impl Deflection {
    /// Completes a common part of deflection calculation: verifying that
    /// `times` reaches into the step (between 0 and one world unit), and
    /// using its earliest in-step time to split the movement between
    /// `position` and `remainder`.
    ///
    /// Returns true when `times` was entirely outside the step; the caller
    /// should then give up on this obstacle.
    pub fn split_remainder(&mut self) -> (invalid: bool)
        ensures
            (*final(self), invalid) == split_remainder_s(*old(self)),
    {
        let bounded = self.times.intersect(Range::from_values(0, SCALE));
        if !bounded.is_empty() {
            let time = match bounded.min() {
                Option::Some(t) => t,
                Option::None => unreached(),
            };
            proof {
                crate::geo::range::lemma_range_bounds_fit(bounded);
                assert(bounded == old(self).times.intersect_s(Range::from_values_s(0, SCALE as int)));
                assert(time as int == bounded.min_s());
            }
            self.position = self.position.plus(&self.remainder.scale(time));
            self.remainder = self.remainder.scale(fx_sub(SCALE, time));
            false
        } else {
            true
        }
    }

    /// Completes calculating a deflection: decides whether the remaining
    /// movement actually penetrates the surface, and if so projects the
    /// penetrating component out of it.
    ///
    /// This assumes `split_remainder` has run: `normal` must be the surface
    /// normal (toward the collider), and `remainder` the not-yet-executed
    /// part of the movement.
    pub fn calc_deflection(&mut self)
        ensures
            *final(self) == calc_deflection_s(*old(self)),
    {
        let coincidence = self.remainder.dot(self.normal);
        if -EPSILON <= coincidence {
            // Positive or zero coincidence means moving away from the wall
            // or perpendicular to it.
            self.deflected = false;
        } else {
            self.deflected = true;
            self.remainder = self.remainder.plus(&self.normal.scale(-coincidence));
        }
    }
}

/// The result of combining one or more Deflection()s together.
#[derive(Debug)]
pub struct TotalDeflection {
    /// The final position of the collider after the collision.
    pub final_position: Vec2,
    /// All unique surface normals found at the point of collision.
    pub normals: Vec<Vec2>,
    /// All of the deflections that applied during the collision.
    /// This includes ones that were in contact but didn't alter the
    /// movement.
    ///
    /// The first is always the one that's considered **the** deflection
    /// that occurred.
    pub deflections: Vec<Deflection>,
}

/// Whether two surface normals count as the same (their difference is
/// shorter than the tolerance).
pub open spec fn close_normal_s(a: Vec2, b: Vec2) -> bool {
    vlength_s(vsub_s(a, b)) < EPSILON as int
}

/// Whether some already-collected normal counts as the same as `n`.
pub open spec fn has_close_normal_s(normals: Seq<Vec2>, n: Vec2) -> bool {
    exists|k: int| 0 <= k < normals.len() && #[trigger] close_normal_s(normals[k], n)
}

/// One pass of the normal-rejection slide: walks the normals accumulated
/// so far, dropping movement components that push into a surface, and
/// zeroing everything once surfaces on both sides of the movement have
/// rejected it (the collider is wedged in a corner).
pub open spec fn limit_rec_s(
    movement: Vec2,
    normals: Seq<Vec2>,
    i: int,
    on_pos: bool,
    on_neg: bool,
    result: Vec2,
) -> Vec2
    decreases normals.len() - i,
{
    if i < 0 || i >= normals.len() {
        result
    } else {
        let normal = normals[i];
        if vdot_s(movement, normal) > EPSILON as int {
            // The normal is in the direction of movement: ignore it.
            limit_rec_s(movement, normals, i + 1, on_pos, on_neg, result)
        } else {
            let pos = vext_s(movement, normal) < 0;
            let on_pos2 = on_pos || pos;
            let on_neg2 = on_neg || !pos;
            let result2 = vsub_s(result, vscale_s(normal, vdot_s(normal, result)));
            if on_pos2 && on_neg2 {
                Vec2 { x: 0, y: 0 }
            } else {
                limit_rec_s(movement, normals, i + 1, on_pos2, on_neg2, result2)
            }
        }
    }
}

/// What `limit_movement_with_normals` returns.
pub open spec fn limit_movement_s(movement: Vec2, normals: Seq<Vec2>) -> Vec2 {
    limit_rec_s(movement, normals, 0, false, false, movement)
}

/// Limits the given input vector according to a set of normals passed in.
///
/// Movement components that push into any normal are projected out; if
/// normals on both sides of the movement reject it, the collider is wedged
/// and the whole movement is zeroed.
pub fn limit_movement_with_normals(movement: &Vec2, normals: &Vec<Vec2>) -> (r: Vec2)
    ensures
        r == limit_movement_s(*movement, normals@),
{
    let mut on_pos: bool = false;
    let mut on_neg: bool = false;
    let mut result = *movement;
    let mut i: usize = 0;
    while i < normals.len()
        invariant
            0 <= i <= normals.len(),
            limit_rec_s(*movement, normals@, i as int, on_pos, on_neg, result)
                == limit_movement_s(*movement, normals@),
        decreases normals.len() - i,
    {
        let normal = normals[i];
        // Ignore the normal if it is in the direction of movement (but not
        // if it is perpendicular).
        if movement.dot(normal) > EPSILON {
            i = i + 1;
            continue ;
        }
        // Check which side of the movement it is on.
        if 0 > movement.ext(normal) {
            on_pos = true;
        } else {
            on_neg = true;
        }
        // Remove the normal's component from the movement.
        result = result.minus(&normal.scale(normal.dot(result)));
        if on_pos && on_neg {
            return Vec2::new(0, 0);
        }
        i = i + 1;
    }
    result
}

/// The inductive core of the corner-wedge rule: if, beyond the flags
/// already set, the rest of the list still holds a rejecting normal for
/// each missing side, the scan ends in the zero vector.
proof fn lemma_limit_rec_wedged(
    movement: Vec2,
    normals: Seq<Vec2>,
    i: int,
    on_pos: bool,
    on_neg: bool,
    result: Vec2,
)
    requires
        0 <= i,
        !(on_pos && on_neg),
        on_pos || exists|k: int|
            i <= k < normals.len() && #[trigger] vdot_s(movement, normals[k]) <= EPSILON as int
                && vext_s(movement, normals[k]) < 0,
        on_neg || exists|k: int|
            i <= k < normals.len() && #[trigger] vdot_s(movement, normals[k]) <= EPSILON as int
                && !(vext_s(movement, normals[k]) < 0),
    ensures
        limit_rec_s(movement, normals, i, on_pos, on_neg, result) == (Vec2 { x: 0, y: 0 }),
    decreases normals.len() - i,
{
    assert(i < normals.len());
    let normal = normals[i];
    if vdot_s(movement, normal) > EPSILON as int {
        // The witnesses cannot be at `i`, so they survive the skip.
        if !on_pos {
            let w = choose|k: int|
                i <= k < normals.len() && #[trigger] vdot_s(movement, normals[k])
                    <= EPSILON as int && vext_s(movement, normals[k]) < 0;
            assert(i + 1 <= w < normals.len() && vdot_s(movement, normals[w]) <= EPSILON as int
                && vext_s(movement, normals[w]) < 0);
        }
        if !on_neg {
            let w = choose|k: int|
                i <= k < normals.len() && #[trigger] vdot_s(movement, normals[k])
                    <= EPSILON as int && !(vext_s(movement, normals[k]) < 0);
            assert(i + 1 <= w < normals.len() && vdot_s(movement, normals[w]) <= EPSILON as int
                && !(vext_s(movement, normals[w]) < 0));
        }
        lemma_limit_rec_wedged(movement, normals, i + 1, on_pos, on_neg, result);
    } else {
        let pos = vext_s(movement, normal) < 0;
        let on_pos2 = on_pos || pos;
        let on_neg2 = on_neg || !pos;
        let result2 = vsub_s(result, vscale_s(normal, vdot_s(normal, result)));
        if on_pos2 && on_neg2 {
            // Both sides have rejected the movement: the scan zeroes it.
        } else if pos {
            // The missing side's witness is strictly later in the list.
            let w = choose|k: int|
                i <= k < normals.len() && #[trigger] vdot_s(movement, normals[k])
                    <= EPSILON as int && !(vext_s(movement, normals[k]) < 0);
            assert(i + 1 <= w < normals.len() && vdot_s(movement, normals[w]) <= EPSILON as int
                && !(vext_s(movement, normals[w]) < 0));
            lemma_limit_rec_wedged(movement, normals, i + 1, on_pos2, on_neg2, result2);
        } else {
            let w = choose|k: int|
                i <= k < normals.len() && #[trigger] vdot_s(movement, normals[k])
                    <= EPSILON as int && vext_s(movement, normals[k]) < 0;
            assert(i + 1 <= w < normals.len() && vdot_s(movement, normals[w]) <= EPSILON as int
                && vext_s(movement, normals[w]) < 0);
            lemma_limit_rec_wedged(movement, normals, i + 1, on_pos2, on_neg2, result2);
        }
    }
}

/// The corner-wedge rule: when the collected normals reject the movement
/// from both sides of its direction (one with the movement on its
/// positive side, one on its negative side), the normal-rejection slide
/// zeroes the movement entirely -- the mover is wedged, whatever else the
/// list holds.
pub proof fn lemma_wedged_normals_zero_movement(movement: Vec2, normals: Seq<Vec2>)
    requires
        exists|k: int|
            0 <= k < normals.len() && #[trigger] vdot_s(movement, normals[k]) <= EPSILON as int
                && vext_s(movement, normals[k]) < 0,
        exists|k: int|
            0 <= k < normals.len() && #[trigger] vdot_s(movement, normals[k]) <= EPSILON as int
                && !(vext_s(movement, normals[k]) < 0),
    ensures
        limit_movement_s(movement, normals) == (Vec2 { x: 0, y: 0 }),
{
    lemma_limit_rec_wedged(movement, normals, 0, false, false, movement);
}

/// The earliest actionable contact time of a deflection: the start of its
/// contact range, clamped up to the start of the step.
pub open spec fn clamped_start_s(d: Deflection) -> int {
    if d.times.min_s() < 0 {
        0
    } else {
        d.times.min_s()
    }
}

/// The scan for the earliest deflected entry: returns the winning time and
/// index, or `items.len()` as the index when nothing was deflected.
pub open spec fn soonest_rec_s(items: Seq<Deflection>, i: int, best_time: int, best_index: int) -> (
    int,
    int,
)
    decreases items.len() - i,
{
    if i < 0 || i >= items.len() {
        (best_time, best_index)
    } else {
        let d = items[i];
        if d.deflected && (best_index == items.len() || clamped_start_s(d) < best_time) {
            soonest_rec_s(items, i + 1, clamped_start_s(d), i)
        } else {
            soonest_rec_s(items, i + 1, best_time, best_index)
        }
    }
}

/// The winning (time, index) over the whole list.
pub open spec fn soonest_s(items: Seq<Deflection>) -> (int, int) {
    soonest_rec_s(items, 0, FX_INF as int, items.len() as int)
}

/// The winning index of the earliest-deflection scan is either the list
/// length (nothing was deflected) or a valid index of a deflected entry.
pub proof fn lemma_soonest_rec_in_range(
    items: Seq<Deflection>,
    i: int,
    best_time: int,
    best_index: int,
)
    requires
        best_index == items.len() || (0 <= best_index < items.len()
            && items[best_index].deflected),
    ensures
        ({
            let r = soonest_rec_s(items, i, best_time, best_index);
            r.1 == items.len() || (0 <= r.1 < items.len() && items[r.1].deflected)
        }),
    decreases items.len() - i,
{
    if i < 0 || i >= items.len() {
    } else {
        let d = items[i];
        if d.deflected && (best_index == items.len() || clamped_start_s(d) < best_time) {
            lemma_soonest_rec_in_range(items, i + 1, clamped_start_s(d), i);
        } else {
            lemma_soonest_rec_in_range(items, i + 1, best_time, best_index);
        }
    }
}

/// The second pass: keeps the deflections whose contact range contains the
/// winning time and collects their normals, deduplicated within tolerance.
pub open spec fn combine_rec_s(
    items: Seq<Deflection>,
    i: int,
    t: int,
    kept: Seq<Deflection>,
    normals: Seq<Vec2>,
) -> (Seq<Deflection>, Seq<Vec2>)
    decreases items.len() - i,
{
    if i < 0 || i >= items.len() {
        (kept, normals)
    } else {
        let d = items[i];
        if d.times.contains_s(t) {
            let normals2 = if has_close_normal_s(normals, d.normal) {
                normals
            } else {
                normals.push(d.normal)
            };
            combine_rec_s(items, i + 1, t, kept.push(d), normals2)
        } else {
            combine_rec_s(items, i + 1, t, kept, normals)
        }
    }
}

/// Everything `try_new` computes, over the input sequence: `None` when no
/// deflection was marked `deflected`, else the winning deflection first,
/// the other still-active deflections after it, the deduplicated normals,
/// and the slide-limited final position.
pub open spec fn try_new_s(items: Seq<Deflection>) -> Option<(Vec2, Seq<Vec2>, Seq<Deflection>)> {
    let (best_time, best_index) = soonest_s(items);
    if best_index == items.len() {
        Option::None
    } else {
        let winner = items[best_index];
        let rest = items.remove(best_index);
        let (kept, normals) = combine_rec_s(
            rest,
            0,
            best_time,
            Seq::<Deflection>::empty(),
            seq![winner.normal],
        );
        let final_remainder = limit_movement_s(winner.remainder, normals);
        Option::Some(
            (vadd_s(winner.position, final_remainder), normals, seq![winner] + kept),
        )
    }
}

impl TotalDeflection {
    /// Combines multiple Deflections.
    ///
    /// Always yields the nearest. If there are multiple that fit that
    /// description, chooses the first. If more than one unique normal
    /// applies at that time, the movement left after the contact is slid
    /// along the combined surfaces (and zeroed when wedged between two
    /// opposing ones).
    pub fn try_new(items: Vec<Deflection>) -> (r: Option<TotalDeflection>)
        requires
            forall|j: int|
                0 <= j < items@.len() && (#[trigger] items@[j]).deflected
                    ==> !items@[j].times.is_empty_s(),
        ensures
            match r {
                Option::None => try_new_s(items@) is None,
                Option::Some(total) => {
                    &&& try_new_s(items@) matches Option::Some(parts)
                    &&& total.final_position == parts.0
                    &&& total.normals@ == parts.1
                    &&& total.deflections@ == parts.2
                    &&& total.deflections@.len() >= 1
                    &&& total.deflections@[0].deflected
                    &&& !total.deflections@[0].times.is_empty_s()
                },
            },
    {
        let ghost input_items = items@;
        let mut items = items;

        // First pass: find the Deflection with the earliest start time.
        let mut soonest_time: i64 = FX_INF;
        let mut soonest_index: usize = items.len();
        let mut index: usize = 0;
        while index < items.len()
            invariant
                0 <= index <= items@.len(),
                items@ == input_items,
                soonest_index as int <= items@.len(),
                soonest_index as int == items@.len() || soonest_index < index,
                soonest_index as int == items@.len() || items@[soonest_index as int].deflected,
                forall|j: int|
                    0 <= j < items@.len() && (#[trigger] items@[j]).deflected
                        ==> !items@[j].times.is_empty_s(),
                soonest_rec_s(items@, index as int, soonest_time as int, soonest_index as int)
                    == soonest_s(items@),
            decreases items@.len() - index,
        {
            let ghost prev_time = soonest_time;
            let ghost prev_index = soonest_index;
            let new = &items[index];
            if new.deflected {
                let mut new_time = match new.times.min() {
                    Option::Some(t) => t,
                    Option::None => unreached(),
                };
                if 0 > new_time {
                    new_time = 0;
                }
                if soonest_index == items.len() || new_time < soonest_time {
                    soonest_time = new_time;
                    soonest_index = index;
                }
            }
            proof {
                crate::geo::range::lemma_range_bounds_fit(items@[index as int].times);
                assert(soonest_rec_s(items@, index as int, prev_time as int, prev_index as int)
                    == soonest_rec_s(
                    items@,
                    index as int + 1,
                    soonest_time as int,
                    soonest_index as int,
                ));
            }
            index = index + 1;
        }

        // If no soonest, then no collision.
        if soonest_index == items.len() {
            return Option::None;
        }

        // Then extract the winner, so the rest can be walked on their own.
        let deflection = items.remove(soonest_index);

        // Second pass: keep only the deflections that apply at the winning
        // time, collecting their unique normals as we go.
        let mut normals: Vec<Vec2> = Vec::new();
        normals.push(deflection.normal);
        let mut kept: Vec<Deflection> = Vec::new();
        let mut i: usize = 0;
        while i < items.len()
            invariant
                0 <= i <= items@.len(),
                combine_rec_s(items@, i as int, soonest_time as int, kept@, normals@)
                    == combine_rec_s(
                    items@,
                    0,
                    soonest_time as int,
                    Seq::<Deflection>::empty(),
                    seq![deflection.normal],
                ),
            decreases items@.len() - i,
        {
            let ghost prev_kept = kept@;
            let ghost prev_normals = normals@;
            let hit = &items[i];
            if hit.times.contains(soonest_time) {
                let new_normal = hit.normal;
                let mut unique = true;
                let mut k: usize = 0;
                while unique && k < normals.len()
                    invariant
                        0 <= k <= normals@.len(),
                        normals@ == prev_normals,
                        unique ==> forall|m: int|
                            0 <= m < k ==> !#[trigger] close_normal_s(normals@[m], new_normal),
                        !unique ==> has_close_normal_s(normals@, new_normal),
                    decreases normals@.len() - k + if unique {
                        1int
                    } else {
                        0int
                    },
                {
                    if normals[k].minus(&new_normal).length() < EPSILON {
                        unique = false;
                        proof {
                            assert(close_normal_s(normals@[k as int], new_normal));
                        }
                    } else {
                        k = k + 1;
                    }
                }
                if unique {
                    proof {
                        assert forall|m: int| 0 <= m < normals@.len() implies !close_normal_s(
                            normals@[m],
                            new_normal,
                        ) by {}
                        assert(!has_close_normal_s(normals@, new_normal));
                    }
                    normals.push(new_normal);
                }
                kept.push(*hit);
            }
            proof {
                assert(combine_rec_s(
                    items@,
                    i as int,
                    soonest_time as int,
                    prev_kept,
                    prev_normals,
                ) == combine_rec_s(items@, i as int + 1, soonest_time as int, kept@, normals@));
            }
            i = i + 1;
        }

        // Always put the winner first.
        let remainder = deflection.remainder;
        let mut deflections: Vec<Deflection> = Vec::new();
        deflections.push(deflection);
        let mut j: usize = 0;
        while j < kept.len()
            invariant
                0 <= j <= kept@.len(),
                deflections@ == seq![deflection] + kept@.take(j as int),
            decreases kept@.len() - j,
        {
            deflections.push(kept[j]);
            j = j + 1;
        }
        proof {
            assert(kept@.take(kept@.len() as int) == kept@);
        }

        // Try limiting the remainder vector with the surface normal(s).
        let final_remainder = limit_movement_with_normals(&remainder, &normals);

        Option::Some(
            TotalDeflection {
                final_position: deflections[0].position.plus(&final_remainder),
                normals,
                deflections,
            },
        )
    }
}

} // verus!
