//! The collision system: an index-stable registry of obstacles (with
//! enable/disable flags), the one-step solve against every active obstacle,
//! and the iterative solve-and-slide loop that resolves a whole movement.

use vstd::prelude::*;

use crate::geo::circle::{
    deflect_line_s, deflect_point_s, deflect_segment_s, lemma_point_deflection_times, Circle,
};
use crate::geo::collider::{try_new_s, Collider, Deflection, Handle, TotalDeflection};
use crate::geo::fixed::{fadd_s, fsub_s, fx_add, fx_sub, EPSILON, FX_INF, SCALE};
use crate::geo::line::Line;
use crate::geo::line_segment::LineSegment;
use crate::geo::range::lemma_range_bounds_fit;
use crate::geo::vec2::{
    vadd_s, vdot_s, vlength_s, vscale_s, vsub_s, Vec2, VecOpScalar, VecOpVecToScalar,
};

verus! {

/// The types of obstacles that a Circle() collider can hit.
#[derive(Debug, Clone, Copy)]
pub enum CircleObstacle {
    LineSegment(LineSegment),
    Line(Line),
    Point(Vec2),
    Circle(Circle),
}

/// A general object representing a specific piece of collision geometry.
#[derive(Debug, Clone, Copy)]
pub struct CollisionObstacle {
    /// The CircleObstacle that is what's collided against.
    pub geometry: CircleObstacle,
    /// Whether this obstacle should be collided against.
    pub active: bool,
}

/// The max number of iterations that collisions are allowed to go through.
pub const COLLISION_ITERATION_MAX: usize = 5;

/// What one (mover, obstacle) solve returns, by obstacle kind.  A circle
/// obstacle is reduced to a point by inflating the mover's radius.
pub open spec fn deflect_obstacle_s(circle: Circle, movement: Vec2, geometry: CircleObstacle)
    -> Option<Deflection> {
    match geometry {
        CircleObstacle::LineSegment(segment) => deflect_segment_s(circle, movement, segment),
        CircleObstacle::Line(line) => deflect_line_s(circle, movement, line),
        CircleObstacle::Point(position) => deflect_point_s(circle, movement, position),
        CircleObstacle::Circle(other) => deflect_point_s(
            Circle {
                center: circle.center,
                radius: fadd_s(circle.radius as int, other.radius as int) as i64,
            },
            movement,
            other.center,
        ),
    }
}

/// The deflections of every active obstacle from `i` on, each stamped with
/// the handle of the obstacle that produced it.
pub open spec fn step_hits_s(
    obstacles: Seq<CollisionObstacle>,
    circle: Circle,
    movement: Vec2,
    i: int,
    acc: Seq<Deflection>,
) -> Seq<Deflection>
    decreases obstacles.len() - i,
{
    if i < 0 || i >= obstacles.len() {
        acc
    } else {
        let entry = obstacles[i];
        if !entry.active {
            step_hits_s(obstacles, circle, movement, i + 1, acc)
        } else {
            match deflect_obstacle_s(circle, movement, entry.geometry) {
                Option::Some(d) => step_hits_s(
                    obstacles,
                    circle,
                    movement,
                    i + 1,
                    acc.push(Deflection { source: Handle { index: i as usize, generation: 0 }, ..d }),
                ),
                Option::None => step_hits_s(obstacles, circle, movement, i + 1, acc),
            }
        }
    }
}

/// What one round of collision detection returns, as the final position,
/// the unique normals, and the applicable deflections.
pub open spec fn collide_step_s(
    obstacles: Seq<CollisionObstacle>,
    circle: Circle,
    movement: Vec2,
) -> Option<(Vec2, Seq<Vec2>, Seq<Deflection>)> {
    try_new_s(step_hits_s(obstacles, circle, movement, 0, Seq::<Deflection>::empty()))
}

/// Whether an executable `TotalDeflection` carries exactly the parts the
/// specification describes.
pub open spec fn matches_total_s(t: TotalDeflection, parts: (Vec2, Seq<Vec2>, Seq<Deflection>))
    -> bool {
    t.final_position == parts.0 && t.normals@ == parts.1 && t.deflections@ == parts.2
}

/// The whole-frame resolution: repeatedly solve one step with the movement
/// that remains, until nothing is hit, the remaining movement is within
/// tolerance of zero, or the iteration budget runs out.
pub open spec fn collide_circle_s(
    obstacles: Seq<CollisionObstacle>,
    position: Vec2,
    radius: i64,
    movement: Vec2,
    fuel: nat,
) -> Seq<(Vec2, Seq<Vec2>, Seq<Deflection>)>
    decreases fuel,
{
    if fuel == 0 {
        Seq::empty()
    } else {
        match collide_step_s(obstacles, Circle { center: position, radius }, movement) {
            Option::None => Seq::empty(),
            Option::Some(parts) => {
                let contact_position = parts.2[0].position;
                let new_movement = vsub_s(parts.0, contact_position);
                if vlength_s(new_movement) < EPSILON as int {
                    seq![parts]
                } else {
                    seq![parts] + collide_circle_s(
                        obstacles,
                        contact_position,
                        radius,
                        new_movement,
                        (fuel - 1) as nat,
                    )
                }
            },
        }
    }
}

/// Any deflection a whole-obstacle solve hands back has a non-empty
/// contact range.
pub proof fn lemma_obstacle_deflection_times(
    circle: Circle,
    movement: Vec2,
    geometry: CircleObstacle,
)
    ensures
        deflect_obstacle_s(circle, movement, geometry) matches Option::Some(d)
            ==> !d.times.is_empty_s(),
{
    match geometry {
        CircleObstacle::LineSegment(segment) => {
            crate::geo::circle::lemma_segment_deflection_times(circle, movement, segment);
        },
        CircleObstacle::Line(line) => {
            crate::geo::circle::lemma_line_deflection_times(circle, movement, line);
        },
        CircleObstacle::Point(position) => {
            lemma_point_deflection_times(circle, movement, position);
        },
        CircleObstacle::Circle(other) => {
            lemma_point_deflection_times(
                Circle {
                    center: circle.center,
                    radius: fadd_s(circle.radius as int, other.radius as int) as i64,
                },
                movement,
                other.center,
            );
        },
    }
}

/// An easy way to collide a Circle() collider against multiple other
/// objects.
pub struct CollisionSystem {
    /// All the obstacles being collided with, in insertion order.  An
    /// obstacle's slot never moves, so handles stay valid for the life of
    /// the system.
    obstacles: Vec<CollisionObstacle>,
}

impl CollisionSystem {
    /// The registry contents, in insertion order.
    pub closed spec fn obstacles_s(self) -> Seq<CollisionObstacle> {
        self.obstacles@
    }

    /// Whether a handle refers to an entry of this registry.
    pub open spec fn valid_handle_s(self, handle: Handle) -> bool {
        handle.index < self.obstacles_s().len() && handle.generation == 0
    }

    /// Creates a new (empty) instance.
    pub fn new() -> (r: CollisionSystem)
        ensures
            r.obstacles_s() == Seq::<CollisionObstacle>::empty(),
    {
        CollisionSystem { obstacles: Vec::new() }
    }

    /// Adds the given obstacle to the collidable geometry, enabled, and
    /// hands back the stable handle that refers to it.
    pub fn add_obstacle(&mut self, obstacle: CircleObstacle) -> (r: Handle)
        ensures
            final(self).obstacles_s() == old(self).obstacles_s().push(
                CollisionObstacle { geometry: obstacle, active: true },
            ),
            r == (Handle { index: old(self).obstacles_s().len() as usize, generation: 0 }),
            final(self).valid_handle_s(r),
    {
        let index = self.obstacles.len();
        self.obstacles.push(CollisionObstacle { geometry: obstacle, active: true });
        Handle::from_raw_parts(index, 0)
    }

    /// Lets users easily enable/disable a specific obstacle.  The handle
    /// must come from `add_obstacle` on this system: anything else is a
    /// registry-lifetime bug in the caller.
    pub fn set_enabled(&mut self, handle: Handle, enabled: bool)
        requires
            old(self).valid_handle_s(handle),
        ensures
            final(self).obstacles_s() == old(self).obstacles_s().update(
                handle.index as int,
                CollisionObstacle {
                    geometry: old(self).obstacles_s()[handle.index as int].geometry,
                    active: enabled,
                },
            ),
    {
        let entry = self.obstacles[handle.index];
        self.obstacles.set(
            handle.index,
            CollisionObstacle { geometry: entry.geometry, active: enabled },
        );
    }

    /// Performs one round of collision detection against every active
    /// obstacle and combines the results into a single contact.
    #[verifier::rlimit(80)]
    pub fn collide_circle_step(&self, position: &Vec2, radius: i64, movement: &Vec2) -> (r:
        Option<TotalDeflection>)
        ensures
            match r {
                Option::None => collide_step_s(
                    self.obstacles_s(),
                    Circle { center: *position, radius },
                    *movement,
                ) is None,
                Option::Some(total) => {
                    &&& collide_step_s(
                        self.obstacles_s(),
                        Circle { center: *position, radius },
                        *movement,
                    ) matches Option::Some(parts)
                    &&& matches_total_s(total, parts)
                    &&& total.deflections@.len() >= 1
                    &&& total.deflections@[0].deflected
                    &&& !total.deflections@[0].times.is_empty_s()
                },
            },
    {
        let circle = Circle::new(position, radius);
        let ghost spec_circle = Circle { center: *position, radius };
        let mut hits: Vec<Deflection> = Vec::new();
        let mut index: usize = 0;
        while index < self.obstacles.len()
            invariant
                0 <= index <= self.obstacles@.len(),
                circle == (Circle { center: *position, radius }),
                step_hits_s(self.obstacles@, circle, *movement, index as int, hits@)
                    == step_hits_s(
                    self.obstacles@,
                    circle,
                    *movement,
                    0,
                    Seq::<Deflection>::empty(),
                ),
                forall|j: int|
                    0 <= j < hits@.len() && (#[trigger] hits@[j]).deflected
                        ==> !hits@[j].times.is_empty_s(),
            decreases self.obstacles@.len() - index,
        {
            let ghost prev_hits = hits@;
            let generic_obstacle = &self.obstacles[index];
            if generic_obstacle.active {
                let maybe_deflection = match &generic_obstacle.geometry {
                    CircleObstacle::LineSegment(segment) => circle.deflect_with(
                        movement,
                        segment,
                    ),
                    CircleObstacle::Line(line) => circle.deflect_with(movement, line),
                    CircleObstacle::Point(point) => circle.deflect_with(movement, point),
                    CircleObstacle::Circle(other) => {
                        let augmented = Circle::new(&circle.center, fx_add(circle.radius, other.radius));
                        augmented.deflect_with(movement, &other.center)
                    },
                };
                proof {
                    lemma_obstacle_deflection_times(
                        circle,
                        *movement,
                        self.obstacles@[index as int].geometry,
                    );
                }
                if let Option::Some(deflection) = maybe_deflection {
                    let stamped = Deflection {
                        source: Handle::from_raw_parts(index, 0),
                        ..deflection
                    };
                    hits.push(stamped);
                }
            }
            proof {
                assert(step_hits_s(self.obstacles@, circle, *movement, index as int, prev_hits)
                    == step_hits_s(self.obstacles@, circle, *movement, index as int + 1, hits@));
            }
            index = index + 1;
        }
        proof {
            assert(step_hits_s(self.obstacles@, circle, *movement, self.obstacles@.len() as int, hits@)
                == hits@);
            assert(hits@ == step_hits_s(
                self.obstacles@,
                circle,
                *movement,
                0,
                Seq::<Deflection>::empty(),
            ));
        }
        TotalDeflection::try_new(hits)
    }

    /// Collides a circle with the stored collision geometry, resolving the
    /// whole movement: each returned entry is one solve-and-slide step, and
    /// the last entry's `final_position` is the authoritative resting
    /// position for the frame.  The loop stops early when the remaining
    /// movement is within tolerance of zero, and unconditionally after
    /// `COLLISION_ITERATION_MAX` steps.
    #[verifier::rlimit(100)]
    pub fn collide_circle(&self, position_: &Vec2, radius: i64, movement_: &Vec2) -> (r: Vec<
        TotalDeflection,
    >)
        ensures
            ({
                let parts_seq = collide_circle_s(
                    self.obstacles_s(),
                    *position_,
                    radius,
                    *movement_,
                    COLLISION_ITERATION_MAX as nat,
                );
                r@.len() == parts_seq.len() && forall|j: int|
                    0 <= j < r@.len() ==> matches_total_s(r@[j], #[trigger] parts_seq[j])
            }),
    {
        let ghost full = collide_circle_s(
            self.obstacles_s(),
            *position_,
            radius,
            *movement_,
            COLLISION_ITERATION_MAX as nat,
        );
        let mut movement = *movement_;
        let mut position = *position_;
        let mut result: Vec<TotalDeflection> = Vec::new();
        let mut iteration: usize = 0;
        while iteration < COLLISION_ITERATION_MAX
            invariant
                0 <= iteration <= COLLISION_ITERATION_MAX,
                result@.len() == iteration,
                result@.len() <= full.len(),
                full == collide_circle_s(
                    self.obstacles_s(),
                    *position_,
                    radius,
                    *movement_,
                    COLLISION_ITERATION_MAX as nat,
                ),
                forall|j: int|
                    0 <= j < result@.len() ==> matches_total_s(result@[j], #[trigger] full[j]),
                full.skip(result@.len() as int) == collide_circle_s(
                    self.obstacles_s(),
                    position,
                    radius,
                    movement,
                    (COLLISION_ITERATION_MAX - iteration) as nat,
                ),
            decreases COLLISION_ITERATION_MAX - iteration,
        {
            let ghost fuel = (COLLISION_ITERATION_MAX - iteration) as nat;
            let ghost rest = collide_circle_s(self.obstacles_s(), position, radius, movement, fuel);
            let ghost old_len = result@.len() as int;
            let maybe = self.collide_circle_step(&position, radius, &movement);
            match maybe {
                Option::Some(total_deflection) => {
                    let ghost parts = collide_step_s(
                        self.obstacles_s(),
                        Circle { center: position, radius },
                        movement,
                    )->Some_0;
                    let contact_position = total_deflection.deflections[0].position;
                    let new_movement = total_deflection.final_position.minus(&contact_position);
                    let ghost rest2 = collide_circle_s(
                        self.obstacles_s(),
                        parts.2[0].position,
                        radius,
                        vsub_s(parts.0, parts.2[0].position),
                        (fuel - 1) as nat,
                    );
                    proof {
                        assert(contact_position == parts.2[0].position);
                        assert(new_movement == vsub_s(parts.0, parts.2[0].position));
                        if vlength_s(vsub_s(parts.0, parts.2[0].position)) < EPSILON as int {
                            assert(rest == seq![parts]);
                        } else {
                            assert(rest == seq![parts] + rest2);
                        }
                        assert(full.skip(old_len)[0] == full[old_len]);
                        assert(full[old_len] == parts);
                    }
                    position = contact_position;
                    movement = new_movement;
                    result.push(total_deflection);
                    if movement.length() < EPSILON {
                        proof {
                            assert(rest == seq![parts]);
                            assert(full.len() == old_len + 1);
                            assert(result@ == result@.take(old_len).push(total_deflection));
                        }
                        return result;
                    }
                    proof {
                        assert(full.skip(old_len + 1) =~= rest.skip(1));
                        assert(rest.skip(1) =~= rest2);
                    }
                },
                Option::None => {
                    proof {
                        assert(rest == Seq::<(Vec2, Seq<Vec2>, Seq<Deflection>)>::empty());
                        assert(full.len() == old_len);
                    }
                    return result;
                },
            }
            iteration = iteration + 1;
        }
        // The iteration cap was hit: the best position computed so far
        // stands (a diagnostic concern for the caller, never a failure).
        result
    }
}


/// One inactive registry entry never influences the hits of a step scan,
/// whatever geometry it holds.
proof fn lemma_hits_skip_inactive(
    obstacles1: Seq<CollisionObstacle>,
    obstacles2: Seq<CollisionObstacle>,
    i: int,
    circle: Circle,
    movement: Vec2,
    k: int,
    acc: Seq<Deflection>,
)
    requires
        obstacles1.len() == obstacles2.len(),
        0 <= i < obstacles1.len(),
        !obstacles1[i].active,
        !obstacles2[i].active,
        forall|j: int| 0 <= j < obstacles1.len() && j != i ==> obstacles1[j] == obstacles2[j],
    ensures
        step_hits_s(obstacles1, circle, movement, k, acc) == step_hits_s(
            obstacles2,
            circle,
            movement,
            k,
            acc,
        ),
    decreases obstacles1.len() - k,
{
    if k < 0 || k >= obstacles1.len() {
    } else if k == i {
        lemma_hits_skip_inactive(obstacles1, obstacles2, i, circle, movement, k + 1, acc);
    } else {
        assert(obstacles1[k] == obstacles2[k]);
        let entry = obstacles1[k];
        if !entry.active {
            lemma_hits_skip_inactive(obstacles1, obstacles2, i, circle, movement, k + 1, acc);
        } else {
            match deflect_obstacle_s(circle, movement, entry.geometry) {
                Option::Some(d) => {
                    lemma_hits_skip_inactive(
                        obstacles1,
                        obstacles2,
                        i,
                        circle,
                        movement,
                        k + 1,
                        acc.push(
                            Deflection {
                                source: Handle { index: k as usize, generation: 0 },
                                ..d
                            },
                        ),
                    );
                },
                Option::None => {
                    lemma_hits_skip_inactive(
                        obstacles1,
                        obstacles2,
                        i,
                        circle,
                        movement,
                        k + 1,
                        acc,
                    );
                },
            }
        }
    }
}

/// A disabled obstacle is invisible to one collision step: two registries
/// that differ only in the geometry of one entry that is inactive in both
/// produce the same result.  In particular, after `set_enabled(handle,
/// false)` every `collide_circle_step` behaves as if the obstacle behind
/// `handle` did not exist.
pub proof fn lemma_disabled_obstacle_invisible_step(
    obstacles1: Seq<CollisionObstacle>,
    obstacles2: Seq<CollisionObstacle>,
    i: int,
    circle: Circle,
    movement: Vec2,
)
    requires
        obstacles1.len() == obstacles2.len(),
        0 <= i < obstacles1.len(),
        !obstacles1[i].active,
        !obstacles2[i].active,
        forall|j: int| 0 <= j < obstacles1.len() && j != i ==> obstacles1[j] == obstacles2[j],
    ensures
        collide_step_s(obstacles1, circle, movement) == collide_step_s(
            obstacles2,
            circle,
            movement,
        ),
{
    lemma_hits_skip_inactive(
        obstacles1,
        obstacles2,
        i,
        circle,
        movement,
        0,
        Seq::<Deflection>::empty(),
    );
}

/// A disabled obstacle is invisible to the whole-frame resolution too: all
/// later `collide_circle` calls behave as if the obstacle did not exist,
/// without it having been removed.
pub proof fn lemma_disabled_obstacle_invisible(
    obstacles1: Seq<CollisionObstacle>,
    obstacles2: Seq<CollisionObstacle>,
    i: int,
    position: Vec2,
    radius: i64,
    movement: Vec2,
    fuel: nat,
)
    requires
        obstacles1.len() == obstacles2.len(),
        0 <= i < obstacles1.len(),
        !obstacles1[i].active,
        !obstacles2[i].active,
        forall|j: int| 0 <= j < obstacles1.len() && j != i ==> obstacles1[j] == obstacles2[j],
    ensures
        collide_circle_s(obstacles1, position, radius, movement, fuel) == collide_circle_s(
            obstacles2,
            position,
            radius,
            movement,
            fuel,
        ),
    decreases fuel,
{
    if fuel > 0 {
        let circle = Circle { center: position, radius };
        lemma_disabled_obstacle_invisible_step(obstacles1, obstacles2, i, circle, movement);
        match collide_step_s(obstacles1, circle, movement) {
            Option::None => {},
            Option::Some(parts) => {
                let contact_position = parts.2[0].position;
                let new_movement = vsub_s(parts.0, contact_position);
                if vlength_s(new_movement) < EPSILON as int {
                } else {
                    lemma_disabled_obstacle_invisible(
                        obstacles1,
                        obstacles2,
                        i,
                        contact_position,
                        radius,
                        new_movement,
                        (fuel - 1) as nat,
                    );
                }
            },
        }
    }
}

/// The steepest surface (as the cosine with the gravity direction, in raw
/// units) that still counts as ground; its negation bounds ceilings.  It
/// sits below cos(45 degrees) so anything within 45 degrees of flat counts.
pub const GROUND_NORMAL_THRESHOLD: i64 = -650_000;

/// What one contact tells an entity about its footing: mirrors walking the
/// deflections and comparing each surface normal with the gravity
/// direction.
pub open spec fn classify_rec_s(
    deflections: Seq<Deflection>,
    gravity_direction: Vec2,
    i: int,
    on_ground: bool,
    hit_ceiling: bool,
    surface_normal: Vec2,
) -> (bool, bool, Vec2)
    decreases deflections.len() - i,
{
    if i < 0 || i >= deflections.len() {
        (on_ground, hit_ceiling, surface_normal)
    } else {
        let coincidence = vdot_s(deflections[i].normal, gravity_direction);
        let new_on_ground = on_ground || coincidence < GROUND_NORMAL_THRESHOLD as int;
        let new_hit_ceiling = hit_ceiling || coincidence > -(GROUND_NORMAL_THRESHOLD as int);
        let new_surface = if 0 > coincidence && vdot_s(surface_normal, gravity_direction)
            > coincidence {
            deflections[i].normal
        } else {
            surface_normal
        };
        classify_rec_s(
            deflections,
            gravity_direction,
            i + 1,
            new_on_ground,
            new_hit_ceiling,
            new_surface,
        )
    }
}

/// What `classify_contacts` returns.
pub open spec fn classify_s(
    deflections: Seq<Deflection>,
    gravity_direction: Vec2,
    initial_surface_normal: Vec2,
) -> (bool, bool, Vec2) {
    classify_rec_s(deflections, gravity_direction, 0, false, false, initial_surface_normal)
}

/// How one collision updates an entity's footing: whether some contact was
/// ground (its normal opposes gravity within 45 degrees), whether some
/// contact was a ceiling, and the contact normal most opposed to gravity
/// (starting from `initial_surface_normal`, kept when no contact beats it).
#[derive(Debug, Clone, Copy)]
pub struct ContactReport {
    /// Whether some contact counts as standing on ground.
    pub on_ground: bool,
    /// Whether some contact counts as hitting a ceiling.
    pub hit_ceiling: bool,
    /// The most gravity-opposed surface normal seen.
    pub surface_normal: Vec2,
}

/// Inspects the normals of one collision against the gravity direction, to
/// set on-ground/on-ceiling flags and pick the surface to stand on.  This
/// is the classification half of the per-iteration entity physics step.
pub fn classify_contacts(
    deflections: &Vec<Deflection>,
    gravity_direction: &Vec2,
    initial_surface_normal: &Vec2,
) -> (r: ContactReport)
    ensures
        ({
            let spec = classify_s(deflections@, *gravity_direction, *initial_surface_normal);
            r.on_ground == spec.0 && r.hit_ceiling == spec.1 && r.surface_normal == spec.2
        }),
{
    let mut on_ground = false;
    let mut hit_ceiling = false;
    let mut surface_normal = *initial_surface_normal;
    let mut i: usize = 0;
    while i < deflections.len()
        invariant
            0 <= i <= deflections@.len(),
            classify_rec_s(
                deflections@,
                *gravity_direction,
                i as int,
                on_ground,
                hit_ceiling,
                surface_normal,
            ) == classify_s(deflections@, *gravity_direction, *initial_surface_normal),
        decreases deflections@.len() - i,
    {
        let coincidence = deflections[i].normal.dot(*gravity_direction);
        if GROUND_NORMAL_THRESHOLD > coincidence {
            on_ground = true;
        }
        if -GROUND_NORMAL_THRESHOLD < coincidence {
            hit_ceiling = true;
        }
        // Track the normal most opposed to gravity.
        if 0 > coincidence && surface_normal.dot(*gravity_direction) > coincidence {
            surface_normal = deflections[i].normal;
        }
        i = i + 1;
    }
    ContactReport { on_ground, hit_ceiling, surface_normal }
}

/// The outcome of one shared sweep-and-slide iteration.
#[derive(Debug)]
pub struct SlideStep {
    /// The movement that was actually attempted, after the previous
    /// iteration's normals filtered the desired movement.
    pub movement: Vec2,
    /// The part of the attempted movement executed before the first
    /// contact (all of it when nothing was hit).
    pub safe_movement: Vec2,
    /// The mover's position after `safe_movement`.
    pub position: Vec2,
    /// How much of the attempted movement remains to carry into the next
    /// iteration, as a raw fraction of one world unit (zero if no contact).
    pub remainder_scale: i64,
    /// Whether any obstacle was contacted.
    pub collided: bool,
    /// The unique surface normals active at the contact (empty if none).
    pub normals: Vec<Vec2>,
    /// The deflections active at this step's contact, winner first (empty
    /// if none), for contact classification.
    pub deflections: Vec<Deflection>,
}

/// What `slide_step` computes, as a tuple in the order of the fields of
/// `SlideStep`.
pub open spec fn slide_step_s(
    obstacles: Seq<CollisionObstacle>,
    position: Vec2,
    radius: i64,
    desired_movement: Vec2,
    previous_normals: Seq<Vec2>,
) -> (Vec2, Vec2, Vec2, int, bool, Seq<Vec2>, Seq<Deflection>) {
    let movement = crate::geo::collider::limit_movement_s(desired_movement, previous_normals);
    match collide_step_s(obstacles, Circle { center: position, radius }, movement) {
        Option::None => (
            movement,
            movement,
            vadd_s(position, movement),
            0,
            false,
            Seq::<Vec2>::empty(),
            Seq::<Deflection>::empty(),
        ),
        Option::Some(parts) => {
            let start = parts.2[0].times.min_s();
            let safe_percent = if start < 0 {
                0
            } else {
                start
            };
            let safe_movement = vscale_s(movement, safe_percent);
            (
                movement,
                safe_movement,
                vadd_s(position, safe_movement),
                fsub_s(SCALE as int, safe_percent),
                true,
                parts.1,
                parts.2,
            )
        },
    }
}

/// One iteration of the stepwise sweep-and-slide shared by every entity
/// physics loop: strip out the movement components that the previous
/// iteration's normals forbid, sweep the filtered movement against the
/// active obstacles, and split it into the safe part (executed now) and
/// the raw fraction that remains for the next iteration.
pub fn slide_step(
    system: &CollisionSystem,
    position: &Vec2,
    radius: i64,
    desired_movement: &Vec2,
    previous_normals: &Vec<Vec2>,
) -> (r: SlideStep)
    ensures
        ({
            let spec = slide_step_s(
                system.obstacles_s(),
                *position,
                radius,
                *desired_movement,
                previous_normals@,
            );
            r.movement == spec.0 && r.safe_movement == spec.1 && r.position == spec.2
                && r.remainder_scale as int == spec.3 && r.collided == spec.4 && r.normals@
                == spec.5 && r.deflections@ == spec.6
        }),
{
    let movement = crate::geo::collider::limit_movement_with_normals(
        desired_movement,
        previous_normals,
    );
    match system.collide_circle_step(position, radius, &movement) {
        Option::None => SlideStep {
            movement,
            safe_movement: movement,
            position: position.plus(&movement),
            remainder_scale: 0,
            collided: false,
            normals: Vec::new(),
            deflections: Vec::new(),
        },
        Option::Some(total) => {
            let start = match total.deflections[0].times.min() {
                Option::Some(t) => t,
                Option::None => unreached(),
            };
            proof {
                lemma_range_bounds_fit(total.deflections@[0].times);
            }
            let safe_percent = if start < 0 {
                0
            } else {
                start
            };
            let safe_movement = movement.scale(safe_percent);
            SlideStep {
                movement,
                safe_movement,
                position: position.plus(&safe_movement),
                remainder_scale: fx_sub(SCALE, safe_percent),
                collided: true,
                normals: total.normals,
                deflections: total.deflections,
            }
        },
    }
}

} // verus!
