//! The geometry kernel: fixed-point scalars, ranges, planar vectors,
//! primitive obstacle shapes, the per-obstacle deflection solvers, the
//! multi-contact combiner and the collision system that ties them together.

pub mod bounds2;
pub mod circle;
pub mod collider;
pub mod collision_system;
pub mod common;
pub mod fixed;
pub mod line;
pub mod line_segment;
pub mod polygon;
pub mod range;
pub mod vec2;
