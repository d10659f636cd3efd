//! An interactive graph-layout core: a vertex/arc model, a force-directed
//! layout step, a pointer-driven interaction state machine, and a greedy
//! clique heuristic. Geometry is carried in fixed-point integers with 1000
//! fixed-point units to one world unit, so every computation here is exact.
//! Rendering and input-device polling are a host concern and live outside
//! this crate; the host feeds discrete events in and reads positions and
//! arcs back out.

pub mod clique;
pub mod controller;
pub mod force;
pub mod graph;
pub mod math;

use vstd::prelude::*;

verus! {

/// Fixed-point units per world unit. World constants such as the vertex
/// radius of 50.0 are stored scaled by this factor.
pub const SCALE: i64 = 1000;

/// Positions are kept within `[-COORD_LIMIT, COORD_LIMIT]` on each axis
/// (100,000 world units), so that squared distances fit comfortably in 64
/// bits.
pub const COORD_LIMIT: i64 = 100_000_000;

/// Velocities are kept within `[-VEL_LIMIT, VEL_LIMIT]` on each axis.
pub const VEL_LIMIT: i64 = 1_000_000_000;

/// A 2-D vector in fixed-point units.
#[derive(Clone, Copy, PartialEq, Eq, Structural, Debug)]
pub struct Vec2 {
    pub x: i64,
    pub y: i64,
}

impl Vec2 {
    /// Both components within `[-limit, limit]`.
    pub open spec fn within(self, limit: int) -> bool {
        -limit <= self.x <= limit && -limit <= self.y <= limit
    }

    pub fn new(x: i64, y: i64) -> (r: Vec2)
        ensures
            r.x == x,
            r.y == y,
    {
        Vec2 { x, y }
    }

    pub fn zero() -> (r: Vec2)
        ensures
            r.x == 0,
            r.y == 0,
    {
        Vec2 { x: 0, y: 0 }
    }
}

/// `v` pulled into `[-limit, limit]`.
pub fn clamp_coord(v: i64, limit: i64) -> (r: i64)
    requires
        limit >= 0,
    ensures
        r == crate::math::clamp_int(v as int, limit as int),
{
    if v < -limit {
        -limit
    } else if v > limit {
        limit
    } else {
        v
    }
}

/// Componentwise clamp of a vector into `[-limit, limit]`.
pub fn clamp_vec(v: Vec2, limit: i64) -> (r: Vec2)
    requires
        limit >= 0,
    ensures
        r.x == crate::math::clamp_int(v.x as int, limit as int),
        r.y == crate::math::clamp_int(v.y as int, limit as int),
        r.within(limit as int),
{
    Vec2 { x: clamp_coord(v.x, limit), y: clamp_coord(v.y, limit) }
}

} // verus!
