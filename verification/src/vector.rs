//! Three-dimensional integer vectors and the distance between two points.
use vstd::prelude::*;
use crate::fixed::{floor_sqrt, isqrt, is_floor_sqrt};

verus! {

/// Largest magnitude of a coordinate of a point that distances are computed
/// for: 10^18 mm, about a tenth of a light year.
pub const MAX_COORDINATE: i64 = 1_000_000_000_000_000_000;

/// A vector of three integers. Positions are in the Earth-centered,
/// Earth-fixed frame, in millimetres.
#[derive(Debug, Clone, Copy, PartialEq, Eq, Structural)]
pub struct Vector3D {
    pub x: i64,
    pub y: i64,
    pub z: i64,
}

/// Sum of the squares of the coordinates of `a - b`.
pub open spec fn squared_distance(a: Vector3D, b: Vector3D) -> int {
    (a.x - b.x) * (a.x - b.x) + (a.y - b.y) * (a.y - b.y) + (a.z - b.z) * (a.z - b.z)
}

/// Euclidean distance between `a` and `b`, rounded down.
pub open spec fn distance(a: Vector3D, b: Vector3D) -> int {
    floor_sqrt(squared_distance(a, b))
}

impl Vector3D {
    /// The vector of the three given coordinates.
    pub fn new(x: i64, y: i64, z: i64) -> (v: Vector3D)
        ensures
            v.x == x,
            v.y == y,
            v.z == z,
    {
        Vector3D { x, y, z }
    }

    /// The null vector.
    pub open spec fn zero() -> Vector3D {
        Vector3D { x: 0, y: 0, z: 0 }
    }

    /// The null vector.
    pub fn null() -> (v: Vector3D)
        ensures
            v == Vector3D::zero(),
    {
        Vector3D { x: 0, y: 0, z: 0 }
    }

    /// No coordinate exceeds `MAX_COORDINATE` in magnitude.
    pub open spec fn bounded(self) -> bool {
        &&& -MAX_COORDINATE <= self.x <= MAX_COORDINATE
        &&& -MAX_COORDINATE <= self.y <= MAX_COORDINATE
        &&& -MAX_COORDINATE <= self.z <= MAX_COORDINATE
    }

    /// Tells whether no coordinate exceeds `MAX_COORDINATE` in magnitude.
    pub fn is_bounded(&self) -> (within: bool)
        ensures
            within == self.bounded(),
    {
        -MAX_COORDINATE <= self.x && self.x <= MAX_COORDINATE && -MAX_COORDINATE <= self.y
            && self.y <= MAX_COORDINATE && -MAX_COORDINATE <= self.z && self.z
            <= MAX_COORDINATE
    }

    /// Euclidean distance to `other`, rounded down.
    pub fn distance_to(&self, other: &Vector3D) -> (range: i64)
        requires
            self.bounded(),
            other.bounded(),
        ensures
            range == distance(*self, *other),
            is_floor_sqrt(squared_distance(*self, *other), range as int),
            0 <= range <= 4 * MAX_COORDINATE,
    {
        let dx: i128 = self.x as i128 - other.x as i128;
        let dy: i128 = self.y as i128 - other.y as i128;
        let dz: i128 = self.z as i128 - other.z as i128;
        let limit: i128 = 2 * (MAX_COORDINATE as i128);
        assert(0 <= dx * dx <= limit * limit) by (nonlinear_arith)
            requires
                -limit <= dx <= limit,
        ;
        assert(0 <= dy * dy <= limit * limit) by (nonlinear_arith)
            requires
                -limit <= dy <= limit,
        ;
        assert(0 <= dz * dz <= limit * limit) by (nonlinear_arith)
            requires
                -limit <= dz <= limit,
        ;
        assert(limit * limit == 4_000_000_000_000_000_000_000_000_000_000_000_000) by (nonlinear_arith)
            requires
                limit == 2_000_000_000_000_000_000,
        ;
        let sum: i128 = dx * dx + dy * dy + dz * dz;
        let root: u64 = isqrt(sum as u128);
        assert(root <= 4 * MAX_COORDINATE) by {
            if root > 4 * MAX_COORDINATE {
                crate::fixed::lemma_square_monotonic(4 * MAX_COORDINATE + 1, root as int);
                assert((4 * MAX_COORDINATE + 1) * (4 * MAX_COORDINATE + 1)
                    > 12_000_000_000_000_000_000_000_000_000_000_000_000) by (nonlinear_arith)
                    requires
                        MAX_COORDINATE == 1_000_000_000_000_000_000,
                ;
            }
        }
        root as i64
    }
}

} // verus!
