//! Plain two-dimensional value types: fixed-point vectors for the
//! simulation and whole-pixel points and extents for the desktop geometry.

use vstd::prelude::*;
use crate::fixed::{spec_abs, isqrt};

verus! {

/// A two-dimensional vector in fixed-point units.
#[derive(Clone, Copy, Debug, PartialEq, Eq, Structural)]
pub struct Vec2Fx {
    pub x: i64,
    pub y: i64,
}

/// A point on the desktop in whole pixels.
#[derive(Clone, Copy, Debug, PartialEq, Eq, Structural)]
pub struct PixelPoint {
    pub x: i32,
    pub y: i32,
}

/// An extent (a width and a height) in whole pixels.
#[derive(Clone, Copy, Debug, PartialEq, Eq, Structural)]
pub struct PixelExtent {
    pub x: u32,
    pub y: u32,
}

impl Vec2Fx {
    /// Both components lie within `limit` of zero.
    pub open spec fn within(self, limit: int) -> bool {
        spec_abs(self.x as int) <= limit && spec_abs(self.y as int) <= limit
    }

    /// The squared Euclidean magnitude of the vector.
    pub open spec fn spec_mag_sq(self) -> int {
        self.x as int * self.x as int + self.y as int * self.y as int
    }

    /// The Euclidean magnitude of the vector, rounded down to the nearest
    /// fixed-point unit.
    pub fn magnitude(self) -> (r: i64)
        requires
            self.within(3_000_000_000),
        ensures
            0 <= r,
            r <= 4_300_000_000,
            r * r <= self.spec_mag_sq(),
            self.spec_mag_sq() < (r as int + 1) * (r as int + 1),
    {
        let ux: u64 = if self.x < 0 {
            (-self.x) as u64
        } else {
            self.x as u64
        };
        let uy: u64 = if self.y < 0 {
            (-self.y) as u64
        } else {
            self.y as u64
        };
        proof {
            let xi = self.x as int;
            let yi = self.y as int;
            assert((-xi) * (-xi) == xi * xi) by (nonlinear_arith);
            assert((-yi) * (-yi) == yi * yi) by (nonlinear_arith);
            assert(ux as int * ux as int <= 9_000_000_000_000_000_000int) by (nonlinear_arith)
                requires 0 <= (ux as int) <= 3_000_000_000int;
            assert(uy as int * uy as int <= 9_000_000_000_000_000_000int) by (nonlinear_arith)
                requires 0 <= (uy as int) <= 3_000_000_000int;
        }
        let sq: u64 = ux * ux + uy * uy;
        let root: u64 = isqrt(sq);
        proof {
            assert(root as int * root as int <= sq as int);
            assert(root as int <= 4_300_000_000int) by (nonlinear_arith)
                requires
                    root as int * root as int <= 18_000_000_000_000_000_000int,
                    0 <= root as int;
        }
        root as i64
    }
}

} // verus!
