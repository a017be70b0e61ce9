//! Plane geometry for the arena, over integer coordinates in tenths of a
//! world unit.

use vstd::prelude::*;

verus! {

/// Coordinates are kept inside this bound so that the difference of any two
/// in-range coordinates fits an `i64` with room to spare.
pub const MAX_COORD_TENTHS: i64 = 1_000_000_000_000;

/// A point or displacement in the arena plane, in tenths of a world unit.
#[derive(Clone, Copy, PartialEq, Eq, Structural, Debug)]
pub struct Vec2 {
    pub x: i64,
    pub y: i64,
}

impl Vec2 {
    /// The origin / the zero displacement.
    pub open spec fn zero() -> Vec2 {
        Vec2 { x: 0, y: 0 }
    }

    /// Whether this is the zero vector.
    pub open spec fn is_zero(self) -> bool {
        self.x == 0 && self.y == 0
    }

    /// Whether both coordinates lie inside the arena's coordinate bound.
    pub open spec fn in_range(self) -> bool {
        -MAX_COORD_TENTHS <= self.x <= MAX_COORD_TENTHS
            && -MAX_COORD_TENTHS <= self.y <= MAX_COORD_TENTHS
    }

    /// The displacement from `from` to `to`, exact for in-range endpoints.
    pub open spec fn displacement_spec(from: Vec2, to: Vec2) -> Vec2 {
        Vec2 { x: (to.x - from.x) as i64, y: (to.y - from.y) as i64 }
    }

    /// Computes the displacement from `from` to `to`.
    pub fn displacement(from: Vec2, to: Vec2) -> (d: Vec2)
        requires
            from.in_range(),
            to.in_range(),
        ensures
            d == Vec2::displacement_spec(from, to),
            d.is_zero() <==> from == to,
    {
        Vec2 { x: to.x - from.x, y: to.y - from.y }
    }

    /// Builds the point with the given coordinates.
    pub fn new(x: i64, y: i64) -> (v: Vec2)
        ensures
            v == (Vec2 { x, y }),
    {
        Vec2 { x, y }
    }
}

} // verus!
