//! Points, vectors and the axis-aligned regions of the arena.
//!
//! The frame is the screen's: the origin is the top-left corner and `y`
//! grows downward.

use vstd::prelude::*;
use crate::fixed::LIMIT;

verus! {

/// A point or a displacement of the plane, over the mathematical integers.
pub struct Vector {
    pub x: int,
    pub y: int,
}

impl Vector {
    /// Component-wise sum.
    pub open spec fn plus(self, other: Vector) -> Vector {
        Vector { x: self.x + other.x, y: self.y + other.y }
    }

    /// Component-wise difference.
    pub open spec fn minus(self, other: Vector) -> Vector {
        Vector { x: self.x - other.x, y: self.y - other.y }
    }

    /// Square of the Euclidean length.
    pub open spec fn norm_squared(self) -> int {
        self.x * self.x + self.y * self.y
    }

    /// Both components lie within `[-bound, bound]`.
    pub open spec fn within(self, bound: int) -> bool {
        &&& -bound <= self.x <= bound
        &&& -bound <= self.y <= bound
    }
}

/// A point or a displacement of the plane, in fixed-point steps.
#[derive(Clone, Copy, Debug, PartialEq, Eq, Structural)]
pub struct Vec2 {
    pub x: i64,
    pub y: i64,
}

impl View for Vec2 {
    type V = Vector;

    open spec fn view(&self) -> Vector {
        Vector { x: self.x as int, y: self.y as int }
    }
}

impl Vec2 {
    /// The vector with the given components.
    pub fn new(x: i64, y: i64) -> (v: Vec2)
        ensures
            v@ == (Vector { x: x as int, y: y as int }),
    {
        Vec2 { x, y }
    }

    /// The zero vector.
    pub fn zero() -> (v: Vec2)
        ensures
            v@ == (Vector { x: 0, y: 0 }),
    {
        Vec2 { x: 0, y: 0 }
    }
}

/// An axis-aligned rectangle that holds the points `(px, py)` with
/// `x <= px < x + w` and `y <= py < y + h`: its left and top edges belong
/// to it, its right and bottom edges do not. A rectangle whose width or
/// height is not positive holds no point.
#[derive(Clone, Copy, Debug, PartialEq, Eq, Structural)]
pub struct Rect {
    pub x: i64,
    pub y: i64,
    pub w: i64,
    pub h: i64,
}

impl Rect {
    /// Whether `p` lies in the rectangle.
    pub open spec fn holds(self, p: Vector) -> bool {
        &&& self.x <= p.x < self.x + self.w
        &&& self.y <= p.y < self.y + self.h
    }

    /// Whether `p` lies in the rectangle.
    pub fn contains(&self, p: Vec2) -> (inside: bool)
        ensures
            inside == self.holds(p@),
    {
        let right: i128 = self.x as i128 + self.w as i128;
        let bottom: i128 = self.y as i128 + self.h as i128;
        self.x <= p.x && (p.x as i128) < right && self.y <= p.y && (p.y as i128) < bottom
    }
}

/// Whether some rectangle of `zones` holds `p`.
pub open spec fn some_zone_holds(zones: Seq<Rect>, p: Vector) -> bool {
    exists|i: int| 0 <= i < zones.len() && (#[trigger] zones[i]).holds(p)
}

/// Whether some rectangle of `zones` holds `p`.
pub fn any_zone_contains(zones: &Vec<Rect>, p: Vec2) -> (hit: bool)
    ensures
        hit == some_zone_holds(zones@, p@),
{
    let mut i: usize = 0;
    while i < zones.len()
        invariant
            i <= zones.len(),
            forall|j: int| 0 <= j < i ==> !(#[trigger] zones@[j]).holds(p@),
        decreases zones.len() - i,
    {
        if zones[i].contains(p) {
            return true;
        }
        i += 1;
    }
    false
}

/// The extent of the arena: the region from the origin to
/// `(width, height)`, both edges included.
#[derive(Clone, Copy, Debug, PartialEq, Eq, Structural)]
pub struct ArenaBounds {
    pub width: i64,
    pub height: i64,
}

impl ArenaBounds {
    /// The extent is not negative and not beyond `LIMIT` in either
    /// direction.
    pub open spec fn valid(self) -> bool {
        &&& 0 <= self.width <= LIMIT
        &&& 0 <= self.height <= LIMIT
    }

    /// Whether `p` lies outside the arena drawn in by `margin` on every
    /// side.
    pub open spec fn leaves_out(self, p: Vector, margin: int) -> bool {
        ||| p.x < margin
        ||| p.x > self.width - margin
        ||| p.y < margin
        ||| p.y > self.height - margin
    }

    /// Whether the extent is one that a simulation accepts.
    pub fn is_valid(&self) -> (ok: bool)
        ensures
            ok == self.valid(),
    {
        0 <= self.width && self.width <= LIMIT && 0 <= self.height && self.height <= LIMIT
    }

    /// Whether `p` lies outside the arena drawn in by `margin` on every
    /// side.
    pub fn excludes(&self, p: Vec2, margin: i64) -> (outside: bool)
        ensures
            outside == self.leaves_out(p@, margin as int),
    {
        let right: i128 = self.width as i128 - margin as i128;
        let bottom: i128 = self.height as i128 - margin as i128;
        p.x < margin || (p.x as i128) > right || p.y < margin || (p.y as i128) > bottom
    }
}

} // verus!
