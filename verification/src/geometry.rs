//! Points and rectangles of the two coordinate systems.

use vstd::prelude::*;

verus! {

/// A point in data space.
#[derive(Clone, Copy, Debug, PartialEq, Eq, Structural)]
pub struct Value {
    pub x: i64,
    pub y: i64,
}

impl Value {
    pub fn new(x: i64, y: i64) -> (r: Value)
        ensures
            r == (Value { x, y }),
    {
        Value { x, y }
    }
}

/// A point on the screen, in points.
#[derive(Clone, Copy, Debug, PartialEq, Eq, Structural)]
pub struct Pos2 {
    pub x: i32,
    pub y: i32,
}

impl Pos2 {
    pub fn new(x: i32, y: i32) -> (r: Pos2)
        ensures
            r == (Pos2 { x, y }),
    {
        Pos2 { x, y }
    }

    /// The squared distance between two screen points.
    pub open spec fn spec_distance_sq(self, other: Pos2) -> int {
        (self.x - other.x) * (self.x - other.x) + (self.y - other.y) * (self.y - other.y)
    }

    /// The squared distance between two screen points.
    pub fn distance_sq(&self, other: &Pos2) -> (r: u128)
        ensures
            r == self.spec_distance_sq(*other),
    {
        let dx: i64 = self.x as i64 - other.x as i64;
        let dy: i64 = self.y as i64 - other.y as i64;
        assert(0 <= dx * dx <= 0x1_0000_0000 * 0x1_0000_0000) by (nonlinear_arith)
            requires
                -0x1_0000_0000 <= dx <= 0x1_0000_0000,
        ;
        assert(0 <= dy * dy <= 0x1_0000_0000 * 0x1_0000_0000) by (nonlinear_arith)
            requires
                -0x1_0000_0000 <= dy <= 0x1_0000_0000,
        ;
        let sx: i128 = dx as i128 * dx as i128;
        let sy: i128 = dy as i128 * dy as i128;
        (sx + sy) as u128
    }
}

/// A displacement on the screen, in points.
#[derive(Clone, Copy, Debug, PartialEq, Eq, Structural)]
pub struct Vec2 {
    pub x: i32,
    pub y: i32,
}

impl Vec2 {
    pub fn new(x: i32, y: i32) -> (r: Vec2)
        ensures
            r == (Vec2 { x, y }),
    {
        Vec2 { x, y }
    }

    /// The displacement of no movement.
    pub fn zero() -> (r: Vec2)
        ensures
            r == (Vec2 { x: 0, y: 0 }),
    {
        Vec2 { x: 0, y: 0 }
    }

    /// The opposite displacement, clamped to `i32`.
    pub open spec fn spec_neg(self) -> Vec2 {
        Vec2 {
            x: if self.x == i32::MIN { i32::MAX } else { (-self.x) as i32 },
            y: if self.y == i32::MIN { i32::MAX } else { (-self.y) as i32 },
        }
    }

    /// The opposite displacement, clamped to `i32`.
    pub fn neg(&self) -> (r: Vec2)
        ensures
            r == self.spec_neg(),
    {
        Vec2 {
            x: if self.x == i32::MIN { i32::MAX } else { -self.x },
            y: if self.y == i32::MIN { i32::MAX } else { -self.y },
        }
    }
}

/// An axis-aligned rectangle on the screen. `min` is its top-left corner:
/// screen `y` grows downwards.
#[derive(Clone, Copy, Debug, PartialEq, Eq, Structural)]
pub struct Rect {
    pub min: Pos2,
    pub max: Pos2,
}

impl Rect {
    pub fn from_min_max(min: Pos2, max: Pos2) -> (r: Rect)
        ensures
            r == (Rect { min, max }),
    {
        Rect { min, max }
    }

    /// The smallest rectangle that holds both points.
    pub open spec fn spec_from_two_pos(a: Pos2, b: Pos2) -> Rect {
        Rect {
            min: Pos2 { x: if a.x <= b.x { a.x } else { b.x }, y: if a.y <= b.y { a.y } else { b.y } },
            max: Pos2 { x: if a.x <= b.x { b.x } else { a.x }, y: if a.y <= b.y { b.y } else { a.y } },
        }
    }

    /// The smallest rectangle that holds both points.
    pub fn from_two_pos(a: Pos2, b: Pos2) -> (r: Rect)
        ensures
            r == Rect::spec_from_two_pos(a, b),
    {
        Rect {
            min: Pos2 { x: if a.x <= b.x { a.x } else { b.x }, y: if a.y <= b.y { a.y } else { b.y } },
            max: Pos2 { x: if a.x <= b.x { b.x } else { a.x }, y: if a.y <= b.y { b.y } else { a.y } },
        }
    }

    pub open spec fn spec_width(self) -> int {
        self.max.x - self.min.x
    }

    pub open spec fn spec_height(self) -> int {
        self.max.y - self.min.y
    }

    pub fn width(&self) -> (r: i64)
        ensures
            r == self.spec_width(),
    {
        self.max.x as i64 - self.min.x as i64
    }

    pub fn height(&self) -> (r: i64)
        ensures
            r == self.spec_height(),
    {
        self.max.y as i64 - self.min.y as i64
    }
}

} // verus!
