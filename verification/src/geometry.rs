//! Points of the playfield and of the render surface, and the hit test
//! between a query point and a disc.

use vstd::prelude::*;

verus! {

/// A position on the playfield, in thousandths of a playfield unit.
#[derive(Clone, Copy, Debug, PartialEq, Eq, Structural)]
pub struct Point {
    pub x: i32,
    pub y: i32,
}

/// A position on the render surface, in thousandths of a playfield unit.
///
/// Render positions are wider than playfield positions so that a playfield
/// point moved by a drawing offset is always representable.
#[derive(Clone, Copy, Debug, PartialEq, Eq, Structural)]
pub struct RenderPoint {
    pub x: i64,
    pub y: i64,
}

impl Point {
    /// The square of the Euclidean distance between two points.
    pub open spec fn distance_squared(self, other: Point) -> int {
        (self.x - other.x) * (self.x - other.x) + (self.y - other.y) * (self.y - other.y)
    }

    /// Whether this point lies strictly inside the disc around `center`:
    /// its Euclidean distance to `center` is strictly less than `radius`.
    pub open spec fn inside(self, center: Point, radius: nat) -> bool {
        self.distance_squared(center) < radius * radius
    }

    /// The render position of this playfield point.
    pub open spec fn on_surface(self) -> RenderPoint {
        RenderPoint { x: self.x as i64, y: self.y as i64 }
    }

    /// Decides [`Point::inside`] exactly, without rounding.
    pub fn is_inside(&self, center: &Point, radius: u32) -> (b: bool)
        ensures
            b == self.inside(*center, radius as nat),
    {
        let dx: i128 = self.x as i128 - center.x as i128;
        let dy: i128 = self.y as i128 - center.y as i128;
        let r: i128 = radius as i128;
        assert(dx * dx <= 0x1_0000_0000_0000_0000) by (nonlinear_arith)
            requires
                -0x1_0000_0000 <= dx <= 0x1_0000_0000,
        ;
        assert(dy * dy <= 0x1_0000_0000_0000_0000) by (nonlinear_arith)
            requires
                -0x1_0000_0000 <= dy <= 0x1_0000_0000,
        ;
        assert(0 <= r * r <= 0x1_0000_0000_0000_0000) by (nonlinear_arith)
            requires
                0 <= r <= 0x1_0000_0000,
        ;
        assert(0 <= dx * dx && 0 <= dy * dy) by (nonlinear_arith);
        dx * dx + dy * dy < r * r
    }
}

} // verus!
