//! Axis-aligned points and rectangles, and the strict-overlap test used by
//! every rule of the engine. A rectangle is given by its top-left corner and
//! its extent; two rectangles overlap only when they share interior area, so
//! boxes that merely touch along an edge do not count as overlapping.

use vstd::prelude::*;

verus! {

/// A point on the canvas.
#[derive(Clone, Copy, PartialEq, Eq, Structural, Debug)]
pub struct Point {
    pub x: i32,
    pub y: i32,
}

/// An axis-aligned rectangle: top-left corner `(x, y)`, extent
/// `width` by `height`.
#[derive(Clone, Copy, PartialEq, Eq, Structural, Debug)]
pub struct Rect {
    pub x: i32,
    pub y: i32,
    pub width: i32,
    pub height: i32,
}

impl Rect {
    /// Coordinates and sizes small enough that any sum of a handful of them
    /// stays far inside `i32`.
    pub open spec fn in_range(self) -> bool {
        &&& -2_000_000 <= self.x <= 2_000_000
        &&& -2_000_000 <= self.y <= 2_000_000
        &&& 0 < self.width <= 10_000
        &&& 0 < self.height <= 10_000
    }

    /// A tighter bound, leaving room so that a rectangle derived from this
    /// one (its central sample, or the box one step ahead) is still
    /// `in_range`.
    pub open spec fn well_inside(self) -> bool {
        &&& -1_000_000 <= self.x <= 1_000_000
        &&& -1_000_000 <= self.y <= 1_000_000
        &&& 0 < self.width <= 10_000
        &&& 0 < self.height <= 10_000
    }
}

/// `a`, displaced by `(dx, dy)`, shares interior area with `b` grown by
/// `margin` on all four sides.
pub open spec fn shifted_overlap(a: Rect, dx: int, dy: int, b: Rect, margin: int) -> bool {
    &&& a.x + dx < b.x + b.width + margin
    &&& b.x - margin < a.x + dx + a.width
    &&& a.y + dy < b.y + b.height + margin
    &&& b.y - margin < a.y + dy + a.height
}

/// The two rectangles share interior area.
pub open spec fn rects_overlap(a: Rect, b: Rect) -> bool {
    shifted_overlap(a, 0, 0, b, 0)
}

impl Rect {
    /// Strict intersection test: true only when the rectangles share area.
    pub fn has_intersection(&self, other: &Rect) -> (r: bool)
        requires
            self.in_range(),
            other.in_range(),
        ensures
            r == rects_overlap(*self, *other),
    {
        self.x < other.x + other.width && other.x < self.x + self.width && self.y < other.y
            + other.height && other.y < self.y + self.height
    }
}

} // verus!
