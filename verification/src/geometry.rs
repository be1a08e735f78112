//! Integer geometry of the playfield: points, velocities, sizes and
//! axis-aligned boxes. Every coordinate is a whole number of pixels.

use vstd::prelude::*;

verus! {

/// A position on the screen, in pixels. `y` grows downwards.
#[derive(Debug, Clone, Copy, PartialEq, Eq, Structural)]
pub struct Point {
    pub x: i16,
    pub y: i16,
}

/// A velocity, in pixels per simulation step.
#[derive(Debug, Clone, Copy, PartialEq, Eq, Structural)]
pub struct Vector {
    pub x: i16,
    pub y: i16,
}

/// The size of a trimmed sprite.
#[derive(Debug, Clone, Copy, PartialEq, Eq, Structural)]
pub struct Dimen {
    pub width: u16,
    pub height: u16,
}

/// An axis-aligned box: its top-left corner and its extent.
#[derive(Debug, Clone, Copy, PartialEq, Eq, Structural)]
pub struct Rect {
    pub x: i32,
    pub y: i32,
    pub width: i32,
    pub height: i32,
}

impl Point {
    /// The point moved by `by`, each coordinate wrapping around at the ends
    /// of the 16-bit range.
    pub open spec fn moved(self, by: Vector) -> Point {
        Point { x: self.x.wrapping_add(by.x), y: self.y.wrapping_add(by.y) }
    }

    /// Moves the point by one step of the given velocity.
    pub fn offset_by(self, by: Vector) -> (moved: Point)
        ensures
            moved == self.moved(by),
    {
        Point { x: self.x.wrapping_add(by.x), y: self.y.wrapping_add(by.y) }
    }
}

impl Rect {
    /// The x coordinate just past the right edge.
    pub open spec fn right(self) -> int {
        self.x + self.width
    }

    /// The y coordinate just past the bottom edge.
    pub open spec fn bottom(self) -> int {
        self.y + self.height
    }

    /// Whether the point lies in the box. The left and the top edge belong
    /// to the box, the right and the bottom edge do not.
    pub open spec fn holds(self, x: int, y: int) -> bool {
        self.x <= x < self.right() && self.y <= y < self.bottom()
    }

    /// Two boxes overlap when their projections overlap on both axes. Boxes
    /// that merely touch along an edge do not overlap.
    pub open spec fn overlaps(self, other: Rect) -> bool {
        &&& self.x < other.right()
        &&& self.right() > other.x
        &&& self.y < other.bottom()
        &&& self.bottom() > other.y
    }

    /// Whether this box and `rect` overlap.
    pub fn intersects(&self, rect: &Rect) -> (hit: bool)
        ensures
            hit == self.overlaps(*rect),
    {
        (self.x as i64) < rect.x as i64 + rect.width as i64
            && self.x as i64 + self.width as i64 > rect.x as i64
            && (self.y as i64) < rect.y as i64 + rect.height as i64
            && self.y as i64 + self.height as i64 > rect.y as i64
    }
}

/// Overlap does not depend on which of the two boxes is asked.
pub proof fn lemma_overlap_is_mutual(one: Rect, other: Rect)
    ensures
        one.overlaps(other) == other.overlaps(one),
{
}

/// Boxes that only touch do not overlap: where one box ends exactly where
/// the other begins, on either axis, neither overlaps the other.
pub proof fn lemma_touching_boxes_do_not_overlap(one: Rect, other: Rect)
    requires
        one.right() == other.x || one.bottom() == other.y,
    ensures
        !one.overlaps(other),
        !other.overlaps(one),
{
}

/// Boxes of positive extent overlap exactly where they share a point of
/// the plane.
pub proof fn lemma_overlap_is_a_shared_point(one: Rect, other: Rect)
    requires
        one.width > 0,
        one.height > 0,
        other.width > 0,
        other.height > 0,
    ensures
        one.overlaps(other) <==> exists|x: int, y: int|
            #[trigger] one.holds(x, y) && other.holds(x, y),
{
    if one.overlaps(other) {
        let x = if one.x >= other.x {
            one.x as int
        } else {
            other.x as int
        };
        let y = if one.y >= other.y {
            one.y as int
        } else {
            other.y as int
        };
        assert(one.holds(x, y) && other.holds(x, y));
    }
}

} // verus!
