//! Points and rectangles on the terminal grid.

use vstd::prelude::*;

verus! {

/// A cell position on the screen.
#[derive(Copy, Clone, Debug, PartialEq, Eq, Structural, PartialOrd, Ord, Hash)]
pub struct Pos2 {
    pub x: u16,
    pub y: u16,
}

/// Builds the position `(x, y)`.
pub fn pos2(x: u16, y: u16) -> (p: Pos2)
    ensures
        p == (Pos2 { x, y }),
{
    Pos2 { x, y }
}

/// An axis-aligned rectangle, both corners included.
#[derive(Copy, Clone, Debug, PartialEq, Eq, Structural, PartialOrd, Ord, Hash)]
pub struct Rect {
    pub min: Pos2,
    pub max: Pos2,
}

impl Rect {
    /// Whether `pos` lies inside the rectangle, edges included.
    pub open spec fn covers(self, pos: Pos2) -> bool {
        self.min.x <= pos.x <= self.max.x && self.min.y <= pos.y <= self.max.y
    }

    /// The rectangle spanned by the two corners.
    pub fn from_min_max(min: Pos2, max: Pos2) -> (r: Rect)
        ensures
            r == (Rect { min, max }),
    {
        Rect { min, max }
    }

    /// Tests whether `pos` lies inside the rectangle, edges included.
    pub fn contains(&self, pos: Pos2) -> (inside: bool)
        ensures
            inside == self.covers(pos),
    {
        self.min.x <= pos.x && pos.x <= self.max.x && self.min.y <= pos.y && pos.y <= self.max.y
    }

    /// Tests whether both corners of `other` lie inside the rectangle.
    pub fn contains_rect(&self, other: Rect) -> (inside: bool)
        ensures
            inside == (self.covers(other.min) && self.covers(other.max)),
    {
        self.contains(other.min) && self.contains(other.max)
    }
}

/// A rectangle that holds both corners of another holds every point of it.
pub proof fn lemma_contains_rect_covers_all(outer: Rect, inner: Rect, pos: Pos2)
    requires
        outer.covers(inner.min),
        outer.covers(inner.max),
        inner.covers(pos),
    ensures
        outer.covers(pos),
{
}

} // verus!
