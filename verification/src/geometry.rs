//! Axis-aligned points and rectangles with intersection testing.
//!
//! Coordinates are signed 16-bit scalars. A rectangle stores its top-left
//! corner together with a width and a height; `right` and `bottom` are the
//! derived far edges. Intersection testing assumes non-negative extents.

use vstd::prelude::*;

verus! {

/// A point in screen space. `y` grows downwards.
#[derive(Clone, Copy, PartialEq, Eq, Structural, Debug)]
pub struct Point {
    pub x: i16,
    pub y: i16,
}

/// An axis-aligned rectangle: top-left corner plus extents.
#[derive(Clone, Copy, PartialEq, Eq, Structural, Debug)]
pub struct Rect {
    pub position: Point,
    pub width: i16,
    pub height: i16,
}

impl Rect {
    /// The far vertical edge, as a mathematical integer.
    pub open spec fn spec_right(self) -> int {
        self.position.x + self.width
    }

    /// The far horizontal edge, as a mathematical integer.
    pub open spec fn spec_bottom(self) -> int {
        self.position.y + self.height
    }

    /// Two rectangles overlap when each one's span crosses the other's on
    /// both axes. Strict inequalities: touching edges do not intersect.
    pub open spec fn spec_intersects(self, other: Rect) -> bool {
        &&& self.position.x < other.spec_right()
        &&& self.spec_right() > other.position.x
        &&& self.position.y < other.spec_bottom()
        &&& self.spec_bottom() > other.position.y
    }

    /// Both derived edges stay within `i16`, so `right`, `bottom`, and
    /// `intersects` can be computed without overflow.
    pub open spec fn edges_in_bounds(self) -> bool {
        &&& i16::MIN <= self.spec_right() <= i16::MAX
        &&& i16::MIN <= self.spec_bottom() <= i16::MAX
    }

    pub fn new(position: Point, width: i16, height: i16) -> (r: Rect)
        ensures
            r == (Rect { position, width, height }),
    {
        Rect { position, width, height }
    }

    pub fn new_from_x_y(x: i16, y: i16, width: i16, height: i16) -> (r: Rect)
        ensures
            r == (Rect { position: Point { x, y }, width, height }),
    {
        Rect::new(Point { x, y }, width, height)
    }

    pub fn bottom(&self) -> (r: i16)
        requires
            i16::MIN <= self.spec_bottom() <= i16::MAX,
        ensures
            r == self.spec_bottom(),
    {
        self.position.y + self.height
    }

    pub fn right(&self) -> (r: i16)
        requires
            i16::MIN <= self.spec_right() <= i16::MAX,
        ensures
            r == self.spec_right(),
    {
        self.position.x + self.width
    }

    pub fn intersects(&self, rect: &Rect) -> (r: bool)
        requires
            self.edges_in_bounds(),
            rect.edges_in_bounds(),
        ensures
            r == self.spec_intersects(*rect),
    {
        self.x() < rect.right() && self.right() > rect.x() && self.y() < rect.bottom()
            && self.bottom() > rect.y()
    }

    pub fn set_x(&mut self, x: i16)
        ensures
            *final(self) == (Rect { position: Point { x, y: old(self).position.y }, ..*old(self) }),
    {
        self.position.x = x
    }

    pub fn x(&self) -> (r: i16)
        ensures
            r == self.position.x,
    {
        self.position.x
    }

    pub fn y(&self) -> (r: i16)
        ensures
            r == self.position.y,
    {
        self.position.y
    }
}

} // verus!
