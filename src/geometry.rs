use vstd::prelude::*;

verus! {

/// A point in the integer coordinate space of a canvas (origin top-left).
#[derive(Clone, Copy, Debug, PartialEq, Eq, Structural)]
pub struct Point {
    pub x: i64,
    pub y: i64,
}

/// An axis-aligned rectangle: its top-left corner and its size.
#[derive(Clone, Copy, Debug, PartialEq, Eq, Structural)]
pub struct Rect {
    pub x: i64,
    pub y: i64,
    pub width: i64,
    pub height: i64,
}

impl Point {
    pub fn new(x: i64, y: i64) -> (r: Point)
        ensures
            r.x == x,
            r.y == y,
    {
        Point { x, y }
    }

    /// The point moved by `(dx, dy)`, in mathematical integers.
    pub open spec fn shifted(self, dx: int, dy: int) -> Point {
        Point { x: (self.x + dx) as i64, y: (self.y + dy) as i64 }
    }

    /// Moves the point by `(dx, dy)`.
    pub fn translate(self, dx: i64, dy: i64) -> (r: Point)
        requires
            i64::MIN <= self.x + dx <= i64::MAX,
            i64::MIN <= self.y + dy <= i64::MAX,
        ensures
            r == self.shifted(dx as int, dy as int),
            r.x == self.x + dx,
            r.y == self.y + dy,
    {
        Point { x: self.x + dx, y: self.y + dy }
    }
}

impl Rect {
    /// The empty rectangle at the origin: it contains no point.
    pub fn zero() -> (r: Rect)
        ensures
            r == Rect::spec_zero(),
    {
        Rect { x: 0, y: 0, width: 0, height: 0 }
    }

    pub open spec fn spec_zero() -> Rect {
        Rect { x: 0, y: 0, width: 0, height: 0 }
    }

    /// Whether `p` lies in the rectangle; the left and top edges are inside,
    /// the right and bottom edges are not.
    pub open spec fn spec_contains(self, p: Point) -> bool {
        &&& self.x <= p.x
        &&& p.x < self.x + self.width
        &&& self.y <= p.y
        &&& p.y < self.y + self.height
    }

    pub fn contains(&self, p: Point) -> (r: bool)
        ensures
            r == self.spec_contains(p),
    {
        let px = p.x as i128;
        let py = p.y as i128;
        let x = self.x as i128;
        let y = self.y as i128;
        x <= px && px < x + self.width as i128 && y <= py && py < y + self.height as i128
    }

    /// `p` in the rectangle's own coordinate space (relative to its corner).
    pub open spec fn spec_local(self, p: Point) -> Point {
        p.shifted(-self.x, -self.y)
    }

    pub fn local(&self, p: Point) -> (r: Point)
        requires
            self.spec_contains(p),
        ensures
            r == self.spec_local(p),
            r.x == p.x - self.x,
            r.y == p.y - self.y,
    {
        Point { x: p.x - self.x, y: p.y - self.y }
    }
}

} // verus!
