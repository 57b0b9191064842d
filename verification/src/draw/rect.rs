//! Axis-aligned rectangles on the integer coordinate grid.

use vstd::prelude::*;
use crate::platform::math::{sat64, sat_add, sat_sub, Vec2};

verus! {

/// A rectangle given by its top-left corner and its extent.  Extents may be
/// any coordinate value; edge positions saturate at the `i64` range.
#[derive(Clone, Copy, Debug, PartialEq, Eq, Structural)]
pub struct Rect {
    pub pos: Vec2,
    pub size: Vec2,
}

impl Rect {
    /// The rectangle at the origin with zero extent.
    pub open spec fn spec_zero() -> Rect {
        Rect { pos: Vec2 { x: 0, y: 0 }, size: Vec2 { x: 0, y: 0 } }
    }

    /// The x position of the right edge, saturated.
    pub open spec fn spec_right(self) -> int {
        sat64(self.pos.x + self.size.x)
    }

    /// The y position of the bottom edge, saturated.
    pub open spec fn spec_bottom(self) -> int {
        sat64(self.pos.y + self.size.y)
    }

    /// True when the point lies inside the rectangle, all four edges
    /// inclusive.
    pub open spec fn spec_contains(self, point: Vec2) -> bool {
        &&& point.x >= self.pos.x
        &&& point.x <= self.spec_right()
        &&& point.y >= self.pos.y
        &&& point.y <= self.spec_bottom()
    }

    pub fn new(x: i64, y: i64, width: i64, height: i64) -> (r: Self)
        ensures
            r.pos.x == x && r.pos.y == y,
            r.size.x == width && r.size.y == height,
    {
        Self { pos: Vec2::new(x, y), size: Vec2::new(width, height) }
    }

    pub fn from_pos_size(pos: Vec2, size: Vec2) -> (r: Self)
        ensures
            r.pos == pos,
            r.size == size,
    {
        Self { pos, size }
    }

    pub fn zero() -> (r: Self)
        ensures
            r.pos.x == 0 && r.pos.y == 0,
            r.size.x == 0 && r.size.y == 0,
    {
        Self { pos: Vec2::zero(), size: Vec2::zero() }
    }

    pub fn width(&self) -> (r: i64)
        ensures
            r == self.size.x,
    {
        self.size.x
    }

    pub fn height(&self) -> (r: i64)
        ensures
            r == self.size.y,
    {
        self.size.y
    }

    pub fn x(&self) -> (r: i64)
        ensures
            r == self.pos.x,
    {
        self.pos.x
    }

    pub fn y(&self) -> (r: i64)
        ensures
            r == self.pos.y,
    {
        self.pos.y
    }

    pub fn right(&self) -> (r: i64)
        ensures
            r as int == self.spec_right(),
    {
        sat_add(self.pos.x, self.size.x)
    }

    pub fn bottom(&self) -> (r: i64)
        ensures
            r as int == self.spec_bottom(),
    {
        sat_add(self.pos.y, self.size.y)
    }

    /// Point-in-rectangle hit test, inclusive on all four edges.
    pub fn contains(&self, point: Vec2) -> (r: bool)
        ensures
            r == self.spec_contains(point),
    {
        point.x >= self.pos.x && point.x <= self.right() && point.y >= self.pos.y && point.y
            <= self.bottom()
    }

    /// True when the interiors of the two rectangles overlap (edges
    /// exclusive).
    pub fn intersects(&self, other: &Rect) -> (r: bool)
        ensures
            r == (self.pos.x < other.spec_right() && self.spec_right() > other.pos.x && self.pos.y
                < other.spec_bottom() && self.spec_bottom() > other.pos.y),
    {
        self.pos.x < other.right() && self.right() > other.pos.x && self.pos.y < other.bottom()
            && self.bottom() > other.pos.y
    }

    /// The smallest rectangle that covers both rectangles; its extent is
    /// measured from the joined corners with saturating subtraction.
    pub fn union(&self, other: &Rect) -> (r: Rect)
        ensures
            r.pos.x == if self.pos.x <= other.pos.x {
                self.pos.x
            } else {
                other.pos.x
            },
            r.pos.y == if self.pos.y <= other.pos.y {
                self.pos.y
            } else {
                other.pos.y
            },
            r.size.x as int == sat64(
                (if self.spec_right() >= other.spec_right() {
                    self.spec_right()
                } else {
                    other.spec_right()
                }) - r.pos.x,
            ),
            r.size.y as int == sat64(
                (if self.spec_bottom() >= other.spec_bottom() {
                    self.spec_bottom()
                } else {
                    other.spec_bottom()
                }) - r.pos.y,
            ),
    {
        let x = if self.pos.x <= other.pos.x {
            self.pos.x
        } else {
            other.pos.x
        };
        let y = if self.pos.y <= other.pos.y {
            self.pos.y
        } else {
            other.pos.y
        };
        let sr = self.right();
        let or = other.right();
        let right = if sr >= or {
            sr
        } else {
            or
        };
        let sb = self.bottom();
        let ob = other.bottom();
        let bottom = if sb >= ob {
            sb
        } else {
            ob
        };
        Rect::new(x, y, sat_sub(right, x), sat_sub(bottom, y))
    }

    /// The overlap of the two rectangles, or `None` when their interiors do
    /// not overlap.
    pub fn intersection(&self, other: &Rect) -> (r: Option<Rect>)
        ensures
            ({
                let x = if self.pos.x >= other.pos.x {
                    self.pos.x as int
                } else {
                    other.pos.x as int
                };
                let y = if self.pos.y >= other.pos.y {
                    self.pos.y as int
                } else {
                    other.pos.y as int
                };
                let right = if self.spec_right() <= other.spec_right() {
                    self.spec_right()
                } else {
                    other.spec_right()
                };
                let bottom = if self.spec_bottom() <= other.spec_bottom() {
                    self.spec_bottom()
                } else {
                    other.spec_bottom()
                };
                if right > x && bottom > y {
                    r matches Some(q) && q.pos.x == x && q.pos.y == y && q.size.x as int == sat64(
                        right - x,
                    ) && q.size.y as int == sat64(bottom - y)
                } else {
                    r is None
                }
            }),
    {
        let x = if self.pos.x >= other.pos.x {
            self.pos.x
        } else {
            other.pos.x
        };
        let y = if self.pos.y >= other.pos.y {
            self.pos.y
        } else {
            other.pos.y
        };
        let sr = self.right();
        let or = other.right();
        let right = if sr <= or {
            sr
        } else {
            or
        };
        let sb = self.bottom();
        let ob = other.bottom();
        let bottom = if sb <= ob {
            sb
        } else {
            ob
        };
        if right > x && bottom > y {
            Some(Rect::new(x, y, sat_sub(right, x), sat_sub(bottom, y)))
        } else {
            None
        }
    }
}

} // verus!
