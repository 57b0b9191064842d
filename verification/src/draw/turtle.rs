//! The turtle: a transient layout cursor holding a rectangle, a layout
//! policy, and the rectangles of the items placed so far.

use vstd::prelude::*;
use crate::draw::layout::{Layout, LayoutAlign, LayoutDirection};
use crate::draw::rect::Rect;
use crate::platform::math::{sat64, sat_add, sat_sub, Vec2};

verus! {

/// A layout-sizing selector: an explicit size, or a size derived from the
/// content placed so far.
#[derive(Clone, Copy, Debug, PartialEq, Eq, Structural)]
pub enum Walk {
    Size(Vec2),
    Compute,
}

impl Walk {
    pub fn size(&self) -> (r: Option<Vec2>)
        ensures
            r == match *self {
                Walk::Size(size) => Some(size),
                Walk::Compute => None::<Vec2>,
            },
    {
        match self {
            Walk::Size(size) => Some(*size),
            Walk::Compute => None,
        }
    }

    pub fn width(&self) -> (r: Option<i64>)
        ensures
            r == match *self {
                Walk::Size(size) => Some(size.x),
                Walk::Compute => None::<i64>,
            },
    {
        match self {
            Walk::Size(size) => Some(size.x),
            Walk::Compute => None,
        }
    }

    pub fn height(&self) -> (r: Option<i64>)
        ensures
            r == match *self {
                Walk::Size(size) => Some(size.y),
                Walk::Compute => None::<i64>,
            },
    {
        match self {
            Walk::Size(size) => Some(size.y),
            Walk::Compute => None,
        }
    }
}

/// One placed item: its rectangle and its per-item alignment override.
#[derive(Clone, Copy, Debug, PartialEq, Eq, Structural)]
pub struct TurtleItem {
    pub rect: Rect,
    pub align_self: Option<LayoutAlign>,
}

/// The extent of an item along the layout's main axis.
pub open spec fn main_extent(item: TurtleItem, direction: LayoutDirection) -> int {
    match direction {
        LayoutDirection::Horizontal => item.rect.size.x as int,
        LayoutDirection::Vertical => item.rect.size.y as int,
    }
}

/// The extent of an item across the layout's main axis.
pub open spec fn cross_extent(item: TurtleItem, direction: LayoutDirection) -> int {
    match direction {
        LayoutDirection::Horizontal => item.rect.size.y as int,
        LayoutDirection::Vertical => item.rect.size.x as int,
    }
}

/// The main-axis extent of a run of items: the sum of their main-axis
/// extents with one spacing between each pair, saturating step by step.
pub open spec fn main_content_size(
    items: Seq<TurtleItem>,
    direction: LayoutDirection,
    spacing: int,
) -> int
    decreases items.len(),
{
    if items.len() == 0 {
        0
    } else if items.len() == 1 {
        main_extent(items[0], direction)
    } else {
        sat64(
            sat64(main_content_size(items.drop_last(), direction, spacing) + spacing)
                + main_extent(items.last(), direction),
        )
    }
}

/// The cross-axis extent of a run of items: the largest cross-axis extent,
/// and never below zero.
pub open spec fn cross_content_size(items: Seq<TurtleItem>, direction: LayoutDirection) -> int
    decreases items.len(),
{
    if items.len() == 0 {
        0
    } else {
        let prev = cross_content_size(items.drop_last(), direction);
        let e = cross_extent(items.last(), direction);
        if prev >= e {
            prev
        } else {
            e
        }
    }
}

/// A layout cursor: the container rectangle, its layout policy, and the
/// items placed so far.  Its whole memory of prior layout is the item
/// list.
#[derive(Clone, Debug)]
pub struct Turtle {
    pub rect: Rect,
    pub layout: Layout,
    pub items: Vec<TurtleItem>,
}

impl Turtle {
    /// The rectangle at which the next item of extent `size` is placed.
    /// Along the main axis the item follows the previous item at one
    /// spacing, or starts at the padded container edge; across the main
    /// axis it is offset by the alignment policy within the padded
    /// container extent.
    pub open spec fn spec_place(self, size: Vec2, align_self: Option<LayoutAlign>) -> Rect {
        let align = match align_self {
            Some(a) => a,
            None => self.layout.align_items,
        };
        match self.layout.direction {
            LayoutDirection::Horizontal => {
                let x = if self.items@.len() == 0 {
                    sat64(self.rect.pos.x + self.layout.padding.x)
                } else {
                    sat64(self.items@.last().rect.spec_right() + self.layout.spacing)
                };
                let container = sat64(
                    self.rect.size.y - sat64(self.layout.padding.y + self.layout.padding.y),
                );
                let y = sat64(
                    sat64(self.rect.pos.y + self.layout.padding.y) + align.spec_resolve(
                        container,
                        size.y as int,
                    ),
                );
                Rect { pos: Vec2 { x: x as i64, y: y as i64 }, size }
            },
            LayoutDirection::Vertical => {
                let y = if self.items@.len() == 0 {
                    sat64(self.rect.pos.y + self.layout.padding.y)
                } else {
                    sat64(self.items@.last().rect.spec_bottom() + self.layout.spacing)
                };
                let container = sat64(
                    self.rect.size.x - sat64(self.layout.padding.x + self.layout.padding.x),
                );
                let x = sat64(
                    sat64(self.rect.pos.x + self.layout.padding.x) + align.spec_resolve(
                        container,
                        size.x as int,
                    ),
                );
                Rect { pos: Vec2 { x: x as i64, y: y as i64 }, size }
            },
        }
    }

    /// The content size: main-axis sum plus spacing, cross-axis maximum,
    /// each padded on both axes unconditionally — except that a turtle
    /// with no items has content size zero, with no padding added.
    pub open spec fn spec_content_size(self) -> Vec2 {
        if self.items@.len() == 0 {
            Vec2 { x: 0, y: 0 }
        } else {
            let main = main_content_size(
                self.items@,
                self.layout.direction,
                self.layout.spacing as int,
            );
            let cross = cross_content_size(self.items@, self.layout.direction);
            let px2 = sat64(self.layout.padding.x + self.layout.padding.x);
            let py2 = sat64(self.layout.padding.y + self.layout.padding.y);
            match self.layout.direction {
                LayoutDirection::Horizontal => Vec2 {
                    x: sat64(main + px2) as i64,
                    y: sat64(cross + py2) as i64,
                },
                LayoutDirection::Vertical => Vec2 {
                    x: sat64(cross + px2) as i64,
                    y: sat64(main + py2) as i64,
                },
            }
        }
    }

    pub fn new(rect: Rect, layout: Layout) -> (r: Self)
        ensures
            r.rect == rect,
            r.layout == layout,
            r.items@.len() == 0,
    {
        Self { rect, layout, items: Vec::new() }
    }

    /// Places one item of extent `size`, appends its rectangle to the item
    /// list, and returns it.
    pub fn add_item(&mut self, size: Vec2, align_self: Option<LayoutAlign>) -> (r: Rect)
        ensures
            r == old(self).spec_place(size, align_self),
            final(self).rect == old(self).rect,
            final(self).layout == old(self).layout,
            final(self).items@ == old(self).items@.push(TurtleItem { rect: r, align_self }),
    {
        let rect: Rect;
        let align = match align_self {
            Some(a) => a,
            None => self.layout.align_items,
        };
        match self.layout.direction {
            LayoutDirection::Horizontal => {
                let x = if self.items.len() == 0 {
                    sat_add(self.rect.pos.x, self.layout.padding.x)
                } else {
                    let last_right = self.items[self.items.len() - 1].rect.right();
                    sat_add(last_right, self.layout.spacing)
                };
                let container = sat_sub(
                    self.rect.size.y,
                    sat_add(self.layout.padding.y, self.layout.padding.y),
                );
                let offset = align.resolve(container, size.y);
                let y = sat_add(sat_add(self.rect.pos.y, self.layout.padding.y), offset);
                rect = Rect::new(x, y, size.x, size.y);
            },
            LayoutDirection::Vertical => {
                let y = if self.items.len() == 0 {
                    sat_add(self.rect.pos.y, self.layout.padding.y)
                } else {
                    let last_bottom = self.items[self.items.len() - 1].rect.bottom();
                    sat_add(last_bottom, self.layout.spacing)
                };
                let container = sat_sub(
                    self.rect.size.x,
                    sat_add(self.layout.padding.x, self.layout.padding.x),
                );
                let offset = align.resolve(container, size.x);
                let x = sat_add(sat_add(self.rect.pos.x, self.layout.padding.x), offset);
                rect = Rect::new(x, y, size.x, size.y);
            },
        }
        self.items.push(TurtleItem { rect, align_self });
        rect
    }

    /// Computes the content size of the items placed so far; a turtle with
    /// no items reports a zero size.
    pub fn compute_content_size(&self) -> (r: Vec2)
        ensures
            r == self.spec_content_size(),
    {
        if self.items.len() == 0 {
            return Vec2::zero();
        }
        let n = self.items.len();
        let mut main: i64 = 0;
        let mut cross: i64 = 0;
        let mut i: usize = 0;
        while i < n
            invariant
                0 < n == self.items@.len(),
                i <= n,
                main as int == main_content_size(
                    self.items@.subrange(0, i as int),
                    self.layout.direction,
                    self.layout.spacing as int,
                ),
                cross as int == cross_content_size(
                    self.items@.subrange(0, i as int),
                    self.layout.direction,
                ),
            decreases n - i,
        {
            proof {
                assert(self.items@.subrange(0, i + 1).drop_last() == self.items@.subrange(
                    0,
                    i as int,
                ));
                assert(self.items@.subrange(0, i + 1).last() == self.items@[i as int]);
            }
            if i > 0 {
                main = sat_add(main, self.layout.spacing);
            }
            let e_main = match self.layout.direction {
                LayoutDirection::Horizontal => self.items[i].rect.size.x,
                LayoutDirection::Vertical => self.items[i].rect.size.y,
            };
            main = sat_add(main, e_main);
            let e_cross = match self.layout.direction {
                LayoutDirection::Horizontal => self.items[i].rect.size.y,
                LayoutDirection::Vertical => self.items[i].rect.size.x,
            };
            if e_cross > cross {
                cross = e_cross;
            }
            i += 1;
        }
        proof {
            assert(self.items@.subrange(0, n as int) == self.items@);
        }
        let px2 = sat_add(self.layout.padding.x, self.layout.padding.x);
        let py2 = sat_add(self.layout.padding.y, self.layout.padding.y);
        match self.layout.direction {
            LayoutDirection::Horizontal => Vec2::new(sat_add(main, px2), sat_add(cross, py2)),
            LayoutDirection::Vertical => Vec2::new(sat_add(cross, px2), sat_add(main, py2)),
        }
    }
}

} // verus!
