//! The per-pass drawing context: a stack of turtles that widgets nest
//! during one draw pass.  The caller balances every begin with an end;
//! each widget's draw leaves the stack as it found it.

use vstd::prelude::*;
use crate::draw::layout::Layout;
use crate::draw::rect::Rect;
use crate::draw::turtle::{Turtle, TurtleItem, Walk};
use crate::platform::draw_list::DrawListId;
use crate::platform::math::Vec2;

verus! {

/// The transient layout state of one draw pass.
pub struct Cx2d {
    pub turtles: Vec<Turtle>,
    pub overlay_id: Option<DrawListId>,
}

impl Cx2d {
    /// The extent `walk` selects on the stack's top turtle: the explicit
    /// size, or the computed content size.
    pub open spec fn spec_walk_size(top: Turtle, walk: Walk) -> Vec2 {
        match walk {
            Walk::Size(size) => size,
            Walk::Compute => top.spec_content_size(),
        }
    }

    pub fn new() -> (r: Self)
        ensures
            r.turtles@.len() == 0,
            r.overlay_id is None,
    {
        Self { turtles: Vec::new(), overlay_id: None }
    }

    /// Opens a nesting level: pushes a fresh turtle with a zero rectangle
    /// and the given layout.
    pub fn begin_turtle(&mut self, layout: Layout)
        ensures
            final(self).turtles@.len() == old(self).turtles@.len() + 1,
            final(self).turtles@.subrange(0, old(self).turtles@.len() as int) == old(
                self,
            ).turtles@,
            final(self).turtles@.last().rect == Rect::spec_zero(),
            final(self).turtles@.last().layout == layout,
            final(self).turtles@.last().items@.len() == 0,
            final(self).overlay_id == old(self).overlay_id,
    {
        let turtle = Turtle::new(Rect::zero(), layout);
        self.turtles.push(turtle);
        proof {
            assert(final(self).turtles@.subrange(0, old(self).turtles@.len() as int) == old(
                self,
            ).turtles@);
        }
    }

    /// Opens a nesting level with a turtle of the given extent at the
    /// origin.
    pub fn begin_sized_turtle(&mut self, size: Vec2, layout: Layout)
        ensures
            final(self).turtles@.len() == old(self).turtles@.len() + 1,
            final(self).turtles@.subrange(0, old(self).turtles@.len() as int) == old(
                self,
            ).turtles@,
            final(self).turtles@.last().rect.pos.x == 0,
            final(self).turtles@.last().rect.pos.y == 0,
            final(self).turtles@.last().rect.size == size,
            final(self).turtles@.last().layout == layout,
            final(self).turtles@.last().items@.len() == 0,
            final(self).overlay_id == old(self).overlay_id,
    {
        let turtle = Turtle::new(Rect::new(0, 0, size.x, size.y), layout);
        self.turtles.push(turtle);
        proof {
            assert(final(self).turtles@.subrange(0, old(self).turtles@.len() as int) == old(
                self,
            ).turtles@);
        }
    }

    /// Closes the innermost nesting level and hands its turtle back, or
    /// nothing when the stack is already empty.
    pub fn end_turtle(&mut self) -> (r: Option<Turtle>)
        ensures
            final(self).overlay_id == old(self).overlay_id,
            if old(self).turtles@.len() > 0 {
                final(self).turtles@ == old(self).turtles@.drop_last() && (r matches Some(t)
                    && t == old(self).turtles@.last())
            } else {
                final(self).turtles@ == old(self).turtles@ && r is None
            },
    {
        self.turtles.pop()
    }

    /// The innermost open turtle, if any.
    pub fn peek_turtle(&self) -> (r: Option<&Turtle>)
        ensures
            if self.turtles@.len() > 0 {
                r matches Some(t) && *t == self.turtles@.last()
            } else {
                r is None
            },
    {
        if self.turtles.len() > 0 {
            Some(&self.turtles[self.turtles.len() - 1])
        } else {
            None
        }
    }

    /// The rectangle the innermost turtle would take under `walk`, without
    /// changing anything; the zero rectangle when no turtle is open.
    pub fn peek_walk_turtle(&self, walk: Walk) -> (r: Rect)
        ensures
            if self.turtles@.len() > 0 {
                r == (Rect {
                    pos: self.turtles@.last().rect.pos,
                    size: Cx2d::spec_walk_size(self.turtles@.last(), walk),
                })
            } else {
                r == Rect::spec_zero()
            },
    {
        if self.turtles.len() == 0 {
            return Rect::zero();
        }
        let top = &self.turtles[self.turtles.len() - 1];
        match walk {
            Walk::Size(size) => Rect::from_pos_size(top.rect.pos, size),
            Walk::Compute => {
                let content_size = top.compute_content_size();
                Rect::from_pos_size(top.rect.pos, content_size)
            },
        }
    }

    /// Resizes the innermost turtle's rectangle to the extent `walk`
    /// selects and returns the resized rectangle; the zero rectangle when
    /// no turtle is open.
    pub fn walk_turtle(&mut self, walk: Walk) -> (r: Rect)
        ensures
            final(self).overlay_id == old(self).overlay_id,
            if old(self).turtles@.len() > 0 {
                {
                    let top = old(self).turtles@.last();
                    let new_rect = Rect {
                        pos: top.rect.pos,
                        size: Cx2d::spec_walk_size(top, walk),
                    };
                    &&& r == new_rect
                    &&& final(self).turtles@ == old(self).turtles@.update(
                        old(self).turtles@.len() - 1,
                        Turtle { rect: new_rect, layout: top.layout, items: top.items },
                    )
                }
            } else {
                final(self).turtles == old(self).turtles && r == Rect::spec_zero()
            },
    {
        if self.turtles.len() == 0 {
            return Rect::zero();
        }
        let idx = self.turtles.len() - 1;
        let top = &mut self.turtles[idx];
        match walk {
            Walk::Size(size) => {
                top.rect.size = size;
                top.rect
            },
            Walk::Compute => {
                let content_size = top.compute_content_size();
                top.rect.size = content_size;
                top.rect
            },
        }
    }

    /// Places one item of extent `size` on the innermost turtle and
    /// returns its rectangle, or nothing when no turtle is open.
    pub fn add_turtle_item(&mut self, size: Vec2) -> (r: Option<Rect>)
        ensures
            final(self).overlay_id == old(self).overlay_id,
            if old(self).turtles@.len() > 0 {
                {
                    let top = old(self).turtles@.last();
                    let rect = top.spec_place(size, None);
                    &&& r == Some(rect)
                    &&& final(self).turtles@ == old(self).turtles@.update(
                        old(self).turtles@.len() - 1,
                        Turtle {
                            rect: top.rect,
                            layout: top.layout,
                            items: final(self).turtles@.last().items,
                        },
                    )
                    &&& final(self).turtles@.last().items@ == top.items@.push(
                        TurtleItem { rect, align_self: None },
                    )
                }
            } else {
                final(self).turtles == old(self).turtles && r is None
            },
    {
        if self.turtles.len() == 0 {
            return None;
        }
        let idx = self.turtles.len() - 1;
        let top = &mut self.turtles[idx];
        let rect = top.add_item(size, None);
        Some(rect)
    }
}

} // verus!
