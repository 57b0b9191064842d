//! The per-widget handle to a draw list in the arena: a semi-retained
//! buffer whose contents are rebuilt every draw pass while its id and
//! transform persist.

use vstd::prelude::*;
use crate::draw::rect::Rect;
use crate::platform::cx::Cx;
use crate::platform::draw_list::DrawListId;
use crate::platform::math::Mat4;

verus! {

/// A widget's handle to its arena draw list.
#[derive(Clone, Copy, Debug)]
pub struct DrawList2d {
    pub draw_list_id: DrawListId,
    pub dirty_check_rect: Rect,
}

impl DrawList2d {
    /// Creates the underlying draw list in the arena, once per widget
    /// instance.
    pub fn new(cx: &mut Cx) -> (r: Self)
        requires
            old(cx).draw_lists@.len() < usize::MAX,
        ensures
            r.draw_list_id.0 == old(cx).draw_lists@.len() + 1,
            r.dirty_check_rect == Rect::spec_zero(),
            final(cx).draw_lists@.len() == r.draw_list_id.0,
            final(cx).draw_lists@.subrange(0, old(cx).draw_lists@.len() as int) == old(
                cx,
            ).draw_lists@,
            final(cx).draw_lists@.last().draw_list_id == r.draw_list_id,
            final(cx).draw_lists@.last().draw_items@.len() == 0,
            final(cx).draw_lists@.last().view_transform.is_identity(),
            old(cx).only_draw_lists_changed(*final(cx)),
            old(cx).wf() ==> final(cx).wf(),
    {
        let draw_list_id = cx.create_draw_list();
        Self { draw_list_id, dirty_check_rect: Rect::zero() }
    }

    pub fn id(&self) -> (r: DrawListId)
        ensures
            r == self.draw_list_id,
    {
        self.draw_list_id
    }

    /// Empties the list's item sequence for a fresh pass and reports
    /// whether the list still exists; the list's id and view transform
    /// are untouched.
    pub fn begin(&mut self, cx: &mut Cx) -> (found: bool)
        ensures
            *final(self) == *old(self),
            old(cx).only_draw_lists_changed(*final(cx)),
            found == (old(cx).spec_draw_list(old(self).draw_list_id) is Some),
            match old(cx).spec_draw_list(old(self).draw_list_id) {
                Some(l) => {
                    &&& final(cx).draw_lists@ == old(cx).draw_lists@.update(
                        old(self).draw_list_id.0 - 1,
                        final(cx).draw_lists@[old(self).draw_list_id.0 - 1],
                    )
                    &&& final(cx).draw_lists@[old(self).draw_list_id.0 - 1].draw_list_id
                        == l.draw_list_id
                    &&& final(cx).draw_lists@[old(self).draw_list_id.0 - 1].view_transform
                        == l.view_transform
                    &&& final(cx).draw_lists@[old(self).draw_list_id.0 - 1].draw_items@.len() == 0
                },
                None => final(cx).draw_lists == old(cx).draw_lists,
            },
    {
        cx.clear_draw_list(self.draw_list_id)
    }

    /// As `begin`, without reporting whether the list exists.
    pub fn begin_always(&mut self, cx: &mut Cx)
        ensures
            *final(self) == *old(self),
            old(cx).only_draw_lists_changed(*final(cx)),
            match old(cx).spec_draw_list(old(self).draw_list_id) {
                Some(l) => {
                    &&& final(cx).draw_lists@ == old(cx).draw_lists@.update(
                        old(self).draw_list_id.0 - 1,
                        final(cx).draw_lists@[old(self).draw_list_id.0 - 1],
                    )
                    &&& final(cx).draw_lists@[old(self).draw_list_id.0 - 1].draw_list_id
                        == l.draw_list_id
                    &&& final(cx).draw_lists@[old(self).draw_list_id.0 - 1].view_transform
                        == l.view_transform
                    &&& final(cx).draw_lists@[old(self).draw_list_id.0 - 1].draw_items@.len() == 0
                },
                None => final(cx).draw_lists == old(cx).draw_lists,
            },
    {
        let _ = cx.clear_draw_list(self.draw_list_id);
    }

    /// A finalization hook: the pass keeps nothing to flush, so nothing
    /// changes.
    pub fn end(&mut self, cx: &mut Cx)
        ensures
            *final(self) == *old(self),
            *final(cx) == *old(cx),
    {
        let _ = cx;
    }

    /// Stores the list's view transform in the arena; a no-op when the
    /// list is unknown.
    pub fn set_view_transform(&mut self, cx: &mut Cx, transform: Mat4)
        ensures
            *final(self) == *old(self),
            old(cx).only_draw_lists_changed(*final(cx)),
            match old(cx).spec_draw_list(old(self).draw_list_id) {
                Some(l) => final(cx).draw_lists@ == old(cx).draw_lists@.update(
                    old(self).draw_list_id.0 - 1,
                    crate::platform::draw_list::DrawList {
                        draw_list_id: l.draw_list_id,
                        draw_items: l.draw_items,
                        view_transform: transform,
                    },
                ),
                None => final(cx).draw_lists == old(cx).draw_lists,
            },
    {
        cx.set_view_transform(self.draw_list_id, transform)
    }
}

} // verus!
