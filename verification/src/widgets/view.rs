//! The view: a layout container with ordered, exclusively owned children.
//! It opens a turtle, draws its children into it, sizes itself to the
//! content, and reports `Redraw` exactly when some child did.

use vstd::prelude::*;
use vstd::view::View as VstdView;
use crate::draw::cx_2d::Cx2d;
use crate::draw::draw_list_2d::DrawList2d;
use crate::draw::layout::Layout;
use crate::draw::turtle::Walk;
use crate::platform::area::Area;
use crate::platform::cx::{AreaData, Cx};
use crate::platform::event::Event;
use crate::widgets::widget::{
    children_size, lemma_children_size_prefix_le, lemma_children_size_take_one, spec_drawn,
    spec_handles, widget_redraw, widget_size, DrawStep, WidgetRef,
};

verus! {

/// A layout container.
#[derive(Debug)]
pub struct View {
    pub layout: Layout,
    pub draw_list: DrawList2d,
    pub area: Area,
    pub children: Vec<WidgetRef>,
}

impl View {
    /// Creates an empty view with a vertical layout, a fresh draw list
    /// and a fresh area.
    pub fn new(cx: &mut Cx) -> (r: Self)
        requires
            old(cx).draw_lists@.len() < usize::MAX,
            old(cx).areas@.len() < usize::MAX,
        ensures
            r.layout == Layout::spec_default_with(crate::draw::layout::LayoutDirection::Vertical),
            r.draw_list.draw_list_id.0 == old(cx).draw_lists@.len() + 1,
            r.area.0 == old(cx).areas@.len() + 1,
            r.children@.len() == 0,
            final(cx).draw_lists@.len() == old(cx).draw_lists@.len() + 1,
            final(cx).draw_lists@.subrange(0, old(cx).draw_lists@.len() as int) == old(
                cx,
            ).draw_lists@,
            final(cx).draw_lists@.last().draw_list_id == r.draw_list.draw_list_id,
            final(cx).draw_lists@.last().draw_items@.len() == 0,
            final(cx).areas@.len() == old(cx).areas@.len() + 1,
            final(cx).areas@.subrange(0, old(cx).areas@.len() as int) == old(cx).areas@,
            final(cx).areas@.last() == (AreaData {
                rect: crate::draw::rect::Rect::spec_zero(),
                draw_list_id: None,
            }),
            final(cx).windows == old(cx).windows,
            final(cx).passes == old(cx).passes,
            final(cx).textures == old(cx).textures,
            final(cx).geometries == old(cx).geometries,
            final(cx).shaders == old(cx).shaders,
            final(cx).gpu_info == old(cx).gpu_info,
            final(cx).debug == old(cx).debug,
            old(cx).wf() ==> final(cx).wf(),
    {
        let draw_list = DrawList2d::new(cx);
        let area = cx.create_area();
        Self { layout: Layout::vertical(), draw_list, area, children: Vec::new() }
    }

    pub fn with_layout(self, layout: Layout) -> (r: Self)
        ensures
            r.layout == layout,
            r.draw_list == self.draw_list,
            r.area == self.area,
            r.children == self.children,
    {
        View { layout, ..self }
    }

    pub fn with_horizontal_layout(self) -> (r: Self)
        ensures
            r.layout == Layout::spec_default_with(
                crate::draw::layout::LayoutDirection::Horizontal,
            ),
            r.draw_list == self.draw_list,
            r.area == self.area,
            r.children == self.children,
    {
        View { layout: Layout::horizontal(), ..self }
    }

    pub fn with_vertical_layout(self) -> (r: Self)
        ensures
            r.layout == Layout::spec_default_with(crate::draw::layout::LayoutDirection::Vertical),
            r.draw_list == self.draw_list,
            r.area == self.area,
            r.children == self.children,
    {
        View { layout: Layout::vertical(), ..self }
    }

    /// Appends one child; children are drawn and handed events in append
    /// order.
    pub fn add_child(&mut self, child: WidgetRef)
        ensures
            final(self).layout == old(self).layout,
            final(self).draw_list == old(self).draw_list,
            final(self).area == old(self).area,
            final(self).children@ == old(self).children@.push(child),
    {
        self.children.push(child);
    }

    /// Forwards one event to every child in child order.  The arena is
    /// only read.
    pub fn handle_event(&mut self, cx: &mut Cx, event: &Event)
        ensures
            *final(cx) == *old(cx),
            final(self).layout == old(self).layout,
            final(self).draw_list == old(self).draw_list,
            final(self).area == old(self).area,
            final(self).children@.len() == old(self).children@.len(),
            forall|i: int|
                0 <= i < old(self).children@.len() ==> spec_handles(
                    #[trigger] old(self).children@[i],
                    final(self).children@[i],
                    *old(cx),
                    *event,
                ),
        decreases 1 + children_size(old(self).children@), 0int,
    {
        let n = self.children.len();
        let mut i: usize = 0;
        while i < n
            invariant
                i <= n == self.children@.len(),
                n == old(self).children@.len(),
                self.layout == old(self).layout,
                self.draw_list == old(self).draw_list,
                self.area == old(self).area,
                *cx == *old(cx),
                forall|j: int|
                    0 <= j < i ==> spec_handles(
                        #[trigger] old(self).children@[j],
                        self.children@[j],
                        *old(cx),
                        *event,
                    ),
                forall|j: int| i <= j < n ==> self.children@[j] == old(self).children@[j],
            decreases n - i,
        {
            proof {
                lemma_children_size_take_one(old(self).children@, i as int);
                lemma_children_size_prefix_le(old(self).children@, i + 1);
            }
            let child = &mut self.children[i];
            child.handle_event(cx, event);
            i += 1;
        }
    }

    /// One draw pass: rebuilds the view's draw list, opens a turtle with
    /// the view's layout, draws every child into it in order, sizes the
    /// turtle to its content, and closes it, leaving the surrounding
    /// turtle stack exactly as it was.  Reports `Redraw` exactly when
    /// some child did.
    pub fn draw(&mut self, cx: &mut Cx, cx2d: &mut Cx2d) -> (r: DrawStep)
        requires
            old(cx).shaders@.len() + 2 * (1 + children_size(old(self).children@)) <= usize::MAX,
            old(cx).geometries@.len() + 2 * (1 + children_size(old(self).children@))
                <= usize::MAX,
        ensures
            (r is Redraw) == exists|i: int|
                0 <= i < old(self).children@.len() && widget_redraw(
                    #[trigger] old(self).children@[i],
                ),
            final(self).layout == old(self).layout,
            final(self).draw_list == old(self).draw_list,
            final(self).area == old(self).area,
            final(self).children@.len() == old(self).children@.len(),
            forall|i: int|
                0 <= i < old(self).children@.len() ==> widget_redraw(
                    #[trigger] final(self).children@[i],
                ) == widget_redraw(old(self).children@[i]),
            forall|i: int|
                0 <= i < old(self).children@.len() ==> widget_size(
                    #[trigger] final(self).children@[i],
                ) == widget_size(old(self).children@[i]),
            forall|i: int|
                0 <= i < old(self).children@.len() ==> spec_drawn(
                    #[trigger] old(self).children@[i],
                    final(self).children@[i],
                    true,
                ),
            final(cx2d).overlay_id == old(cx2d).overlay_id,
            final(cx2d).turtles@ == old(cx2d).turtles@,
            final(cx).windows == old(cx).windows,
            final(cx).textures == old(cx).textures,
            final(cx).gpu_info == old(cx).gpu_info,
            final(cx).debug == old(cx).debug,
            final(cx).passes@.len() == old(cx).passes@.len(),
            final(cx).draw_lists@.len() == old(cx).draw_lists@.len(),
            final(cx).areas@.len() == old(cx).areas@.len(),
            final(cx).shaders@.len() >= old(cx).shaders@.len(),
            final(cx).shaders@.len() <= old(cx).shaders@.len() + 2 * children_size(
                old(self).children@,
            ),
            final(cx).shaders@.subrange(0, old(cx).shaders@.len() as int) == old(cx).shaders@,
            final(cx).geometries@.len() >= old(cx).geometries@.len(),
            final(cx).geometries@.len() <= old(cx).geometries@.len() + 2 * children_size(
                old(self).children@,
            ),
            final(cx).geometries@.subrange(0, old(cx).geometries@.len() as int) == old(
                cx,
            ).geometries@,
        decreases 1 + children_size(old(self).children@), 0int,
    {
        let _ = self.draw_list.begin(cx);

        cx2d.begin_turtle(self.layout);

        let ghost base_turtles = old(cx2d).turtles@;
        let ghost base_shaders = cx.shaders@;
        let ghost base_geometries = cx.geometries@;

        let mut step = DrawStep::done();

        let n = self.children.len();
        let mut i: usize = 0;
        while i < n
            invariant
                i <= n == self.children@.len(),
                n == old(self).children@.len(),
                self.layout == old(self).layout,
                self.draw_list == old(self).draw_list,
                self.area == old(self).area,
                (step is Redraw) == exists|j: int|
                    0 <= j < i && widget_redraw(#[trigger] old(self).children@[j]),
                forall|j: int|
                    0 <= j < i ==> widget_redraw(#[trigger] self.children@[j]) == widget_redraw(
                        old(self).children@[j],
                    ),
                forall|j: int|
                    0 <= j < i ==> widget_size(#[trigger] self.children@[j]) == widget_size(
                        old(self).children@[j],
                    ),
                forall|j: int|
                    0 <= j < i ==> spec_drawn(
                        #[trigger] old(self).children@[j],
                        self.children@[j],
                        true,
                    ),
                forall|j: int| i <= j < n ==> self.children@[j] == old(self).children@[j],
                cx2d.overlay_id == old(cx2d).overlay_id,
                cx2d.turtles@.len() == base_turtles.len() + 1,
                cx2d.turtles@.subrange(0, base_turtles.len() as int) == base_turtles,
                cx.windows == old(cx).windows,
                cx.textures == old(cx).textures,
                cx.gpu_info == old(cx).gpu_info,
                cx.debug == old(cx).debug,
                cx.passes@.len() == old(cx).passes@.len(),
                cx.draw_lists@.len() == old(cx).draw_lists@.len(),
                cx.areas@.len() == old(cx).areas@.len(),
                cx.shaders@.len() >= base_shaders.len(),
                cx.shaders@.len() <= base_shaders.len() + 2 * children_size(
                    old(self).children@.subrange(0, i as int),
                ),
                cx.shaders@.subrange(0, base_shaders.len() as int) == base_shaders,
                cx.geometries@.len() >= base_geometries.len(),
                cx.geometries@.len() <= base_geometries.len() + 2 * children_size(
                    old(self).children@.subrange(0, i as int),
                ),
                cx.geometries@.subrange(0, base_geometries.len() as int) == base_geometries,
                base_shaders == old(cx).shaders@,
                base_geometries == old(cx).geometries@,
                base_shaders.len() + 2 * (1 + children_size(old(self).children@))
                    <= usize::MAX,
                base_geometries.len() + 2 * (1 + children_size(old(self).children@))
                    <= usize::MAX,
            decreases n - i,
        {
            proof {
                lemma_children_size_take_one(old(self).children@, i as int);
                lemma_children_size_prefix_le(old(self).children@, i + 1);
                assert(widget_size(self.children@[i as int]) == widget_size(
                    old(self).children@[i as int],
                ));
            }
            let ghost mid_shaders = cx.shaders@;
            let ghost mid_geometries = cx.geometries@;
            let ghost mid_turtles = cx2d.turtles@;
            let child = &mut self.children[i];
            let child_step = child.draw(cx, cx2d);
            step = step.join(child_step);
            proof {
                assert(cx.shaders@.subrange(0, base_shaders.len() as int) =~= base_shaders);
                assert(cx.geometries@.subrange(0, base_geometries.len() as int)
                    =~= base_geometries);
                assert(cx2d.turtles@.subrange(0, base_turtles.len() as int) =~= base_turtles);
            }
            i += 1;
        }

        proof {
            assert(old(self).children@.subrange(0, n as int) == old(self).children@);
        }

        let _rect = cx2d.walk_turtle(Walk::Compute);

        let _ = cx2d.end_turtle();

        proof {
            assert(cx2d.turtles@ =~= base_turtles);
        }

        self.draw_list.end(cx);

        step
    }
}

} // verus!
