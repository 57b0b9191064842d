//! The widget vocabulary: the draw-pass outcome, and the closed widget
//! node type that containers own and dispatch over.

use vstd::prelude::*;
use crate::draw::cx_2d::Cx2d;
use crate::platform::cx::Cx;
use crate::platform::event::Event;
use crate::widgets::button::Button;
use crate::widgets::label::Label;
use crate::widgets::window::Window;

verus! {

/// The outcome of one widget's draw call: whether it requests another
/// frame.  A container reports `Redraw` exactly when some child did.
#[derive(Clone, Copy, Debug, PartialEq, Eq, Structural)]
pub enum DrawStep {
    Done,
    Redraw,
}

impl DrawStep {
    pub fn done() -> (r: Self)
        ensures
            r == DrawStep::Done,
    {
        DrawStep::Done
    }

    pub fn redraw() -> (r: Self)
        ensures
            r == DrawStep::Redraw,
    {
        DrawStep::Redraw
    }

    pub fn is_redraw(&self) -> (r: bool)
        ensures
            r == (*self is Redraw),
    {
        match self {
            DrawStep::Redraw => true,
            _ => false,
        }
    }

    /// The reduction a container applies over its children's outcomes:
    /// the join is `Redraw` exactly when either side is.
    pub fn join(self, other: DrawStep) -> (r: DrawStep)
        ensures
            r is Redraw <==> (self is Redraw || other is Redraw),
    {
        match (self, other) {
            (DrawStep::Done, DrawStep::Done) => DrawStep::Done,
            _ => DrawStep::Redraw,
        }
    }
}

/// One node of the widget tree.  The capability set {handle-event, draw}
/// is dispatched over this closed set of variants.
#[derive(Debug)]
pub enum WidgetRef {
    View(crate::widgets::view::View),
    Button(Button),
    Label(Label),
    Window(Box<Window>),
}

/// Whether a node's draw call reports `Redraw`: leaves never do, a view
/// does exactly when some child does, a window follows its content.
pub open spec fn widget_redraw(w: WidgetRef) -> bool
    decreases w,
{
    match w {
        WidgetRef::Button(_) => false,
        WidgetRef::Label(_) => false,
        WidgetRef::View(v) => exists|i: int|
            0 <= i < v.children@.len() && widget_redraw(#[trigger] v.children@[i]),
        WidgetRef::Window(win) => widget_redraw(win.content),
    }
}

/// The number of nodes in a widget tree; at least one.
pub open spec fn widget_size(w: WidgetRef) -> nat
    decreases w,
{
    match w {
        WidgetRef::Button(_) => 1,
        WidgetRef::Label(_) => 1,
        WidgetRef::View(v) => 1 + children_size(v.children@),
        WidgetRef::Window(win) => 1 + widget_size(win.content),
    }
}

/// The number of nodes in a run of sibling trees.
pub open spec fn children_size(ws: Seq<WidgetRef>) -> nat
    decreases ws,
{
    if ws.len() == 0 {
        0
    } else {
        widget_size(ws.last()) + children_size(ws.drop_last())
    }
}

/// Extending a prefix of siblings by one adds that sibling's size.
pub proof fn lemma_children_size_take_one(ws: Seq<WidgetRef>, i: int)
    requires
        0 <= i < ws.len(),
    ensures
        children_size(ws.subrange(0, i + 1)) == children_size(ws.subrange(0, i)) + widget_size(
            ws[i],
        ),
{
    assert(ws.subrange(0, i + 1).drop_last() == ws.subrange(0, i));
    assert(ws.subrange(0, i + 1).last() == ws[i]);
}

/// A prefix of siblings never outweighs the whole run.
pub proof fn lemma_children_size_prefix_le(ws: Seq<WidgetRef>, k: int)
    requires
        0 <= k <= ws.len(),
    ensures
        children_size(ws.subrange(0, k)) <= children_size(ws),
    decreases ws.len() - k,
{
    if k == ws.len() {
        assert(ws.subrange(0, k) == ws);
    } else {
        lemma_children_size_take_one(ws, k);
        lemma_children_size_prefix_le(ws, k + 1);
    }
}

/// Runs of equal length whose trees are node-for-node the same size have
/// the same total size.
pub proof fn lemma_children_size_congruent(ws1: Seq<WidgetRef>, ws2: Seq<WidgetRef>)
    requires
        ws1.len() == ws2.len(),
        forall|i: int|
            0 <= i < ws1.len() ==> widget_size(#[trigger] ws2[i]) == widget_size(ws1[i]),
    ensures
        children_size(ws2) == children_size(ws1),
    decreases ws1.len(),
{
    if ws1.len() > 0 {
        assert forall|i: int|
            0 <= i < ws1.len() - 1 implies widget_size(#[trigger] ws2.drop_last()[i])
            == widget_size(ws1.drop_last()[i]) by {
            assert(ws2.drop_last()[i] == ws2[i]);
            assert(ws1.drop_last()[i] == ws1[i]);
        }
        lemma_children_size_congruent(ws1.drop_last(), ws2.drop_last());
    }
}

/// Runs of equal length that agree node-for-node on whether a tree
/// redraws agree on whether any tree redraws.
pub proof fn lemma_children_redraw_congruent(ws1: Seq<WidgetRef>, ws2: Seq<WidgetRef>)
    requires
        ws1.len() == ws2.len(),
        forall|i: int|
            0 <= i < ws1.len() ==> widget_redraw(#[trigger] ws2[i]) == widget_redraw(ws1[i]),
    ensures
        (exists|i: int| 0 <= i < ws2.len() && widget_redraw(#[trigger] ws2[i])) == (exists|i: int|
            0 <= i < ws1.len() && widget_redraw(#[trigger] ws1[i])),
{
    if exists|i: int| 0 <= i < ws1.len() && widget_redraw(#[trigger] ws1[i]) {
        let i = choose|i: int| 0 <= i < ws1.len() && widget_redraw(#[trigger] ws1[i]);
        assert(widget_redraw(ws2[i]));
    }
    if exists|i: int| 0 <= i < ws2.len() && widget_redraw(#[trigger] ws2[i]) {
        let i = choose|i: int| 0 <= i < ws2.len() && widget_redraw(#[trigger] ws2[i]);
        assert(widget_redraw(ws1[i]));
    }
}

/// The relation one event pass establishes between a node before and
/// after `handle_event`: a button steps its state machine against its
/// recorded area, a label is untouched, a view forwards to every child in
/// order, and a window updates its size on a matching resize and forwards
/// to its content.  The arena is only read.
pub open spec fn spec_handles(pre: WidgetRef, post: WidgetRef, cx: Cx, event: Event) -> bool
    decreases pre,
{
    match pre {
        WidgetRef::Button(b) => post == WidgetRef::Button(
            b.spec_handle(cx.spec_area(b.area), event),
        ),
        WidgetRef::Label(l) => post == WidgetRef::Label(l),
        WidgetRef::View(v) => post matches WidgetRef::View(v2) && {
            &&& v2.layout == v.layout
            &&& v2.draw_list == v.draw_list
            &&& v2.area == v.area
            &&& v2.children@.len() == v.children@.len()
            &&& forall|i: int|
                0 <= i < v.children@.len() ==> spec_handles(
                    #[trigger] v.children@[i],
                    v2.children@[i],
                    cx,
                    event,
                )
        },
        WidgetRef::Window(win) => post matches WidgetRef::Window(win2) && {
            &&& win2.title == win.title
            &&& win2.window_id == win.window_id
            &&& win2.pass_id == win.pass_id
            &&& win2.draw_list == win.draw_list
            &&& win2.area == win.area
            &&& win2.draw_bg == win.draw_bg
            &&& win2.theme == win.theme
            &&& win2.size == crate::widgets::window::spec_window_size_after(
                win.window_id,
                win.size,
                event,
            )
            &&& spec_handles(win.content, win2.content, cx, event)
        },
    }
}

/// The relation one draw pass establishes between a node's widget state
/// before and after `draw`, given whether a turtle was open around it: a
/// button keeps everything but its background color, which follows its
/// state, and gains its arena resources when it could place itself; a
/// label keeps its text and style likewise; containers keep their shape
/// and draw every child inside their own turtle.
pub open spec fn spec_drawn(pre: WidgetRef, post: WidgetRef, had_turtle: bool) -> bool
    decreases pre,
{
    match pre {
        WidgetRef::Button(b) => post matches WidgetRef::Button(b2) && {
            &&& b2.text == b.text
            &&& b2.state == b.state
            &&& b2.click_count == b.click_count
            &&& b2.draw_list == b.draw_list
            &&& b2.area == b.area
            &&& b2.padding == b.padding
            &&& b2.draw_bg.color == crate::widgets::button::state_background(
                b.state,
                b.draw_bg.color,
            )
            &&& b2.draw_bg.border_color == b.draw_bg.border_color
            &&& b2.draw_bg.border_width == b.draw_bg.border_width
            &&& b2.draw_bg.corner_radius == b.draw_bg.corner_radius
            &&& b2.draw_text.text == b.draw_text.text
            &&& (had_turtle ==> ((b2.draw_bg.shader_id is Some) && (b2.draw_bg.geometry_id
                is Some) && (b2.draw_text.shader_id is Some) && (b2.draw_text.geometry_id
                is Some)))
            &&& (!had_turtle ==> (b2.draw_bg.shader_id == b.draw_bg.shader_id
                && b2.draw_bg.geometry_id == b.draw_bg.geometry_id && b2.draw_text.shader_id
                == b.draw_text.shader_id && b2.draw_text.geometry_id == b.draw_text.geometry_id))
        },
        WidgetRef::Label(l) => post matches WidgetRef::Label(l2) && {
            &&& l2.text == l.text
            &&& l2.draw_list == l.draw_list
            &&& l2.area == l.area
            &&& l2.padding == l.padding
            &&& l2.draw_text.text == l.draw_text.text
            &&& l2.draw_text.style == l.draw_text.style
            &&& (had_turtle ==> ((l2.draw_text.shader_id is Some) && (l2.draw_text.geometry_id
                is Some)))
            &&& (!had_turtle ==> (l2.draw_text.shader_id == l.draw_text.shader_id
                && l2.draw_text.geometry_id == l.draw_text.geometry_id))
        },
        WidgetRef::View(v) => post matches WidgetRef::View(v2) && {
            &&& v2.layout == v.layout
            &&& v2.draw_list == v.draw_list
            &&& v2.area == v.area
            &&& v2.children@.len() == v.children@.len()
            &&& forall|i: int|
                0 <= i < v.children@.len() ==> spec_drawn(
                    #[trigger] v.children@[i],
                    v2.children@[i],
                    true,
                )
        },
        WidgetRef::Window(win) => post matches WidgetRef::Window(win2) && {
            &&& win2.title == win.title
            &&& win2.window_id == win.window_id
            &&& win2.pass_id == win.pass_id
            &&& win2.draw_list == win.draw_list
            &&& win2.area == win.area
            &&& win2.theme == win.theme
            &&& win2.size == win.size
            &&& win2.draw_bg.color == win.draw_bg.color
            &&& win2.draw_bg.border_color == win.draw_bg.border_color
            &&& win2.draw_bg.border_width == win.draw_bg.border_width
            &&& win2.draw_bg.corner_radius == win.draw_bg.corner_radius
            &&& (win2.draw_bg.shader_id is Some) && (win2.draw_bg.geometry_id is Some)
            &&& spec_drawn(win.content, win2.content, true)
        },
    }
}

impl WidgetRef {
    /// Dispatches one event to the node.  The arena is only read, never
    /// changed.
    pub fn handle_event(&mut self, cx: &mut Cx, event: &Event)
        ensures
            *final(cx) == *old(cx),
            spec_handles(*old(self), *final(self), *old(cx), *event),
        decreases widget_size(*old(self)), 1int,
    {
        match self {
            WidgetRef::View(v) => v.handle_event(cx, event),
            WidgetRef::Button(b) => b.handle_event(cx, event),
            WidgetRef::Label(l) => l.handle_event(cx, event),
            WidgetRef::Window(w) => w.handle_event(cx, event),
        }
    }

    /// Dispatches one draw pass to the node.  The outcome is `Redraw`
    /// exactly when the node's tree requests it; the turtle stack keeps
    /// its depth, with at most new items on its top turtle; resource
    /// tables keep their lengths, except that at most two shaders and two
    /// geometries per node may be created on a first draw.
    pub fn draw(&mut self, cx: &mut Cx, cx2d: &mut Cx2d) -> (r: DrawStep)
        requires
            old(cx).shaders@.len() + 2 * widget_size(*old(self)) <= usize::MAX,
            old(cx).geometries@.len() + 2 * widget_size(*old(self)) <= usize::MAX,
        ensures
            (r is Redraw) == widget_redraw(*old(self)),
            widget_redraw(*final(self)) == widget_redraw(*old(self)),
            widget_size(*final(self)) == widget_size(*old(self)),
            spec_drawn(*old(self), *final(self), old(cx2d).turtles@.len() > 0),
            final(cx2d).overlay_id == old(cx2d).overlay_id,
            final(cx2d).turtles@.len() == old(cx2d).turtles@.len(),
            old(cx2d).turtles@.len() == 0 ==> final(cx2d).turtles@ == old(cx2d).turtles@,
            old(cx2d).turtles@.len() > 0 ==> {
                &&& final(cx2d).turtles@.subrange(0, old(cx2d).turtles@.len() - 1) == old(
                    cx2d,
                ).turtles@.subrange(0, old(cx2d).turtles@.len() - 1)
                &&& final(cx2d).turtles@.last().rect == old(cx2d).turtles@.last().rect
                &&& final(cx2d).turtles@.last().layout == old(cx2d).turtles@.last().layout
                &&& final(cx2d).turtles@.last().items@.len() >= old(
                    cx2d,
                ).turtles@.last().items@.len()
                &&& final(cx2d).turtles@.last().items@.subrange(
                    0,
                    old(cx2d).turtles@.last().items@.len() as int,
                ) == old(cx2d).turtles@.last().items@
            },
            final(cx).windows == old(cx).windows,
            final(cx).textures == old(cx).textures,
            final(cx).gpu_info == old(cx).gpu_info,
            final(cx).debug == old(cx).debug,
            final(cx).passes@.len() == old(cx).passes@.len(),
            final(cx).draw_lists@.len() == old(cx).draw_lists@.len(),
            final(cx).areas@.len() == old(cx).areas@.len(),
            final(cx).shaders@.len() >= old(cx).shaders@.len(),
            final(cx).shaders@.len() <= old(cx).shaders@.len() + 2 * widget_size(*old(self)),
            final(cx).shaders@.subrange(0, old(cx).shaders@.len() as int) == old(cx).shaders@,
            final(cx).geometries@.len() >= old(cx).geometries@.len(),
            final(cx).geometries@.len() <= old(cx).geometries@.len() + 2 * widget_size(
                *old(self),
            ),
            final(cx).geometries@.subrange(0, old(cx).geometries@.len() as int) == old(
                cx,
            ).geometries@,
        decreases widget_size(*old(self)), 1int,
    {
        match self {
            WidgetRef::View(v) => {
                let ghost pre = *v;
                let step = v.draw(cx, cx2d);
                proof {
                    lemma_children_size_congruent(pre.children@, v.children@);
                    lemma_children_redraw_congruent(pre.children@, v.children@);
                }
                step
            },
            WidgetRef::Button(b) => b.draw(cx, cx2d),
            WidgetRef::Label(l) => l.draw(cx, cx2d),
            WidgetRef::Window(w) => w.draw(cx, cx2d),
        }
    }
}

} // verus!
