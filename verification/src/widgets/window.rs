//! The window widget: the root container.  It owns a native window id, a
//! pass targeting that window, a background quad, and one content widget.

use vstd::prelude::*;
use crate::draw::color::Color;
use crate::draw::cx_2d::Cx2d;
use crate::draw::draw_list_2d::DrawList2d;
use crate::draw::layout::Layout;
use crate::draw::quad::DrawQuad;
use crate::draw::rect::Rect;
use crate::platform::area::Area;
use crate::platform::cx::Cx;
use crate::platform::event::Event;
use crate::platform::math::Vec2;
use crate::platform::pass::{PassClearColor, PassId};
use crate::platform::window::WindowId;
use crate::widgets::theme::Theme;
use crate::widgets::widget::{
    children_size, spec_drawn, widget_redraw, widget_size, DrawStep, WidgetRef,
};

verus! {

/// The size a window has after one event: a resize event addressed to it
/// sets the new extent; everything else leaves it.
pub open spec fn spec_window_size_after(window_id: WindowId, size: Vec2, event: Event) -> Vec2 {
    match event {
        Event::WindowResize { window_id: wid, width, height, .. } => {
            if wid == window_id {
                Vec2 { x: width, y: height }
            } else {
                size
            }
        },
        _ => size,
    }
}

/// The root container widget.
#[derive(Debug)]
pub struct Window {
    pub title: String,
    pub window_id: WindowId,
    pub pass_id: PassId,
    pub draw_list: DrawList2d,
    pub area: Area,
    pub draw_bg: DrawQuad,
    pub content: WidgetRef,
    pub theme: Theme,
    pub size: Vec2,
}

impl Window {
    /// Creates a window: a fresh native window id and a pass rendering
    /// into it with the theme's background as clear color, a fresh draw
    /// list and area, and an empty vertical view as content.
    pub fn new(cx: &mut Cx, title: &str) -> (r: Self)
        requires
            old(cx).windows@.len() < usize::MAX,
            old(cx).passes@.len() < usize::MAX,
            old(cx).draw_lists@.len() + 2 <= usize::MAX,
            old(cx).areas@.len() + 2 <= usize::MAX,
        ensures
            r.title@ == title@,
            r.window_id.0 == old(cx).windows@.len() + 1,
            r.pass_id.0 == old(cx).passes@.len() + 1,
            r.size == (Vec2 { x: 800, y: 600 }),
            r.draw_bg.color == Color::spec_from_hex(0xFFFFFF),
            r.content matches WidgetRef::View(v) && v.children@.len() == 0,
            widget_size(r.content) == 1,
            !widget_redraw(r.content),
            final(cx).windows@.len() == old(cx).windows@.len() + 1,
            final(cx).passes@.len() == old(cx).passes@.len() + 1,
            final(cx).passes@.last().pass_id == r.pass_id,
            final(cx).passes@.last().parent == crate::platform::pass::PassParent::Window(
                r.window_id,
            ),
            final(cx).passes@.last().clear_color == Some(
                PassClearColor { r: 255, g: 255, b: 255, a: 255 },
            ),
            final(cx).draw_lists@.len() == old(cx).draw_lists@.len() + 2,
            final(cx).areas@.len() == old(cx).areas@.len() + 2,
            final(cx).textures == old(cx).textures,
            final(cx).geometries == old(cx).geometries,
            final(cx).shaders == old(cx).shaders,
            final(cx).gpu_info == old(cx).gpu_info,
            final(cx).debug == old(cx).debug,
            old(cx).wf() ==> final(cx).wf(),
    {
        let theme = Theme::default();

        let window_id = cx.create_window(title, 800, 600);

        let pass_id = cx.create_pass();
        cx.set_pass_window_parent(pass_id, window_id);
        cx.set_pass_clear_color(
            pass_id,
            PassClearColor::new(
                theme.background_color.r,
                theme.background_color.g,
                theme.background_color.b,
                255,
            ),
        );

        let draw_list = DrawList2d::new(cx);
        let content = crate::widgets::view::View::new(cx);
        let area = cx.create_area();
        let bg_color = theme.background_color;
        proof {
            assert(children_size(content.children@) == 0);
            assert(widget_size(WidgetRef::View(content)) == 1);
            assert(Color::spec_from_hex(0xFFFFFF) == (Color { r: 255, g: 255, b: 255, a: 255 }))
                by {
                assert(((0xFFFFFFu32 >> 16) & 0xFF) == 255u32) by (bit_vector);
                assert(((0xFFFFFFu32 >> 8) & 0xFF) == 255u32) by (bit_vector);
                assert((0xFFFFFFu32 & 0xFF) == 255u32) by (bit_vector);
            };
        }

        Self {
            title: title.to_owned(),
            window_id,
            pass_id,
            draw_list,
            area,
            draw_bg: DrawQuad::new().with_color(bg_color),
            content: WidgetRef::View(content),
            theme,
            size: Vec2::new(800, 600),
        }
    }

    pub fn with_size(self, width: i64, height: i64) -> (r: Self)
        ensures
            r == (Window { size: Vec2 { x: width, y: height }, ..self }),
    {
        Window { size: Vec2::new(width, height), ..self }
    }

    pub fn with_theme(self, theme: Theme) -> (r: Self)
        ensures
            r.title == self.title,
            r.window_id == self.window_id,
            r.pass_id == self.pass_id,
            r.draw_list == self.draw_list,
            r.area == self.area,
            r.content == self.content,
            r.size == self.size,
            r.theme == theme,
            r.draw_bg == (DrawQuad { color: theme.background_color, ..self.draw_bg }),
    {
        let bg_color = theme.background_color;
        let draw_bg = self.draw_bg.with_color(bg_color);
        Window { theme, draw_bg, ..self }
    }

    pub fn with_content(self, content: WidgetRef) -> (r: Self)
        ensures
            r == (Window { content, ..self }),
    {
        Window { content, ..self }
    }

    pub fn set_title(&mut self, title: &str)
        ensures
            final(self).title@ == title@,
            final(self).window_id == old(self).window_id,
            final(self).pass_id == old(self).pass_id,
            final(self).draw_list == old(self).draw_list,
            final(self).area == old(self).area,
            final(self).draw_bg == old(self).draw_bg,
            final(self).content == old(self).content,
            final(self).theme == old(self).theme,
            final(self).size == old(self).size,
    {
        self.title = title.to_owned();
    }

    /// Updates the window's size on a resize addressed to it, then
    /// forwards the event to the content.  The arena is only read.
    pub fn handle_event(&mut self, cx: &mut Cx, event: &Event)
        ensures
            *final(cx) == *old(cx),
            final(self).title == old(self).title,
            final(self).window_id == old(self).window_id,
            final(self).pass_id == old(self).pass_id,
            final(self).draw_list == old(self).draw_list,
            final(self).area == old(self).area,
            final(self).draw_bg == old(self).draw_bg,
            final(self).theme == old(self).theme,
            final(self).size == spec_window_size_after(
                old(self).window_id,
                old(self).size,
                *event,
            ),
            crate::widgets::widget::spec_handles(
                old(self).content,
                final(self).content,
                *old(cx),
                *event,
            ),
        decreases 1 + widget_size(old(self).content), 0int,
    {
        match event {
            Event::WindowResize { window_id, width, height, .. } => {
                if *window_id == self.window_id {
                    self.size = Vec2::new(*width, *height);
                }
            },
            _ => {},
        }
        self.content.handle_event(cx, event);
    }

    /// One draw pass: rebuilds the window's draw list, draws the
    /// background over the whole window, opens a sized vertical turtle,
    /// draws the content, closes the turtle, and points the window's pass
    /// at its draw list.  Reports the content's outcome.
    pub fn draw(&mut self, cx: &mut Cx, cx2d: &mut Cx2d) -> (r: DrawStep)
        requires
            old(cx).shaders@.len() + 2 * (1 + widget_size(old(self).content)) <= usize::MAX,
            old(cx).geometries@.len() + 2 * (1 + widget_size(old(self).content)) <= usize::MAX,
        ensures
            (r is Redraw) == widget_redraw(old(self).content),
            widget_redraw(final(self).content) == widget_redraw(old(self).content),
            widget_size(final(self).content) == widget_size(old(self).content),
            spec_drawn(old(self).content, final(self).content, true),
            final(self).title == old(self).title,
            final(self).window_id == old(self).window_id,
            final(self).pass_id == old(self).pass_id,
            final(self).draw_list == old(self).draw_list,
            final(self).area == old(self).area,
            final(self).theme == old(self).theme,
            final(self).size == old(self).size,
            final(self).draw_bg.color == old(self).draw_bg.color,
            final(self).draw_bg.border_color == old(self).draw_bg.border_color,
            final(self).draw_bg.border_width == old(self).draw_bg.border_width,
            final(self).draw_bg.corner_radius == old(self).draw_bg.corner_radius,
            final(self).draw_bg.shader_id is Some,
            final(self).draw_bg.geometry_id is Some,
            final(cx2d).overlay_id == old(cx2d).overlay_id,
            final(cx2d).turtles@ == old(cx2d).turtles@,
            final(cx).windows == old(cx).windows,
            final(cx).textures == old(cx).textures,
            final(cx).gpu_info == old(cx).gpu_info,
            final(cx).debug == old(cx).debug,
            final(cx).passes@.len() == old(cx).passes@.len(),
            final(cx).draw_lists@.len() == old(cx).draw_lists@.len(),
            final(cx).areas@.len() == old(cx).areas@.len(),
            final(cx).shaders@.len() >= old(cx).shaders@.len(),
            final(cx).shaders@.len() <= old(cx).shaders@.len() + 2 + 2 * widget_size(
                old(self).content,
            ),
            final(cx).shaders@.subrange(0, old(cx).shaders@.len() as int) == old(cx).shaders@,
            final(cx).geometries@.len() >= old(cx).geometries@.len(),
            final(cx).geometries@.len() <= old(cx).geometries@.len() + 2 + 2 * widget_size(
                old(self).content,
            ),
            final(cx).geometries@.subrange(0, old(cx).geometries@.len() as int) == old(
                cx,
            ).geometries@,
            // The pass now presents this window's draw list.
            old(cx).spec_pass(old(self).pass_id) is Some ==> (final(cx).spec_pass(
                old(self).pass_id,
            ) matches Some(p) && p.main_draw_list_id == Some(old(self).draw_list.draw_list_id)),
        decreases 1 + widget_size(old(self).content), 0int,
    {
        let _ = self.draw_list.begin(cx);

        let rect = Rect::new(0, 0, self.size.x, self.size.y);
        self.draw_bg.draw(cx, self.draw_list.id(), &rect);

        let ghost base_turtles = old(cx2d).turtles@;
        let ghost base_shaders = cx.shaders@;
        let ghost base_geometries = cx.geometries@;

        cx2d.begin_sized_turtle(Vec2::new(self.size.x, self.size.y), Layout::vertical());

        let draw_step = self.content.draw(cx, cx2d);

        proof {
            assert(cx.shaders@.subrange(0, base_shaders.len() as int) =~= base_shaders);
            assert(cx.geometries@.subrange(0, base_geometries.len() as int) =~= base_geometries);
            assert(cx2d.turtles@.subrange(0, base_turtles.len() as int) =~= base_turtles);
        }

        let _ = cx2d.end_turtle();

        proof {
            assert(cx2d.turtles@ =~= base_turtles);
        }

        self.draw_list.end(cx);

        cx.set_pass_main_draw_list(self.pass_id, self.draw_list.id());

        draw_step
    }
}

} // verus!
