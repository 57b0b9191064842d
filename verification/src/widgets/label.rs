//! The label: a stateless text widget.  It places itself on the open
//! turtle, draws its text, and records its rectangle for hit-testing.

use vstd::prelude::*;
use crate::draw::color::Color;
use crate::draw::cx_2d::Cx2d;
use crate::draw::draw_list_2d::DrawList2d;
use crate::draw::text::{DrawText, Font, TextAlign, TextStyle};
use crate::platform::area::Area;
use crate::platform::cx::{AreaData, Cx};
use crate::platform::event::Event;
use crate::platform::math::{sat64, sat_add, Vec2};
use crate::widgets::theme::Theme;
use crate::widgets::widget::DrawStep;

verus! {

/// The extent a label occupies: the text-measure placeholder extent plus
/// the padding on each side.
pub open spec fn spec_label_size(padding: Vec2) -> Vec2 {
    Vec2 {
        x: sat64(100 + sat64(padding.x + padding.x)) as i64,
        y: sat64(20 + sat64(padding.y + padding.y)) as i64,
    }
}

/// A stateless text widget.
#[derive(Clone, Debug)]
pub struct Label {
    pub text: String,
    pub draw_list: DrawList2d,
    pub area: Area,
    pub draw_text: DrawText,
    pub padding: Vec2,
}

impl Label {
    /// Creates a label: a fresh draw list, a fresh area, and the theme's
    /// default text style with small padding.
    pub fn new(cx: &mut Cx, text: &str) -> (r: Self)
        requires
            old(cx).draw_lists@.len() < usize::MAX,
            old(cx).areas@.len() < usize::MAX,
        ensures
            r.text@ == text@,
            r.draw_list.draw_list_id.0 == old(cx).draw_lists@.len() + 1,
            r.area.0 == old(cx).areas@.len() + 1,
            r.draw_text.text@ == text@,
            r.draw_text.style.font_size == 16,
            r.draw_text.style.color == Color::spec_from_hex(0x000000),
            r.draw_text.style.align == TextAlign::Left,
            r.draw_text.shader_id is None && r.draw_text.geometry_id is None,
            r.padding == (Vec2 { x: 4, y: 4 }),
            final(cx).draw_lists@.len() == old(cx).draw_lists@.len() + 1,
            final(cx).draw_lists@.subrange(0, old(cx).draw_lists@.len() as int) == old(
                cx,
            ).draw_lists@,
            final(cx).draw_lists@.last().draw_list_id == r.draw_list.draw_list_id,
            final(cx).draw_lists@.last().draw_items@.len() == 0,
            final(cx).areas@.len() == old(cx).areas@.len() + 1,
            final(cx).areas@.subrange(0, old(cx).areas@.len() as int) == old(cx).areas@,
            final(cx).areas@.last() == (AreaData {
                rect: crate::draw::rect::Rect::spec_zero(),
                draw_list_id: None,
            }),
            final(cx).windows == old(cx).windows,
            final(cx).passes == old(cx).passes,
            final(cx).textures == old(cx).textures,
            final(cx).geometries == old(cx).geometries,
            final(cx).shaders == old(cx).shaders,
            final(cx).gpu_info == old(cx).gpu_info,
            final(cx).debug == old(cx).debug,
            old(cx).wf() ==> final(cx).wf(),
    {
        let theme = Theme::default();
        let draw_list = DrawList2d::new(cx);
        let area = cx.create_area();
        Self {
            text: text.to_owned(),
            draw_list,
            area,
            draw_text: DrawText::new().with_text(text).with_style(theme.default_text_style),
            padding: Vec2::new(theme.spacing_small, theme.spacing_small),
        }
    }

    pub fn with_text_style(self, style: TextStyle) -> (r: Self)
        ensures
            r.text == self.text,
            r.draw_list == self.draw_list,
            r.area == self.area,
            r.padding == self.padding,
            r.draw_text.text == self.draw_text.text,
            r.draw_text.style == style,
            r.draw_text.shader_id == self.draw_text.shader_id,
            r.draw_text.geometry_id == self.draw_text.geometry_id,
    {
        let draw_text = self.draw_text.with_style(style);
        Label { draw_text, ..self }
    }

    pub fn with_color(self, color: Color) -> (r: Self)
        ensures
            r.text == self.text,
            r.draw_list == self.draw_list,
            r.area == self.area,
            r.padding == self.padding,
            r.draw_text.text == self.draw_text.text,
            r.draw_text.style.color == color,
            r.draw_text.style.font_size == self.draw_text.style.font_size,
            r.draw_text.style.align == self.draw_text.style.align,
            r.draw_text.style.line_height == self.draw_text.style.line_height,
            r.draw_text.shader_id == self.draw_text.shader_id,
            r.draw_text.geometry_id == self.draw_text.geometry_id,
    {
        let draw_text = self.draw_text.with_color(color);
        Label { draw_text, ..self }
    }

    pub fn with_font_size(self, font_size: i64) -> (r: Self)
        ensures
            r.text == self.text,
            r.draw_list == self.draw_list,
            r.area == self.area,
            r.padding == self.padding,
            r.draw_text.text == self.draw_text.text,
            r.draw_text.style.font_size == font_size,
            r.draw_text.style.color == self.draw_text.style.color,
            r.draw_text.style.align == self.draw_text.style.align,
            r.draw_text.style.line_height == self.draw_text.style.line_height,
            r.draw_text.shader_id == self.draw_text.shader_id,
            r.draw_text.geometry_id == self.draw_text.geometry_id,
    {
        let draw_text = self.draw_text.with_font_size(font_size);
        Label { draw_text, ..self }
    }

    pub fn with_align(self, align: TextAlign) -> (r: Self)
        ensures
            r.text == self.text,
            r.draw_list == self.draw_list,
            r.area == self.area,
            r.padding == self.padding,
            r.draw_text.text == self.draw_text.text,
            r.draw_text.style.align == align,
            r.draw_text.style.font_size == self.draw_text.style.font_size,
            r.draw_text.style.color == self.draw_text.style.color,
            r.draw_text.style.line_height == self.draw_text.style.line_height,
            r.draw_text.shader_id == self.draw_text.shader_id,
            r.draw_text.geometry_id == self.draw_text.geometry_id,
    {
        let draw_text = self.draw_text.with_align(align);
        Label { draw_text, ..self }
    }

    pub fn with_padding(self, padding: Vec2) -> (r: Self)
        ensures
            r == (Label { padding, ..self }),
    {
        Label { padding, ..self }
    }

    /// Labels consume no events.
    pub fn handle_event(&mut self, cx: &mut Cx, event: &Event)
        ensures
            *final(self) == *old(self),
            *final(cx) == *old(cx),
    {
        let _ = cx;
        let _ = event;
    }

    /// One draw pass: rebuilds the label's draw list, places the label on
    /// the open turtle, and records its rectangle.  Always reports `Done`.
    pub fn draw(&mut self, cx: &mut Cx, cx2d: &mut Cx2d) -> (r: DrawStep)
        requires
            old(cx).shaders@.len() < usize::MAX,
            old(cx).geometries@.len() < usize::MAX,
        ensures
            r == DrawStep::Done,
            final(self).text == old(self).text,
            final(self).draw_list == old(self).draw_list,
            final(self).area == old(self).area,
            final(self).padding == old(self).padding,
            final(self).draw_text.text == old(self).draw_text.text,
            final(self).draw_text.style == old(self).draw_text.style,
            old(cx2d).turtles@.len() == 0 ==> (final(self).draw_text.shader_id == old(
                self,
            ).draw_text.shader_id && final(self).draw_text.geometry_id == old(
                self,
            ).draw_text.geometry_id),
            old(cx2d).turtles@.len() > 0 ==> ((final(self).draw_text.shader_id is Some) && (
            final(self).draw_text.geometry_id is Some)),
            final(cx2d).overlay_id == old(cx2d).overlay_id,
            final(cx).windows == old(cx).windows,
            final(cx).passes == old(cx).passes,
            final(cx).textures == old(cx).textures,
            final(cx).gpu_info == old(cx).gpu_info,
            final(cx).debug == old(cx).debug,
            final(cx).shaders@.len() >= old(cx).shaders@.len(),
            final(cx).shaders@.len() <= old(cx).shaders@.len() + 2,
            final(cx).shaders@.subrange(0, old(cx).shaders@.len() as int) == old(cx).shaders@,
            final(cx).geometries@.len() >= old(cx).geometries@.len(),
            final(cx).geometries@.len() <= old(cx).geometries@.len() + 2,
            final(cx).geometries@.subrange(0, old(cx).geometries@.len() as int) == old(
                cx,
            ).geometries@,
            final(cx).draw_lists@.len() == old(cx).draw_lists@.len(),
            final(cx).areas@.len() == old(cx).areas@.len(),
            // The label's own draw list is rebuilt and, with no font atlas,
            // holds no items.
            match old(cx).spec_draw_list(old(self).draw_list.draw_list_id) {
                Some(l) => {
                    &&& final(cx).draw_lists@ == old(cx).draw_lists@.update(
                        old(self).draw_list.draw_list_id.0 - 1,
                        final(cx).draw_lists@[old(self).draw_list.draw_list_id.0 - 1],
                    )
                    &&& final(cx).draw_lists@[old(self).draw_list.draw_list_id.0
                        - 1].draw_list_id == l.draw_list_id
                    &&& final(cx).draw_lists@[old(self).draw_list.draw_list_id.0
                        - 1].view_transform == l.view_transform
                    &&& final(cx).draw_lists@[old(self).draw_list.draw_list_id.0
                        - 1].draw_items@.len() == 0
                },
                None => final(cx).draw_lists@ == old(cx).draw_lists@,
            },
            // Turtle placement and the hit-test record.
            if old(cx2d).turtles@.len() > 0 {
                {
                    let top = old(cx2d).turtles@.last();
                    let rect = top.spec_place(spec_label_size(old(self).padding), None);
                    &&& final(cx2d).turtles@ == old(cx2d).turtles@.update(
                        old(cx2d).turtles@.len() - 1,
                        crate::draw::turtle::Turtle {
                            rect: top.rect,
                            layout: top.layout,
                            items: final(cx2d).turtles@.last().items,
                        },
                    )
                    &&& final(cx2d).turtles@.last().items@ == top.items@.push(
                        crate::draw::turtle::TurtleItem { rect, align_self: None },
                    )
                    &&& match old(cx).spec_area(old(self).area) {
                        Some(d) => final(cx).areas@ == old(cx).areas@.update(
                            old(self).area.0 - 1,
                            AreaData {
                                rect,
                                draw_list_id: Some(old(self).draw_list.draw_list_id),
                            },
                        ),
                        None => final(cx).areas@ == old(cx).areas@,
                    }
                }
            } else {
                final(cx2d).turtles@ == old(cx2d).turtles@ && final(cx).areas@ == old(cx).areas@
            },
    {
        let _ = self.draw_list.begin(cx);

        let label_size = Vec2::new(
            sat_add(100, sat_add(self.padding.x, self.padding.x)),
            sat_add(20, sat_add(self.padding.y, self.padding.y)),
        );

        match cx2d.add_turtle_item(label_size) {
            Some(rect) => {
                let font = Font::default();
                self.draw_text.draw(cx, self.draw_list.id(), &rect, &font);
                cx.set_area_rect(self.area, rect.x(), rect.y(), rect.width(), rect.height());
                cx.set_area_draw_list(self.area, self.draw_list.id());
                proof {
                    if old(cx).spec_area(old(self).area) is Some {
                        assert(cx.areas@ =~= old(cx).areas@.update(
                            old(self).area.0 - 1,
                            cx.areas@[old(self).area.0 - 1],
                        ));
                    }
                }
            },
            None => {},
        }

        self.draw_list.end(cx);

        DrawStep::done()
    }
}

} // verus!
