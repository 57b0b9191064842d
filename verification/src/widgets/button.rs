//! The button: an interactive widget with a pointer-driven state machine
//! and a click counter its embedding polls.

use vstd::prelude::*;
use crate::draw::color::Color;
use crate::draw::cx_2d::Cx2d;
use crate::draw::draw_list_2d::DrawList2d;
use crate::draw::quad::DrawQuad;
use crate::draw::text::{DrawText, Font, TextAlign};
use crate::platform::area::Area;
use crate::platform::cx::{AreaData, Cx};
use crate::platform::event::{Event, MouseButton};
use crate::platform::math::{sat64, sat_add, Vec2};
use crate::widgets::theme::Theme;
use crate::widgets::widget::DrawStep;

verus! {

/// The button's pointer state.  `Disabled` is entered only by direct
/// mutation; no event drives it, and it does not block transitions.
#[derive(Clone, Copy, Debug, PartialEq, Eq, Structural)]
pub enum ButtonState {
    Normal,
    Hover,
    Pressed,
    Disabled,
}

/// The extent a button occupies: the text-measure placeholder extent plus
/// the padding on each side.
pub open spec fn spec_button_size(padding: Vec2) -> Vec2 {
    Vec2 {
        x: sat64(100 + sat64(padding.x + padding.x)) as i64,
        y: sat64(20 + sat64(padding.y + padding.y)) as i64,
    }
}

/// One channel lightened by the hover step, stopping at full.
pub open spec fn lighten_channel(c: u8) -> u8 {
    if c + 26 > 255 {
        255u8
    } else {
        (c + 26) as u8
    }
}

/// One channel darkened by the press step, stopping at none.
pub open spec fn darken_channel(c: u8) -> u8 {
    if c < 26 {
        0u8
    } else {
        (c - 26) as u8
    }
}

/// The background color a state recolors a base color to: hover lightens,
/// pressed darkens, disabled grays out, normal keeps it.
pub open spec fn state_background(state: ButtonState, c: Color) -> Color {
    match state {
        ButtonState::Normal => c,
        ButtonState::Hover => Color {
            r: lighten_channel(c.r),
            g: lighten_channel(c.g),
            b: lighten_channel(c.b),
            a: c.a,
        },
        ButtonState::Pressed => Color {
            r: darken_channel(c.r),
            g: darken_channel(c.g),
            b: darken_channel(c.b),
            a: c.a,
        },
        ButtonState::Disabled => Color { r: 128, g: 128, b: 128, a: 128 },
    }
}

/// A pointer-down followed by a pointer-up, both dispatched against the
/// same recorded area, takes a normal button through pressed and, when
/// the pointer-up lands inside the area, to hover with exactly one click
/// completed; a pointer-up outside returns it to normal with no click.
pub proof fn lemma_button_click(
    b: Button,
    d: AreaData,
    wid: crate::platform::window::WindowId,
    x1: i64,
    y1: i64,
    x2: i64,
    y2: i64,
)
    requires
        b.state == ButtonState::Normal,
        b.click_count < u64::MAX,
        d.rect.spec_contains(Vec2 { x: x1, y: y1 }),
    ensures
        ({
            let down = Event::MouseDown { window_id: wid, x: x1, y: y1, button: MouseButton::Left };
            let up = Event::MouseUp { window_id: wid, x: x2, y: y2, button: MouseButton::Left };
            let pressed = b.spec_handle(Some(d), down);
            let released = pressed.spec_handle(Some(d), up);
            &&& pressed.state == ButtonState::Pressed
            &&& pressed.click_count == b.click_count
            &&& d.rect.spec_contains(Vec2 { x: x2, y: y2 }) ==> (released.state
                == ButtonState::Hover && released.click_count == b.click_count + 1)
            &&& !d.rect.spec_contains(Vec2 { x: x2, y: y2 }) ==> (released.state
                == ButtonState::Normal && released.click_count == b.click_count)
        }),
{
}

/// An interactive button.  `click_count` counts completed clicks
/// (pointer-down then pointer-up, both inside the area); the embedding
/// polls it to fire its callback.
#[derive(Clone, Debug)]
pub struct Button {
    pub text: String,
    pub state: ButtonState,
    pub draw_list: DrawList2d,
    pub area: Area,
    pub draw_bg: DrawQuad,
    pub draw_text: DrawText,
    pub padding: Vec2,
    pub click_count: u64,
}

impl Button {
    /// The state machine, one event at a time, hit-tested against the
    /// button's recorded area.  Without a known area record no event has
    /// any effect.  Pointer-down inside presses; pointer-up inside
    /// completes a click when pressed and leaves the pointer hovering;
    /// pointer-up outside returns to normal; pointer movement toggles
    /// normal and hover across the boundary.
    pub open spec fn spec_handle(self, area: Option<AreaData>, event: Event) -> Button {
        match area {
            None => self,
            Some(d) => match event {
                Event::MouseDown { x, y, button: MouseButton::Left, .. } => {
                    if d.rect.spec_contains(Vec2 { x, y }) {
                        Button { state: ButtonState::Pressed, ..self }
                    } else {
                        self
                    }
                },
                Event::MouseUp { x, y, button: MouseButton::Left, .. } => {
                    if d.rect.spec_contains(Vec2 { x, y }) {
                        Button {
                            state: ButtonState::Hover,
                            click_count: if self.state is Pressed && self.click_count
                                < u64::MAX {
                                (self.click_count + 1) as u64
                            } else {
                                self.click_count
                            },
                            ..self
                        }
                    } else {
                        Button { state: ButtonState::Normal, ..self }
                    }
                },
                Event::MouseMove { x, y, .. } => {
                    if d.rect.spec_contains(Vec2 { x, y }) {
                        if self.state is Normal {
                            Button { state: ButtonState::Hover, ..self }
                        } else {
                            self
                        }
                    } else {
                        if self.state is Hover {
                            Button { state: ButtonState::Normal, ..self }
                        } else {
                            self
                        }
                    }
                },
                _ => self,
            },
        }
    }

    /// Creates a button: a fresh draw list, a fresh area, the theme's
    /// primary background and button text style, medium padding, no
    /// clicks yet.
    pub fn new(cx: &mut Cx, text: &str) -> (r: Self)
        requires
            old(cx).draw_lists@.len() < usize::MAX,
            old(cx).areas@.len() < usize::MAX,
        ensures
            r.text@ == text@,
            r.state == ButtonState::Normal,
            r.click_count == 0,
            r.draw_list.draw_list_id.0 == old(cx).draw_lists@.len() + 1,
            r.area.0 == old(cx).areas@.len() + 1,
            r.draw_bg.color == Color::spec_from_hex(0x2196F3),
            r.draw_bg.corner_radius == 4,
            r.draw_bg.border_width == 0,
            r.draw_bg.shader_id is None && r.draw_bg.geometry_id is None,
            r.draw_text.text@ == text@,
            r.draw_text.style.font_size == 16,
            r.draw_text.style.color == Color::spec_from_hex(0xFFFFFF),
            r.draw_text.style.align == TextAlign::Center,
            r.draw_text.shader_id is None && r.draw_text.geometry_id is None,
            r.padding == (Vec2 { x: 8, y: 8 }),
            final(cx).draw_lists@.len() == old(cx).draw_lists@.len() + 1,
            final(cx).draw_lists@.subrange(0, old(cx).draw_lists@.len() as int) == old(
                cx,
            ).draw_lists@,
            final(cx).draw_lists@.last().draw_list_id == r.draw_list.draw_list_id,
            final(cx).draw_lists@.last().draw_items@.len() == 0,
            final(cx).areas@.len() == old(cx).areas@.len() + 1,
            final(cx).areas@.subrange(0, old(cx).areas@.len() as int) == old(cx).areas@,
            final(cx).areas@.last() == (AreaData {
                rect: crate::draw::rect::Rect::spec_zero(),
                draw_list_id: None,
            }),
            final(cx).windows == old(cx).windows,
            final(cx).passes == old(cx).passes,
            final(cx).textures == old(cx).textures,
            final(cx).geometries == old(cx).geometries,
            final(cx).shaders == old(cx).shaders,
            final(cx).gpu_info == old(cx).gpu_info,
            final(cx).debug == old(cx).debug,
            old(cx).wf() ==> final(cx).wf(),
    {
        let theme = Theme::default();
        let draw_list = DrawList2d::new(cx);
        let area = cx.create_area();
        Self {
            text: text.to_owned(),
            state: ButtonState::Normal,
            draw_list,
            area,
            draw_bg: DrawQuad::new().with_color(theme.primary_color).with_corner_radius(
                theme.border_radius_medium,
            ),
            draw_text: DrawText::new().with_text(text).with_style(theme.button_text_style),
            padding: Vec2::new(theme.spacing_medium, theme.spacing_medium),
            click_count: 0,
        }
    }

    pub fn with_color(self, color: Color) -> (r: Self)
        ensures
            r.text == self.text,
            r.state == self.state,
            r.click_count == self.click_count,
            r.draw_list == self.draw_list,
            r.area == self.area,
            r.draw_text == self.draw_text,
            r.padding == self.padding,
            r.draw_bg == (DrawQuad { color, ..self.draw_bg }),
    {
        let draw_bg = self.draw_bg.with_color(color);
        Button { draw_bg, ..self }
    }

    pub fn with_text_color(self, color: Color) -> (r: Self)
        ensures
            r.text == self.text,
            r.state == self.state,
            r.click_count == self.click_count,
            r.draw_list == self.draw_list,
            r.area == self.area,
            r.draw_bg == self.draw_bg,
            r.padding == self.padding,
            r.draw_text.text == self.draw_text.text,
            r.draw_text.style.color == color,
            r.draw_text.style.font_size == self.draw_text.style.font_size,
            r.draw_text.style.align == self.draw_text.style.align,
            r.draw_text.style.line_height == self.draw_text.style.line_height,
            r.draw_text.shader_id == self.draw_text.shader_id,
            r.draw_text.geometry_id == self.draw_text.geometry_id,
    {
        let draw_text = self.draw_text.with_color(color);
        Button { draw_text, ..self }
    }

    pub fn with_padding(self, padding: Vec2) -> (r: Self)
        ensures
            r == (Button { padding, ..self }),
    {
        Button { padding, ..self }
    }

    /// Dispatches one event through the state machine.  The arena is only
    /// read (for the hit-test rectangle), never changed.
    pub fn handle_event(&mut self, cx: &mut Cx, event: &Event)
        ensures
            *final(cx) == *old(cx),
            *final(self) == old(self).spec_handle(old(cx).spec_area(old(self).area), *event),
    {
        match event {
            Event::MouseDown { button: MouseButton::Left, x, y, .. } => {
                match cx.area_data(self.area) {
                    Some(area_data) => {
                        if area_data.rect.contains(Vec2::new(*x, *y)) {
                            self.state = ButtonState::Pressed;
                        }
                    },
                    None => {},
                }
            },
            Event::MouseUp { button: MouseButton::Left, x, y, .. } => {
                match cx.area_data(self.area) {
                    Some(area_data) => {
                        if area_data.rect.contains(Vec2::new(*x, *y)) {
                            if let ButtonState::Pressed = self.state {
                                if self.click_count < u64::MAX {
                                    self.click_count += 1;
                                }
                            }
                            self.state = ButtonState::Hover;
                        } else {
                            self.state = ButtonState::Normal;
                        }
                    },
                    None => {},
                }
            },
            Event::MouseMove { x, y, .. } => {
                match cx.area_data(self.area) {
                    Some(area_data) => {
                        if area_data.rect.contains(Vec2::new(*x, *y)) {
                            if let ButtonState::Normal = self.state {
                                self.state = ButtonState::Hover;
                            }
                        } else {
                            if let ButtonState::Hover = self.state {
                                self.state = ButtonState::Normal;
                            }
                        }
                    },
                    None => {},
                }
            },
            _ => {},
        }
    }

    /// One draw pass: rebuilds the button's draw list, recolors the
    /// background for the current state, places the button on the open
    /// turtle, submits the background quad, and records its rectangle.
    /// Always reports `Done`.
    pub fn draw(&mut self, cx: &mut Cx, cx2d: &mut Cx2d) -> (r: DrawStep)
        requires
            old(cx).shaders@.len() + 2 <= usize::MAX,
            old(cx).geometries@.len() + 2 <= usize::MAX,
        ensures
            r == DrawStep::Done,
            final(self).text == old(self).text,
            final(self).state == old(self).state,
            final(self).click_count == old(self).click_count,
            final(self).draw_list == old(self).draw_list,
            final(self).area == old(self).area,
            final(self).padding == old(self).padding,
            final(self).draw_text.text == old(self).draw_text.text,
            !(old(self).state is Disabled) ==> final(self).draw_text.style == old(
                self,
            ).draw_text.style,
            old(self).state is Disabled ==> (final(self).draw_text.style.color == (Color {
                r: 179,
                g: 179,
                b: 179,
                a: 179,
            }) && final(self).draw_text.style.font_size == old(self).draw_text.style.font_size
                && final(self).draw_text.style.align == old(self).draw_text.style.align
                && final(self).draw_text.style.line_height == old(
                self,
            ).draw_text.style.line_height && final(self).draw_text.style.font_name == old(
                self,
            ).draw_text.style.font_name),
            old(cx2d).turtles@.len() == 0 ==> (final(self).draw_bg.shader_id == old(
                self,
            ).draw_bg.shader_id && final(self).draw_bg.geometry_id == old(
                self,
            ).draw_bg.geometry_id && final(self).draw_text.shader_id == old(
                self,
            ).draw_text.shader_id && final(self).draw_text.geometry_id == old(
                self,
            ).draw_text.geometry_id),
            old(cx2d).turtles@.len() > 0 ==> ((final(self).draw_text.shader_id is Some) && (
            final(self).draw_text.geometry_id is Some)),
            final(self).draw_bg.color == state_background(old(self).state, old(self).draw_bg.color),
            final(self).draw_bg.border_color == old(self).draw_bg.border_color,
            final(self).draw_bg.border_width == old(self).draw_bg.border_width,
            final(self).draw_bg.corner_radius == old(self).draw_bg.corner_radius,
            final(cx2d).overlay_id == old(cx2d).overlay_id,
            final(cx).windows == old(cx).windows,
            final(cx).passes == old(cx).passes,
            final(cx).textures == old(cx).textures,
            final(cx).gpu_info == old(cx).gpu_info,
            final(cx).debug == old(cx).debug,
            final(cx).shaders@.len() >= old(cx).shaders@.len(),
            final(cx).shaders@.len() <= old(cx).shaders@.len() + 2,
            final(cx).shaders@.subrange(0, old(cx).shaders@.len() as int) == old(cx).shaders@,
            final(cx).geometries@.len() >= old(cx).geometries@.len(),
            final(cx).geometries@.len() <= old(cx).geometries@.len() + 2,
            final(cx).geometries@.subrange(0, old(cx).geometries@.len() as int) == old(
                cx,
            ).geometries@,
            final(cx).draw_lists@.len() == old(cx).draw_lists@.len(),
            final(cx).areas@.len() == old(cx).areas@.len(),
            // The button's own draw list is rebuilt: with an open turtle it
            // holds exactly the background quad (the default font has no
            // atlas, so the text submits nothing); with none it is empty.
            match old(cx).spec_draw_list(old(self).draw_list.draw_list_id) {
                Some(l) => {
                    &&& final(cx).draw_lists@ == old(cx).draw_lists@.update(
                        old(self).draw_list.draw_list_id.0 - 1,
                        final(cx).draw_lists@[old(self).draw_list.draw_list_id.0 - 1],
                    )
                    &&& final(cx).draw_lists@[old(self).draw_list.draw_list_id.0
                        - 1].draw_list_id == l.draw_list_id
                    &&& final(cx).draw_lists@[old(self).draw_list.draw_list_id.0
                        - 1].view_transform == l.view_transform
                    &&& if old(cx2d).turtles@.len() > 0 {
                        {
                            let items = final(cx).draw_lists@[old(self).draw_list.draw_list_id.0
                                - 1].draw_items@;
                            &&& items.len() == 1
                            &&& crate::draw::quad::is_quad_item(
                                items[0],
                                DrawQuad {
                                    color: state_background(
                                        old(self).state,
                                        old(self).draw_bg.color,
                                    ),
                                    ..old(self).draw_bg
                                },
                                old(cx2d).turtles@.last().spec_place(
                                    spec_button_size(old(self).padding),
                                    None,
                                ),
                                final(self).draw_bg.shader_id->0,
                                final(self).draw_bg.geometry_id->0,
                            )
                        }
                    } else {
                        final(cx).draw_lists@[old(self).draw_list.draw_list_id.0
                            - 1].draw_items@.len() == 0
                    }
                },
                None => final(cx).draw_lists@ == old(cx).draw_lists@,
            },
            // Turtle placement and the hit-test record.
            if old(cx2d).turtles@.len() > 0 {
                {
                    let top = old(cx2d).turtles@.last();
                    let rect = top.spec_place(spec_button_size(old(self).padding), None);
                    &&& final(self).draw_bg.shader_id is Some
                    &&& final(self).draw_bg.geometry_id is Some
                    &&& final(cx2d).turtles@ == old(cx2d).turtles@.update(
                        old(cx2d).turtles@.len() - 1,
                        crate::draw::turtle::Turtle {
                            rect: top.rect,
                            layout: top.layout,
                            items: final(cx2d).turtles@.last().items,
                        },
                    )
                    &&& final(cx2d).turtles@.last().items@ == top.items@.push(
                        crate::draw::turtle::TurtleItem { rect, align_self: None },
                    )
                    &&& match old(cx).spec_area(old(self).area) {
                        Some(d) => final(cx).areas@ == old(cx).areas@.update(
                            old(self).area.0 - 1,
                            AreaData {
                                rect,
                                draw_list_id: Some(old(self).draw_list.draw_list_id),
                            },
                        ),
                        None => final(cx).areas@ == old(cx).areas@,
                    }
                }
            } else {
                final(cx2d).turtles@ == old(cx2d).turtles@ && final(cx).areas@ == old(cx).areas@
            },
    {
        let _ = self.draw_list.begin(cx);

        match self.state {
            ButtonState::Normal => {},
            ButtonState::Hover => {
                let c = self.draw_bg.color;
                let r = if c.r > 229 {
                    255
                } else {
                    c.r + 26
                };
                let g = if c.g > 229 {
                    255
                } else {
                    c.g + 26
                };
                let b = if c.b > 229 {
                    255
                } else {
                    c.b + 26
                };
                self.draw_bg.color = Color::new(r, g, b, c.a);
            },
            ButtonState::Pressed => {
                let c = self.draw_bg.color;
                let r = if c.r < 26 {
                    0
                } else {
                    c.r - 26
                };
                let g = if c.g < 26 {
                    0
                } else {
                    c.g - 26
                };
                let b = if c.b < 26 {
                    0
                } else {
                    c.b - 26
                };
                self.draw_bg.color = Color::new(r, g, b, c.a);
            },
            ButtonState::Disabled => {
                self.draw_bg.color = Color::new(128, 128, 128, 128);
                self.draw_text.style.color = Color::new(179, 179, 179, 179);
            },
        }

        let button_size = Vec2::new(
            sat_add(100, sat_add(self.padding.x, self.padding.x)),
            sat_add(20, sat_add(self.padding.y, self.padding.y)),
        );

        match cx2d.add_turtle_item(button_size) {
            Some(rect) => {
                self.draw_bg.draw(cx, self.draw_list.id(), &rect);
                let font = Font::default();
                self.draw_text.draw(cx, self.draw_list.id(), &rect, &font);
                cx.set_area_rect(self.area, rect.x(), rect.y(), rect.width(), rect.height());
                cx.set_area_draw_list(self.area, self.draw_list.id());
                proof {
                    if old(cx).spec_area(old(self).area) is Some {
                        assert(cx.areas@ =~= old(cx).areas@.update(
                            old(self).area.0 - 1,
                            cx.areas@[old(self).area.0 - 1],
                        ));
                    }
                    if old(cx).spec_draw_list(old(self).draw_list.draw_list_id) is Some {
                        assert(cx.draw_lists@ =~= old(cx).draw_lists@.update(
                            old(self).draw_list.draw_list_id.0 - 1,
                            cx.draw_lists@[old(self).draw_list.draw_list_id.0 - 1],
                        ));
                    }
                    assert(cx.shaders@.subrange(0, old(cx).shaders@.len() as int) =~= old(
                        cx,
                    ).shaders@);
                    assert(cx.geometries@.subrange(0, old(cx).geometries@.len() as int) =~= old(
                        cx,
                    ).geometries@);
                }
            },
            None => {},
        }

        self.draw_list.end(cx);

        DrawStep::done()
    }
}

} // verus!
