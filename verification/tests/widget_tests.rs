//! Widget tree tests: the button state machine, draw-step propagation,
//! turtle-stack balance across draw passes, and the window root.

use mix::draw::color::Color;
use mix::draw::cx_2d::Cx2d;
use mix::draw::layout::Layout;
use mix::platform::cx::Cx;
use mix::platform::event::{Event, MouseButton};
use mix::platform::math::Vec2;
use mix::platform::window::WindowId;
use mix::widgets::button::{Button, ButtonState};
use mix::widgets::label::Label;
use mix::widgets::theme::{DarkTheme, Theme};
use mix::widgets::view::View;
use mix::widgets::widget::{DrawStep, WidgetRef};
use mix::widgets::window::Window;

fn down(x: i64, y: i64) -> Event {
    Event::MouseDown { window_id: WindowId(1), x, y, button: MouseButton::Left }
}

fn up(x: i64, y: i64) -> Event {
    Event::MouseUp { window_id: WindowId(1), x, y, button: MouseButton::Left }
}

fn mv(x: i64, y: i64) -> Event {
    Event::MouseMove { window_id: WindowId(1), x, y }
}

#[test]
fn button_click_inside_fires_once() {
    let mut cx = Cx::new();
    let mut button = Button::new(&mut cx, "go");
    cx.set_area_rect(button.area, 0, 0, 100, 40);

    assert_eq!(button.state, ButtonState::Normal);
    assert_eq!(button.click_count, 0);

    button.handle_event(&mut cx, &down(10, 10));
    assert_eq!(button.state, ButtonState::Pressed);
    assert_eq!(button.click_count, 0);

    button.handle_event(&mut cx, &up(10, 10));
    assert_eq!(button.state, ButtonState::Hover);
    assert_eq!(button.click_count, 1);
}

#[test]
fn button_release_outside_cancels() {
    let mut cx = Cx::new();
    let mut button = Button::new(&mut cx, "go");
    cx.set_area_rect(button.area, 0, 0, 100, 40);

    button.handle_event(&mut cx, &down(10, 10));
    assert_eq!(button.state, ButtonState::Pressed);

    button.handle_event(&mut cx, &up(200, 200));
    assert_eq!(button.state, ButtonState::Normal);
    assert_eq!(button.click_count, 0);
}

#[test]
fn button_hover_follows_pointer() {
    let mut cx = Cx::new();
    let mut button = Button::new(&mut cx, "go");
    cx.set_area_rect(button.area, 0, 0, 100, 40);

    button.handle_event(&mut cx, &mv(10, 10));
    assert_eq!(button.state, ButtonState::Hover);

    button.handle_event(&mut cx, &mv(200, 10));
    assert_eq!(button.state, ButtonState::Normal);
}

#[test]
fn button_without_area_record_ignores_events() {
    let mut cx = Cx::new();
    let mut button = Button::new(&mut cx, "go");
    // The area rectangle is never recorded in this arena's registry view
    // seen by the events of another arena.
    let mut other = Cx::new();
    button.handle_event(&mut other, &down(10, 10));
    assert_eq!(button.state, ButtonState::Normal);
}

#[test]
fn draw_step_propagation() {
    let steps = [DrawStep::Done, DrawStep::Redraw, DrawStep::Done];
    let mut acc = DrawStep::done();
    for s in steps {
        acc = acc.join(s);
    }
    assert!(acc.is_redraw());

    let all_done = DrawStep::done().join(DrawStep::Done).join(DrawStep::Done);
    assert!(!all_done.is_redraw());
    assert!(DrawStep::redraw().is_redraw());
    assert!(!DrawStep::done().is_redraw());
}

#[test]
fn view_of_leaves_reports_done_and_balances_turtles() {
    let mut cx = Cx::new();
    let mut view = View::new(&mut cx).with_horizontal_layout();
    let b1 = Button::new(&mut cx, "one");
    let l1 = Label::new(&mut cx, "two");
    let b2 = Button::new(&mut cx, "three");
    view.add_child(WidgetRef::Button(b1));
    view.add_child(WidgetRef::Label(l1));
    view.add_child(WidgetRef::Button(b2));

    let mut cx2d = Cx2d::new();
    assert_eq!(cx2d.turtles.len(), 0);
    let step = view.draw(&mut cx, &mut cx2d);
    assert!(!step.is_redraw());
    // Every begin was balanced by an end: the stack is empty again.
    assert_eq!(cx2d.turtles.len(), 0);
}

#[test]
fn leaf_draw_records_area_and_background() {
    let mut cx = Cx::new();
    let mut button = Button::new(&mut cx, "go");
    let list_id = button.draw_list.id();

    let mut cx2d = Cx2d::new();
    cx2d.begin_sized_turtle(Vec2::new(300, 100), Layout::vertical());
    let step = button.draw(&mut cx, &mut cx2d);
    assert!(!step.is_redraw());
    cx2d.end_turtle();

    // The button covers its placed rectangle: 100 + 2*8 by 20 + 2*8 at the
    // turtle origin.
    let data = cx.area_data(button.area).unwrap();
    assert_eq!(
        (data.rect.pos.x, data.rect.pos.y, data.rect.size.x, data.rect.size.y),
        (0, 0, 116, 36),
    );
    assert_eq!(data.draw_list_id, Some(list_id));

    // Its draw list holds exactly the background quad.
    assert_eq!(cx.draw_list(list_id).unwrap().draw_items.len(), 1);
}

#[test]
fn button_recolors_by_state() {
    let mut cx = Cx::new();
    let mut button = Button::new(&mut cx, "go");
    // The stock primary color.
    assert_eq!(button.draw_bg.color, Color::new(0x21, 0x96, 0xF3, 255));

    button.state = ButtonState::Hover;
    let mut cx2d = Cx2d::new();
    cx2d.begin_sized_turtle(Vec2::new(300, 100), Layout::vertical());
    button.draw(&mut cx, &mut cx2d);
    assert_eq!(button.draw_bg.color, Color::new(0x21 + 26, 0x96 + 26, 0xF3 + 12, 255));
}

#[test]
fn window_resize_updates_size() {
    let mut cx = Cx::new();
    let mut window = Window::new(&mut cx, "main").with_size(500, 400);
    assert_eq!(window.size, Vec2::new(500, 400));

    let resize = Event::WindowResize {
        window_id: window.window_id,
        width: 640,
        height: 480,
        dpi_factor: 1000,
    };
    window.handle_event(&mut cx, &resize);
    assert_eq!(window.size, Vec2::new(640, 480));

    // A resize addressed to another window changes nothing.
    let other = Event::WindowResize {
        window_id: WindowId(99),
        width: 1,
        height: 1,
        dpi_factor: 1000,
    };
    window.handle_event(&mut cx, &other);
    assert_eq!(window.size, Vec2::new(640, 480));
}

#[test]
fn window_draw_targets_its_pass() {
    let mut cx = Cx::new();
    let mut window = Window::new(&mut cx, "main");
    let mut content = View::new(&mut cx);
    content.add_child(WidgetRef::Label(Label::new(&mut cx, "hello")));
    let mut window = window.with_content(WidgetRef::View(content));

    let mut cx2d = Cx2d::new();
    let step = window.draw(&mut cx, &mut cx2d);
    assert!(!step.is_redraw());
    assert_eq!(cx2d.turtles.len(), 0);

    let pass = cx.pass(window.pass_id).unwrap();
    assert_eq!(pass.main_draw_list_id, Some(window.draw_list.id()));
}

#[test]
fn view_forwards_events_to_children() {
    let mut cx = Cx::new();
    let mut view = View::new(&mut cx);
    let button = Button::new(&mut cx, "go");
    let area = button.area;
    cx.set_area_rect(area, 0, 0, 100, 40);
    view.add_child(WidgetRef::Button(button));

    view.handle_event(&mut cx, &down(5, 5));
    view.handle_event(&mut cx, &up(5, 5));
    match &view.children[0] {
        WidgetRef::Button(b) => {
            assert_eq!(b.state, ButtonState::Hover);
            assert_eq!(b.click_count, 1);
        },
        _ => panic!("the child is a button"),
    }
}

#[test]
fn themes_share_metrics() {
    let light = Theme::default();
    let dark = DarkTheme::new();
    assert_eq!(light.spacing_medium, 8);
    assert_eq!(dark.spacing_medium, 8);
    assert_eq!(light.border_radius_medium, 4);
    assert_eq!(light.background_color, Color::from_hex(0xFFFFFF));
    assert_eq!(dark.background_color, Color::from_hex(0x121212));
    assert_eq!(light.button_text_style.color, Color::from_hex(0xFFFFFF));
    assert_eq!(dark.default_text_style.color, Color::from_hex(0xFFFFFF));
}
