//! Resource arena tests: id monotonicity, silent no-ops on unknown ids,
//! draw-list rebuilding, and the frame plan.

use mix::draw::draw_list_2d::DrawList2d;
use mix::platform::area::Area;
use mix::platform::cx::{plan_frame, Cx};
use mix::platform::draw_list::{DrawItem, DrawListId, DrawUniform};
use mix::platform::event::{Event, MouseButton};
use mix::platform::geometry::GeometryId;
use mix::platform::math::Mat4;
use mix::platform::pass::PassId;
use mix::platform::shader::ShaderId;
use mix::platform::texture::TextureFormat;
use mix::platform::window::WindowId;

fn plain_item() -> DrawItem {
    DrawItem {
        shader_id: ShaderId(1),
        geometry_id: GeometryId(1),
        uniforms: vec![DrawUniform::Float(7)],
        textures: Vec::new(),
        instance_count: 1,
    }
}

#[test]
fn ids_are_fresh_increasing_and_nonzero() {
    let mut cx = Cx::new();
    let p1 = cx.create_pass();
    let p2 = cx.create_pass();
    let p3 = cx.create_pass();
    assert!(p1.0 != 0 && p2.0 != 0 && p3.0 != 0);
    assert!(p1.0 < p2.0 && p2.0 < p3.0);
    assert_eq!((p1, p2, p3), (PassId(1), PassId(2), PassId(3)));

    let d1 = cx.create_draw_list();
    let d2 = cx.create_draw_list();
    assert!(d1.0 != 0 && d1.0 < d2.0);

    let a1 = cx.create_area();
    let a2 = cx.create_area();
    assert!(a1.0 != 0 && a1.0 < a2.0);

    let w1 = cx.create_window("one", 100, 100);
    let w2 = cx.create_window("two", 100, 100);
    assert!(w1.0 != 0 && w1.0 < w2.0);

    let s1 = cx.create_shader();
    let s2 = cx.create_shader();
    assert!(s1.0 != 0 && s1.0 < s2.0);

    let g1 = cx.create_geometry();
    let g2 = cx.create_geometry();
    assert!(g1.0 != 0 && g1.0 < g2.0);

    let t1 = cx.create_texture(4, 4, TextureFormat::Rgba8);
    let t2 = cx.create_texture(8, 8, TextureFormat::R8);
    assert!(t1.texture_id.0 != 0 && t1.texture_id.0 < t2.texture_id.0);
    assert_eq!(t2.width, 8);
    assert_eq!(t2.format, TextureFormat::R8);
}

#[test]
fn unknown_ids_are_silent() {
    let mut cx = Cx::new();
    let area = cx.create_area();

    // Ids from a foreign arena, and the reserved empty id, do nothing.
    let mut other = Cx::new();
    let _ = other.create_area();
    let foreign = Area(99);
    cx.set_area_rect(foreign, 1, 2, 3, 4);
    cx.set_area_rect(Area::empty(), 1, 2, 3, 4);
    cx.set_area_draw_list(foreign, DrawListId(1));
    cx.add_draw_item(DrawListId(42), plain_item());
    cx.set_view_transform(DrawListId(42), Mat4::identity());
    cx.set_pass_window_parent(PassId(42), WindowId(1));
    cx.set_pass_clear_color(PassId(42), mix::platform::pass::PassClearColor::new(1, 2, 3, 4));
    cx.set_pass_main_draw_list(PassId(42), DrawListId(1));

    assert!(cx.area_data(foreign).is_none());
    assert!(cx.area_data(Area::empty()).is_none());
    assert!(cx.pass(PassId(42)).is_none());
    assert!(cx.draw_list(DrawListId(42)).is_none());

    // The one real record is still zero-initialized.
    let data = cx.area_data(area).unwrap();
    assert_eq!(data.rect.pos.x, 0);
    assert_eq!(data.rect.size.x, 0);
    assert!(data.draw_list_id.is_none());
}

#[test]
fn area_updates_land_on_their_record() {
    let mut cx = Cx::new();
    let a = cx.create_area();
    let b = cx.create_area();
    cx.set_area_rect(a, 1, 2, 3, 4);
    cx.set_area_draw_list(a, DrawListId(9));

    let da = cx.area_data(a).unwrap();
    assert_eq!((da.rect.pos.x, da.rect.pos.y, da.rect.size.x, da.rect.size.y), (1, 2, 3, 4));
    assert_eq!(da.draw_list_id, Some(DrawListId(9)));

    let db = cx.area_data(b).unwrap();
    assert_eq!(db.rect.size.x, 0);
    assert!(db.draw_list_id.is_none());
}

#[test]
fn begin_clears_items_and_keeps_id_and_transform() {
    let mut cx = Cx::new();
    let mut list = DrawList2d::new(&mut cx);
    let id = list.id();

    cx.add_draw_item(id, plain_item());
    cx.add_draw_item(id, plain_item());
    assert_eq!(cx.draw_list(id).unwrap().draw_items.len(), 2);
    let transform_before = cx.draw_list(id).unwrap().view_transform.clone();

    let found = list.begin(&mut cx);
    assert!(found);
    assert_eq!(list.id(), id);
    let record = cx.draw_list(id).unwrap();
    assert_eq!(record.draw_items.len(), 0);
    assert_eq!(record.draw_list_id, id);
    assert_eq!(record.view_transform, transform_before);

    // Clearing an already empty list is just as silent.
    list.begin_always(&mut cx);
    assert_eq!(cx.draw_list(id).unwrap().draw_items.len(), 0);

    // A handle to a list this arena never made reports absence.
    let mut stale = DrawList2d { draw_list_id: DrawListId(77), dirty_check_rect: mix::draw::rect::Rect::zero() };
    assert!(!stale.begin(&mut cx));
}

#[test]
fn view_transform_is_stored_per_list() {
    let mut cx = Cx::new();
    let mut list = DrawList2d::new(&mut cx);
    let id = list.id();
    let mut m = vec![0i64; 16];
    m[0] = 2;
    list.set_view_transform(&mut cx, Mat4::new(m.clone()));
    assert_eq!(cx.draw_list(id).unwrap().view_transform, Mat4::new(m));
}

#[test]
fn frame_plan_dispatches_until_shutdown() {
    let wid = WindowId(1);
    let events = vec![
        Event::Draw,
        Event::Shutdown,
        Event::MouseMove { window_id: wid, x: 1, y: 2 },
    ];
    let plan = plan_frame(&events);
    assert_eq!(plan.dispatch_count, 2);
    assert!(plan.shutdown);
    assert!(!plan.needs_redraw);
}

#[test]
fn frame_plan_marks_resizes() {
    let wid = WindowId(1);
    let events = vec![
        Event::MouseDown { window_id: wid, x: 1, y: 2, button: MouseButton::Left },
        Event::WindowResize { window_id: wid, width: 640, height: 480, dpi_factor: 1000 },
        Event::Draw,
    ];
    let plan = plan_frame(&events);
    assert_eq!(plan.dispatch_count, 3);
    assert!(!plan.shutdown);
    assert!(plan.needs_redraw);

    let empty: Vec<Event> = Vec::new();
    let plan = plan_frame(&empty);
    assert_eq!(plan.dispatch_count, 0);
    assert!(!plan.shutdown);
    assert!(!plan.needs_redraw);
}

#[test]
fn identity_transform_for_new_lists() {
    let mut cx = Cx::new();
    let id = cx.create_draw_list();
    let m = &cx.draw_list(id).unwrap().view_transform.m;
    assert_eq!(m.len(), 16);
    for row in 0..4usize {
        for col in 0..4usize {
            assert_eq!(m[row * 4 + col], if row == col { 1 } else { 0 });
        }
    }
}
