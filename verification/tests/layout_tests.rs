//! Layout engine tests: sizing and alignment policies, turtle placement,
//! content sizing, and rectangles.

use mix::draw::layout::{Layout, LayoutAlign, LayoutDirection, LayoutSize};
use mix::draw::rect::Rect;
use mix::draw::turtle::{Turtle, Walk};
use mix::platform::math::{sat_add, sat_sub, Vec2};

#[test]
fn align_resolve_values() {
    assert_eq!(LayoutAlign::Center.resolve(100, 40), 30);
    assert_eq!(LayoutAlign::End.resolve(100, 40), 60);
    assert_eq!(LayoutAlign::Start.resolve(100, 40), 0);
    assert_eq!(LayoutAlign::Stretch.resolve(100, 40), 0);
}

#[test]
fn align_resolve_item_larger_than_container() {
    assert_eq!(LayoutAlign::Center.resolve(40, 100), -30);
    assert_eq!(LayoutAlign::End.resolve(40, 100), -60);
}

#[test]
fn size_resolve_values() {
    assert_eq!(LayoutSize::Flex(500).resolve(200, 0), 100);
    assert_eq!(LayoutSize::Fill.resolve(200, 0), 200);
    assert_eq!(LayoutSize::Fit.resolve(0, 37), 37);
    assert_eq!(LayoutSize::Fixed(12).resolve(200, 37), 12);
}

#[test]
fn size_resolve_flex_rounds_toward_zero() {
    assert_eq!(LayoutSize::Flex(333).resolve(100, 0), 33);
    assert_eq!(LayoutSize::Flex(333).resolve(-100, 0), -33);
    assert_eq!(LayoutSize::Flex(1500).resolve(200, 0), 300);
}

#[test]
fn horizontal_placement() {
    let layout = Layout::horizontal().with_padding(Vec2::new(2, 2)).with_spacing(5);
    let mut turtle = Turtle::new(Rect::new(0, 0, 300, 100), layout);

    let first = turtle.add_item(Vec2::new(50, 20), None);
    assert_eq!(first.pos.x, 2);
    assert_eq!(first.size.x, 50);
    assert_eq!(first.size.y, 20);
    // Default alignment is Start: y = pos.y + padding.y.
    assert_eq!(first.pos.y, 2);

    let second = turtle.add_item(Vec2::new(30, 10), None);
    assert_eq!(second.pos.x, 57);
    assert_eq!(second.size.x, 30);
    assert_eq!(second.size.y, 10);
    assert_eq!(second.pos.y, 2);
}

#[test]
fn horizontal_placement_center_aligned() {
    let layout = Layout::horizontal()
        .with_padding(Vec2::new(2, 2))
        .with_spacing(5)
        .with_align_items(LayoutAlign::Center);
    let mut turtle = Turtle::new(Rect::new(0, 0, 300, 100), layout);

    // Container cross extent is 100 - 2*2 = 96; offset is (96 - 20) / 2 = 38.
    let first = turtle.add_item(Vec2::new(50, 20), None);
    assert_eq!(first.pos.y, 2 + 38);
}

#[test]
fn vertical_placement_transposes() {
    let layout = Layout::vertical().with_padding(Vec2::new(2, 2)).with_spacing(5);
    let mut turtle = Turtle::new(Rect::new(0, 0, 100, 300), layout);

    let first = turtle.add_item(Vec2::new(20, 50), None);
    assert_eq!(first.pos.y, 2);
    assert_eq!(first.pos.x, 2);

    let second = turtle.add_item(Vec2::new(10, 30), None);
    assert_eq!(second.pos.y, 57);
}

#[test]
fn per_item_alignment_override() {
    let layout = Layout::horizontal().with_padding(Vec2::new(0, 0));
    let mut turtle = Turtle::new(Rect::new(0, 0, 300, 100), layout);
    let item = turtle.add_item(Vec2::new(50, 20), Some(LayoutAlign::End));
    assert_eq!(item.pos.y, 80);
}

#[test]
fn content_size_horizontal() {
    let layout = Layout::horizontal().with_padding(Vec2::new(2, 2)).with_spacing(5);
    let mut turtle = Turtle::new(Rect::new(0, 0, 300, 100), layout);
    turtle.add_item(Vec2::new(10, 5), None);
    turtle.add_item(Vec2::new(20, 8), None);
    turtle.add_item(Vec2::new(30, 6), None);

    let content = turtle.compute_content_size();
    assert_eq!(content.x, 74);
    assert_eq!(content.y, 12);
}

#[test]
fn content_size_vertical() {
    let layout = Layout::vertical().with_padding(Vec2::new(2, 2)).with_spacing(5);
    let mut turtle = Turtle::new(Rect::new(0, 0, 100, 300), layout);
    turtle.add_item(Vec2::new(5, 10), None);
    turtle.add_item(Vec2::new(8, 20), None);
    turtle.add_item(Vec2::new(6, 30), None);

    let content = turtle.compute_content_size();
    assert_eq!(content.x, 12);
    assert_eq!(content.y, 74);
}

#[test]
fn content_size_empty_is_zero() {
    let layout = Layout::horizontal().with_padding(Vec2::new(2, 2)).with_spacing(5);
    let turtle = Turtle::new(Rect::new(0, 0, 300, 100), layout);
    let content = turtle.compute_content_size();
    assert_eq!(content.x, 0);
    assert_eq!(content.y, 0);
}

#[test]
fn walk_selects_size_or_content() {
    assert_eq!(Walk::Size(Vec2::new(3, 4)).size(), Some(Vec2::new(3, 4)));
    assert_eq!(Walk::Compute.size(), None);
    assert_eq!(Walk::Size(Vec2::new(3, 4)).width(), Some(3));
    assert_eq!(Walk::Size(Vec2::new(3, 4)).height(), Some(4));
    assert_eq!(Walk::Compute.width(), None);
}

#[test]
fn rect_edges_and_containment() {
    let r = Rect::new(10, 20, 30, 40);
    assert_eq!(r.right(), 40);
    assert_eq!(r.bottom(), 60);
    assert_eq!(r.width(), 30);
    assert_eq!(r.height(), 40);
    assert_eq!(r.x(), 10);
    assert_eq!(r.y(), 20);
    // Inclusive on all four edges.
    assert!(r.contains(Vec2::new(10, 20)));
    assert!(r.contains(Vec2::new(40, 60)));
    assert!(r.contains(Vec2::new(25, 35)));
    assert!(!r.contains(Vec2::new(41, 35)));
    assert!(!r.contains(Vec2::new(25, 61)));
}

#[test]
fn rect_union_and_intersection() {
    let a = Rect::new(0, 0, 10, 10);
    let b = Rect::new(5, 5, 10, 10);
    let u = a.union(&b);
    assert_eq!(u, Rect::new(0, 0, 15, 15));

    let i = a.intersection(&b).unwrap();
    assert_eq!(i, Rect::new(5, 5, 5, 5));

    let c = Rect::new(20, 20, 5, 5);
    assert!(a.intersection(&c).is_none());
    assert!(a.intersects(&b));
    assert!(!a.intersects(&c));
}

#[test]
fn saturating_arithmetic_clips() {
    assert_eq!(sat_add(i64::MAX, 1), i64::MAX);
    assert_eq!(sat_add(i64::MIN, -1), i64::MIN);
    assert_eq!(sat_add(1, 2), 3);
    assert_eq!(sat_sub(i64::MIN, 1), i64::MIN);
    assert_eq!(sat_sub(5, 7), -2);
}

#[test]
fn layout_defaults() {
    let h = Layout::horizontal();
    assert_eq!(h.direction, LayoutDirection::Horizontal);
    assert_eq!(h.width, LayoutSize::Fill);
    assert_eq!(h.height, LayoutSize::Fit);
    assert_eq!(h.align_items, LayoutAlign::Start);
    assert_eq!(h.spacing, 0);
    let v = Layout::vertical().with_width(LayoutSize::Fixed(10)).with_height(
        LayoutSize::Flex(250),
    ).with_justify_content(LayoutAlign::Center);
    assert_eq!(v.direction, LayoutDirection::Vertical);
    assert_eq!(v.width, LayoutSize::Fixed(10));
    assert_eq!(v.height, LayoutSize::Flex(250));
    assert_eq!(v.justify_content, LayoutAlign::Center);
}
