//! Text and color tests: grapheme-based measurement, hex color parsing,
//! and the explicit vertex serialization.

use mix::draw::color::Color;
use mix::draw::quad::encode_words_le;
use mix::draw::rect::Rect;
use mix::draw::text::{DrawText, Font, GlyphInfo, TextAlign};
use mix::platform::cx::Cx;
use mix::platform::math::Vec2;
use mix::platform::texture::TextureFormat;

fn glyph(c: char, advance: i64) -> GlyphInfo {
    GlyphInfo {
        code_point: c,
        advance,
        bearing: Vec2::new(0, 0),
        size: Vec2::new(advance, 32),
        uv_rect: Rect::new(0, 0, 1, 1),
    }
}

#[test]
fn measure_sums_advances_per_line() {
    let mut font = Font::default();
    font.glyphs.insert('a' as u32, glyph('a', 10));
    font.glyphs.insert('b' as u32, glyph('b', 20));

    // At a 32-unit font size the 32-unit-em metrics apply unscaled; 'c'
    // and 'd' have no glyph and advance half the font size each.
    let text = DrawText::new().with_text("ab\ncd").with_font_size(32);
    let measured = text.measure_text(&font);

    // First line: 10 + 20 = 30.  Second line: 16 + 16 = 32.  Two lines of
    // 32 * 1200 / 1000 = 38 units each.
    assert_eq!(measured.x, 32);
    assert_eq!(measured.y, 76);
}

#[test]
fn measure_scales_to_font_size() {
    let mut font = Font::default();
    font.glyphs.insert('a' as u32, glyph('a', 10));

    let text = DrawText::new().with_text("aa").with_font_size(16);
    let measured = text.measure_text(&font);
    // 10 * 16 / 32 = 5 per glyph.
    assert_eq!(measured.x, 10);
    assert_eq!(measured.y, 19);
}

#[test]
fn measure_empty_text() {
    let font = Font::default();
    let text = DrawText::new().with_font_size(32);
    let measured = text.measure_text(&font);
    assert_eq!(measured.x, 0);
    assert_eq!(measured.y, 38);
}

#[test]
fn draw_submits_one_item_per_known_glyph() {
    let mut cx = Cx::new();
    let list_id = cx.create_draw_list();
    let texture = cx.create_texture(64, 64, TextureFormat::R8);

    let mut font = Font::default();
    font.texture = Some(texture);
    font.glyphs.insert('a' as u32, glyph('a', 10));
    font.glyphs.insert('b' as u32, glyph('b', 20));

    // 'a' and 'b' submit; the line feed and the unknown 'z' do not.
    let mut text = DrawText::new().with_text("az\nb").with_font_size(32);
    text.draw(&mut cx, list_id, &Rect::new(0, 0, 100, 100), &font);

    assert_eq!(cx.draw_list(list_id).unwrap().draw_items.len(), 2);
    let item = &cx.draw_list(list_id).unwrap().draw_items[0];
    assert_eq!(item.textures.len(), 1);
    assert_eq!(item.instance_count, 1);
}

#[test]
fn draw_without_atlas_submits_nothing() {
    let mut cx = Cx::new();
    let list_id = cx.create_draw_list();
    let font = Font::default();
    let mut text = DrawText::new().with_text("abc");
    text.draw(&mut cx, list_id, &Rect::new(0, 0, 100, 100), &font);
    assert_eq!(cx.draw_list(list_id).unwrap().draw_items.len(), 0);
}

#[test]
fn from_hex_unpacks_channels() {
    let c = Color::from_hex(0x2196F3);
    assert_eq!((c.r, c.g, c.b, c.a), (0x21, 0x96, 0xF3, 255));
    assert_eq!(Color::from_hex(0x000000), Color::black());
    assert_eq!(Color::from_hex(0xFFFFFF), Color::white());
}

#[test]
fn from_hex_str_accepts_six_digits() {
    assert_eq!(Color::from_hex_str("#2196F3"), Some(Color::from_hex(0x2196F3)));
    assert_eq!(Color::from_hex_str("2196f3"), Some(Color::from_hex(0x2196F3)));
    assert_eq!(Color::from_hex_str("##FF0000"), Some(Color::from_hex(0xFF0000)));
}

#[test]
fn from_hex_str_rejects_other_shapes() {
    assert_eq!(Color::from_hex_str(""), None);
    assert_eq!(Color::from_hex_str("#12345"), None);
    assert_eq!(Color::from_hex_str("#1234567"), None);
    assert_eq!(Color::from_hex_str("+23456"), None);
    assert_eq!(Color::from_hex_str("GGGGGG"), None);
    assert_eq!(Color::from_hex_str("#21 6F3"), None);
}

#[test]
fn color_constructors() {
    assert_eq!(Color::rgb(1, 2, 3), Color::new(1, 2, 3, 255));
    assert_eq!(Color::rgba(1, 2, 3, 4), Color::new(1, 2, 3, 4));
    assert_eq!(Color::transparent().a, 0);
    let v = Color::new(10, 20, 30, 40).to_vec4();
    assert_eq!((v.x, v.y, v.z, v.w), (10, 20, 30, 40));
}

#[test]
fn words_serialize_little_endian() {
    let bytes = encode_words_le(&vec![0x3F80_0000u32, 0x0000_0001u32]);
    assert_eq!(bytes, vec![0x00, 0x00, 0x80, 0x3F, 0x01, 0x00, 0x00, 0x00]);
    let empty = encode_words_le(&Vec::new());
    assert!(empty.is_empty());
}

#[test]
fn text_styles_default() {
    let t = DrawText::new();
    assert_eq!(t.style.font_size, 16);
    assert_eq!(t.style.align, TextAlign::Left);
    assert_eq!(t.style.line_height, 1200);
    let t = t.with_align(TextAlign::Center).with_color(Color::red()).with_font_size(24);
    assert_eq!(t.style.align, TextAlign::Center);
    assert_eq!(t.style.color, Color::red());
    assert_eq!(t.style.font_size, 24);
}
