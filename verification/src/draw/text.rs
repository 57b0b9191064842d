//! The text drawer: styles, the opaque font asset with its
//! glyph-by-codepoint table, measurement, and per-glyph draw submission.
//!
//! Text is split into extended grapheme clusters; each cluster is looked
//! up by its first code point in the font's glyph table.  Glyph metrics
//! are stored for a 32-unit em and scaled to the style's font size.

use std::collections::HashMap;
use vstd::prelude::*;
use vstd::string::StrSliceExecFns;
use crate::draw::color::Color;
use crate::draw::rect::Rect;
use crate::platform::cx::Cx;
use crate::platform::draw_list::{DrawItem, DrawListId, DrawUniform};
use crate::platform::geometry::{Geometry, GeometryId, VertexFormat};
use crate::platform::math::{
    half, half_toward_zero, mul_div32, sat64, sat_add, scale_by_permille, scale_em32,
    scale_permille, Vec2,
};
use crate::platform::shader::{Shader, ShaderId, ShaderUniformType};
use crate::platform::texture::Texture;
use crate::draw::quad::{encode_words_le, quad_indices, quad_vertex_words, LANE_ONE, LANE_ZERO};

verus! {

broadcast use vstd::std_specs::hash::group_hash_axioms;

/// The grapheme clusters of a string.  What the clusters are is fixed by
/// the Unicode segmentation rules and depends on the characters alone;
/// the library does not restate those rules.
pub uninterp spec fn graphemes_of(s: Seq<char>) -> Seq<Seq<char>>;

/// Relies on unicode_segmentation's `str::graphemes` with extended
/// clusters: it splits a string into grapheme clusters, deterministically
/// in the characters alone, and an empty string yields none.
#[verifier::external_body]
fn split_graphemes(s: &str) -> (r: Vec<String>)
    ensures
        r@.map_values(|g: String| g@) == graphemes_of(s@),
        s@.len() == 0 ==> r@.len() == 0,
{
    unicode_segmentation::UnicodeSegmentation::graphemes(s, true).map(|g| g.to_owned()).collect()
}

/// One glyph of a font: metrics for a 32-unit em, and where the glyph
/// sits in the font's atlas texture.
#[derive(Clone, Copy, Debug)]
pub struct GlyphInfo {
    pub code_point: char,
    pub advance: i64,
    pub bearing: Vec2,
    pub size: Vec2,
    pub uv_rect: Rect,
}

/// An opaque font asset: a name, the raw font bytes, the atlas texture,
/// and the glyph table keyed by code point.  Parsing and rasterizing the
/// bytes is the embedding's concern; the core reads only the table.
#[derive(Clone, Debug)]
pub struct Font {
    pub name: String,
    pub data: Vec<u8>,
    pub texture: Option<Texture>,
    pub glyphs: HashMap<u32, GlyphInfo>,
}

impl Default for Font {
    /// An empty font: no bytes, no atlas, no glyphs.
    fn default() -> (r: Self)
        ensures
            r.name@ == "default"@,
            r.data@.len() == 0,
            r.texture is None,
            r.glyphs@.len() == 0,
    {
        Self {
            name: "default".to_owned(),
            data: Vec::new(),
            texture: None,
            glyphs: HashMap::new(),
        }
    }
}

/// Horizontal text alignment within a rectangle.
#[derive(Clone, Copy, Debug, PartialEq, Eq, Structural)]
pub enum TextAlign {
    Left,
    Center,
    Right,
}

/// A text style: font size in coordinate units, line height in
/// thousandths of the font size.
#[derive(Clone, Debug)]
pub struct TextStyle {
    pub font_size: i64,
    pub font_name: String,
    pub color: Color,
    pub align: TextAlign,
    pub line_height: u32,
}

impl Default for TextStyle {
    /// The default style: 16-unit black left-aligned text at 1.2 line
    /// height.
    fn default() -> (r: Self)
        ensures
            r.font_size == 16,
            r.font_name@ == "default"@,
            r.color == (Color { r: 0, g: 0, b: 0, a: 255 }),
            r.align == TextAlign::Left,
            r.line_height == 1200,
    {
        Self {
            font_size: 16,
            font_name: "default".to_owned(),
            color: Color::black(),
            align: TextAlign::Left,
            line_height: 1200,
        }
    }
}

/// True of the single cluster that is a bare line feed.
pub open spec fn is_newline_grapheme(g: Seq<char>) -> bool {
    g.len() == 1 && g[0] == '\n'
}

/// The code point a cluster is looked up by: its first character, or a
/// space for an empty cluster.
pub open spec fn grapheme_key(g: Seq<char>) -> char {
    if g.len() > 0 {
        g[0]
    } else {
        ' '
    }
}

/// The advance of one cluster at a font size: its glyph's advance scaled
/// from the 32-unit em, or half the font size when the font has no glyph
/// for it.
pub open spec fn grapheme_advance(g: Seq<char>, glyphs: Map<u32, GlyphInfo>, font_size: int) -> int {
    let c = grapheme_key(g);
    if glyphs.contains_key(c as u32) {
        mul_div32(glyphs[c as u32].advance as int, font_size)
    } else {
        half_toward_zero(font_size)
    }
}

/// The measurement state after a run of clusters: the widest finished
/// line, the current line's width, and the total height.
pub open spec fn measure_state(
    gs: Seq<Seq<char>>,
    glyphs: Map<u32, GlyphInfo>,
    font_size: int,
    line_step: int,
) -> (int, int, int)
    decreases gs.len(),
{
    if gs.len() == 0 {
        (0, 0, line_step)
    } else {
        let prev = measure_state(gs.drop_last(), glyphs, font_size, line_step);
        let g = gs.last();
        if is_newline_grapheme(g) {
            (
                if prev.0 >= prev.1 {
                    prev.0
                } else {
                    prev.1
                },
                0,
                sat64(prev.2 + line_step),
            )
        } else {
            (prev.0, sat64(prev.1 + grapheme_advance(g, glyphs, font_size)), prev.2)
        }
    }
}

/// The measured extent of a text: the widest line, and one line step per
/// line.
pub open spec fn spec_measure(
    text: Seq<char>,
    glyphs: Map<u32, GlyphInfo>,
    font_size: int,
    line_height: int,
) -> Vec2 {
    let line_step = scale_permille(font_size, line_height);
    let st = measure_state(graphemes_of(text), glyphs, font_size, line_step);
    Vec2 {
        x: (if st.0 >= st.1 {
            st.0
        } else {
            st.1
        }) as i64,
        y: st.2 as i64,
    }
}

/// The number of clusters in a run that submit a glyph: not a line feed,
/// and present in the glyph table.
pub open spec fn glyph_item_count(gs: Seq<Seq<char>>, glyphs: Map<u32, GlyphInfo>) -> int
    decreases gs.len(),
{
    if gs.len() == 0 {
        0
    } else {
        glyph_item_count(gs.drop_last(), glyphs) + (if !is_newline_grapheme(gs.last())
            && glyphs.contains_key(grapheme_key(gs.last()) as u32) {
            1int
        } else {
            0int
        })
    }
}

/// A glyph-run count is between zero and the number of clusters.
pub proof fn lemma_glyph_item_count_bounds(gs: Seq<Seq<char>>, glyphs: Map<u32, GlyphInfo>)
    ensures
        0 <= glyph_item_count(gs, glyphs) <= gs.len(),
    decreases gs.len(),
{
    if gs.len() > 0 {
        lemma_glyph_item_count_bounds(gs.drop_last(), glyphs);
    }
}

/// True of a shader record populated for text drawing: the two text
/// uniforms declared in order.  The source blobs are opaque.
pub open spec fn is_text_shader(s: Shader) -> bool {
    &&& s.uniforms@.len() == 2
    &&& s.uniforms@[0].name@ == "color"@ && s.uniforms@[0].uniform_type == ShaderUniformType::Vec4
    &&& s.uniforms@[1].name@ == "font_size"@ && s.uniforms@[1].uniform_type
        == ShaderUniformType::Float
}

/// True of a geometry record populated with the unit square used for
/// glyph quads.
pub open spec fn is_text_geometry(g: Geometry) -> bool {
    &&& g.vertex_attributes@.len() == 2
    &&& g.vertex_attributes@[0].name@ == "position"@ && g.vertex_attributes@[0].offset == 0
        && g.vertex_attributes@[0].format == VertexFormat::Float2
    &&& g.vertex_attributes@[1].name@ == "uv"@ && g.vertex_attributes@[1].offset == 8
        && g.vertex_attributes@[1].format == VertexFormat::Float2
    &&& g.vertices@ == crate::draw::quad::words_le_bytes(quad_vertex_words())
    &&& g.indices@ == quad_indices()
}

/// True of the draw item one glyph submission produces: the style's
/// color and font size inlined, the font's atlas texture attached, one
/// instance.
pub open spec fn is_text_item(
    item: DrawItem,
    style_color: Color,
    font_size: i64,
    texture: Texture,
    shader_id: ShaderId,
    geometry_id: GeometryId,
) -> bool {
    &&& item.shader_id == shader_id
    &&& item.geometry_id == geometry_id
    &&& item.uniforms@.len() == 2
    &&& item.uniforms@[0] matches DrawUniform::Vec4(v) && v.x == style_color.r as i64 && v.y
        == style_color.g as i64 && v.z == style_color.b as i64 && v.w == style_color.a as i64
    &&& item.uniforms@[1] == DrawUniform::Float(font_size)
    &&& item.textures@.len() == 1
    &&& item.textures@[0].texture_id == texture.texture_id
    &&& item.instance_count == 1
}

/// A text drawer: the text, its style, and the lazily created arena
/// resources it draws with.
#[derive(Clone, Debug)]
pub struct DrawText {
    pub text: String,
    pub style: TextStyle,
    pub shader_id: Option<ShaderId>,
    pub geometry_id: Option<GeometryId>,
}

impl Default for DrawText {
    /// An empty drawer with the default style, not yet attached to arena
    /// resources.
    fn default() -> (r: Self)
        ensures
            r.text@.len() == 0,
            r.style.font_size == 16,
            r.style.color == (Color { r: 0, g: 0, b: 0, a: 255 }),
            r.style.align == TextAlign::Left,
            r.style.line_height == 1200,
            r.shader_id is None,
            r.geometry_id is None,
    {
        Self {
            text: String::new(),
            style: TextStyle::default(),
            shader_id: None,
            geometry_id: None,
        }
    }
}

impl DrawText {
    pub fn new() -> (r: Self)
        ensures
            r.text@.len() == 0,
            r.style.font_size == 16,
            r.style.color == (Color { r: 0, g: 0, b: 0, a: 255 }),
            r.style.align == TextAlign::Left,
            r.style.line_height == 1200,
            r.shader_id is None,
            r.geometry_id is None,
    {
        Self::default()
    }

    pub fn with_text(self, text: &str) -> (r: Self)
        ensures
            r.text@ == text@,
            r.style == self.style,
            r.shader_id == self.shader_id,
            r.geometry_id == self.geometry_id,
    {
        DrawText { text: text.to_owned(), ..self }
    }

    pub fn with_style(self, style: TextStyle) -> (r: Self)
        ensures
            r == (DrawText { style, ..self }),
    {
        DrawText { style, ..self }
    }

    pub fn with_font_size(self, font_size: i64) -> (r: Self)
        ensures
            r.text == self.text,
            r.style.font_size == font_size,
            r.style.font_name == self.style.font_name,
            r.style.color == self.style.color,
            r.style.align == self.style.align,
            r.style.line_height == self.style.line_height,
            r.shader_id == self.shader_id,
            r.geometry_id == self.geometry_id,
    {
        DrawText { style: TextStyle { font_size, ..self.style }, ..self }
    }

    pub fn with_font_name(self, font_name: &str) -> (r: Self)
        ensures
            r.text == self.text,
            r.style.font_size == self.style.font_size,
            r.style.font_name@ == font_name@,
            r.style.color == self.style.color,
            r.style.align == self.style.align,
            r.style.line_height == self.style.line_height,
            r.shader_id == self.shader_id,
            r.geometry_id == self.geometry_id,
    {
        DrawText { style: TextStyle { font_name: font_name.to_owned(), ..self.style }, ..self }
    }

    pub fn with_color(self, color: Color) -> (r: Self)
        ensures
            r.text == self.text,
            r.style.font_size == self.style.font_size,
            r.style.font_name == self.style.font_name,
            r.style.color == color,
            r.style.align == self.style.align,
            r.style.line_height == self.style.line_height,
            r.shader_id == self.shader_id,
            r.geometry_id == self.geometry_id,
    {
        DrawText { style: TextStyle { color, ..self.style }, ..self }
    }

    pub fn with_align(self, align: TextAlign) -> (r: Self)
        ensures
            r.text == self.text,
            r.style.font_size == self.style.font_size,
            r.style.font_name == self.style.font_name,
            r.style.color == self.style.color,
            r.style.align == align,
            r.style.line_height == self.style.line_height,
            r.shader_id == self.shader_id,
            r.geometry_id == self.geometry_id,
    {
        DrawText { style: TextStyle { align, ..self.style }, ..self }
    }

    /// Creates the text shader and glyph-quad geometry in the arena,
    /// once; further calls change nothing that is already attached.
    pub fn init(&mut self, cx: &mut Cx)
        requires
            old(cx).shaders@.len() < usize::MAX,
            old(cx).geometries@.len() < usize::MAX,
        ensures
            final(self).text == old(self).text,
            final(self).style == old(self).style,
            final(cx).windows == old(cx).windows,
            final(cx).passes == old(cx).passes,
            final(cx).draw_lists == old(cx).draw_lists,
            final(cx).textures == old(cx).textures,
            final(cx).areas == old(cx).areas,
            final(cx).gpu_info == old(cx).gpu_info,
            final(cx).debug == old(cx).debug,
            match old(self).shader_id {
                Some(id) => final(self).shader_id == Some(id) && final(cx).shaders@ == old(
                    cx,
                ).shaders@,
                None => {
                    &&& final(self).shader_id == Some(
                        ShaderId((old(cx).shaders@.len() + 1) as usize),
                    )
                    &&& final(cx).shaders@.len() == old(cx).shaders@.len() + 1
                    &&& final(cx).shaders@.subrange(0, old(cx).shaders@.len() as int) == old(
                        cx,
                    ).shaders@
                    &&& final(cx).shaders@.last().shader_id.0 == old(cx).shaders@.len() + 1
                    &&& is_text_shader(final(cx).shaders@.last())
                },
            },
            match old(self).geometry_id {
                Some(id) => final(self).geometry_id == Some(id) && final(cx).geometries@ == old(
                    cx,
                ).geometries@,
                None => {
                    &&& final(self).geometry_id == Some(
                        GeometryId((old(cx).geometries@.len() + 1) as usize),
                    )
                    &&& final(cx).geometries@.len() == old(cx).geometries@.len() + 1
                    &&& final(cx).geometries@.subrange(0, old(cx).geometries@.len() as int) == old(
                        cx,
                    ).geometries@
                    &&& final(cx).geometries@.last().geometry_id.0 == old(cx).geometries@.len() + 1
                    &&& is_text_geometry(final(cx).geometries@.last())
                },
            },
            old(cx).wf() ==> final(cx).wf(),
    {
        if self.shader_id.is_none() {
            let shader_id = cx.create_shader();
            let mut shader = Shader::new(shader_id);

            shader.set_vertex_shader(TEXT_VERTEX_SHADER);
            shader.set_fragment_shader(TEXT_FRAGMENT_SHADER);

            shader.add_uniform("color", ShaderUniformType::Vec4);
            shader.add_uniform("font_size", ShaderUniformType::Float);

            cx.set_shader(shader_id, shader);
            self.shader_id = Some(shader_id);
        }
        if self.geometry_id.is_none() {
            let geometry_id = cx.create_geometry();
            let mut geometry = Geometry::new(geometry_id);

            geometry.add_vertex_attribute("position", 0, VertexFormat::Float2);
            geometry.add_vertex_attribute("uv", 8, VertexFormat::Float2);

            let mut lanes: Vec<u32> = Vec::new();
            lanes.push(LANE_ZERO);
            lanes.push(LANE_ZERO);
            lanes.push(LANE_ZERO);
            lanes.push(LANE_ZERO);
            lanes.push(LANE_ONE);
            lanes.push(LANE_ZERO);
            lanes.push(LANE_ONE);
            lanes.push(LANE_ZERO);
            lanes.push(LANE_ONE);
            lanes.push(LANE_ONE);
            lanes.push(LANE_ONE);
            lanes.push(LANE_ONE);
            lanes.push(LANE_ZERO);
            lanes.push(LANE_ONE);
            lanes.push(LANE_ZERO);
            lanes.push(LANE_ONE);
            proof {
                assert(lanes@ =~= quad_vertex_words());
            }
            geometry.set_vertices(encode_words_le(&lanes));

            let mut indices: Vec<u16> = Vec::new();
            indices.push(0);
            indices.push(1);
            indices.push(2);
            indices.push(0);
            indices.push(2);
            indices.push(3);
            proof {
                assert(indices@ =~= quad_indices());
            }
            geometry.set_indices(indices);

            cx.set_geometry(geometry_id, geometry);
            self.geometry_id = Some(geometry_id);
        }
    }

    /// Measures the text against a font: the widest line and the summed
    /// line heights, on the style's font size.
    pub fn measure_text(&self, font: &Font) -> (r: Vec2)
        ensures
            r == spec_measure(
                self.text@,
                font.glyphs@,
                self.style.font_size as int,
                self.style.line_height as int,
            ),
    {
        let line_step = scale_by_permille(self.style.font_size, self.style.line_height);
        let graphemes = split_graphemes(self.text.as_str());
        let ghost gs = graphemes_of(self.text@);

        let mut width: i64 = 0;
        let mut line_width: i64 = 0;
        let mut height: i64 = line_step;

        let n = graphemes.len();
        let mut i: usize = 0;
        while i < n
            invariant
                i <= n == graphemes@.len(),
                graphemes@.map_values(|g: String| g@) == gs,
                gs.len() == n,
                line_step as int == scale_permille(
                    self.style.font_size as int,
                    self.style.line_height as int,
                ),
                (width as int, line_width as int, height as int) == measure_state(
                    gs.subrange(0, i as int),
                    font.glyphs@,
                    self.style.font_size as int,
                    scale_permille(self.style.font_size as int, self.style.line_height as int),
                ),
            decreases n - i,
        {
            proof {
                assert(gs.subrange(0, i + 1).drop_last() == gs.subrange(0, i as int));
                assert(gs.subrange(0, i + 1).last() == gs[i as int]);
                assert(graphemes@.map_values(|g: String| g@)[i as int] == graphemes@[i as int]@);
            }
            let g = &graphemes[i];
            let g_len = g.as_str().unicode_len();
            if g_len == 1 && g.as_str().get_char(0) == '\n' {
                if line_width > width {
                    width = line_width;
                }
                line_width = 0;
                height = sat_add(height, line_step);
            } else {
                let c: char = if g_len > 0 {
                    g.as_str().get_char(0)
                } else {
                    ' '
                };
                let advance: i64 = match font.glyphs.get(&(c as u32)) {
                    Some(glyph) => scale_em32(glyph.advance, self.style.font_size),
                    None => half(self.style.font_size),
                };
                line_width = sat_add(line_width, advance);
            }
            i += 1;
        }
        proof {
            assert(gs.subrange(0, n as int) == gs);
        }
        let final_width = if width >= line_width {
            width
        } else {
            line_width
        };
        Vec2::new(final_width, height)
    }

    /// Submits one glyph quad per drawable cluster of the text to the
    /// given draw list, creating the shared resources first if needed.
    /// Without an atlas texture nothing is submitted; an unknown draw
    /// list is left as it is.
    pub fn draw(&mut self, cx: &mut Cx, draw_list_id: DrawListId, rect: &Rect, font: &Font)
        requires
            old(cx).shaders@.len() < usize::MAX,
            old(cx).geometries@.len() < usize::MAX,
        ensures
            final(self).text == old(self).text,
            final(self).style == old(self).style,
            final(self).shader_id is Some,
            final(self).geometry_id is Some,
            old(self).shader_id is Some ==> final(self).shader_id == old(self).shader_id,
            old(self).geometry_id is Some ==> final(self).geometry_id == old(self).geometry_id,
            final(cx).windows == old(cx).windows,
            final(cx).passes == old(cx).passes,
            final(cx).textures == old(cx).textures,
            final(cx).areas == old(cx).areas,
            final(cx).gpu_info == old(cx).gpu_info,
            final(cx).debug == old(cx).debug,
            old(self).shader_id is Some ==> final(cx).shaders@ == old(cx).shaders@,
            old(self).geometry_id is Some ==> final(cx).geometries@ == old(cx).geometries@,
            old(self).shader_id is None ==> final(cx).shaders@.len() == old(cx).shaders@.len() + 1
                && final(cx).shaders@.subrange(0, old(cx).shaders@.len() as int) == old(
                cx,
            ).shaders@ && is_text_shader(final(cx).shaders@.last()),
            old(self).geometry_id is None ==> final(cx).geometries@.len() == old(
                cx,
            ).geometries@.len() + 1 && final(cx).geometries@.subrange(
                0,
                old(cx).geometries@.len() as int,
            ) == old(cx).geometries@ && is_text_geometry(final(cx).geometries@.last()),
            font.texture is None ==> final(cx).draw_lists@ == old(cx).draw_lists@,
            match (font.texture, old(cx).spec_draw_list(draw_list_id)) {
                (Some(texture), Some(l)) => {
                    let k = glyph_item_count(graphemes_of(old(self).text@), font.glyphs@);
                    &&& final(cx).draw_lists@ == old(cx).draw_lists@.update(
                        draw_list_id.0 - 1,
                        final(cx).draw_lists@[draw_list_id.0 - 1],
                    )
                    &&& final(cx).draw_lists@[draw_list_id.0 - 1].draw_list_id == l.draw_list_id
                    &&& final(cx).draw_lists@[draw_list_id.0 - 1].view_transform
                        == l.view_transform
                    &&& final(cx).draw_lists@[draw_list_id.0 - 1].draw_items@.len()
                        == l.draw_items@.len() + k
                    &&& final(cx).draw_lists@[draw_list_id.0 - 1].draw_items@.subrange(
                        0,
                        l.draw_items@.len() as int,
                    ) == l.draw_items@
                    &&& forall|j: int|
                        l.draw_items@.len() <= j < l.draw_items@.len() + k ==> is_text_item(
                            #[trigger] final(cx).draw_lists@[draw_list_id.0 - 1].draw_items@[j],
                            old(self).style.color,
                            old(self).style.font_size,
                            texture,
                            final(self).shader_id->0,
                            final(self).geometry_id->0,
                        )
                },
                (Some(t), None) => final(cx).draw_lists@ == old(cx).draw_lists@,
                _ => true,
            },
            old(cx).wf() ==> final(cx).wf(),
    {
        if self.shader_id.is_none() || self.geometry_id.is_none() {
            self.init(cx);
        }
        let texture = match &font.texture {
            Some(t) => *t,
            None => {
                return ;
            },
        };
        let shader_id = self.shader_id.unwrap();
        let geometry_id = self.geometry_id.unwrap();

        let graphemes = split_graphemes(self.text.as_str());
        let ghost gs = graphemes_of(self.text@);
        let ghost base_shaders = cx.shaders@;
        let ghost base_geometries = cx.geometries@;

        let mut x: i64 = rect.pos.x;
        let mut y: i64 = rect.pos.y;

        let n = graphemes.len();
        let mut i: usize = 0;
        while i < n
            invariant
                i <= n == graphemes@.len(),
                graphemes@.map_values(|g: String| g@) == gs,
                gs.len() == n,
                self.shader_id == Some(shader_id),
                self.geometry_id == Some(geometry_id),
                font.texture == Some(texture),
                self.text == old(self).text,
                self.style == old(self).style,
                cx.windows == old(cx).windows,
                cx.passes == old(cx).passes,
                cx.textures == old(cx).textures,
                cx.areas == old(cx).areas,
                cx.gpu_info == old(cx).gpu_info,
                cx.debug == old(cx).debug,
                cx.shaders@ == base_shaders,
                cx.geometries@ == base_geometries,
                old(cx).wf() ==> cx.wf(),
                match old(cx).spec_draw_list(draw_list_id) {
                    Some(l) => {
                        let k = glyph_item_count(gs.subrange(0, i as int), font.glyphs@);
                        &&& cx.draw_lists@ == old(cx).draw_lists@.update(
                            draw_list_id.0 - 1,
                            cx.draw_lists@[draw_list_id.0 - 1],
                        )
                        &&& cx.draw_lists@[draw_list_id.0 - 1].draw_list_id == l.draw_list_id
                        &&& cx.draw_lists@[draw_list_id.0 - 1].view_transform == l.view_transform
                        &&& cx.draw_lists@[draw_list_id.0 - 1].draw_items@.len()
                            == l.draw_items@.len() + k
                        &&& cx.draw_lists@[draw_list_id.0 - 1].draw_items@.subrange(
                            0,
                            l.draw_items@.len() as int,
                        ) == l.draw_items@
                        &&& forall|j: int|
                            l.draw_items@.len() <= j < l.draw_items@.len() + k ==> is_text_item(
                                #[trigger] cx.draw_lists@[draw_list_id.0 - 1].draw_items@[j],
                                old(self).style.color,
                                old(self).style.font_size,
                                texture,
                                shader_id,
                                geometry_id,
                            )
                    },
                    None => cx.draw_lists@ == old(cx).draw_lists@,
                },
            decreases n - i,
        {
            proof {
                assert(gs.subrange(0, i + 1).drop_last() == gs.subrange(0, i as int));
                assert(gs.subrange(0, i + 1).last() == gs[i as int]);
                assert(graphemes@.map_values(|g: String| g@)[i as int] == graphemes@[i as int]@);
                lemma_glyph_item_count_bounds(gs.subrange(0, i as int), font.glyphs@);
            }
            let g = &graphemes[i];
            let g_len = g.as_str().unicode_len();
            if g_len == 1 && g.as_str().get_char(0) == '\n' {
                y = sat_add(y, scale_by_permille(self.style.font_size, self.style.line_height));
                x = rect.pos.x;
            } else {
                let c: char = if g_len > 0 {
                    g.as_str().get_char(0)
                } else {
                    ' '
                };
                match font.glyphs.get(&(c as u32)) {
                    Some(glyph) => {
                        let mut uniforms: Vec<DrawUniform> = Vec::new();
                        uniforms.push(DrawUniform::Vec4(self.style.color.to_vec4()));
                        uniforms.push(DrawUniform::Float(self.style.font_size));
                        let mut textures: Vec<Texture> = Vec::new();
                        textures.push(texture);
                        let draw_item = DrawItem {
                            shader_id,
                            geometry_id,
                            uniforms,
                            textures,
                            instance_count: 1,
                        };
                        cx.add_draw_item(draw_list_id, draw_item);
                        proof {
                            if old(cx).spec_draw_list(draw_list_id) is Some {
                                let l = old(cx).spec_draw_list(draw_list_id)->0;
                                let idx = draw_list_id.0 - 1;
                                assert(cx.draw_lists@[idx].draw_items@.subrange(
                                    0,
                                    l.draw_items@.len() as int,
                                ) =~= l.draw_items@);
                                assert(cx.draw_lists@ =~= old(cx).draw_lists@.update(
                                    idx,
                                    cx.draw_lists@[idx],
                                ));
                            }
                        }
                        x = sat_add(x, scale_em32(glyph.advance, self.style.font_size));
                    },
                    None => {
                        x = sat_add(x, half(self.style.font_size));
                    },
                }
            }
            i += 1;
        }
        proof {
            assert(gs.subrange(0, n as int) == gs);
        }
    }
}

const TEXT_VERTEX_SHADER: &'static str = "
#version 300 es
precision highp float;

in vec2 position;
in vec2 uv;

uniform float font_size;
uniform mat4 view_transform;

out vec2 v_uv;

void main() {
    v_uv = uv;
    gl_Position = view_transform * vec4(position * font_size, 0.0, 1.0);
}
";

const TEXT_FRAGMENT_SHADER: &'static str = "
#version 300 es
precision highp float;

in vec2 v_uv;

uniform vec4 color;
uniform sampler2D font_texture;

out vec4 frag_color;

void main() {
    float alpha = texture(font_texture, v_uv).r;
    frag_color = vec4(color.rgb, color.a * alpha);
}
";

} // verus!
