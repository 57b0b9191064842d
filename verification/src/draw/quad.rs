//! The quad drawer: a rounded, bordered rectangle submitted as one draw
//! item.  Its shader sources are opaque blobs; its unit-square vertex
//! data is serialized explicitly, little-endian, one 32-bit word per
//! lane.

use vstd::prelude::*;
use crate::draw::color::Color;
use crate::draw::rect::Rect;
use crate::platform::cx::Cx;
use crate::platform::draw_list::{DrawItem, DrawListId, DrawUniform};
use crate::platform::geometry::{Geometry, GeometryId, VertexFormat};
use crate::platform::math::Vec2;
use crate::platform::shader::{Shader, ShaderId, ShaderUniformType};

verus! {

/// The wire pattern of one vertex lane holding zero.
pub const LANE_ZERO: u32 = 0x0000_0000;

/// The wire pattern of one vertex lane holding one (the IEEE-754 single
/// pattern, as the GPU reads it).
pub const LANE_ONE: u32 = 0x3F80_0000;

/// The four little-endian bytes of one 32-bit word.
pub open spec fn word_le_bytes(v: u32) -> Seq<u8> {
    seq![
        (v & 0xFF) as u8,
        ((v >> 8) & 0xFF) as u8,
        ((v >> 16) & 0xFF) as u8,
        ((v >> 24) & 0xFF) as u8,
    ]
}

/// A word sequence serialized little-endian, word by word.
pub open spec fn words_le_bytes(vs: Seq<u32>) -> Seq<u8>
    decreases vs.len(),
{
    if vs.len() == 0 {
        Seq::empty()
    } else {
        words_le_bytes(vs.drop_last()) + word_le_bytes(vs.last())
    }
}

/// Serializes 32-bit words to bytes, little-endian, in order.
pub fn encode_words_le(values: &Vec<u32>) -> (r: Vec<u8>)
    ensures
        r@ == words_le_bytes(values@),
        r@.len() == 4 * values@.len(),
{
    let mut r: Vec<u8> = Vec::new();
    let n = values.len();
    let mut i: usize = 0;
    while i < n
        invariant
            i <= n == values@.len(),
            r@ == words_le_bytes(values@.subrange(0, i as int)),
            r@.len() == 4 * i,
        decreases n - i,
    {
        proof {
            assert(values@.subrange(0, i + 1).drop_last() == values@.subrange(0, i as int));
            assert(values@.subrange(0, i + 1).last() == values@[i as int]);
        }
        let v = values[i];
        r.push((v & 0xFF) as u8);
        r.push(((v >> 8) & 0xFF) as u8);
        r.push(((v >> 16) & 0xFF) as u8);
        r.push(((v >> 24) & 0xFF) as u8);
        proof {
            assert(r@ == words_le_bytes(values@.subrange(0, i as int)) + word_le_bytes(
                values@[i as int],
            ));
        }
        i += 1;
    }
    proof {
        assert(values@.subrange(0, n as int) == values@);
    }
    r
}

/// The unit-square vertex lanes: four vertices, each a position pair then
/// a texture-coordinate pair.
pub open spec fn quad_vertex_words() -> Seq<u32> {
    seq![
        LANE_ZERO, LANE_ZERO, LANE_ZERO, LANE_ZERO,
        LANE_ONE, LANE_ZERO, LANE_ONE, LANE_ZERO,
        LANE_ONE, LANE_ONE, LANE_ONE, LANE_ONE,
        LANE_ZERO, LANE_ONE, LANE_ZERO, LANE_ONE,
    ]
}

/// The two triangles of the unit square.
pub open spec fn quad_indices() -> Seq<u16> {
    seq![0u16, 1u16, 2u16, 0u16, 2u16, 3u16]
}

/// True of a shader record populated for quad drawing: the five quad
/// uniforms declared in order.  The source blobs are opaque.
pub open spec fn is_quad_shader(s: Shader) -> bool {
    &&& s.uniforms@.len() == 5
    &&& s.uniforms@[0].name@ == "color"@ && s.uniforms@[0].uniform_type == ShaderUniformType::Vec4
    &&& s.uniforms@[1].name@ == "border_color"@ && s.uniforms@[1].uniform_type
        == ShaderUniformType::Vec4
    &&& s.uniforms@[2].name@ == "border_width"@ && s.uniforms@[2].uniform_type
        == ShaderUniformType::Float
    &&& s.uniforms@[3].name@ == "corner_radius"@ && s.uniforms@[3].uniform_type
        == ShaderUniformType::Float
    &&& s.uniforms@[4].name@ == "size"@ && s.uniforms@[4].uniform_type == ShaderUniformType::Vec2
}

/// True of a geometry record populated with the unit square: the two
/// attributes, the serialized vertex lanes, and the six indices.
pub open spec fn is_quad_geometry(g: Geometry) -> bool {
    &&& g.vertex_attributes@.len() == 2
    &&& g.vertex_attributes@[0].name@ == "position"@ && g.vertex_attributes@[0].offset == 0
        && g.vertex_attributes@[0].format == VertexFormat::Float2
    &&& g.vertex_attributes@[1].name@ == "uv"@ && g.vertex_attributes@[1].offset == 8
        && g.vertex_attributes@[1].format == VertexFormat::Float2
    &&& g.vertices@ == words_le_bytes(quad_vertex_words())
    &&& g.indices@ == quad_indices()
}

/// A rounded, bordered rectangle drawer.  Extents are coordinates; the
/// shader and geometry ids are filled in lazily on the first draw.
#[derive(Clone, Copy, Debug)]
pub struct DrawQuad {
    pub color: Color,
    pub border_color: Color,
    pub border_width: i64,
    pub corner_radius: i64,
    pub shader_id: Option<ShaderId>,
    pub geometry_id: Option<GeometryId>,
}

/// True of the draw item one quad submission produces: the quad's colors
/// and extents inlined as uniforms, no textures, one instance.
pub open spec fn is_quad_item(
    item: DrawItem,
    q: DrawQuad,
    rect: Rect,
    shader_id: ShaderId,
    geometry_id: GeometryId,
) -> bool {
    &&& item.shader_id == shader_id
    &&& item.geometry_id == geometry_id
    &&& item.uniforms@.len() == 5
    &&& item.uniforms@[0] matches DrawUniform::Vec4(v) && v.x == q.color.r as i64 && v.y
        == q.color.g as i64 && v.z == q.color.b as i64 && v.w == q.color.a as i64
    &&& item.uniforms@[1] matches DrawUniform::Vec4(v) && v.x == q.border_color.r as i64 && v.y
        == q.border_color.g as i64 && v.z == q.border_color.b as i64 && v.w == q.border_color.a
        as i64
    &&& item.uniforms@[2] == DrawUniform::Float(q.border_width)
    &&& item.uniforms@[3] == DrawUniform::Float(q.corner_radius)
    &&& item.uniforms@[4] matches DrawUniform::Vec2(v) && v.x == rect.size.x && v.y == rect.size.y
    &&& item.textures@.len() == 0
    &&& item.instance_count == 1
}

impl Default for DrawQuad {
    /// The default drawer: a plain white quad with no border and square
    /// corners, not yet attached to arena resources.
    fn default() -> (r: Self)
        ensures
            r.spec_default(),
    {
        Self {
            color: Color::white(),
            border_color: Color::transparent(),
            border_width: 0,
            corner_radius: 0,
            shader_id: None,
            geometry_id: None,
        }
    }
}

impl DrawQuad {
    /// True of a drawer with the default look, before any arena resources
    /// are attached.
    pub open spec fn spec_default(self) -> bool {
        &&& self.color == (Color { r: 255, g: 255, b: 255, a: 255 })
        &&& self.border_color == (Color { r: 0, g: 0, b: 0, a: 0 })
        &&& self.border_width == 0
        &&& self.corner_radius == 0
        &&& self.shader_id is None
        &&& self.geometry_id is None
    }

    pub fn new() -> (r: Self)
        ensures
            r.spec_default(),
    {
        Self::default()
    }

    pub fn with_color(self, color: Color) -> (r: Self)
        ensures
            r == (DrawQuad { color, ..self }),
    {
        DrawQuad { color, ..self }
    }

    pub fn with_border_color(self, border_color: Color) -> (r: Self)
        ensures
            r == (DrawQuad { border_color, ..self }),
    {
        DrawQuad { border_color, ..self }
    }

    pub fn with_border_width(self, border_width: i64) -> (r: Self)
        ensures
            r == (DrawQuad { border_width, ..self }),
    {
        DrawQuad { border_width, ..self }
    }

    pub fn with_corner_radius(self, corner_radius: i64) -> (r: Self)
        ensures
            r == (DrawQuad { corner_radius, ..self }),
    {
        DrawQuad { corner_radius, ..self }
    }

    /// Creates the quad shader and geometry in the arena, once; further
    /// calls change nothing that is already attached.
    pub fn init(&mut self, cx: &mut Cx)
        requires
            old(cx).shaders@.len() < usize::MAX,
            old(cx).geometries@.len() < usize::MAX,
        ensures
            final(self).color == old(self).color,
            final(self).border_color == old(self).border_color,
            final(self).border_width == old(self).border_width,
            final(self).corner_radius == old(self).corner_radius,
            final(cx).windows == old(cx).windows,
            final(cx).passes == old(cx).passes,
            final(cx).draw_lists == old(cx).draw_lists,
            final(cx).textures == old(cx).textures,
            final(cx).areas == old(cx).areas,
            final(cx).gpu_info == old(cx).gpu_info,
            final(cx).debug == old(cx).debug,
            match old(self).shader_id {
                Some(id) => final(self).shader_id == Some(id) && final(cx).shaders@ == old(
                    cx,
                ).shaders@,
                None => {
                    &&& final(self).shader_id == Some(
                        ShaderId((old(cx).shaders@.len() + 1) as usize),
                    )
                    &&& final(cx).shaders@.len() == old(cx).shaders@.len() + 1
                    &&& final(cx).shaders@.subrange(0, old(cx).shaders@.len() as int) == old(
                        cx,
                    ).shaders@
                    &&& final(cx).shaders@.last().shader_id.0 == old(cx).shaders@.len() + 1
                    &&& is_quad_shader(final(cx).shaders@.last())
                },
            },
            match old(self).geometry_id {
                Some(id) => final(self).geometry_id == Some(id) && final(cx).geometries@ == old(
                    cx,
                ).geometries@,
                None => {
                    &&& final(self).geometry_id == Some(
                        GeometryId((old(cx).geometries@.len() + 1) as usize),
                    )
                    &&& final(cx).geometries@.len() == old(cx).geometries@.len() + 1
                    &&& final(cx).geometries@.subrange(0, old(cx).geometries@.len() as int) == old(
                        cx,
                    ).geometries@
                    &&& final(cx).geometries@.last().geometry_id.0 == old(cx).geometries@.len() + 1
                    &&& is_quad_geometry(final(cx).geometries@.last())
                },
            },
            old(cx).wf() ==> final(cx).wf(),
    {
        if self.shader_id.is_none() {
            let shader_id = cx.create_shader();
            let mut shader = Shader::new(shader_id);

            shader.set_vertex_shader(QUAD_VERTEX_SHADER);
            shader.set_fragment_shader(QUAD_FRAGMENT_SHADER);

            shader.add_uniform("color", ShaderUniformType::Vec4);
            shader.add_uniform("border_color", ShaderUniformType::Vec4);
            shader.add_uniform("border_width", ShaderUniformType::Float);
            shader.add_uniform("corner_radius", ShaderUniformType::Float);
            shader.add_uniform("size", ShaderUniformType::Vec2);

            cx.set_shader(shader_id, shader);
            self.shader_id = Some(shader_id);
        }
        if self.geometry_id.is_none() {
            let geometry_id = cx.create_geometry();
            let mut geometry = Geometry::new(geometry_id);

            geometry.add_vertex_attribute("position", 0, VertexFormat::Float2);
            geometry.add_vertex_attribute("uv", 8, VertexFormat::Float2);

            let mut lanes: Vec<u32> = Vec::new();
            lanes.push(LANE_ZERO);
            lanes.push(LANE_ZERO);
            lanes.push(LANE_ZERO);
            lanes.push(LANE_ZERO);
            lanes.push(LANE_ONE);
            lanes.push(LANE_ZERO);
            lanes.push(LANE_ONE);
            lanes.push(LANE_ZERO);
            lanes.push(LANE_ONE);
            lanes.push(LANE_ONE);
            lanes.push(LANE_ONE);
            lanes.push(LANE_ONE);
            lanes.push(LANE_ZERO);
            lanes.push(LANE_ONE);
            lanes.push(LANE_ZERO);
            lanes.push(LANE_ONE);
            proof {
                assert(lanes@ =~= quad_vertex_words());
            }
            geometry.set_vertices(encode_words_le(&lanes));

            let mut indices: Vec<u16> = Vec::new();
            indices.push(0);
            indices.push(1);
            indices.push(2);
            indices.push(0);
            indices.push(2);
            indices.push(3);
            proof {
                assert(indices@ =~= quad_indices());
            }
            geometry.set_indices(indices);

            cx.set_geometry(geometry_id, geometry);
            self.geometry_id = Some(geometry_id);
        }
    }

    /// Submits one quad covering `rect` to the given draw list, creating
    /// the shared shader and geometry first if needed.  A no-op on an
    /// unknown draw list, aside from that initialization.
    pub fn draw(&mut self, cx: &mut Cx, draw_list_id: DrawListId, rect: &Rect)
        requires
            old(cx).shaders@.len() < usize::MAX,
            old(cx).geometries@.len() < usize::MAX,
        ensures
            final(self).color == old(self).color,
            final(self).border_color == old(self).border_color,
            final(self).border_width == old(self).border_width,
            final(self).corner_radius == old(self).corner_radius,
            final(self).shader_id is Some,
            final(self).geometry_id is Some,
            old(self).shader_id is Some ==> final(self).shader_id == old(self).shader_id,
            old(self).geometry_id is Some ==> final(self).geometry_id == old(self).geometry_id,
            final(cx).windows == old(cx).windows,
            final(cx).passes == old(cx).passes,
            final(cx).textures == old(cx).textures,
            final(cx).areas == old(cx).areas,
            final(cx).gpu_info == old(cx).gpu_info,
            final(cx).debug == old(cx).debug,
            old(self).shader_id is Some ==> final(cx).shaders@ == old(cx).shaders@,
            old(self).geometry_id is Some ==> final(cx).geometries@ == old(cx).geometries@,
            old(self).shader_id is None ==> final(cx).shaders@.len() == old(cx).shaders@.len() + 1
                && final(cx).shaders@.subrange(0, old(cx).shaders@.len() as int) == old(
                cx,
            ).shaders@ && is_quad_shader(final(cx).shaders@.last()),
            old(self).geometry_id is None ==> final(cx).geometries@.len() == old(
                cx,
            ).geometries@.len() + 1 && final(cx).geometries@.subrange(
                0,
                old(cx).geometries@.len() as int,
            ) == old(cx).geometries@ && is_quad_geometry(final(cx).geometries@.last()),
            match old(cx).spec_draw_list(draw_list_id) {
                Some(l) => {
                    &&& final(cx).draw_lists@ == old(cx).draw_lists@.update(
                        draw_list_id.0 - 1,
                        final(cx).draw_lists@[draw_list_id.0 - 1],
                    )
                    &&& final(cx).draw_lists@[draw_list_id.0 - 1].draw_list_id == l.draw_list_id
                    &&& final(cx).draw_lists@[draw_list_id.0 - 1].view_transform
                        == l.view_transform
                    &&& final(cx).draw_lists@[draw_list_id.0 - 1].draw_items@.len()
                        == l.draw_items@.len() + 1
                    &&& final(cx).draw_lists@[draw_list_id.0 - 1].draw_items@.subrange(
                        0,
                        l.draw_items@.len() as int,
                    ) == l.draw_items@
                    &&& is_quad_item(
                        final(cx).draw_lists@[draw_list_id.0 - 1].draw_items@.last(),
                        *old(self),
                        *rect,
                        final(self).shader_id->0,
                        final(self).geometry_id->0,
                    )
                },
                None => final(cx).draw_lists@ == old(cx).draw_lists@,
            },
            old(cx).wf() ==> final(cx).wf(),
    {
        if self.shader_id.is_none() || self.geometry_id.is_none() {
            self.init(cx);
        }
        let shader_id = self.shader_id.unwrap();
        let geometry_id = self.geometry_id.unwrap();

        let mut uniforms: Vec<DrawUniform> = Vec::new();
        uniforms.push(DrawUniform::Vec4(self.color.to_vec4()));
        uniforms.push(DrawUniform::Vec4(self.border_color.to_vec4()));
        uniforms.push(DrawUniform::Float(self.border_width));
        uniforms.push(DrawUniform::Float(self.corner_radius));
        uniforms.push(DrawUniform::Vec2(Vec2::new(rect.width(), rect.height())));

        let draw_item = DrawItem {
            shader_id,
            geometry_id,
            uniforms,
            textures: Vec::new(),
            instance_count: 1,
        };
        cx.add_draw_item(draw_list_id, draw_item);
        proof {
            if old(cx).spec_draw_list(draw_list_id) is Some {
                let l = old(cx).spec_draw_list(draw_list_id)->0;
                assert(final(cx).draw_lists@[draw_list_id.0 - 1].draw_items@.subrange(
                    0,
                    l.draw_items@.len() as int,
                ) == l.draw_items@);
            }
        }
    }
}

const QUAD_VERTEX_SHADER: &'static str = "
#version 300 es
precision highp float;

in vec2 position;
in vec2 uv;

uniform vec2 size;
uniform mat4 view_transform;

out vec2 v_uv;
out vec2 v_size;

void main() {
    v_uv = uv;
    v_size = size;
    vec2 pos = position * size;
    gl_Position = view_transform * vec4(pos, 0.0, 1.0);
}
";

const QUAD_FRAGMENT_SHADER: &'static str = "
#version 300 es
precision highp float;

in vec2 v_uv;
in vec2 v_size;

uniform vec4 color;
uniform vec4 border_color;
uniform float border_width;
uniform float corner_radius;

out vec4 frag_color;

float rounded_box(vec2 p, vec2 b, float r) {
    return length(max(abs(p) - b + r, 0.0)) - r;
}

void main() {
    vec2 pos = v_uv * v_size;
    vec2 center = v_size * 0.5;
    vec2 p = pos - center;

    float box = rounded_box(p, center - border_width, corner_radius);
    float border = rounded_box(p, center, corner_radius);

    if (border_width > 0.0 && border <= 0.0 && box > 0.0) {
        frag_color = border_color;
    } else if (box <= 0.0) {
        frag_color = color;
    } else {
        discard;
    }
}
";

} // verus!
