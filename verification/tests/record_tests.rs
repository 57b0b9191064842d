//! Resource record tests: default-valued records, setters, the shader
//! builder, and the handle helpers.

use mix::draw::shader::ShaderBuilder;
use mix::platform::area::Area;
use mix::platform::cx::Cx;
use mix::platform::geometry::{Geometry, GeometryId, VertexFormat};
use mix::platform::gpu_info::GpuInfo;
use mix::platform::math::{Mat4, Vec2, Vec3, Vec4};
use mix::platform::pass::{Pass, PassClearColor, PassClearDepth, PassId, PassParent};
use mix::platform::shader::ShaderUniformType;
use mix::platform::texture::{Texture, TextureFormat, TextureId};
use mix::platform::window::WindowId;

#[test]
fn area_handles() {
    assert!(Area::empty().is_empty());
    assert_eq!(Area::empty().0, 0);
    assert!(!Area(3).is_empty());
}

#[test]
fn window_records_start_with_defaults() {
    let mut cx = Cx::new();
    let wid = cx.create_window("anything", 1024, 768);
    let handle = &cx.windows[wid.0 - 1];
    assert_eq!(handle.window_id, wid);
    assert_eq!(handle.title, "mix Window");
    assert_eq!(handle.inner_size, Vec2::new(800, 600));
    assert_eq!(handle.dpi_factor, 1000);
    assert!(!handle.is_fullscreen);
}

#[test]
fn pass_records_and_setters() {
    let mut p = Pass::new(PassId(7));
    assert_eq!(p.pass_id, PassId(7));
    assert_eq!(p.parent, PassParent::NoParent);
    assert!(p.main_draw_list_id.is_none());
    assert_eq!(p.zbias_step, 1);

    p.set_window_parent(WindowId(2));
    assert_eq!(p.parent, PassParent::Window(WindowId(2)));
    p.set_pass_parent(PassId(3));
    assert_eq!(p.parent, PassParent::Pass(PassId(3)));
    p.set_clear_depth(PassClearDepth::new(1000));
    assert_eq!(p.clear_depth, Some(PassClearDepth::new(1000)));
    p.set_dpi_factor(2000);
    assert_eq!(p.dpi_factor, Some(2000));

    let c = PassClearColor::new(1, 2, 3, 4);
    let v = c.to_vec4();
    assert_eq!((v.x, v.y, v.z, v.w), (1, 2, 3, 4));
}

#[test]
fn texture_size_is_clipped() {
    let t = Texture::new(TextureId(1), 640, 480, TextureFormat::Bgra8);
    let s = t.size();
    assert_eq!((s.x, s.y), (640, 480));
    let huge = Texture::new(TextureId(2), usize::MAX, 1, TextureFormat::R8);
    assert_eq!(huge.size().x, i64::MAX);
}

#[test]
fn vertex_formats_have_wire_sizes() {
    assert_eq!(VertexFormat::Float1.size(), 4);
    assert_eq!(VertexFormat::Float2.size(), 8);
    assert_eq!(VertexFormat::Float3.size(), 12);
    assert_eq!(VertexFormat::Float4.size(), 16);
    assert_eq!(VertexFormat::Byte4.size(), 4);
    assert_eq!(VertexFormat::UShort4.size(), 8);
}

#[test]
fn geometry_setters() {
    let mut g = Geometry::new(GeometryId(1));
    g.add_vertex_attribute("position", 0, VertexFormat::Float2);
    g.add_vertex_attribute("uv", 8, VertexFormat::Float2);
    g.set_vertices(vec![1, 2, 3]);
    g.set_indices(vec![0, 1, 2]);
    assert_eq!(g.vertex_attributes.len(), 2);
    assert_eq!(g.vertex_attributes[1].name, "uv");
    assert_eq!(g.vertex_attributes[1].offset, 8);
    assert_eq!(g.vertices, vec![1, 2, 3]);
    assert_eq!(g.indices, vec![0, 1, 2]);
}

#[test]
fn shader_builder_fills_one_record() {
    let mut cx = Cx::new();
    let id = ShaderBuilder::new()
        .vertex_shader("vs source")
        .fragment_shader("fs source")
        .uniform("color", ShaderUniformType::Vec4)
        .uniform("size", ShaderUniformType::Vec2)
        .build(&mut cx);
    assert_eq!(id.0, 1);
    let record = &cx.shaders[0];
    assert_eq!(record.shader_id, id);
    assert_eq!(record.vertex_shader, "vs source");
    assert_eq!(record.fragment_shader, "fs source");
    assert_eq!(record.uniforms.len(), 2);
    assert_eq!(record.uniforms[0].name, "color");
    assert_eq!(record.uniforms[0].uniform_type, ShaderUniformType::Vec4);
    assert_eq!(record.uniforms[1].name, "size");
}

#[test]
fn gpu_info_defaults() {
    let info = GpuInfo::new();
    assert_eq!(info.max_texture_size, 4096);
    assert!(info.name.is_empty());
}

#[test]
fn math_vectors() {
    assert_eq!(Vec2::zero(), Vec2::new(0, 0));
    assert_eq!(Vec2::one(), Vec2::new(1, 1));
    let v3 = Vec3::new(1, 2, 3);
    assert_eq!((v3.x, v3.y, v3.z), (1, 2, 3));
    assert_eq!(Vec3::zero().z, 0);
    assert_eq!(Vec3::one().y, 1);
    let v4 = Vec4::new(1, 2, 3, 4);
    assert_eq!(v4.w, 4);
    assert_eq!(Vec4::zero().x, 0);
    assert_eq!(Vec4::one().w, 1);
}

#[test]
fn mat4_from_entries() {
    let mut entries = vec![0i64; 16];
    entries[3] = 9;
    let m = Mat4::new(entries.clone());
    assert_eq!(m.m, entries);
}
