//! A builder for shader records: collect the source blobs and uniform
//! declarations, then create the shader in the arena in one step.

use vstd::prelude::*;
use crate::platform::cx::Cx;
use crate::platform::shader::{Shader, ShaderId, ShaderUniformType};

verus! {

/// Collects a shader's two source blobs and its uniform declarations.
pub struct ShaderBuilder {
    vertex_shader: String,
    fragment_shader: String,
    uniforms: Vec<(String, ShaderUniformType)>,
}

impl ShaderBuilder {
    /// The uniform declarations collected so far, as name and type pairs.
    pub closed spec fn spec_uniforms(self) -> Seq<(Seq<char>, ShaderUniformType)> {
        self.uniforms@.map_values(|u: (String, ShaderUniformType)| (u.0@, u.1))
    }

    /// The vertex source collected so far.
    pub closed spec fn spec_vertex_shader(self) -> Seq<char> {
        self.vertex_shader@
    }

    /// The fragment source collected so far.
    pub closed spec fn spec_fragment_shader(self) -> Seq<char> {
        self.fragment_shader@
    }

    pub fn new() -> (r: Self)
        ensures
            r.spec_vertex_shader().len() == 0,
            r.spec_fragment_shader().len() == 0,
            r.spec_uniforms().len() == 0,
    {
        Self { vertex_shader: String::new(), fragment_shader: String::new(), uniforms: Vec::new() }
    }

    pub fn vertex_shader(self, source: &str) -> (r: Self)
        ensures
            r.spec_vertex_shader() == source@,
            r.spec_fragment_shader() == self.spec_fragment_shader(),
            r.spec_uniforms() == self.spec_uniforms(),
    {
        ShaderBuilder { vertex_shader: source.to_owned(), ..self }
    }

    pub fn fragment_shader(self, source: &str) -> (r: Self)
        ensures
            r.spec_fragment_shader() == source@,
            r.spec_vertex_shader() == self.spec_vertex_shader(),
            r.spec_uniforms() == self.spec_uniforms(),
    {
        ShaderBuilder { fragment_shader: source.to_owned(), ..self }
    }

    /// Appends one uniform declaration.
    pub fn uniform(self, name: &str, uniform_type: ShaderUniformType) -> (r: Self)
        ensures
            r.spec_vertex_shader() == self.spec_vertex_shader(),
            r.spec_fragment_shader() == self.spec_fragment_shader(),
            r.spec_uniforms() == self.spec_uniforms().push((name@, uniform_type)),
    {
        let mut uniforms = self.uniforms;
        uniforms.push((name.to_owned(), uniform_type));
        proof {
            assert(uniforms@.map_values(|u: (String, ShaderUniformType)| (u.0@, u.1))
                =~= self.spec_uniforms().push((name@, uniform_type)));
        }
        ShaderBuilder { uniforms, ..self }
    }

    /// Creates the next shader id in the arena and fills its record with
    /// everything collected.
    pub fn build(self, cx: &mut Cx) -> (r: ShaderId)
        requires
            old(cx).shaders@.len() < usize::MAX,
        ensures
            r.0 == old(cx).shaders@.len() + 1,
            r.0 >= 1,
            final(cx).shaders@.len() == r.0,
            final(cx).shaders@.subrange(0, old(cx).shaders@.len() as int) == old(cx).shaders@,
            final(cx).shaders@.last().shader_id == r,
            final(cx).shaders@.last().vertex_shader@ == self.spec_vertex_shader(),
            final(cx).shaders@.last().fragment_shader@ == self.spec_fragment_shader(),
            final(cx).shaders@.last().uniforms@.map_values(
                |u: crate::platform::shader::ShaderUniform| (u.name@, u.uniform_type),
            ) == self.spec_uniforms(),
            final(cx).windows == old(cx).windows,
            final(cx).passes == old(cx).passes,
            final(cx).draw_lists == old(cx).draw_lists,
            final(cx).textures == old(cx).textures,
            final(cx).geometries == old(cx).geometries,
            final(cx).areas == old(cx).areas,
            final(cx).gpu_info == old(cx).gpu_info,
            final(cx).debug == old(cx).debug,
            old(cx).wf() ==> final(cx).wf(),
    {
        let shader_id = cx.create_shader();
        let mut shader = Shader::new(shader_id);

        shader.set_vertex_shader(self.vertex_shader.as_str());
        shader.set_fragment_shader(self.fragment_shader.as_str());

        let n = self.uniforms.len();
        let mut i: usize = 0;
        while i < n
            invariant
                i <= n == self.uniforms@.len(),
                shader.shader_id == shader_id,
                shader.vertex_shader@ == self.spec_vertex_shader(),
                shader.fragment_shader@ == self.spec_fragment_shader(),
                shader.uniforms@.len() == i,
                forall|j: int|
                    0 <= j < i ==> (#[trigger] shader.uniforms@[j]).name@ == self.uniforms@[j].0@
                        && shader.uniforms@[j].uniform_type == self.uniforms@[j].1,
            decreases n - i,
        {
            let ghost prev_uniforms = shader.uniforms@;
            let pair = &self.uniforms[i];
            shader.add_uniform(pair.0.as_str(), pair.1);
            proof {
                assert(shader.uniforms@.subrange(0, i as int) == prev_uniforms);
                assert forall|j: int| 0 <= j < i implies (#[trigger] shader.uniforms@[j]).name@
                    == self.uniforms@[j].0@ && shader.uniforms@[j].uniform_type
                    == self.uniforms@[j].1 by {
                    assert(shader.uniforms@[j] == prev_uniforms[j]);
                }
            }
            i += 1;
        }

        cx.set_shader(shader_id, shader);
        proof {
            assert(final(cx).shaders@.last().uniforms@.map_values(
                |u: crate::platform::shader::ShaderUniform| (u.name@, u.uniform_type),
            ) =~= self.spec_uniforms());
        }
        shader_id
    }
}

} // verus!
