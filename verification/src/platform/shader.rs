//! Shader records: source blobs and their uniform declarations.

use vstd::prelude::*;

verus! {

/// An opaque handle to a shader; 0 is reserved for "empty/none".
#[derive(Clone, Copy, Debug, PartialEq, Eq, Hash, Structural)]
pub struct ShaderId(pub usize);

/// The type of one shader uniform.
#[derive(Clone, Copy, Debug, PartialEq, Eq, Structural)]
pub enum ShaderUniformType {
    Float,
    Vec2,
    Vec3,
    Vec4,
    Mat4,
    Texture2D,
}

/// One named uniform declaration.
#[derive(Clone, Debug)]
pub struct ShaderUniform {
    pub name: String,
    pub uniform_type: ShaderUniformType,
}

/// The arena's record of one shader: two opaque source blobs and the
/// uniforms they declare.
#[derive(Clone, Debug)]
pub struct Shader {
    pub shader_id: ShaderId,
    pub vertex_shader: String,
    pub fragment_shader: String,
    pub uniforms: Vec<ShaderUniform>,
}

impl Shader {
    pub fn new(shader_id: ShaderId) -> (r: Self)
        ensures
            r.shader_id == shader_id,
            r.vertex_shader@.len() == 0,
            r.fragment_shader@.len() == 0,
            r.uniforms@.len() == 0,
    {
        Self {
            shader_id,
            vertex_shader: String::new(),
            fragment_shader: String::new(),
            uniforms: Vec::new(),
        }
    }

    pub fn set_vertex_shader(&mut self, vertex_shader: &str)
        ensures
            final(self).vertex_shader@ == vertex_shader@,
            final(self).shader_id == old(self).shader_id,
            final(self).fragment_shader == old(self).fragment_shader,
            final(self).uniforms == old(self).uniforms,
    {
        self.vertex_shader = vertex_shader.to_owned();
    }

    pub fn set_fragment_shader(&mut self, fragment_shader: &str)
        ensures
            final(self).fragment_shader@ == fragment_shader@,
            final(self).shader_id == old(self).shader_id,
            final(self).vertex_shader == old(self).vertex_shader,
            final(self).uniforms == old(self).uniforms,
    {
        self.fragment_shader = fragment_shader.to_owned();
    }

    /// Appends one named uniform declaration.
    pub fn add_uniform(&mut self, name: &str, uniform_type: ShaderUniformType)
        ensures
            final(self).shader_id == old(self).shader_id,
            final(self).vertex_shader == old(self).vertex_shader,
            final(self).fragment_shader == old(self).fragment_shader,
            final(self).uniforms@.len() == old(self).uniforms@.len() + 1,
            final(self).uniforms@.subrange(0, old(self).uniforms@.len() as int) == old(
                self,
            ).uniforms@,
            final(self).uniforms@.last().name@ == name@,
            final(self).uniforms@.last().uniform_type == uniform_type,
    {
        self.uniforms.push(ShaderUniform { name: name.to_owned(), uniform_type });
        proof {
            assert(final(self).uniforms@.subrange(0, old(self).uniforms@.len() as int) == old(
                self,
            ).uniforms@);
        }
    }
}

} // verus!
