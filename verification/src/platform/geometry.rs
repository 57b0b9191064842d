//! Geometry records: vertex buffers, index buffers, and vertex attributes.

use vstd::prelude::*;

verus! {

/// An opaque handle to a geometry; 0 is reserved for "empty/none".
#[derive(Clone, Copy, Debug, PartialEq, Eq, Hash, Structural)]
pub struct GeometryId(pub usize);

/// The wire format of one vertex attribute.
#[derive(Clone, Copy, Debug, PartialEq, Eq, Structural)]
pub enum VertexFormat {
    Float1,
    Float2,
    Float3,
    Float4,
    Byte4,
    UByte4,
    Short2,
    UShort2,
    Short4,
    UShort4,
}

impl VertexFormat {
    /// The size of one attribute of this format, in bytes.
    pub open spec fn spec_size(self) -> usize {
        match self {
            VertexFormat::Float1 => 4usize,
            VertexFormat::Float2 => 8usize,
            VertexFormat::Float3 => 12usize,
            VertexFormat::Float4 => 16usize,
            VertexFormat::Byte4 => 4usize,
            VertexFormat::UByte4 => 4usize,
            VertexFormat::Short2 => 4usize,
            VertexFormat::UShort2 => 4usize,
            VertexFormat::Short4 => 8usize,
            VertexFormat::UShort4 => 8usize,
        }
    }

    pub fn size(&self) -> (r: usize)
        ensures
            r == self.spec_size(),
    {
        match self {
            VertexFormat::Float1 => 4,
            VertexFormat::Float2 => 8,
            VertexFormat::Float3 => 12,
            VertexFormat::Float4 => 16,
            VertexFormat::Byte4 => 4,
            VertexFormat::UByte4 => 4,
            VertexFormat::Short2 => 4,
            VertexFormat::UShort2 => 4,
            VertexFormat::Short4 => 8,
            VertexFormat::UShort4 => 8,
        }
    }
}

/// One named vertex attribute at a byte offset.
#[derive(Clone, Debug)]
pub struct VertexAttribute {
    pub name: String,
    pub offset: usize,
    pub format: VertexFormat,
}

/// The arena's record of one geometry.
#[derive(Clone, Debug)]
pub struct Geometry {
    pub geometry_id: GeometryId,
    pub vertices: Vec<u8>,
    pub indices: Vec<u16>,
    pub vertex_attributes: Vec<VertexAttribute>,
}

impl Geometry {
    pub fn new(geometry_id: GeometryId) -> (r: Self)
        ensures
            r.geometry_id == geometry_id,
            r.vertices@.len() == 0,
            r.indices@.len() == 0,
            r.vertex_attributes@.len() == 0,
    {
        Self { geometry_id, vertices: Vec::new(), indices: Vec::new(), vertex_attributes: Vec::new() }
    }

    /// Appends one named attribute to the attribute list.
    pub fn add_vertex_attribute(&mut self, name: &str, offset: usize, format: VertexFormat)
        ensures
            final(self).geometry_id == old(self).geometry_id,
            final(self).vertices == old(self).vertices,
            final(self).indices == old(self).indices,
            final(self).vertex_attributes@.len() == old(self).vertex_attributes@.len() + 1,
            final(self).vertex_attributes@.subrange(0, old(self).vertex_attributes@.len() as int)
                == old(self).vertex_attributes@,
            final(self).vertex_attributes@.last().name@ == name@,
            final(self).vertex_attributes@.last().offset == offset,
            final(self).vertex_attributes@.last().format == format,
    {
        self.vertex_attributes.push(VertexAttribute { name: name.to_owned(), offset, format });
        proof {
            assert(final(self).vertex_attributes@.subrange(
                0,
                old(self).vertex_attributes@.len() as int,
            ) == old(self).vertex_attributes@);
        }
    }

    pub fn set_vertices(&mut self, vertices: Vec<u8>)
        ensures
            final(self).vertices == vertices,
            final(self).geometry_id == old(self).geometry_id,
            final(self).indices == old(self).indices,
            final(self).vertex_attributes == old(self).vertex_attributes,
    {
        self.vertices = vertices;
    }

    pub fn set_indices(&mut self, indices: Vec<u16>)
        ensures
            final(self).indices == indices,
            final(self).geometry_id == old(self).geometry_id,
            final(self).vertices == old(self).vertices,
            final(self).vertex_attributes == old(self).vertex_attributes,
    {
        self.indices = indices;
    }
}

} // verus!
