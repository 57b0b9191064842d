//! Draw lists: ordered, per-widget command buffers referencing resources
//! by id.

use vstd::prelude::*;
use crate::platform::geometry::GeometryId;
use crate::platform::math::{Mat4, Vec2, Vec3, Vec4};
use crate::platform::shader::ShaderId;
use crate::platform::texture::Texture;

verus! {

/// An opaque handle to a draw list; 0 is reserved for "empty/none".
#[derive(Clone, Copy, Debug, PartialEq, Eq, Hash, Structural)]
pub struct DrawListId(pub usize);

/// One inlined uniform value.
#[derive(Clone, Debug)]
pub enum DrawUniform {
    Float(i64),
    Vec2(Vec2),
    Vec3(Vec3),
    Vec4(Vec4),
    Mat4(Mat4),
}

/// One GPU-facing submission unit.
#[derive(Clone, Debug)]
pub struct DrawItem {
    pub shader_id: ShaderId,
    pub geometry_id: GeometryId,
    pub uniforms: Vec<DrawUniform>,
    pub textures: Vec<Texture>,
    pub instance_count: u32,
}

/// An ordered command buffer.  Submission order is append order; the view
/// transform applies to the list as a whole, not per item.
#[derive(Clone, Debug)]
pub struct DrawList {
    pub draw_list_id: DrawListId,
    pub draw_items: Vec<DrawItem>,
    pub view_transform: Mat4,
}

impl DrawList {
    pub fn new(draw_list_id: DrawListId) -> (r: Self)
        ensures
            r.draw_list_id == draw_list_id,
            r.draw_items@.len() == 0,
            r.view_transform.is_identity(),
    {
        Self { draw_list_id, draw_items: Vec::new(), view_transform: Mat4::identity() }
    }

    /// Appends one item; appended order is the rendering submission order.
    pub fn add_draw_item(&mut self, draw_item: DrawItem)
        ensures
            final(self).draw_list_id == old(self).draw_list_id,
            final(self).view_transform == old(self).view_transform,
            final(self).draw_items@ == old(self).draw_items@.push(draw_item),
    {
        self.draw_items.push(draw_item);
    }

    /// Empties the item sequence; the id and the view transform persist.
    pub fn clear(&mut self)
        ensures
            final(self).draw_list_id == old(self).draw_list_id,
            final(self).view_transform == old(self).view_transform,
            final(self).draw_items@.len() == 0,
    {
        self.draw_items.clear();
    }

    pub fn set_view_transform(&mut self, view_transform: Mat4)
        ensures
            final(self).draw_list_id == old(self).draw_list_id,
            final(self).draw_items == old(self).draw_items,
            final(self).view_transform == view_transform,
    {
        self.view_transform = view_transform;
    }
}

} // verus!
