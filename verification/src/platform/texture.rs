//! Texture records.

use vstd::prelude::*;
use crate::platform::math::Vec2;

verus! {

/// An opaque handle to a texture; 0 is reserved for "empty/none".
#[derive(Clone, Copy, Debug, PartialEq, Eq, Hash, Structural)]
pub struct TextureId(pub usize);

/// The pixel format of a texture.
#[derive(Clone, Copy, Debug, PartialEq, Eq, Structural)]
pub enum TextureFormat {
    Rgba8,
    Bgra8,
    Rgb8,
    Bgr8,
    R8,
    Depth32,
}

/// The arena's record of one texture.
#[derive(Clone, Copy, Debug)]
pub struct Texture {
    pub texture_id: TextureId,
    pub width: usize,
    pub height: usize,
    pub format: TextureFormat,
}

impl Texture {
    pub fn new(texture_id: TextureId, width: usize, height: usize, format: TextureFormat) -> (r:
        Self)
        ensures
            r.texture_id == texture_id,
            r.width == width,
            r.height == height,
            r.format == format,
    {
        Self { texture_id, width, height, format }
    }

    /// The texture's extent as a point, each side clipped into the
    /// coordinate range.
    pub fn size(&self) -> (r: Vec2)
        ensures
            r.x as int == if self.width <= i64::MAX as int {
                self.width as int
            } else {
                i64::MAX as int
            },
            r.y as int == if self.height <= i64::MAX as int {
                self.height as int
            } else {
                i64::MAX as int
            },
    {
        let w = self.width as u64;
        let h = self.height as u64;
        let x = if w <= i64::MAX as u64 {
            w as i64
        } else {
            i64::MAX
        };
        let y = if h <= i64::MAX as u64 {
            h as i64
        } else {
            i64::MAX
        };
        Vec2::new(x, y)
    }
}

} // verus!
