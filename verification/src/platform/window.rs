//! Window handles and geometry records.

use vstd::prelude::*;
use crate::platform::math::Vec2;

verus! {

/// An opaque handle to a window; 0 is reserved for "empty/none".
#[derive(Clone, Copy, Debug, PartialEq, Eq, Hash, Structural)]
pub struct WindowId(pub usize);

/// The arena's record of one window.  Scale factors are in thousandths.
#[derive(Clone, Debug)]
pub struct WindowHandle {
    pub window_id: WindowId,
    pub position: Vec2,
    pub inner_size: Vec2,
    pub outer_size: Vec2,
    pub dpi_factor: i64,
    pub title: String,
    pub is_fullscreen: bool,
    pub is_topmost: bool,
}

impl WindowHandle {
    /// A fresh record with the default geometry: an 800 by 600 window at
    /// the origin, scale factor one.
    pub fn new(window_id: WindowId) -> (r: Self)
        ensures
            r.window_id == window_id,
            r.position.x == 0 && r.position.y == 0,
            r.inner_size.x == 800 && r.inner_size.y == 600,
            r.outer_size.x == 800 && r.outer_size.y == 600,
            r.dpi_factor == 1000,
            r.title@ == "mix Window"@,
            !r.is_fullscreen,
            !r.is_topmost,
    {
        Self {
            window_id,
            position: Vec2::zero(),
            inner_size: Vec2::new(800, 600),
            outer_size: Vec2::new(800, 600),
            dpi_factor: 1000,
            title: "mix Window".to_owned(),
            is_fullscreen: false,
            is_topmost: false,
        }
    }
}

/// A window's geometry as the backend reports it.
#[derive(Clone, Debug)]
pub struct WindowGeom {
    pub position: Vec2,
    pub inner_size: Vec2,
    pub outer_size: Vec2,
    pub dpi_factor: i64,
}

} // verus!
