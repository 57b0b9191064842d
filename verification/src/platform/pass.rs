//! Pass records: render-target units tying a draw list to a window or to
//! another pass.

use vstd::prelude::*;
use crate::platform::draw_list::DrawListId;
use crate::platform::math::Vec4;
use crate::platform::texture::Texture;
use crate::platform::window::WindowId;

verus! {

/// An opaque handle to a pass; 0 is reserved for "empty/none".
#[derive(Clone, Copy, Debug, PartialEq, Eq, Hash, Structural)]
pub struct PassId(pub usize);

/// What a pass renders into: nothing, a window, or another pass.
#[derive(Clone, Copy, Debug, PartialEq, Eq, Structural)]
pub enum PassParent {
    NoParent,
    Window(WindowId),
    Pass(PassId),
}

/// A clear color, one byte per channel.
#[derive(Clone, Copy, Debug, PartialEq, Eq, Structural)]
pub struct PassClearColor {
    pub r: u8,
    pub g: u8,
    pub b: u8,
    pub a: u8,
}

impl PassClearColor {
    pub fn new(r: u8, g: u8, b: u8, a: u8) -> (c: Self)
        ensures
            c.r == r && c.g == g && c.b == b && c.a == a,
    {
        Self { r, g, b, a }
    }

    pub fn to_vec4(&self) -> (v: Vec4)
        ensures
            v.x == self.r as i64 && v.y == self.g as i64 && v.z == self.b as i64 && v.w == self.a
                as i64,
    {
        Vec4::new(self.r as i64, self.g as i64, self.b as i64, self.a as i64)
    }
}

/// A clear depth, in thousandths.
#[derive(Clone, Copy, Debug, PartialEq, Eq, Structural)]
pub struct PassClearDepth {
    pub depth: i64,
}

impl PassClearDepth {
    pub fn new(depth: i64) -> (c: Self)
        ensures
            c.depth == depth,
    {
        Self { depth }
    }
}

/// The arena's record of one pass.  The z-bias step is in thousandths.
#[derive(Clone, Debug)]
pub struct Pass {
    pub pass_id: PassId,
    pub parent: PassParent,
    pub main_draw_list_id: Option<DrawListId>,
    pub clear_color: Option<PassClearColor>,
    pub clear_depth: Option<PassClearDepth>,
    pub color_texture: Option<Texture>,
    pub depth_texture: Option<Texture>,
    pub dpi_factor: Option<i64>,
    pub zbias_step: i64,
}

impl Pass {
    pub fn new(pass_id: PassId) -> (r: Self)
        ensures
            r.pass_id == pass_id,
            r.parent == PassParent::NoParent,
            r.main_draw_list_id is None,
            r.clear_color is None,
            r.clear_depth is None,
            r.color_texture is None,
            r.depth_texture is None,
            r.dpi_factor is None,
            r.zbias_step == 1,
    {
        Self {
            pass_id,
            parent: PassParent::NoParent,
            main_draw_list_id: None,
            clear_color: None,
            clear_depth: None,
            color_texture: None,
            depth_texture: None,
            dpi_factor: None,
            zbias_step: 1,
        }
    }

    pub fn set_window_parent(&mut self, window_id: WindowId)
        ensures
            *final(self) == (Pass { parent: PassParent::Window(window_id), ..*old(self) }),
    {
        self.parent = PassParent::Window(window_id);
    }

    pub fn set_pass_parent(&mut self, pass_id: PassId)
        ensures
            *final(self) == (Pass { parent: PassParent::Pass(pass_id), ..*old(self) }),
    {
        self.parent = PassParent::Pass(pass_id);
    }

    pub fn set_main_draw_list(&mut self, draw_list_id: DrawListId)
        ensures
            *final(self) == (Pass { main_draw_list_id: Some(draw_list_id), ..*old(self) }),
    {
        self.main_draw_list_id = Some(draw_list_id);
    }

    pub fn set_clear_color(&mut self, clear_color: PassClearColor)
        ensures
            *final(self) == (Pass { clear_color: Some(clear_color), ..*old(self) }),
    {
        self.clear_color = Some(clear_color);
    }

    pub fn set_clear_depth(&mut self, clear_depth: PassClearDepth)
        ensures
            *final(self) == (Pass { clear_depth: Some(clear_depth), ..*old(self) }),
    {
        self.clear_depth = Some(clear_depth);
    }

    pub fn set_color_texture(&mut self, texture: Texture)
        ensures
            *final(self) == (Pass { color_texture: Some(texture), ..*old(self) }),
    {
        self.color_texture = Some(texture);
    }

    pub fn set_depth_texture(&mut self, texture: Texture)
        ensures
            *final(self) == (Pass { depth_texture: Some(texture), ..*old(self) }),
    {
        self.depth_texture = Some(texture);
    }

    pub fn set_dpi_factor(&mut self, dpi_factor: i64)
        ensures
            *final(self) == (Pass { dpi_factor: Some(dpi_factor), ..*old(self) }),
    {
        self.dpi_factor = Some(dpi_factor);
    }
}

} // verus!
