//! Drawing layer: rectangles, the layout policy vocabulary, the turtle
//! layout engine, colors, and the per-widget draw-list helpers.

pub mod color;
pub mod cx_2d;
pub mod draw_list_2d;
pub mod layout;
pub mod quad;
pub mod rect;
pub mod shader;
pub mod text;
pub mod turtle;
