//! Platform-facing core: the resource arena, the resource records it owns,
//! the event vocabulary, and the backend contract.

pub mod area;
pub mod cx;
pub mod debug;
pub mod draw_list;
pub mod event;
pub mod geometry;
pub mod gpu_info;
pub mod math;
pub mod os;
pub mod pass;
pub mod shader;
pub mod texture;
pub mod window;
