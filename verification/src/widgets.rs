//! The widget tree: polymorphic nodes that consume the turtle and the
//! draw lists during a draw pass and the event stream during an event
//! pass.

pub mod app;
pub mod button;
pub mod label;
pub mod theme;
pub mod view;
pub mod widget;
pub mod window;
