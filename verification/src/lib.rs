//! A small retained/immediate hybrid 2D UI toolkit: a resource arena that
//! mints opaque integer ids, an id-addressed draw-list renderer, a
//! stack-based layout engine, an area registry for hit-testing, and a
//! widget tree that produces ordered draw commands.
//!
//! All geometry is measured in whole units on an integer coordinate grid;
//! fractional factors (flex factors, line heights) are expressed in
//! thousandths. Arithmetic on coordinates saturates at the ends of the
//! `i64` range instead of wrapping or failing.

pub mod platform;
pub mod draw;
pub mod widgets;
