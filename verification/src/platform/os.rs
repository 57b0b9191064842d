//! The backend contract: what the platform collaborator must provide.
//! Implementations live outside the core; nothing is assumed of them
//! beyond their signatures.

use vstd::prelude::*;
use crate::platform::event::Event;
use crate::platform::window::WindowId;

verus! {

/// The minimal backend surface the frame loop consumes: set up, create a
/// native window, poll a finite batch of events, present a frame, tear
/// down.
pub trait OsBackend {
    fn init(&mut self);

    fn create_window(&mut self, title: &str, width: u32, height: u32) -> WindowId;

    fn process_events(&mut self) -> Vec<Event>;

    fn render(&mut self);

    fn shutdown(&mut self);
}

} // verus!
