//! The application entry trait: what the frame loop hands each event to.
//! The loop itself (backend polling, presenting, sleeping) lives in the
//! embedding program.

use vstd::prelude::*;
use crate::platform::cx::Cx;
use crate::platform::event::Event;

verus! {

/// An application: one handler invoked synchronously for every event of
/// every tick, including the per-tick `Draw` events.
pub trait AppMain {
    fn handle_event(&mut self, cx: &mut Cx, event: &Event);
}

} // verus!
