//! The arena's diagnostic switch.  Writing the messages out is the
//! embedding program's concern; the core only keeps the switch.

use vstd::prelude::*;

verus! {

/// Whether diagnostic logging at the arena boundary is enabled.
#[derive(Clone, Debug)]
pub struct Debug {
    pub enabled: bool,
}

impl Debug {
    pub fn new() -> (r: Self)
        ensures
            !r.enabled,
    {
        Self { enabled: false }
    }
}

} // verus!
