//! Area handles: opaque ids that the arena maps to hit-test rectangles.

use vstd::prelude::*;

verus! {

/// An opaque handle to an area record; 0 is reserved for "empty/none".
#[derive(Clone, Copy, Debug, PartialEq, Eq, Hash, Structural)]
pub struct Area(pub usize);

impl Area {
    /// The reserved empty handle, which no arena ever assigns.
    pub fn empty() -> (r: Self)
        ensures
            r.0 == 0,
    {
        Self(0)
    }

    pub fn is_empty(&self) -> (r: bool)
        ensures
            r == (self.0 == 0),
    {
        self.0 == 0
    }
}

} // verus!
