//! The arena's record of the GPU it talks to.

use vstd::prelude::*;

verus! {

/// What is known about the GPU; names are filled in by the backend.
#[derive(Clone, Debug)]
pub struct GpuInfo {
    pub name: String,
    pub vendor: String,
    pub version: String,
    pub max_texture_size: usize,
}

impl GpuInfo {
    pub fn new() -> (r: Self)
        ensures
            r.name@.len() == 0,
            r.vendor@.len() == 0,
            r.version@.len() == 0,
            r.max_texture_size == 4096,
    {
        Self {
            name: String::new(),
            vendor: String::new(),
            version: String::new(),
            max_texture_size: 4096,
        }
    }
}

} // verus!
