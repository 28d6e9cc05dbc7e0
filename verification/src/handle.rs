//! Handles into the registry and the pair of handles that stands for one
//! simulated entity.

use vstd::prelude::*;

verus! {

/// A reference to a slot of an arena together with the generation in which
/// the slot was filled. A handle is a plain value: holding one proves
/// nothing, and only a lookup tells whether it still refers to anything.
#[derive(Clone, Copy, Debug, PartialEq, Eq, Hash, Structural)]
pub struct Handle {
    pub index: usize,
    pub generation: u64,
}

impl Handle {
    /// The handle of slot `index` in generation `generation`.
    pub fn new(index: usize, generation: u64) -> (handle: Handle)
        ensures
            handle == (Handle { index, generation }),
    {
        Handle { index, generation }
    }
}

/// What a presentation entity carries to name its simulated counterpart:
/// the handle of its body and the handle of the collider attached to it.
#[derive(Clone, Copy, Debug, PartialEq, Eq, Structural)]
pub struct Model {
    pub body_handle: Handle,
    pub collider_handle: Handle,
}

} // verus!
