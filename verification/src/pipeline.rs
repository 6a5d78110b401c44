//! The place where a rendering backend attaches.

use vstd::prelude::*;

verus! {

/// A rendering pipeline without a backend.
pub struct Pipeline {}

impl Pipeline {
    pub fn new() -> Pipeline {
        Pipeline {  }
    }

    /// Draws one frame. No backend is attached, so nothing is drawn.
    pub fn draw(&self) {
    }
}

} // verus!
