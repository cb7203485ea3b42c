//! What reacts to a change of the drawing surface's size.
use vstd::prelude::*;

verus! {

/// A value that depends on the size of the drawing surface.
pub trait Resize {
    fn resize(&mut self, width: u32, height: u32);
}

} // verus!
