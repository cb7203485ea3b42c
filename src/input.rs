//! Per-frame input bookkeeping.
use vstd::prelude::*;

verus! {

/// The number of a rendered frame.
#[derive(Clone, Copy, Debug)]
pub struct Frame {
    number: u32,
}

impl Frame {
    pub closed spec fn number_spec(&self) -> u32 {
        self.number
    }

    /// The frame after this one.
    pub fn next(&self) -> (r: Self)
        requires
            self.number_spec() < u32::MAX,
        ensures
            r.number_spec() == self.number_spec() + 1,
    {
        Self { number: self.number + 1 }
    }

    pub fn number(&self) -> (r: u32)
        ensures
            r == self.number_spec(),
    {
        self.number
    }
}

impl Default for Frame {
    /// Frame 0.
    fn default() -> (r: Self)
        ensures
            r.number_spec() == 0,
    {
        Self { number: 0 }
    }
}

/// The window events gathered since the last frame. It keeps no event yet,
/// so draining hands out an empty snapshot.
#[derive(Clone, Copy, Debug)]
pub struct EventBuffer {}

impl EventBuffer {
    pub fn new() -> (r: Self) {
        EventBuffer {}
    }

    /// A snapshot of the buffer as it was.
    pub fn drain(&mut self) -> (r: Self)
        ensures
            r == *old(self),
            *final(self) == *old(self),
    {
        *self
    }
}

} // verus!
