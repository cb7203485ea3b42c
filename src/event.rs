//! Events that the user interface sends to the renderer.
use vstd::prelude::*;

verus! {

/// A request to show iteration `iteration` of the object `object_name`.
#[derive(Clone, Debug)]
pub struct IterationEvent {
    object_name: String,
    iteration: u32,
}

impl IterationEvent {
    pub closed spec fn object_name_spec(&self) -> Seq<char> {
        self.object_name@
    }

    pub closed spec fn iteration_spec(&self) -> u32 {
        self.iteration
    }

    pub fn new(object_name: String, iteration: u32) -> (r: Self)
        ensures
            r.object_name_spec() == object_name@,
            r.iteration_spec() == iteration,
    {
        IterationEvent { object_name, iteration }
    }

    pub fn object_name(&self) -> (r: &str)
        ensures
            r@ == self.object_name_spec(),
    {
        self.object_name.as_str()
    }

    pub fn iteration(&self) -> (r: u32)
        ensures
            r == self.iteration_spec(),
    {
        self.iteration
    }
}

/// An event about one L-system object.
#[derive(Clone, Debug)]
pub enum LSystemEvent {
    Iteration(IterationEvent),
}

} // verus!
