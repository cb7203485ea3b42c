//! One interpreted model per production iteration, computed on demand under a
//! per-frame time budget.
//!
//! The manager owns the models and decides, between two computations of a
//! frame, whether another one is due; producing a model is the caller's work.
use vstd::prelude::*;

verus! {

/// The models of iterations `0 .. n` of one L-system, never empty.
pub struct LSystemManager<M> {
    /// Milliseconds that one frame may spend on further iterations; `None`
    /// for no limit.
    max_time_to_iterate: Option<u64>,
    max_target_iteration: u32,
    iterations: Vec<M>,
}

impl<M> LSystemManager<M> {
    /// At least iteration 0, and no index past the largest `u32`.
    pub closed spec fn well_formed(&self) -> bool {
        &&& self.iterations@.len() >= 1
        &&& self.iterations@.len() <= u32::MAX as int + 1
    }

    pub closed spec fn models(&self) -> Seq<M> {
        self.iterations@
    }

    pub closed spec fn target(&self) -> u32 {
        self.max_target_iteration
    }

    pub closed spec fn budget(&self) -> Option<u64> {
        self.max_time_to_iterate
    }

    /// A requested iteration has not been computed yet.
    pub open spec fn needs_iteration_spec(&self) -> bool {
        self.target() as int >= self.models().len()
    }

    /// Another iteration is due in this frame: one is still needed, and this
    /// is the frame's first or the frame is still within its budget.
    pub open spec fn should_iterate_spec(&self, computed_this_frame: u32, elapsed_ms: u64) -> bool {
        &&& self.needs_iteration_spec()
        &&& (computed_this_frame == 0 || match self.budget() {
            Some(budget) => elapsed_ms < budget,
            None => true,
        })
    }

    /// The iteration served for a request of `iteration`: that one when it is
    /// computed, else the latest computed.
    pub open spec fn served_spec(&self, iteration: u32) -> int {
        if (iteration as int) < self.models().len() {
            iteration as int
        } else {
            self.models().len() - 1
        }
    }

    /// A manager holding the model of iteration 0.
    pub fn new(first: M, max_time_to_iterate: Option<u64>) -> (r: Self)
        ensures
            r.well_formed(),
            r.models() == seq![first],
            r.target() == 0,
            r.budget() == max_time_to_iterate,
    {
        let mut iterations = Vec::new();
        iterations.push(first);
        LSystemManager { max_time_to_iterate, max_target_iteration: 0, iterations }
    }

    /// Raises the requested iteration to `max_iteration`; never lowers it.
    pub fn maybe_increase_max_iteration(&mut self, max_iteration: u32)
        ensures
            final(self).target() == if max_iteration > old(self).target() {
                max_iteration
            } else {
                old(self).target()
            },
            final(self).models() == old(self).models(),
            final(self).budget() == old(self).budget(),
    {
        if max_iteration > self.max_target_iteration {
            self.max_target_iteration = max_iteration;
        }
    }

    /// The requested iteration if it is computed, else the latest computed
    /// one, with the index of the model served.
    pub fn try_get_iteration(&self, iteration: u32) -> (r: (u32, &M))
        requires
            self.well_formed(),
        ensures
            r.0 as int == self.served_spec(iteration),
            *r.1 == self.models()[r.0 as int],
    {
        if (iteration as usize) < self.iterations.len() {
            (iteration, &self.iterations[iteration as usize])
        } else {
            let i = self.iterations.len() - 1;
            (i as u32, &self.iterations[i])
        }
    }

    pub fn needs_iteration(&self) -> (r: bool)
        ensures
            r == self.needs_iteration_spec(),
    {
        self.max_target_iteration as usize >= self.iterations.len()
    }

    /// Whether the frame's update should compute another iteration, after
    /// `computed_this_frame` of them and `elapsed_ms` since the frame began.
    pub fn should_iterate(&self, computed_this_frame: u32, elapsed_ms: u64) -> (r: bool)
        ensures
            r == self.should_iterate_spec(computed_this_frame, elapsed_ms),
    {
        if !self.needs_iteration() {
            return false;
        }
        if computed_this_frame == 0 {
            return true;
        }
        match self.max_time_to_iterate {
            Some(budget) => elapsed_ms < budget,
            None => true,
        }
    }

    /// Appends the model of the next iteration.
    pub fn push_iteration(&mut self, model: M)
        requires
            old(self).well_formed(),
            old(self).needs_iteration_spec(),
        ensures
            final(self).well_formed(),
            final(self).models() == old(self).models().push(model),
            final(self).target() == old(self).target(),
            final(self).budget() == old(self).budget(),
    {
        self.iterations.push(model);
    }

    /// The number of iterations computed.
    pub fn iteration_count(&self) -> (r: usize)
        ensures
            r == self.models().len(),
    {
        self.iterations.len()
    }

    pub fn max_target_iteration(&self) -> (r: u32)
        ensures
            r == self.target(),
    {
        self.max_target_iteration
    }

    /// All computed models, iteration 0 first.
    pub fn iterations(&self) -> (r: &Vec<M>)
        ensures
            r@ == self.models(),
    {
        &self.iterations
    }
}

/// With a budget of 0 ms a frame computes at most one iteration: once one is
/// computed, no other is due, whatever the time.
pub proof fn lemma_zero_budget_one_per_frame<M>(
    manager: LSystemManager<M>,
    computed_this_frame: u32,
    elapsed_ms: u64,
)
    requires
        manager.budget() == Some(0u64),
        computed_this_frame >= 1,
    ensures
        !manager.should_iterate_spec(computed_this_frame, elapsed_ms),
{
}

/// Without a budget a frame goes on until every requested iteration is
/// computed.
pub proof fn lemma_unbounded_budget_catches_up<M>(
    manager: LSystemManager<M>,
    computed_this_frame: u32,
    elapsed_ms: u64,
)
    requires
        manager.budget() is None,
    ensures
        manager.should_iterate_spec(computed_this_frame, elapsed_ms)
            == manager.needs_iteration_spec(),
{
}

} // verus!
