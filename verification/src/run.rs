//! Runs of a step machine: what the laws about whole procedures speak of.

use vstd::prelude::*;

verus! {

/// A run from its first state: `events[i]` takes `states[i]` to `states[i + 1]`
/// and asks for `actions[i]`.
pub struct Run<S, E, A> {
    pub states: Seq<S>,
    pub events: Seq<E>,
    pub actions: Seq<A>,
}

impl<S, E, A> Run<S, E, A> {
    /// The three sequences fit together, and the run begins in `first`.
    pub open spec fn begins_in(self, first: S) -> bool {
        &&& self.states.len() == self.events.len() + 1
        &&& self.actions.len() == self.events.len()
        &&& self.states[0] == first
    }

    /// The `i`-th step of the run, as a step function returns it.
    pub open spec fn step(self, i: int) -> Option<(S, A)> {
        Some((self.states[i + 1], self.actions[i]))
    }

    pub open spec fn len(self) -> nat {
        self.events.len()
    }
}

} // verus!
