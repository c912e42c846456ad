//! The outcome tracker: a mapping from step identity to the last observed
//! outcome. A later record for the same identity overwrites an earlier one
//! (last write wins); a lookup for an identity never recorded defaults to
//! [`StepState::NotRun`].

use vstd::prelude::*;
use std::collections::HashMap;

verus! {

broadcast use vstd::std_specs::hash::group_hash_axioms;

/// The outcome of a step as it stands in the report: `NotRun` covers a step
/// never executed, skipped, or belonging to an outline template (templates
/// are never executed directly — only their expansions are).
#[derive(Clone, Copy, Debug, PartialEq, Eq, Structural)]
pub enum StepState {
    Passed,
    Failed,
    NotRun,
}

/// Maps a step identity to its tracked outcome, defaulting to `NotRun` for
/// an identity never recorded.
pub open spec fn spec_lookup(m: Map<u64, StepState>, id: u64) -> StepState {
    if m.contains_key(id) {
        m[id]
    } else {
        StepState::NotRun
    }
}

/// The set of step outcomes observed so far, keyed by step identity.
pub struct OutcomeTracker {
    states: HashMap<u64, StepState>,
}

impl View for OutcomeTracker {
    type V = Map<u64, StepState>;

    closed spec fn view(&self) -> Map<u64, StepState> {
        self.states@
    }
}

impl OutcomeTracker {
    /// An empty tracker: no identity has an outcome yet.
    pub fn new() -> (r: Self)
        ensures
            r@ == Map::<u64, StepState>::empty(),
    {
        OutcomeTracker { states: HashMap::new() }
    }

    /// Records `state` as the outcome of the step with identity `id`,
    /// overwriting any earlier outcome for the same identity.
    pub fn record(&mut self, id: u64, state: StepState)
        ensures
            final(self)@ == old(self)@.insert(id, state),
    {
        self.states.insert(id, state);
    }

    /// Looks up the outcome tracked for identity `id`; an identity never
    /// recorded yields `NotRun`.
    pub fn lookup(&self, id: u64) -> (r: StepState)
        ensures
            r == spec_lookup(self@, id),
    {
        match self.states.get(&id) {
            Option::Some(st) => *st,
            Option::None => StepState::NotRun,
        }
    }
}

} // verus!
