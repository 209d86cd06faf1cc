use std::sync::Arc;
use std::time::Duration;
use vstd::prelude::*;

use crate::config::Timeout;
use crate::error::GuardError;
use crate::state::State;

verus! {

/// What one look at the cell means to an observer.
pub enum Step<T> {
    /// The observation is over, with the value or with a failure.
    Ready(Result<Arc<T>, GuardError>),
    /// The cell is still undecided and the policy allows another look.
    Retry,
}

impl Timeout {
    /// What a look at `state` means under this policy, for an observer whose
    /// budget has not run out: a decided cell ends the observation, an
    /// undecided one ends it only where the policy forbids waiting.
    pub open spec fn spec_settle<T>(self, state: State<T>) -> Step<T> {
        match state.observed() {
            Some(answer) => Step::Ready(answer),
            None => match self {
                Timeout::Instant => Step::Ready(Err(GuardError::Timeout)),
                _ => Step::Retry,
            },
        }
    }

    /// What one whole attempt means: the budget is checked first, and only
    /// an observer within its budget looks at the cell.
    pub open spec fn spec_attempt<T>(self, elapsed: Duration, state: State<T>) -> Step<T> {
        if self.spec_expired(elapsed) {
            Step::Ready(Err(GuardError::Timeout))
        } else {
            self.spec_settle(state)
        }
    }

    /// Decides what a look at `state` means under this policy.
    pub fn settle<T>(&self, state: &State<T>) -> (step: Step<T>)
        ensures
            step == self.spec_settle(*state),
    {
        match state.observe() {
            Some(answer) => Step::Ready(answer),
            None => match self {
                Timeout::Instant => Step::Ready(Err(GuardError::Timeout)),
                _ => Step::Retry,
            },
        }
    }

    /// Decides what one whole attempt means, for an observer that has waited
    /// `elapsed` and finds the cell in `state`.
    pub fn attempt<T>(&self, elapsed: &Duration, state: &State<T>) -> (step: Step<T>)
        ensures
            step == self.spec_attempt(*elapsed, *state),
    {
        if self.expired(elapsed) {
            Step::Ready(Err(GuardError::Timeout))
        } else {
            self.settle(state)
        }
    }
}

} // verus!
