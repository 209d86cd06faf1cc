use parking_lot::RwLock;
use std::sync::Arc;
use std::time::Duration;
use vstd::prelude::*;

use crate::clock::{elapsed_since, now};
use crate::config::{GuardConfig, Timeout};
use crate::error::GuardError;
use crate::lock::{acquire_read, acquire_write, held, held_mut, new_rwlock};
use crate::state::{share, State};
use crate::step::Step;

verus! {

/// How many times one call of `wait` looks at the cell before it gives up.
pub const POLL_BUDGET: u64 = u64::MAX;

/// A handle to a shared cell whose `wait` keeps the calling thread until the
/// cell is decided or the time budget of that call is spent. Handles cloned
/// from one guard share the cell.
#[verifier::reject_recursive_types(T)]
pub struct SyncGuard<T: Clone> {
    value: Arc<RwLock<State<T>>>,
    config: GuardConfig,
}

impl<T: Clone> SyncGuard<T> {
    /// The configuration this handle was built with.
    pub closed spec fn config(&self) -> GuardConfig {
        self.config
    }

    /// Whether two handles point at the same cell.
    pub closed spec fn shares_cell(&self, other: &Self) -> bool {
        self.value == other.value
    }

    /// A guard over a fresh, unset cell.
    pub fn new(config: GuardConfig) -> (guard: Self)
        ensures
            guard.config() == config,
    {
        SyncGuard { value: Arc::new(new_rwlock(State::UnSet)), config }
    }

    /// One look at the cell by an observer whose policy has no deadline.
    fn glance(&self) -> (step: Step<T>)
        ensures
            exists|state: State<T>| step == self.config().timeout.spec_settle(state),
    {
        let access = acquire_read(&self.value);
        let state = held(&access);
        let step = self.config.timeout.settle(state);
        proof {
            assert(step == self.config().timeout.spec_settle(*state));
        }
        step
    }

    /// One look at the cell by an observer that has waited `elapsed`.
    fn look(&self, elapsed: &Duration) -> (step: Step<T>)
        ensures
            exists|state: State<T>| step == self.config().timeout.spec_attempt(*elapsed, state),
    {
        let access = acquire_read(&self.value);
        let state = held(&access);
        let step = self.config.timeout.attempt(elapsed, state);
        proof {
            assert(step == self.config().timeout.spec_attempt(*elapsed, *state));
        }
        step
    }

    /// Waits for the cell to be decided, as far as the policy allows, and
    /// returns the published value or the reason there is none. An instant
    /// policy looks once; the others look again and again while the cell is
    /// unset, a bounded one only until the time since this call began has
    /// passed its bound.
    ///
    /// A call looks at most `POLL_BUDGET` times and then gives up with
    /// `Timeout`, even where the policy sets no time limit; no run gets that
    /// far.
    pub fn wait(&self) -> (answer: Result<Arc<T>, GuardError>)
        ensures
            answer == Err::<Arc<T>, GuardError>(GuardError::Timeout) || exists|
                elapsed: Duration,
                state: State<T>,
            | Step::Ready(answer) == self.config().timeout.spec_attempt(elapsed, state),
            answer matches Err(e) ==> e == GuardError::Timeout || e == GuardError::Killed,
    {
        let mut polls: u64 = POLL_BUDGET;
        match &self.config.timeout {
            Timeout::Duration(_) => {
                let started = now();
                while polls > 0
                    decreases polls,
                {
                    match self.look(&elapsed_since(&started)) {
                        Step::Ready(answer) => return answer,
                        Step::Retry => {},
                    }
                    polls = polls - 1;
                }
            },
            _ => {
                while polls > 0
                    invariant
                        !(self.config().timeout is Duration),
                    decreases polls,
                {
                    let step = self.glance();
                    proof {
                        let unused: Duration = arbitrary();
                        let state = choose|state: State<T>|
                            step == self.config().timeout.spec_settle(state);
                        assert(step == self.config().timeout.spec_attempt(unused, state));
                    }
                    match step {
                        Step::Ready(answer) => return answer,
                        Step::Retry => {},
                    }
                    polls = polls - 1;
                }
            },
        }
        Err(GuardError::Timeout)
    }

    /// Publishes `value` to every handle of the cell, replacing a value that
    /// is already there. Fails with `Killed`, changing nothing, where the
    /// cell has been killed.
    pub fn set(&mut self, value: T) -> (done: Result<(), GuardError>)
        ensures
            exists|found: State<T>| done == found.set_result(),
            done matches Err(e) ==> e == GuardError::Killed,
            final(self).config() == old(self).config(),
            final(self).shares_cell(old(self)),
    {
        let mut access = acquire_write(&self.value);
        let state = held_mut(&mut access);
        let ghost found = *state;
        let done = state.set(value);
        proof {
            assert(done == found.set_result());
        }
        done
    }

    /// Forecloses publication for every handle of the cell. Fails with
    /// `UnableToKilled`, changing nothing, where a value has already arrived.
    pub fn kill(&mut self) -> (done: Result<(), GuardError>)
        ensures
            exists|found: State<T>| done == found.kill_result(),
            done matches Err(e) ==> e == GuardError::UnableToKilled,
            final(self).config() == old(self).config(),
            final(self).shares_cell(old(self)),
    {
        let mut access = acquire_write(&self.value);
        let state = held_mut(&mut access);
        let ghost found = *state;
        let done = state.kill();
        proof {
            assert(done == found.kill_result());
        }
        done
    }

    /// Withdraws the published value, if there is one, and hands back an
    /// owned copy of it; the cell is then unset again. Never fails.
    pub fn reset(&mut self) -> (taken: Result<Option<T>, GuardError>)
        ensures
            taken matches Ok(copy) && exists|found: State<T>| found.reset_returns(copy),
            final(self).config() == old(self).config(),
            final(self).shares_cell(old(self)),
    {
        let mut access = acquire_write(&self.value);
        let state = held_mut(&mut access);
        let ghost found = *state;
        let copy = state.reset();
        proof {
            assert(found.reset_returns(copy));
        }
        Ok(copy)
    }
}

impl<T: Clone> Clone for SyncGuard<T> {
    /// Another handle to the same cell.
    fn clone(&self) -> (copy: Self)
        ensures
            copy.config() == self.config(),
            copy.shares_cell(self),
    {
        SyncGuard { value: share(&self.value), config: self.config.clone() }
    }
}

impl<T: Clone> Default for SyncGuard<T> {
    /// A guard over a fresh cell that waits without a time limit.
    fn default() -> (guard: Self)
        ensures
            guard.config().timeout is Infinite,
    {
        SyncGuard::new(GuardConfig::default())
    }
}

} // verus!
