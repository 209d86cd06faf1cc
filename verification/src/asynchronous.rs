use parking_lot::{Mutex, RwLock};
use std::sync::Arc;
use std::time::{Duration, Instant};
use vstd::prelude::*;

use crate::clock::{elapsed_since, now};
use crate::config::{GuardConfig, Timeout};
use crate::error::GuardError;
use crate::lock::{acquire, acquire_read, acquire_write, held, held_mut, locked_mut, new_mutex, new_rwlock};
use crate::state::{share, State};
use crate::step::Step;

verus! {

/// The start of the countdown once `reading` has been offered to `marker`:
/// the start that is already fixed, or else the reading.
pub open spec fn anchored(marker: Option<Instant>, reading: Instant) -> Instant {
    match marker {
        Some(first) => first,
        None => reading,
    }
}

/// Fixes the start of the countdown: the first reading ever offered is kept,
/// and every later one is ignored. Returns the start that is in force.
pub fn anchor(marker: &mut Option<Instant>, reading: Instant) -> (start: Instant)
    ensures
        start == anchored(*old(marker), reading),
        *final(marker) == Some(start),
{
    match *marker {
        Some(first) => first,
        None => {
            *marker = Some(reading);
            reading
        },
    }
}

/// A handle to a shared cell that is observed one poll at a time, so that a
/// task scheduler can drive the waiting. All handles cloned from one guard
/// share the cell and one countdown.
#[verifier::reject_recursive_types(T)]
pub struct AsyncGuard<T: Clone> {
    value: Arc<RwLock<State<T>>>,
    config: GuardConfig,
    t0: Arc<Mutex<Option<Instant>>>,
}

impl<T: Clone> AsyncGuard<T> {
    /// The configuration this handle was built with.
    pub closed spec fn config(&self) -> GuardConfig {
        self.config
    }

    /// Whether two handles point at the same cell and the same countdown.
    pub closed spec fn shares_cell(&self, other: &Self) -> bool {
        self.value == other.value && self.t0 == other.t0
    }

    /// A guard over a fresh, unset cell whose countdown has not started.
    pub fn new(config: GuardConfig) -> (guard: Self)
        ensures
            guard.config() == config,
    {
        AsyncGuard {
            value: Arc::new(new_rwlock(State::UnSet)),
            config,
            t0: Arc::new(new_mutex(None)),
        }
    }

    /// Publishes `value` to every handle of the cell.
    pub fn set(&mut self, value: T) -> (done: Result<(), GuardError>)
        ensures
            exists|found: State<T>| done == found.set_result(),
            done matches Err(e) ==> e == GuardError::Killed,
            final(self).config() == old(self).config(),
            final(self).shares_cell(old(self)),
    {
        let mut access = acquire_write(&self.value);
        let state = held_mut(&mut access);
        let ghost found = *state;
        let done = state.set(value);
        proof {
            assert(done == found.set_result());
        }
        done
    }

    /// Forecloses publication for every handle of the cell.
    pub fn kill(&mut self) -> (done: Result<(), GuardError>)
        ensures
            exists|found: State<T>| done == found.kill_result(),
            done matches Err(e) ==> e == GuardError::UnableToKilled,
            final(self).config() == old(self).config(),
            final(self).shares_cell(old(self)),
    {
        let mut access = acquire_write(&self.value);
        let state = held_mut(&mut access);
        let ghost found = *state;
        let done = state.kill();
        proof {
            assert(done == found.kill_result());
        }
        done
    }

    /// Withdraws the published value, if there is one, and hands back an
    /// owned copy of it.
    pub fn reset(&mut self) -> (taken: Result<Option<T>, GuardError>)
        ensures
            taken matches Ok(copy) && exists|found: State<T>| found.reset_returns(copy),
            final(self).config() == old(self).config(),
            final(self).shares_cell(old(self)),
    {
        let mut access = acquire_write(&self.value);
        let state = held_mut(&mut access);
        let ghost found = *state;
        let copy = state.reset();
        proof {
            assert(found.reset_returns(copy));
        }
        Ok(copy)
    }

    /// The time since the shared countdown began, starting it if this is the
    /// first poll of the whole lineage.
    fn countdown(&self) -> (elapsed: Duration) {
        let mut access = acquire(&self.t0);
        let start = anchor(locked_mut(&mut access), now());
        elapsed_since(&start)
    }

    /// One poll of the cell. `Step::Retry` asks the caller to poll again
    /// soon; nothing else will wake it. Under a bounded policy the time is
    /// counted from the first poll that any handle of the cell ever made.
    pub fn poll(&self) -> (step: Step<T>)
        ensures
            exists|elapsed: Duration, state: State<T>|
                step == self.config().timeout.spec_attempt(elapsed, state),
            step matches Step::Ready(Err(e)) ==> e == GuardError::Timeout || e
                == GuardError::Killed,
            self.config().timeout is Instant ==> step is Ready,
            self.config().timeout is Infinite ==> step != Step::<T>::Ready(
                Err(GuardError::Timeout),
            ),
    {
        match &self.config.timeout {
            Timeout::Duration(_) => {
                let elapsed = self.countdown();
                let access = acquire_read(&self.value);
                let state = held(&access);
                let step = self.config.timeout.attempt(&elapsed, state);
                proof {
                    assert(step == self.config().timeout.spec_attempt(elapsed, *state));
                }
                step
            },
            _ => {
                let access = acquire_read(&self.value);
                let state = held(&access);
                let step = self.config.timeout.settle(state);
                proof {
                    let unused: Duration = arbitrary();
                    assert(step == self.config().timeout.spec_attempt(unused, *state));
                }
                step
            },
        }
    }
}

impl<T: Clone> Clone for AsyncGuard<T> {
    /// Another handle to the same cell and the same countdown.
    fn clone(&self) -> (copy: Self)
        ensures
            copy.config() == self.config(),
            copy.shares_cell(self),
    {
        AsyncGuard { value: share(&self.value), config: self.config.clone(), t0: share(&self.t0) }
    }
}

impl<T: Clone> Default for AsyncGuard<T> {
    /// A guard over a fresh cell that waits without a time limit.
    fn default() -> (guard: Self)
        ensures
            guard.config().timeout is Infinite,
    {
        AsyncGuard::new(GuardConfig::default())
    }
}

} // verus!
