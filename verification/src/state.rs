use std::sync::Arc;
use vstd::prelude::*;

use crate::error::GuardError;

verus! {

/// The tri-state slot that every handle of a guard shares.
pub enum State<T> {
    /// Nothing has been published, or what was published has been withdrawn.
    UnSet,
    /// One value, held behind a shared read-only handle.
    Value(Arc<T>),
    /// No value will be published.
    Killed,
}

/// One change that a holder of a guard can ask of the cell.
pub enum Change<T> {
    /// Publish a value.
    Publish(T),
    /// Foreclose publication.
    Foreclose,
    /// Withdraw what was published.
    Withdraw,
}

/// `Arc::clone`: another handle to the same allocation, so the value behind
/// the new handle is the value behind `handle`.
#[verifier::external_body]
pub(crate) fn share<T>(handle: &Arc<T>) -> (other: Arc<T>)
    ensures
        other == *handle,
{
    Arc::clone(handle)
}

impl<T> State<T> {
    /// The state that `set(value)` leaves behind.
    pub open spec fn after_set(self, value: T) -> Self {
        match self {
            State::Killed => State::Killed,
            _ => State::Value(Arc::new(value)),
        }
    }

    /// What `set` answers in this state.
    pub open spec fn set_result(self) -> Result<(), GuardError> {
        match self {
            State::Killed => Err(GuardError::Killed),
            _ => Ok(()),
        }
    }

    /// The state that `kill()` leaves behind.
    pub open spec fn after_kill(self) -> Self {
        match self {
            State::Value(held) => State::Value(held),
            _ => State::Killed,
        }
    }

    /// What `kill` answers in this state.
    pub open spec fn kill_result(self) -> Result<(), GuardError> {
        match self {
            State::Value(_) => Err(GuardError::UnableToKilled),
            _ => Ok(()),
        }
    }

    /// The state that `reset()` leaves behind.
    pub open spec fn after_reset(self) -> Self {
        match self {
            State::Value(_) => State::UnSet,
            other => other,
        }
    }

    /// The state after one change.
    pub open spec fn after(self, change: Change<T>) -> Self {
        match change {
            Change::Publish(value) => self.after_set(value),
            Change::Foreclose => self.after_kill(),
            Change::Withdraw => self.after_reset(),
        }
    }

    /// The state after a history of changes, applied one at a time from the
    /// first to the last. Changes made under the exclusive lock happen in
    /// some such order, whichever handles and threads asked for them.
    pub open spec fn after_all(self, history: Seq<Change<T>>) -> Self
        decreases history.len(),
    {
        if history.len() == 0 {
            self
        } else {
            self.after_all(history.drop_last()).after(history.last())
        }
    }

    /// What an observer learns from this state: the value, the kill, or
    /// nothing yet.
    pub open spec fn observed(self) -> Option<Result<Arc<T>, GuardError>> {
        match self {
            State::UnSet => None,
            State::Value(held) => Some(Ok(held)),
            State::Killed => Some(Err(GuardError::Killed)),
        }
    }

    /// Publishes `value`, replacing a value that is already there. A killed
    /// cell refuses and stays killed.
    pub fn set(&mut self, value: T) -> (done: Result<(), GuardError>)
        ensures
            done == old(self).set_result(),
            *final(self) == old(self).after_set(value),
    {
        match self {
            State::Killed => Err(GuardError::Killed),
            _ => {
                *self = State::Value(Arc::new(value));
                Ok(())
            },
        }
    }

    /// Marks the cell as killed. A cell that holds a value refuses and keeps
    /// it; killing a killed cell succeeds again.
    pub fn kill(&mut self) -> (done: Result<(), GuardError>)
        ensures
            done == old(self).kill_result(),
            *final(self) == old(self).after_kill(),
    {
        match self {
            State::Value(_) => Err(GuardError::UnableToKilled),
            _ => {
                *self = State::Killed;
                Ok(())
            },
        }
    }

    /// Reads the state without changing it.
    pub fn observe(&self) -> (seen: Option<Result<Arc<T>, GuardError>>)
        ensures
            seen == self.observed(),
    {
        match self {
            State::UnSet => None,
            State::Value(held) => Some(Ok(share(held))),
            State::Killed => Some(Err(GuardError::Killed)),
        }
    }
}

impl<T: Clone> State<T> {
    /// Whether `taken` is what `reset` may hand back in this state: an owned
    /// copy of the held value, or nothing where no value is held.
    pub open spec fn reset_returns(self, taken: Option<T>) -> bool {
        match self {
            State::Value(held) => taken matches Some(copy) && cloned::<T>(*held, copy),
            _ => taken is None,
        }
    }

    /// Withdraws the held value, handing back an owned copy of it and leaving
    /// the cell unset. An unset or killed cell is left as it is.
    pub fn reset(&mut self) -> (taken: Option<T>)
        ensures
            old(self).reset_returns(taken),
            *final(self) == old(self).after_reset(),
    {
        match self {
            State::Value(held) => {
                let copy: T = (**held).clone();
                *self = State::UnSet;
                Some(copy)
            },
            _ => None,
        }
    }
}

impl<T> Default for State<T> {
    /// A fresh cell is unset.
    fn default() -> (state: Self)
        ensures
            state is UnSet,
    {
        State::UnSet
    }
}

} // verus!
