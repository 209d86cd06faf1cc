use std::sync::Arc;
use std::time::{Duration, Instant};
use vstd::prelude::*;

use crate::asynchronous::anchored;
use crate::clock::duration_nanos;
use crate::config::Timeout;
use crate::error::GuardError;
use crate::state::{Change, State};
use crate::step::Step;

verus! {

/// A cell is in exactly one of its three states, whatever has been done to
/// it: no value of the type is two of them at once, or none.
pub proof fn law_state_exclusive<T>(state: State<T>)
    ensures
        state is UnSet || state is Value || state is Killed,
        !(state is UnSet && state is Value),
        !(state is UnSet && state is Killed),
        !(state is Value && state is Killed),
{
}

/// Every operation leaves the cell in one of the three states, and the
/// state it leaves depends only on the state it found and its argument.
pub proof fn law_transitions_closed<T>(state: State<T>, value: T)
    ensures
        state.after_set(value) is Value || state.after_set(value) is Killed,
        state.after_kill() is Value || state.after_kill() is Killed,
        state.after_reset() is UnSet || state.after_reset() is Killed,
{
}

/// Whatever history of changes a cell has been through, it is in exactly
/// one of the three states.
pub proof fn law_history_keeps_one_state<T>(start: State<T>, history: Seq<Change<T>>)
    ensures
        ({
            let now = start.after_all(history);
            (now is UnSet || now is Value || now is Killed) && !(now is UnSet && now is Value) && !(
            now is UnSet && now is Killed) && !(now is Value && now is Killed)
        }),
{
    law_state_exclusive(start.after_all(history));
}

/// A killed cell stays killed through every history of changes: no set
/// revives it and no reset clears it.
pub proof fn law_killed_is_final<T>(history: Seq<Change<T>>)
    ensures
        State::<T>::Killed.after_all(history) is Killed,
    decreases history.len(),
{
    if history.len() > 0 {
        law_killed_is_final(history.drop_last());
    }
}

/// A value that has arrived can be replaced or withdrawn, never killed: a
/// history without a reset leaves a cell that held a value holding one.
pub proof fn law_value_survives_without_reset<T>(start: State<T>, history: Seq<Change<T>>)
    requires
        start is Value,
        forall|i: int| 0 <= i < history.len() ==> !(#[trigger] history[i] is Withdraw),
    ensures
        start.after_all(history) is Value,
    decreases history.len(),
{
    if history.len() > 0 {
        law_value_survives_without_reset(start, history.drop_last());
    }
}

/// A kill that finds a value fails with `UnableToKilled` and leaves that
/// value in place; in every other state it succeeds and the cell is killed.
pub proof fn law_kill_after_value<T>(state: State<T>)
    ensures
        state is Value ==> state.kill_result() == Err::<(), GuardError>(
            GuardError::UnableToKilled,
        ) && state.after_kill() == state,
        !(state is Value) ==> state.kill_result() == Ok::<(), GuardError>(())
            && state.after_kill() is Killed,
{
}

/// A set that finds the cell killed fails with `Killed` and leaves it
/// killed; in every other state it succeeds and the cell holds the new value.
pub proof fn law_set_after_kill<T>(state: State<T>, value: T)
    ensures
        state is Killed ==> state.set_result() == Err::<(), GuardError>(GuardError::Killed)
            && state.after_set(value) is Killed,
        !(state is Killed) ==> state.set_result() == Ok::<(), GuardError>(())
            && state.after_set(value) == State::Value(Arc::new(value)),
{
}

/// The last writer wins: a second set replaces what the first one
/// published, with no trace of it.
pub proof fn law_last_writer_wins<T>(state: State<T>, first: T, second: T)
    ensures
        state.after_set(first).after_set(second) == state.after_set(second),
        state.after_set(first).set_result() == state.set_result(),
{
}

/// Killing is idempotent: a second kill answers as the first one did and
/// changes nothing more.
pub proof fn law_kill_is_idempotent<T>(state: State<T>)
    ensures
        state.after_kill().after_kill() == state.after_kill(),
        state.after_kill().kill_result() == state.kill_result(),
{
}

/// A reset that follows a successful set hands back a copy of the value
/// that was set and leaves the cell unset.
pub proof fn law_reset_round_trip<T: Clone>(state: State<T>, value: T, taken: Option<T>)
    requires
        !(state is Killed),
        state.after_set(value).reset_returns(taken),
    ensures
        taken matches Some(copy) && cloned::<T>(value, copy),
        state.after_set(value).after_reset() is UnSet,
{
}

/// A reset of an unset or killed cell hands back nothing and changes
/// nothing.
pub proof fn law_reset_without_value<T: Clone>(state: State<T>, taken: Option<T>)
    requires
        !(state is Value),
        state.reset_returns(taken),
    ensures
        taken is None,
        state.after_reset() == state,
{
}

/// An instant policy never asks for another look: an undecided cell is a
/// timeout at once, a decided one is reported as it is.
pub proof fn law_instant_never_waits<T>(elapsed: Duration, state: State<T>)
    ensures
        Timeout::Instant.spec_attempt(elapsed, state) is Ready,
        state is UnSet ==> Timeout::Instant.spec_attempt(elapsed, state) == Step::<T>::Ready(
            Err(GuardError::Timeout),
        ),
{
}

/// An unbounded policy never times out: it reports a decided cell and asks
/// for another look at an undecided one, however much time has passed.
pub proof fn law_infinite_never_expires<T>(elapsed: Duration, state: State<T>)
    ensures
        Timeout::Infinite.spec_attempt(elapsed, state) != Step::<T>::Ready(
            Err(GuardError::Timeout),
        ),
        state is UnSet <==> Timeout::Infinite.spec_attempt(elapsed, state) is Retry,
{
}

/// A bounded policy honours its deadline: past the bound an attempt is a
/// timeout whatever the cell holds, and up to the bound it is never one.
pub proof fn law_bounded_deadline<T>(limit: Duration, elapsed: Duration, state: State<T>)
    ensures
        duration_nanos(elapsed) > duration_nanos(limit) ==> Timeout::Duration(limit).spec_attempt(
            elapsed,
            state,
        ) == Step::<T>::Ready(Err(GuardError::Timeout)),
        duration_nanos(elapsed) <= duration_nanos(limit) ==> Timeout::Duration(limit).spec_attempt(
            elapsed,
            state,
        ) == match state {
            State::UnSet => Step::Retry,
            State::Value(held) => Step::Ready(Ok(held)),
            State::Killed => Step::Ready(Err(GuardError::Killed)),
        },
{
}

/// An observer is asked to look again only while the cell is unset, its
/// policy allows waiting, and its budget is not spent. In every other case
/// the attempt is final.
pub proof fn law_retry_only_while_undecided<T>(policy: Timeout, elapsed: Duration, state: State<T>)
    ensures
        policy.spec_attempt(elapsed, state) is Retry <==> state is UnSet && !(policy is Instant)
            && !policy.spec_expired(elapsed),
{
}

/// A value that is in the cell reaches every observer within its budget,
/// whatever the policy, as the very handle that the cell holds.
pub proof fn law_value_is_observed<T>(policy: Timeout, elapsed: Duration, held: Arc<T>)
    requires
        !policy.spec_expired(elapsed),
    ensures
        policy.spec_attempt(elapsed, State::Value(held)) == Step::Ready(
            Ok::<Arc<T>, GuardError>(held),
        ),
{
}

/// The shared countdown starts once: whatever marker the first reading met,
/// a later reading leaves the start where the first one put it.
pub proof fn law_countdown_starts_once(marker: Option<Instant>, first: Instant, later: Instant)
    ensures
        anchored(Some(anchored(marker, first)), later) == anchored(marker, first),
        marker is None ==> anchored(marker, first) == first,
{
}

/// A kill reaches every observer: whatever the policy, an attempt within
/// its budget that finds the cell killed ends with `Killed`.
pub proof fn law_kill_is_observed<T>(policy: Timeout, elapsed: Duration)
    requires
        !policy.spec_expired(elapsed),
    ensures
        policy.spec_attempt(elapsed, State::<T>::Killed) == Step::<T>::Ready(
            Err(GuardError::Killed),
        ),
{
}

} // verus!
