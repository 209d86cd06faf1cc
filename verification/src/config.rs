use std::time::Duration;
use vstd::prelude::*;

use crate::clock::{duration_nanos, nanos_of};

verus! {

/// How long an observer is willing to wait for the cell to be decided.
pub enum Timeout {
    /// No waiting: the cell must already be decided.
    Instant,
    /// Wait up to the given duration from a reference start.
    Duration(Duration),
    /// Wait until the cell is decided, however long that takes.
    Infinite,
}

impl Timeout {
    /// Whether an observer that has waited `elapsed` is past its budget.
    /// Only a bounded policy ever expires, and only once the elapsed time
    /// strictly exceeds the bound.
    pub open spec fn spec_expired(self, elapsed: Duration) -> bool {
        match self {
            Timeout::Duration(limit) => duration_nanos(elapsed) > duration_nanos(limit),
            _ => false,
        }
    }

    /// Decides whether `elapsed` is past this policy's budget.
    pub fn expired(&self, elapsed: &Duration) -> (past: bool)
        ensures
            past == self.spec_expired(*elapsed),
    {
        match self {
            Timeout::Duration(limit) => nanos_of(elapsed) > nanos_of(limit),
            _ => false,
        }
    }
}

impl Clone for Timeout {
    fn clone(&self) -> (copy: Self)
        ensures
            copy == *self,
    {
        match self {
            Timeout::Instant => Timeout::Instant,
            Timeout::Duration(limit) => Timeout::Duration(*limit),
            Timeout::Infinite => Timeout::Infinite,
        }
    }
}

/// The settings a guard is built with.
pub struct GuardConfig {
    pub timeout: Timeout,
}

impl Clone for GuardConfig {
    fn clone(&self) -> (copy: Self)
        ensures
            copy == *self,
    {
        GuardConfig { timeout: self.timeout.clone() }
    }
}

impl Default for GuardConfig {
    /// The default configuration waits without a time limit.
    fn default() -> (config: Self)
        ensures
            config.timeout == Timeout::Infinite,
    {
        GuardConfig { timeout: Timeout::Infinite }
    }
}

} // verus!
