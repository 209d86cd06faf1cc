//! A guarded single-slot value cell.
//!
//! A cell starts unset, can be filled with one value at a time, can be
//! killed so that no value will ever come, and can be observed by any number
//! of handles under a timeout policy. `sync::SyncGuard` waits by keeping the
//! calling thread; `asynchronous::AsyncGuard` is polled one step at a time.
//!
//! The rules of the cell are proved on `state::State`, the meaning of one
//! observation under a policy on `config::Timeout` in `step`, and what
//! follows from both is stated in `laws`. The guards add the sharing: a lock
//! around the state, and the clock. What a guard finds under its lock
//! depends on the other handles, so a guard's contract says that its answer
//! is the one the rules give for some state of the cell.

pub mod asynchronous;
pub mod clock;
pub mod config;
pub mod error;
pub mod laws;
mod lock;
pub mod state;
pub mod step;
pub mod sync;

pub use config::{GuardConfig, Timeout};
