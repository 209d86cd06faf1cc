//! The locks that keep the shared parts of a guard consistent.
//!
//! Nothing here is proved: each function makes one call into `parking_lot`
//! and says what that call is relied on for. What a lock holds when it is
//! acquired is whatever the last holder left there, so no function here
//! claims anything of the protected value; the rules of the cell are proved
//! on the value itself, in `state`.
//!
//! The guard types of `lock_api` are bounded by its raw-lock traits, which
//! the verifier knows nothing of, so each guard is kept in a struct whose
//! inside the verifier does not read.
//!
//! Acquiring a lock that the calling thread already holds never returns.
//! The crate keeps every access inside the function that acquired it, and
//! no function acquires the same lock twice, so that cannot happen.

use parking_lot::lock_api;
use parking_lot::{Mutex, MutexGuard, RawMutex, RawRwLock, RwLock, RwLockReadGuard, RwLockWriteGuard};
use vstd::prelude::*;

verus! {

#[verifier::external_type_specification]
#[verifier::external_body]
pub struct ExRawRwLock(RawRwLock);

#[verifier::external_type_specification]
#[verifier::external_body]
#[verifier::reject_recursive_types(R)]
#[verifier::reject_recursive_types(T)]
pub struct ExRwLock<R, T: ?Sized>(lock_api::RwLock<R, T>);

#[verifier::external_type_specification]
#[verifier::external_body]
pub struct ExRawMutex(RawMutex);

#[verifier::external_type_specification]
#[verifier::external_body]
#[verifier::reject_recursive_types(R)]
#[verifier::reject_recursive_types(T)]
pub struct ExMutex<R, T: ?Sized>(lock_api::Mutex<R, T>);

/// A read guard of `parking_lot`: shared access to what a reader-writer lock
/// protects, for as long as this value lives.
#[verifier::external_body]
#[verifier::reject_recursive_types(V)]
pub(crate) struct ReadAccess<'a, V> {
    guard: RwLockReadGuard<'a, V>,
}

/// A write guard of `parking_lot`: exclusive access to what a reader-writer
/// lock protects, for as long as this value lives.
#[verifier::external_body]
#[verifier::reject_recursive_types(V)]
pub(crate) struct WriteAccess<'a, V> {
    guard: RwLockWriteGuard<'a, V>,
}

/// A mutex guard of `parking_lot`: exclusive access to what a mutex
/// protects, for as long as this value lives.
#[verifier::external_body]
#[verifier::reject_recursive_types(V)]
pub(crate) struct MutexAccess<'a, V> {
    guard: MutexGuard<'a, V>,
}

/// `RwLock::new`: a fresh, unlocked lock around `value`.
#[verifier::external_body]
pub(crate) fn new_rwlock<V>(value: V) -> (lock: RwLock<V>) {
    RwLock::new(value)
}

/// `RwLock::read`: blocks until no writer holds the lock, then grants shared
/// access until the result is dropped. What the lock holds at that moment
/// is whatever its other users left there, so nothing is claimed of it.
#[verifier::external_body]
pub(crate) fn acquire_read<'a, V>(lock: &'a RwLock<V>) -> (access: ReadAccess<'a, V>) {
    ReadAccess { guard: lock.read() }
}

/// `RwLock::write`: blocks until nobody else holds the lock, then grants
/// exclusive access until the result is dropped. Nothing is claimed of what
/// the lock holds at that moment.
#[verifier::external_body]
pub(crate) fn acquire_write<'a, V>(lock: &'a RwLock<V>) -> (access: WriteAccess<'a, V>) {
    WriteAccess { guard: lock.write() }
}

/// `Deref::deref` of a read guard: the value that the lock protects.
#[verifier::external_body]
pub(crate) fn held<'g, 'a, V>(access: &'g ReadAccess<'a, V>) -> (value: &'g V) {
    &*access.guard
}

/// `DerefMut::deref_mut` of a write guard: the value that the lock protects,
/// open to change.
#[verifier::external_body]
pub(crate) fn held_mut<'g, 'a, V>(access: &'g mut WriteAccess<'a, V>) -> (value: &'g mut V) {
    &mut *access.guard
}

/// `Mutex::new`: a fresh, unlocked mutex around `value`.
#[verifier::external_body]
pub(crate) fn new_mutex<V>(value: V) -> (mutex: Mutex<V>) {
    Mutex::new(value)
}

/// `Mutex::lock`: blocks until the mutex is free, then grants exclusive
/// access until the result is dropped. Nothing is claimed of what the mutex
/// holds at that moment.
#[verifier::external_body]
pub(crate) fn acquire<'a, V>(mutex: &'a Mutex<V>) -> (access: MutexAccess<'a, V>) {
    MutexAccess { guard: mutex.lock() }
}

/// `DerefMut::deref_mut` of a mutex guard: the value that the mutex
/// protects, open to change.
#[verifier::external_body]
pub(crate) fn locked_mut<'g, 'a, V>(access: &'g mut MutexAccess<'a, V>) -> (value: &'g mut V) {
    &mut *access.guard
}

} // verus!
