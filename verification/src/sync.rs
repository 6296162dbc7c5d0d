//! A render target that several threads reach: the display behind a mutex,
//! behind a reference count.
//!
//! The lock is `parking_lot`'s. What this module says of it is believed, not
//! proved: Verus does not read the lock's code.

use parking_lot::Mutex;
use std::sync::Arc;
use vstd::prelude::*;

verus! {

/// `parking_lot::RawMutex`, the lock inside a `parking_lot::Mutex`. Nothing
/// is claimed of it.
#[verifier::external_type_specification]
#[verifier::external_body]
pub struct ExRawMutex(parking_lot::RawMutex);

/// `lock_api::Mutex`, which `parking_lot::Mutex` is an instance of. Nothing
/// is claimed of what it holds.
#[verifier::external_type_specification]
#[verifier::external_body]
#[verifier::reject_recursive_types(R)]
#[verifier::reject_recursive_types(T)]
pub struct ExMutex<R, T: ?Sized>(parking_lot::lock_api::Mutex<R, T>);

/// A render target shared between the engine's thread and others.
pub type SharedNativeDisplay<T> = Arc<Mutex<T>>;

/// Exclusive access to a shared display, held until this value is dropped.
///
/// It holds a `parking_lot::MutexGuard`. Nothing is claimed of it: it only
/// carries the guard from [`try_lock`] to [`locked_display`].
#[verifier::external_body]
#[verifier::reject_recursive_types(T)]
pub(crate) struct Locked<'a, T> {
    guard: parking_lot::MutexGuard<'a, T>,
}

/// `Mutex::try_lock`: takes the lock if it is free and returns at once if it
/// is not. Whether the lock is free depends on the other threads, so nothing
/// is claimed of the answer.
#[verifier::external_body]
pub(crate) fn try_lock<T>(display: &Mutex<T>) -> (lock: Option<Locked<'_, T>>) {
    display.try_lock().map(|guard| Locked { guard })
}

/// `DerefMut` of `MutexGuard`: the display that the lock protects. Nothing is
/// claimed of the display's value.
#[verifier::external_body]
pub(crate) fn locked_display<'a, 'b, T>(lock: &'a mut Locked<'b, T>) -> (display: &'a mut T) {
    &mut *lock.guard
}

/// `Arc::clone`: one more reference to the same mutex and display.
#[verifier::external_body]
pub(crate) fn share<T>(display: &SharedNativeDisplay<T>) -> (other: SharedNativeDisplay<T>)
    ensures
        other == *display,
{
    Arc::clone(display)
}

} // verus!
