//! Trusted bridge to `qutex`'s queue-backed exclusive lock.
//!
//! The lock guards a mailbox's state: any number of producers and the one
//! consumer acquire it in turn, and the state is only ever touched while a
//! guard is held.

use vstd::prelude::*;

use crate::context::ContextState;

verus! {

#[verifier::external_type_specification]
#[verifier::external_body]
#[verifier::reject_recursive_types(T)]
pub struct ExQutex<T>(qutex::Qutex<T>);

#[verifier::external_type_specification]
#[verifier::external_body]
#[verifier::reject_recursive_types(T)]
pub struct ExQutexGuard<T>(qutex::Guard<T>);

/// Relies on `qutex::Qutex::lock` on a cloned handle, driven to completion
/// by `qutex::FutureGuard::wait`: an exclusive guard on the shared mailbox
/// state, or `None` when the lock can no longer be acquired.
#[verifier::external_body]
pub(crate) fn lock_state(q: &qutex::Qutex<ContextState>) -> Option<qutex::Guard<ContextState>> {
    match q.clone().lock().wait() {
        Ok(guard) => Some(guard),
        Err(_) => None,
    }
}

/// Relies on `qutex::Guard`'s `DerefMut`: exclusive access to the guarded
/// mailbox state for as long as the guard lives.
#[verifier::external_body]
pub(crate) fn guard_state<'a>(guard: &'a mut qutex::Guard<ContextState>) -> &'a mut ContextState {
    &mut **guard
}

} // verus!
