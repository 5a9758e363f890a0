//! The lifecycle store: the lifecycle record behind a mutual-exclusion lock.
//!
//! Every operation on the store takes the lock, works on the record and
//! releases the lock before it returns. Taking the lock can fail, when an
//! earlier holder panicked; that failure is kept apart from "the record is
//! empty" everywhere.
//!
//! What an operation does once the lock has been asked for is a function of
//! its own, which takes the outcome of the lock as an argument. The store
//! only takes the lock and calls that function.

use crate::access::get_service_handle_status;
use crate::access::get_willhook_status;
use crate::access::reached_mut;
use crate::access::Presence;
use crate::control::control_result;
use crate::control::is_handled;
use crate::control::service_control;
use crate::control::ControlRequest;
use crate::control::ControlResult;
use crate::lifecycle::LifecycleState;
use crate::lifecycle::LifecycleView;
use crate::service::advance;
use crate::service::next_phase;
use crate::service::ServiceEvent;
use crate::service::ServicePhase;
use std::sync::Mutex;
use std::sync::MutexGuard;
use vstd::prelude::*;

verus! {

/// `std::sync::Mutex`, as an opaque type: nothing of what it protects is
/// visible through a reference to it.
#[verifier::external_type_specification]
#[verifier::external_body]
#[verifier::reject_recursive_types(T)]
pub struct ExMutex<T: ?Sized>(Mutex<T>);

/// `std::sync::MutexGuard`, as an opaque type: the lock is held while the
/// guard lives and released when it is dropped.
#[verifier::external_type_specification]
#[verifier::external_body]
#[verifier::reject_recursive_types(T)]
pub struct ExMutexGuard<'a, T: ?Sized + 'a>(MutexGuard<'a, T>);

/// `std::sync::Mutex::new`: a fresh, unlocked mutex around `value`. Nothing is
/// claimed of the result.
#[verifier::external_body]
fn new_mutex<T>(value: T) -> Mutex<T> {
    Mutex::new(value)
}

/// `std::sync::Mutex::lock`: blocks until the lock is held and returns the
/// guard, or `None` when the mutex is poisoned. Which of the two comes back
/// depends on what other threads did, so nothing is claimed of the result.
///
/// The calling thread must not already hold a guard of `mutex`: every
/// function of this module takes at most one guard and drops it before it
/// returns, and no guard ever leaves the module.
#[verifier::external_body]
fn lock<'a, T>(mutex: &'a Mutex<T>) -> Option<MutexGuard<'a, T>> {
    match mutex.lock() {
        Ok(guard) => Some(guard),
        Err(_) => None,
    }
}

/// `Option::as_deref` on the outcome of [`lock`]: shared access to the value
/// that the guard protects, where there is a guard. Nothing is claimed of the
/// value; only that a guard gives access and no guard gives none.
#[verifier::external_body]
fn reach<'g, 'a, T>(guard: &'g Option<MutexGuard<'a, T>>) -> (access: Option<&'g T>)
    ensures
        access is Some == guard is Some,
{
    guard.as_deref()
}

/// `Option::as_deref_mut` on the outcome of [`lock`]: exclusive access to the
/// value that the guard protects, where there is a guard. Nothing is claimed
/// of the value; only that a guard gives access and no guard gives none.
#[verifier::external_body]
fn reach_mut<'g, 'a, T>(guard: &'g mut Option<MutexGuard<'a, T>>) -> (access: Option<&'g mut T>)
    ensures
        access is Some == *old(guard) is Some,
{
    guard.as_deref_mut()
}

/// The lifecycle record of one service process, shared between the start-up
/// thread and the control callbacks.
///
/// What a shared store holds is not a function of the reference to it: other
/// threads change it between two calls. So the operations below promise only
/// what holds whatever the lock gave; what they do with the record is stated
/// by the functions that they call.
#[verifier::reject_recursive_types(H)]
#[verifier::reject_recursive_types(R)]
pub struct LifecycleStore<H, R> {
    cell: Mutex<LifecycleState<H, R>>,
}

impl<H, R> LifecycleStore<H, R> {
    /// A store around the empty record.
    pub fn new() -> Self {
        LifecycleStore { cell: new_mutex(LifecycleState::new()) }
    }

    /// Looks the hook up: [`get_willhook_status`] on the outcome of taking
    /// the lock.
    pub fn has_active_hook(&self) -> Presence {
        let guard = lock(&self.cell);
        get_willhook_status(reach(&guard))
    }

    /// Looks the reporting handle up: [`get_service_handle_status`] on the
    /// outcome of taking the lock.
    pub fn has_reporting_handle(&self) -> Presence {
        let guard = lock(&self.cell);
        get_service_handle_status(reach(&guard))
    }

    /// Answers a control request: [`service_control`] on the outcome of
    /// taking the lock. The lock is held for the whole request, so the answer
    /// is that of one moment of the record.
    pub fn dispatch(&self, control: ControlRequest) -> (result: ControlResult)
        ensures
            exists|access: Option<LifecycleView<H, R>>| result == #[trigger] control_result(access, control),
            !is_handled(control) ==> result == ControlResult::NotImplemented,
    {
        let mut guard = lock(&self.cell);
        let access = reach_mut(&mut guard);
        let ghost found = reached_mut(access);
        let result = service_control(access, control);
        assert(result == control_result(found, control));
        result
    }

    /// Takes one step of the start-up sequence: [`advance`] on the outcome of
    /// taking the lock. The runner does its work between two steps, so the
    /// lock is never held while the hook provider is asked or a status record
    /// is submitted.
    pub fn step(&self, phase: ServicePhase, event: ServiceEvent<H, R>) -> (next: ServicePhase)
        ensures
            next == next_phase(phase, event, true) || next == next_phase(phase, event, false),
    {
        let mut guard = lock(&self.cell);
        advance(reach_mut(&mut guard), phase, event)
    }
}

} // verus!
