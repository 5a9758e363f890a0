//! What a store operation does with the outcome of taking the lock.
//!
//! The outcome is an `Option` of a reference to the lifecycle record: `None`
//! stands for a lock that could not be taken. Every function here tells that
//! case apart from a record that is merely empty.

use crate::lifecycle::LifecycleState;
use crate::lifecycle::LifecycleView;
use vstd::prelude::*;

verus! {

/// What a lookup in the store found.
#[derive(Clone, Copy, Debug, PartialEq, Eq, Structural)]
pub enum Presence {
    /// The lock was taken and the value is there.
    Present,
    /// The lock was taken and the value is missing.
    Absent,
    /// The lock could not be taken; nothing is known of the value.
    Inaccessible,
}

/// The lock could not be taken.
#[derive(Clone, Copy, Debug, PartialEq, Eq, Structural)]
pub struct StoreAccessError;

/// How an installation attempt ended.
#[derive(Clone, Copy, Debug, PartialEq, Eq, Structural)]
pub enum InstallOutcome {
    /// The provider gave a live hook and the store holds it now.
    Installed,
    /// The lock was taken, but the provider gave no hook; the store holds none.
    Unavailable,
    /// The lock could not be taken; whatever the provider gave was released.
    Inaccessible,
}

/// The content of the record that an access reached, if it reached one.
pub open spec fn reached<H, R>(access: Option<&LifecycleState<H, R>>) -> Option<LifecycleView<H, R>> {
    match access {
        None => None,
        Some(state) => Some(state@),
    }
}

/// The content of the record that an exclusive access reached, as the access
/// found it.
pub open spec fn reached_mut<H, R>(access: Option<&mut LifecycleState<H, R>>) -> Option<
    LifecycleView<H, R>,
> {
    match access {
        None => None,
        Some(state) => Some(state@),
    }
}

/// What a lookup of the hook answers, given what the access reached.
pub open spec fn hook_presence<H, R>(access: Option<LifecycleView<H, R>>) -> Presence {
    match access {
        None => Presence::Inaccessible,
        Some(record) => if record.hook_installed() {
            Presence::Present
        } else {
            Presence::Absent
        },
    }
}

/// What a lookup of the reporting handle answers, given what the access
/// reached.
pub open spec fn handle_presence<H, R>(access: Option<LifecycleView<H, R>>) -> Presence {
    match access {
        None => Presence::Inaccessible,
        Some(record) => if record.handle_registered() {
            Presence::Present
        } else {
            Presence::Absent
        },
    }
}

/// How an installation attempt ends, given whether the provider gave a hook
/// and whether the lock was taken.
pub open spec fn install_outcome(provided: bool, granted: bool) -> InstallOutcome {
    if !granted {
        InstallOutcome::Inaccessible
    } else if provided {
        InstallOutcome::Installed
    } else {
        InstallOutcome::Unavailable
    }
}

/// Tells whether the record that `access` reached holds an active hook. A
/// lock that could not be taken is told apart from a record without a hook.
pub fn get_willhook_status<H, R>(access: Option<&LifecycleState<H, R>>) -> (found: Presence)
    ensures
        found == hook_presence(reached(access)),
{
    match access {
        None => Presence::Inaccessible,
        Some(state) => if state.has_active_hook() {
            Presence::Present
        } else {
            Presence::Absent
        },
    }
}

/// Tells whether the record that `access` reached holds the reporting handle.
/// A lock that could not be taken is told apart from a record without a
/// handle.
pub fn get_service_handle_status<H, R>(access: Option<&LifecycleState<H, R>>) -> (found: Presence)
    ensures
        found == handle_presence(reached(access)),
{
    match access {
        None => Presence::Inaccessible,
        Some(state) => if state.has_reporting_handle() {
            Presence::Present
        } else {
            Presence::Absent
        },
    }
}

/// Stores `handle` in the record that `access` reached.
pub fn register_reached<H, R>(access: Option<&mut LifecycleState<H, R>>, handle: R) -> (stored: Result<
    (),
    StoreAccessError,
>)
    ensures
        stored is Ok == access is Some,
        match access {
            Some(state) => final(state)@ == state@.with_reporting_handle(handle),
            None => true,
        },
{
    match access {
        Some(state) => {
            state.set_reporting_handle(handle);
            Ok(())
        },
        None => Err(StoreAccessError),
    }
}

/// Records the provider's answer in the record that `access` reached. Without
/// access the answer is dropped, which releases a hook that came with it.
pub fn install_reached<H, R>(access: Option<&mut LifecycleState<H, R>>, provided: Option<H>) -> (outcome:
    InstallOutcome)
    ensures
        outcome == install_outcome(provided is Some, access is Some),
        match access {
            Some(state) => final(state)@ == state@.with_hook(provided),
            None => true,
        },
{
    match access {
        Some(state) => if state.install_hook(provided) {
            InstallOutcome::Installed
        } else {
            InstallOutcome::Unavailable
        },
        None => InstallOutcome::Inaccessible,
    }
}

/// Releases the hook of the record that `access` reached. Clearing a record
/// without a hook succeeds all the same.
pub fn clear_reached<H, R>(access: Option<&mut LifecycleState<H, R>>) -> (cleared: Result<
    (),
    StoreAccessError,
>)
    ensures
        cleared is Ok == access is Some,
        match access {
            Some(state) => final(state)@ == state@.without_hook(),
            None => true,
        },
{
    match access {
        Some(state) => {
            state.clear_hook();
            Ok(())
        },
        None => Err(StoreAccessError),
    }
}

} // verus!
