//! The control dispatcher: what the service answers to a control request.
//!
//! The dispatcher keeps no state of its own. It works on the lifecycle record
//! that the lock gave access to, or on none where the lock could not be
//! taken, and turns what it found into a result code.

use crate::access::clear_reached;
use crate::access::get_service_handle_status;
use crate::access::get_willhook_status;
use crate::access::handle_presence;
use crate::access::hook_presence;
use crate::access::reached;
use crate::access::reached_mut;
use crate::access::Presence;
use crate::lifecycle::LifecycleState;
use crate::lifecycle::LifecycleView;
use vstd::prelude::*;

verus! {

/// Failure code: no hook is installed.
pub const HOOK_INVALID: u32 = 1;

/// Failure code: the lifecycle store could not be locked.
pub const HOOK_ACCESS_ERROR: u32 = 2;

/// Failure code: the reporting handle was never stored.
pub const HANDLE_INVALID: u32 = 3;

/// A control request, as the service manager delivers it. Data that comes
/// with a request is of no interest here and is left out, but for the code of
/// a user-defined request. `Unrecognized` stands for a request that has no
/// name here.
#[derive(Clone, Copy, Debug, PartialEq, Eq, Structural)]
pub enum ControlRequest {
    Continue,
    Interrogate,
    NetBindAdd,
    NetBindDisable,
    NetBindEnable,
    NetBindRemove,
    ParamChange,
    Pause,
    Preshutdown,
    Shutdown,
    Stop,
    HardwareProfileChange,
    PowerEvent,
    SessionChange,
    TimeChange,
    TriggerEvent,
    UserEvent(u32),
    Unrecognized,
}

/// The answer to a control request.
#[derive(Clone, Copy, Debug, PartialEq, Eq, Structural)]
pub enum ControlResult {
    /// The request was carried out.
    NoError,
    /// The request is not one that this service handles.
    NotImplemented,
    /// The request failed; the code says why.
    Other(u32),
}

/// The answer to Interrogate from the two lookups. The hook comes first: what
/// the handle lookup says counts only where the hook is there. A lookup that
/// could not take the lock is answered with a code of its own.
pub open spec fn interrogation_result(hook: Presence, handle: Presence) -> ControlResult {
    match hook {
        Presence::Inaccessible => ControlResult::Other(HOOK_ACCESS_ERROR),
        Presence::Absent => ControlResult::Other(HOOK_INVALID),
        Presence::Present => match handle {
            Presence::Inaccessible => ControlResult::Other(HOOK_ACCESS_ERROR),
            Presence::Absent => ControlResult::Other(HANDLE_INVALID),
            Presence::Present => ControlResult::NoError,
        },
    }
}

/// The answer to Interrogate, given what the access reached.
pub open spec fn interrogation_of<H, R>(access: Option<LifecycleView<H, R>>) -> ControlResult {
    interrogation_result(hook_presence(access), handle_presence(access))
}

/// The answer to Stop, given whether the lock was taken. Whether there was a
/// hook to release plays no part.
pub open spec fn stop_result(granted: bool) -> ControlResult {
    if granted {
        ControlResult::NoError
    } else {
        ControlResult::Other(HOOK_ACCESS_ERROR)
    }
}

/// Whether the dispatcher handles `control` at all.
pub open spec fn is_handled(control: ControlRequest) -> bool {
    control is Interrogate || control is Stop
}

/// The answer to `control`, given what the access reached.
pub open spec fn control_result<H, R>(access: Option<LifecycleView<H, R>>, control: ControlRequest) -> ControlResult {
    match control {
        ControlRequest::Interrogate => interrogation_of(access),
        ControlRequest::Stop => stop_result(access is Some),
        _ => ControlResult::NotImplemented,
    }
}

/// What `control` makes of the record: Stop releases the hook, no other
/// request changes anything.
pub open spec fn record_after_control<H, R>(record: LifecycleView<H, R>, control: ControlRequest) -> LifecycleView<
    H,
    R,
> {
    if control is Stop {
        record.without_hook()
    } else {
        record
    }
}

/// Answers Interrogate: `HOOK_INVALID` where no hook is installed, else
/// `HANDLE_INVALID` where the reporting handle is missing, else `NoError`;
/// and `HOOK_ACCESS_ERROR` where the lock could not be taken.
pub fn get_service_status<H, R>(access: Option<&LifecycleState<H, R>>) -> (result: ControlResult)
    ensures
        result == interrogation_of(reached(access)),
{
    match get_willhook_status(access) {
        Presence::Inaccessible => ControlResult::Other(HOOK_ACCESS_ERROR),
        Presence::Absent => ControlResult::Other(HOOK_INVALID),
        Presence::Present => match get_service_handle_status(access) {
            Presence::Inaccessible => ControlResult::Other(HOOK_ACCESS_ERROR),
            Presence::Absent => ControlResult::Other(HANDLE_INVALID),
            Presence::Present => ControlResult::NoError,
        },
    }
}

/// Answers Stop: releases the hook, whether or not there is one, and says
/// `NoError`. Only a lock that could not be taken makes it fail.
pub fn stop_service<H, R>(access: Option<&mut LifecycleState<H, R>>) -> (result: ControlResult)
    ensures
        result == stop_result(access is Some),
        match access {
            Some(state) => final(state)@ == state@.without_hook(),
            None => true,
        },
{
    match clear_reached(access) {
        Ok(_) => ControlResult::NoError,
        Err(_) => ControlResult::Other(HOOK_ACCESS_ERROR),
    }
}

/// Answers a control request. Interrogate and Stop are handled; every other
/// request is answered with `NotImplemented` and changes nothing, whatever
/// the record holds and whether or not the lock was taken.
pub fn service_control<H, R>(access: Option<&mut LifecycleState<H, R>>, control: ControlRequest) -> (result:
    ControlResult)
    ensures
        result == control_result(reached_mut(access), control),
        !is_handled(control) ==> result == ControlResult::NotImplemented,
        match access {
            Some(state) => final(state)@ == record_after_control(state@, control),
            None => true,
        },
{
    match control {
        ControlRequest::Interrogate => match access {
            Some(state) => get_service_status(Some(&*state)),
            None => get_service_status::<H, R>(None),
        },
        ControlRequest::Stop => stop_service(access),
        _ => ControlResult::NotImplemented,
    }
}

} // verus!
