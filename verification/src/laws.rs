//! What holds of the lifecycle protocol as a whole.
//!
//! The store hands the lifecycle record to one holder of the lock at a time,
//! and every control request and every step of the start-up sequence holds
//! the lock from beginning to end. So a run of the service is a sequence of
//! requests and steps on one record. The laws speak of such sequences, over
//! the content of the record and the functions by which the dispatcher and
//! the start-up sequence state their results.

use crate::access::Presence;
use crate::control::control_result;
use crate::control::interrogation_result;
use crate::control::record_after_control;
use crate::control::ControlRequest;
use crate::control::ControlResult;
use crate::control::HOOK_ACCESS_ERROR;
use crate::control::HOOK_INVALID;
use crate::lifecycle::LifecycleView;
use crate::service::action_of;
use crate::service::next_phase;
use crate::service::record_after_event;
use crate::service::ServiceAction;
use crate::service::ServiceEvent;
use crate::service::ServicePhase;
use crate::status::status_record_for;
use crate::status::ServiceExecutionState;
use vstd::prelude::*;

verus! {

/// Interrogate on a record without a hook is answered with `HOOK_INVALID`,
/// whether or not the reporting handle is there, and changes nothing. The
/// empty record is such a record.
pub proof fn interrogate_without_hook<H, R>(record: LifecycleView<H, R>)
    requires
        !record.hook_installed(),
    ensures
        control_result(Some(record), ControlRequest::Interrogate) == ControlResult::Other(
            HOOK_INVALID,
        ),
        record_after_control(record, ControlRequest::Interrogate) == record,
        !LifecycleView::<H, R>::empty().hook_installed(),
{
}

/// Once the handle is stored and a hook installed, in either order,
/// Interrogate is answered with `NoError`; and it is answered so only where
/// both are there.
pub proof fn interrogate_with_hook_and_handle<H, R>(record: LifecycleView<H, R>, handle: R, hook: H)
    ensures
        control_result(
            Some(record.with_reporting_handle(handle).with_hook(Some(hook))),
            ControlRequest::Interrogate,
        ) == ControlResult::NoError,
        control_result(
            Some(record.with_hook(Some(hook)).with_reporting_handle(handle)),
            ControlRequest::Interrogate,
        ) == ControlResult::NoError,
        control_result(Some(record), ControlRequest::Interrogate) == ControlResult::NoError
            <==> record.hook_installed() && record.handle_registered(),
{
}

/// Stop on a record without a hook is answered with `NoError` and leaves the
/// record as it was.
pub proof fn stop_without_hook<H, R>(record: LifecycleView<H, R>)
    requires
        !record.hook_installed(),
    ensures
        control_result(Some(record), ControlRequest::Stop) == ControlResult::NoError,
        record_after_control(record, ControlRequest::Stop) == record,
{
}

/// Stop after Stop is answered with `NoError` as the first was, and changes
/// nothing further: the hook is released once.
pub proof fn stop_twice<H, R>(record: LifecycleView<H, R>)
    ensures
        ({
            let once = record_after_control(record, ControlRequest::Stop);
            let twice = record_after_control(once, ControlRequest::Stop);
            &&& control_result(Some(record), ControlRequest::Stop) == ControlResult::NoError
            &&& control_result(Some(once), ControlRequest::Stop) == ControlResult::NoError
            &&& !once.hook_installed()
            &&& twice == once
        }),
{
}

/// Interrogate against a Stop from another context. Whichever of the two
/// gets the lock first, the record ends without a hook and with its handle
/// untouched; and Interrogate is answered for the record as it was before
/// the Stop or for the record as it is after it, never for a mixture: after
/// the Stop the answer is `HOOK_INVALID`, whatever the handle.
pub proof fn interrogate_against_stop<H, R>(record: LifecycleView<H, R>)
    ensures
        ({
            let interrogated = record_after_control(record, ControlRequest::Interrogate);
            let stopped = record_after_control(record, ControlRequest::Stop);
            let interrogate_then_stop = record_after_control(interrogated, ControlRequest::Stop);
            let stop_then_interrogate = record_after_control(stopped, ControlRequest::Interrogate);
            &&& interrogate_then_stop == stop_then_interrogate
            &&& interrogate_then_stop.hook is None
            &&& interrogate_then_stop.reporting_handle == record.reporting_handle
            &&& control_result(Some(stopped), ControlRequest::Interrogate) == ControlResult::Other(
                HOOK_INVALID,
            )
            &&& control_result(Some(interrogated), ControlRequest::Stop) == ControlResult::NoError
        }),
{
}

/// The provider's answer against a Stop from another context: the one that
/// gets the lock last decides what the record holds, and the handle is
/// untouched either way.
pub proof fn install_against_stop<H, R>(record: LifecycleView<H, R>, provided: Option<H>)
    ensures
        ({
            let answer = ServiceEvent::<H, R>::ProviderAnswered(provided);
            let installed = record_after_event(record, ServicePhase::AwaitingProvider, answer);
            let stopped = record_after_control(record, ControlRequest::Stop);
            let install_then_stop = record_after_control(installed, ControlRequest::Stop);
            let stop_then_install = record_after_event(stopped, ServicePhase::AwaitingProvider, answer);
            &&& install_then_stop.hook is None
            &&& stop_then_install.hook == provided
            &&& install_then_stop.reporting_handle == record.reporting_handle
            &&& stop_then_install.reporting_handle == record.reporting_handle
        }),
{
}

/// A request that is neither Interrogate nor Stop is answered with
/// `NotImplemented` and changes nothing, whatever the record holds and
/// whether or not the lock was taken.
pub proof fn other_requests_are_not_implemented<H, R>(
    access: Option<LifecycleView<H, R>>,
    record: LifecycleView<H, R>,
    control: ControlRequest,
)
    requires
        !(control is Interrogate),
        !(control is Stop),
    ensures
        control_result(access, control) == ControlResult::NotImplemented,
        record_after_control(record, control) == record,
{
}

/// A store that cannot be locked never passes for an empty one: Interrogate
/// and Stop are then answered with `HOOK_ACCESS_ERROR`, which is neither
/// `NoError` nor the answer for a missing hook.
pub proof fn inaccessible_is_not_absent<H, R>(handle: Presence)
    ensures
        control_result::<H, R>(None, ControlRequest::Interrogate) == ControlResult::Other(
            HOOK_ACCESS_ERROR,
        ),
        control_result::<H, R>(None, ControlRequest::Stop) == ControlResult::Other(
            HOOK_ACCESS_ERROR,
        ),
        interrogation_result(Presence::Inaccessible, handle) == ControlResult::Other(
            HOOK_ACCESS_ERROR,
        ),
        interrogation_result(Presence::Present, Presence::Inaccessible) == ControlResult::Other(
            HOOK_ACCESS_ERROR,
        ),
        HOOK_ACCESS_ERROR != HOOK_INVALID,
{
}

/// The hook provider is asked once in a run: the phase in which it is asked
/// is entered from the start only, by a successful registration, and no
/// event leads back to the start.
pub proof fn provider_is_asked_once<H, R>(phase: ServicePhase, event: ServiceEvent<H, R>, granted: bool)
    ensures
        ({
            let next = next_phase(phase, event, granted);
            &&& action_of(next) == ServiceAction::InvokeProvider <==> next is AwaitingProvider
            &&& next is AwaitingProvider && !(phase is AwaitingProvider) ==> phase is Unregistered
                && event is Registered
            &&& phase is AwaitingProvider && event is ProviderAnswered ==> !(next is AwaitingProvider)
            &&& next is Unregistered ==> phase is Unregistered
        }),
{
}

/// A whole run. From the empty record, registration and a provider that
/// gives a hook lead to a report of `Running`; Interrogate is then answered
/// with `NoError`, Stop with `NoError`, and Interrogate after that with
/// `HOOK_INVALID`.
pub proof fn run_from_start_to_stop<H, R>(handle: R, hook: H)
    ensures
        ({
            let registration = ServiceEvent::<H, R>::Registered(handle);
            let answer = ServiceEvent::<H, R>::ProviderAnswered(Some(hook));
            let accepted = ServiceEvent::<H, R>::ReportAccepted;
            let phase0 = ServicePhase::Unregistered;
            let record0 = LifecycleView::<H, R>::empty();
            let phase1 = next_phase(phase0, registration, true);
            let record1 = record_after_event(record0, phase0, registration);
            let phase2 = next_phase(phase1, answer, true);
            let record2 = record_after_event(record1, phase1, answer);
            let phase3 = next_phase(phase2, accepted, true);
            let record3 = record_after_event(record2, phase2, accepted);
            let record4 = record_after_control(record3, ControlRequest::Interrogate);
            let record5 = record_after_control(record4, ControlRequest::Stop);
            &&& action_of(phase0) == ServiceAction::Register
            &&& action_of(phase1) == ServiceAction::InvokeProvider
            &&& action_of(phase2) == ServiceAction::Report(
                status_record_for(ServiceExecutionState::Running),
            )
            &&& phase3 == ServicePhase::Settled(ServiceExecutionState::Running)
            &&& action_of(phase3) == ServiceAction::Finish
            &&& control_result(Some(record3), ControlRequest::Interrogate) == ControlResult::NoError
            &&& control_result(Some(record4), ControlRequest::Stop) == ControlResult::NoError
            &&& control_result(Some(record5), ControlRequest::Interrogate) == ControlResult::Other(
                HOOK_INVALID,
            )
        }),
{
}

} // verus!
