//! The start-up sequence of the service, as a state machine.
//!
//! The sequence alternates between work that only the runner can do
//! (registering the control handler, asking the hook provider, submitting a
//! status record) and decisions taken here. The runner performs the action of
//! the current phase, hands the outcome back as an event, and gets the next
//! phase. Each step works on the lifecycle record that the lock gave access
//! to, or on none where the lock could not be taken.

use crate::status::status_record;
use crate::status::status_record_for;
use crate::status::ServiceExecutionState;
use crate::status::StatusRecord;
use crate::access::install_outcome;
use crate::access::install_reached;
use crate::access::register_reached;
use crate::access::InstallOutcome;
use crate::lifecycle::LifecycleState;
use crate::lifecycle::LifecycleView;
use vstd::prelude::*;

verus! {

/// The one name under which the service is known to the service manager: the
/// control handler is registered under it and the dispatcher is started with
/// it.
pub const SERVICE_NAME: &'static str = "Meddler";

/// Where the start-up sequence stands.
#[derive(Clone, Copy, Debug, PartialEq, Eq, Structural)]
pub enum ServicePhase {
    /// Nothing has happened yet.
    Unregistered,
    /// The control handler is registered; the hook provider has not answered.
    AwaitingProvider,
    /// The provider has answered; the state is yet to be reported.
    AwaitingReport(ServiceExecutionState),
    /// The state was reported; the sequence is over.
    Settled(ServiceExecutionState),
    /// Registration failed; the run was given up without any report.
    Abandoned,
    /// The service manager refused the status record; the run cannot go on.
    Failed,
}

/// What the runner is to do next.
#[derive(Clone, Copy, Debug, PartialEq, Eq, Structural)]
pub enum ServiceAction {
    /// Register the control handler and obtain the reporting handle.
    Register,
    /// Ask the hook provider for a hook.
    InvokeProvider,
    /// Submit this status record through the reporting handle.
    Report(StatusRecord),
    /// Return; nothing is left to do.
    Finish,
    /// Give the thread up: the failure is fatal.
    Abort,
}

/// What came of the runner's last action.
pub enum ServiceEvent<H, R> {
    /// Registration gave this reporting handle.
    Registered(R),
    /// Registration failed.
    RegistrationFailed,
    /// The hook provider answered: a live hook, or nothing.
    ProviderAnswered(Option<H>),
    /// The service manager took the status record.
    ReportAccepted,
    /// The service manager refused the status record, or the handle was
    /// invalid.
    ReportRejected,
}

/// The state to report after an installation attempt: `Running` if the hook
/// is installed, `Stopped` in every other case.
pub open spec fn reported_state(outcome: InstallOutcome) -> ServiceExecutionState {
    if outcome is Installed {
        ServiceExecutionState::Running
    } else {
        ServiceExecutionState::Stopped
    }
}

/// The action that belongs to a phase.
pub open spec fn action_of(phase: ServicePhase) -> ServiceAction {
    match phase {
        ServicePhase::Unregistered => ServiceAction::Register,
        ServicePhase::AwaitingProvider => ServiceAction::InvokeProvider,
        ServicePhase::AwaitingReport(state) => ServiceAction::Report(status_record_for(state)),
        ServicePhase::Settled(_) => ServiceAction::Finish,
        ServicePhase::Abandoned => ServiceAction::Finish,
        ServicePhase::Failed => ServiceAction::Abort,
    }
}

/// The phase that follows `phase` on `event`, given whether the store could be
/// locked where the step needs it. An event that does not belong to the phase
/// leaves the phase as it is.
pub open spec fn next_phase<H, R>(phase: ServicePhase, event: ServiceEvent<H, R>, granted: bool) -> ServicePhase {
    match (phase, event) {
        (ServicePhase::Unregistered, ServiceEvent::Registered(_)) => ServicePhase::AwaitingProvider,
        (ServicePhase::Unregistered, ServiceEvent::RegistrationFailed) => ServicePhase::Abandoned,
        (ServicePhase::AwaitingProvider, ServiceEvent::ProviderAnswered(provided)) => ServicePhase::AwaitingReport(
            reported_state(install_outcome(provided is Some, granted)),
        ),
        (ServicePhase::AwaitingReport(state), ServiceEvent::ReportAccepted) => ServicePhase::Settled(state),
        (ServicePhase::AwaitingReport(_), ServiceEvent::ReportRejected) => ServicePhase::Failed,
        _ => phase,
    }
}

/// What a step makes of the record: a handle that registration gave is
/// stored, the provider's answer is stored, and nothing else changes.
pub open spec fn record_after_event<H, R>(
    record: LifecycleView<H, R>,
    phase: ServicePhase,
    event: ServiceEvent<H, R>,
) -> LifecycleView<H, R> {
    match (phase, event) {
        (ServicePhase::Unregistered, ServiceEvent::Registered(handle)) => record.with_reporting_handle(
            handle,
        ),
        (ServicePhase::AwaitingProvider, ServiceEvent::ProviderAnswered(provided)) => record.with_hook(
            provided,
        ),
        _ => record,
    }
}

/// Decides which state to report after an installation attempt.
pub fn state_to_report(outcome: InstallOutcome) -> (state: ServiceExecutionState)
    ensures
        state == reported_state(outcome),
{
    match outcome {
        InstallOutcome::Installed => ServiceExecutionState::Running,
        _ => ServiceExecutionState::Stopped,
    }
}

/// Tells the runner what to do in `phase`.
pub fn pending_action(phase: ServicePhase) -> (action: ServiceAction)
    ensures
        action == action_of(phase),
{
    match phase {
        ServicePhase::Unregistered => ServiceAction::Register,
        ServicePhase::AwaitingProvider => ServiceAction::InvokeProvider,
        ServicePhase::AwaitingReport(state) => ServiceAction::Report(status_record(state)),
        ServicePhase::Settled(_) => ServiceAction::Finish,
        ServicePhase::Abandoned => ServiceAction::Finish,
        ServicePhase::Failed => ServiceAction::Abort,
    }
}

/// Takes one step of the start-up sequence on the record that `access`
/// reached.
///
/// On `Registered` the handle goes into the record; a lock that could not be
/// taken does not hold the sequence up. On `ProviderAnswered` the answer goes
/// into the record, and the state to report is `Running` only if the record
/// holds the hook now. What came with an event that does not belong to the
/// phase is dropped, and the record stays as it is.
pub fn advance<H, R>(
    access: Option<&mut LifecycleState<H, R>>,
    phase: ServicePhase,
    event: ServiceEvent<H, R>,
) -> (next: ServicePhase)
    ensures
        next == next_phase(phase, event, access is Some),
        match access {
            Some(state) => final(state)@ == record_after_event(state@, phase, event),
            None => true,
        },
{
    match phase {
        ServicePhase::Unregistered => match event {
            ServiceEvent::Registered(handle) => {
                let _ = register_reached(access, handle);
                ServicePhase::AwaitingProvider
            },
            ServiceEvent::RegistrationFailed => ServicePhase::Abandoned,
            _ => phase,
        },
        ServicePhase::AwaitingProvider => match event {
            ServiceEvent::ProviderAnswered(provided) => {
                let outcome = install_reached(access, provided);
                ServicePhase::AwaitingReport(state_to_report(outcome))
            },
            _ => phase,
        },
        ServicePhase::AwaitingReport(state) => match event {
            ServiceEvent::ReportAccepted => ServicePhase::Settled(state),
            ServiceEvent::ReportRejected => ServicePhase::Failed,
            _ => phase,
        },
        _ => phase,
    }
}

} // verus!
