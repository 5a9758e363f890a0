//! The status record that the service hands to the service manager.
//!
//! All transitions are reported as already complete, so the record never
//! carries a pending state, a checkpoint or a wait hint.

use vstd::prelude::*;

verus! {

/// The execution state that the service reports.
#[derive(Clone, Copy, Debug, PartialEq, Eq, Structural)]
pub enum ServiceExecutionState {
    Stopped,
    Running,
}

/// How the service is hosted.
#[derive(Clone, Copy, Debug, PartialEq, Eq, Structural)]
pub enum ServiceKind {
    /// The service has a process to itself.
    OwnProcess,
    /// The service shares its process with other services.
    ShareProcess,
}

/// The control requests that the service declares it accepts.
#[derive(Clone, Copy, Debug, PartialEq, Eq, Structural)]
pub struct AcceptedControls {
    pub stop: bool,
    pub pause_continue: bool,
    pub shutdown: bool,
}

/// The exit code of a status record.
#[derive(Clone, Copy, Debug, PartialEq, Eq, Structural)]
pub enum ExitCode {
    /// A system error code; 0 is success.
    Win32(u32),
    /// An error code of the service's own.
    ServiceSpecific(u32),
}

/// One status record, field by field as the service manager gets it.
#[derive(Clone, Copy, Debug, PartialEq, Eq, Structural)]
pub struct StatusRecord {
    pub service_kind: ServiceKind,
    pub current_state: ServiceExecutionState,
    pub controls_accepted: AcceptedControls,
    pub exit_code: ExitCode,
    pub checkpoint: u32,
    pub wait_hint_millis: u32,
    pub process_id: Option<u32>,
}

/// The record for `state`. Only the state varies: the service runs in its own
/// process, accepts Stop and nothing else, always exits with success, reports
/// no progress of a pending transition and leaves the process id unset.
pub open spec fn status_record_for(state: ServiceExecutionState) -> StatusRecord {
    StatusRecord {
        service_kind: ServiceKind::OwnProcess,
        current_state: state,
        controls_accepted: AcceptedControls { stop: true, pause_continue: false, shutdown: false },
        exit_code: ExitCode::Win32(0),
        checkpoint: 0,
        wait_hint_millis: 0,
        process_id: None,
    }
}

/// Builds the status record that reports `state`.
pub fn status_record(state: ServiceExecutionState) -> (record: StatusRecord)
    ensures
        record == status_record_for(state),
{
    StatusRecord {
        service_kind: ServiceKind::OwnProcess,
        current_state: state,
        controls_accepted: AcceptedControls { stop: true, pause_continue: false, shutdown: false },
        exit_code: ExitCode::Win32(0),
        checkpoint: 0,
        wait_hint_millis: 0,
        process_id: None,
    }
}

} // verus!
