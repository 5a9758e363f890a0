use meddler::access::Presence;
use meddler::control::get_service_status;
use meddler::control::service_control;
use meddler::control::stop_service;
use meddler::control::ControlRequest;
use meddler::control::ControlResult;
use meddler::control::HANDLE_INVALID;
use meddler::control::HOOK_ACCESS_ERROR;
use meddler::control::HOOK_INVALID;
use meddler::lifecycle::LifecycleState;
use meddler::service::ServiceEvent;
use meddler::service::ServicePhase;
use meddler::store::LifecycleStore;

fn running_store() -> LifecycleStore<u8, u32> {
    let store = LifecycleStore::<u8, u32>::new();
    store.step(ServicePhase::Unregistered, ServiceEvent::Registered(7));
    store.step(ServicePhase::AwaitingProvider, ServiceEvent::ProviderAnswered(Some(1)));
    store
}

fn running_record() -> LifecycleState<u8, u32> {
    let mut state = LifecycleState::<u8, u32>::new();
    state.set_reporting_handle(7);
    assert!(state.install_hook(Some(1)));
    state
}

const OTHER_REQUESTS: [ControlRequest; 17] = [
    ControlRequest::Continue,
    ControlRequest::NetBindAdd,
    ControlRequest::NetBindDisable,
    ControlRequest::NetBindEnable,
    ControlRequest::NetBindRemove,
    ControlRequest::ParamChange,
    ControlRequest::Pause,
    ControlRequest::Preshutdown,
    ControlRequest::Shutdown,
    ControlRequest::HardwareProfileChange,
    ControlRequest::PowerEvent,
    ControlRequest::SessionChange,
    ControlRequest::TimeChange,
    ControlRequest::TriggerEvent,
    ControlRequest::UserEvent(128),
    ControlRequest::UserEvent(255),
    ControlRequest::Unrecognized,
];

#[test]
fn the_failure_codes_are_one_two_and_three() {
    assert_eq!(HOOK_INVALID, 0x1);
    assert_eq!(HOOK_ACCESS_ERROR, 0x2);
    assert_eq!(HANDLE_INVALID, 0x3);
}

#[test]
fn interrogate_before_any_install_says_hook_invalid() {
    let store = LifecycleStore::<u8, u32>::new();
    assert_eq!(store.dispatch(ControlRequest::Interrogate), ControlResult::Other(HOOK_INVALID));

    let mut state = LifecycleState::<u8, u32>::new();
    assert_eq!(
        service_control(Some(&mut state), ControlRequest::Interrogate),
        ControlResult::Other(HOOK_INVALID)
    );
    assert_eq!(get_service_status(Some(&state)), ControlResult::Other(HOOK_INVALID));
}

#[test]
fn interrogate_checks_the_hook_before_the_handle() {
    let store = LifecycleStore::<u8, u32>::new();
    store.step(ServicePhase::Unregistered, ServiceEvent::Registered(7));
    assert_eq!(store.dispatch(ControlRequest::Interrogate), ControlResult::Other(HOOK_INVALID));

    let mut state = LifecycleState::<u8, u32>::new();
    state.set_reporting_handle(7);
    assert_eq!(get_service_status(Some(&state)), ControlResult::Other(HOOK_INVALID));
}

#[test]
fn interrogate_with_a_hook_but_no_handle_says_handle_invalid() {
    let store = LifecycleStore::<u8, u32>::new();
    store.step(ServicePhase::AwaitingProvider, ServiceEvent::ProviderAnswered(Some(1)));
    assert_eq!(store.dispatch(ControlRequest::Interrogate), ControlResult::Other(HANDLE_INVALID));

    let mut state = LifecycleState::<u8, u32>::new();
    assert!(state.install_hook(Some(1)));
    assert_eq!(get_service_status(Some(&state)), ControlResult::Other(HANDLE_INVALID));
}

#[test]
fn interrogate_after_install_and_registration_says_no_error() {
    let store = running_store();
    assert_eq!(store.dispatch(ControlRequest::Interrogate), ControlResult::NoError);

    let mut state = running_record();
    assert_eq!(get_service_status(Some(&state)), ControlResult::NoError);
    assert_eq!(
        service_control(Some(&mut state), ControlRequest::Interrogate),
        ControlResult::NoError
    );
}

#[test]
fn interrogate_changes_nothing() {
    let store = running_store();
    assert_eq!(store.dispatch(ControlRequest::Interrogate), ControlResult::NoError);
    assert_eq!(store.dispatch(ControlRequest::Interrogate), ControlResult::NoError);
    assert_eq!(store.has_active_hook(), Presence::Present);
    assert_eq!(store.has_reporting_handle(), Presence::Present);
}

#[test]
fn interrogate_without_access_says_access_error() {
    assert_eq!(
        get_service_status::<u8, u32>(None),
        ControlResult::Other(HOOK_ACCESS_ERROR)
    );
    assert_eq!(
        service_control::<u8, u32>(None, ControlRequest::Interrogate),
        ControlResult::Other(HOOK_ACCESS_ERROR)
    );
}

#[test]
fn stop_without_a_hook_says_no_error_and_the_store_stays_empty() {
    let store = LifecycleStore::<u8, u32>::new();
    assert_eq!(store.dispatch(ControlRequest::Stop), ControlResult::NoError);
    assert_eq!(store.has_active_hook(), Presence::Absent);
    assert_eq!(store.has_reporting_handle(), Presence::Absent);

    let mut state = LifecycleState::<u8, u32>::new();
    assert_eq!(stop_service(Some(&mut state)), ControlResult::NoError);
    assert!(!state.has_active_hook());
    assert!(!state.has_reporting_handle());
}

#[test]
fn stop_after_stop_says_no_error_again() {
    let store = running_store();
    assert_eq!(store.dispatch(ControlRequest::Stop), ControlResult::NoError);
    assert_eq!(store.has_active_hook(), Presence::Absent);
    assert_eq!(store.dispatch(ControlRequest::Stop), ControlResult::NoError);
    assert_eq!(store.has_active_hook(), Presence::Absent);
    assert_eq!(store.has_reporting_handle(), Presence::Present);

    let mut state = running_record();
    assert_eq!(stop_service(Some(&mut state)), ControlResult::NoError);
    assert_eq!(stop_service(Some(&mut state)), ControlResult::NoError);
    assert!(!state.has_active_hook());
    assert!(state.has_reporting_handle());
}

#[test]
fn stop_without_access_says_access_error() {
    assert_eq!(stop_service::<u8, u32>(None), ControlResult::Other(HOOK_ACCESS_ERROR));
    assert_eq!(
        service_control::<u8, u32>(None, ControlRequest::Stop),
        ControlResult::Other(HOOK_ACCESS_ERROR)
    );
}

#[test]
fn interrogate_and_stop_in_either_order_leave_the_store_without_a_hook() {
    let first = running_store();
    assert_eq!(first.dispatch(ControlRequest::Interrogate), ControlResult::NoError);
    assert_eq!(first.dispatch(ControlRequest::Stop), ControlResult::NoError);
    assert_eq!(first.has_active_hook(), Presence::Absent);
    assert_eq!(first.has_reporting_handle(), Presence::Present);

    let second = running_store();
    assert_eq!(second.dispatch(ControlRequest::Stop), ControlResult::NoError);
    assert_eq!(second.dispatch(ControlRequest::Interrogate), ControlResult::Other(HOOK_INVALID));
    assert_eq!(second.has_active_hook(), Presence::Absent);
    assert_eq!(second.has_reporting_handle(), Presence::Present);
}

#[test]
fn no_request_installs_a_hook_again() {
    let store = running_store();
    assert_eq!(store.dispatch(ControlRequest::Stop), ControlResult::NoError);
    assert_eq!(store.dispatch(ControlRequest::Continue), ControlResult::NotImplemented);
    assert_eq!(store.dispatch(ControlRequest::Interrogate), ControlResult::Other(HOOK_INVALID));
    assert_eq!(store.has_active_hook(), Presence::Absent);
}

#[test]
fn every_other_request_is_not_implemented_whatever_the_store_holds() {
    let empty = LifecycleStore::<u8, u32>::new();
    let running = running_store();
    for control in OTHER_REQUESTS {
        assert_eq!(empty.dispatch(control), ControlResult::NotImplemented);
        assert_eq!(running.dispatch(control), ControlResult::NotImplemented);
    }
    assert_eq!(empty.has_active_hook(), Presence::Absent);
    assert_eq!(empty.has_reporting_handle(), Presence::Absent);
    assert_eq!(running.has_active_hook(), Presence::Present);
    assert_eq!(running.has_reporting_handle(), Presence::Present);
}

#[test]
fn every_other_request_is_not_implemented_without_access_too() {
    let mut state = running_record();
    for control in OTHER_REQUESTS {
        assert_eq!(service_control::<u8, u32>(None, control), ControlResult::NotImplemented);
        assert_eq!(service_control(Some(&mut state), control), ControlResult::NotImplemented);
    }
    assert!(state.has_active_hook());
    assert!(state.has_reporting_handle());
}
