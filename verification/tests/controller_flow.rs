use image_capture_core::capability::CapabilitySet;
use image_capture_core::controller::{
    AddOutcome, Controller, SessionNotice, TransferDelivery,
};
use image_capture_core::device::{DeviceDesc, DeviceKind, TransportType};
use image_capture_core::errors::RequestError;
use image_capture_core::session::{SessionEvent, SessionState};

fn scalars(s: &str) -> Vec<u32> {
    s.chars().map(|c| c as u32).collect()
}

fn camera_desc(name: &str, caps: CapabilitySet) -> DeviceDesc {
    DeviceDesc {
        kind: DeviceKind::Camera,
        name: scalars(name),
        transport: TransportType::Usb,
        location_description: scalars("USB port"),
        is_remote: false,
        capabilities: caps,
    }
}

fn caps(take_picture: bool, sync_clock: bool) -> CapabilitySet {
    CapabilitySet {
        take_picture,
        delete_one_file: false,
        delete_all_files: false,
        sync_clock,
        receive_file: false,
        accept_ptp_commands: false,
    }
}

#[test]
fn scenario_camera_added_auto_opens_and_reports_ready() {
    let mut c = Controller::new();
    let desc = camera_desc("Canon EOS 80D", caps(true, true));
    let outcome = c.on_device_added(1, desc, false).expect("fresh identity");
    assert_eq!(
        outcome,
        AddOutcome { issue_open_session: true, refresh_now: true }
    );
    assert_eq!(c.device_state(1), Some(SessionState::Opening));
    let opened = c.on_session_event(1, SessionEvent::OpenedOk).expect("tracked");
    assert_eq!(opened.notice, SessionNotice::DeviceReady);
    assert!(!opened.release_delegate);
    assert!(c.has_open_session(1));
}

#[test]
fn non_camera_device_is_not_auto_opened() {
    let mut c = Controller::new();
    let desc = DeviceDesc {
        kind: DeviceKind::Scanner,
        name: scalars("Flatbed"),
        transport: TransportType::Network,
        location_description: scalars("shelf"),
        is_remote: true,
        capabilities: caps(false, false),
    };
    let outcome = c.on_device_added(2, desc, true).expect("fresh identity");
    assert_eq!(
        outcome,
        AddOutcome { issue_open_session: false, refresh_now: false }
    );
    assert_eq!(c.device_state(2), Some(SessionState::Discovered));
}

#[test]
fn duplicate_discovery_is_a_registration_conflict() {
    let mut c = Controller::new();
    c.on_device_added(3, camera_desc("A", caps(true, false)), false)
        .expect("fresh identity");
    let again = c.on_device_added(3, camera_desc("B", caps(true, false)), false);
    assert_eq!(again, Err(RequestError::RegistrationConflict));
    // The original record is untouched.
    assert_eq!(c.device_state(3), Some(SessionState::Opening));
}

#[test]
fn open_failure_returns_to_discovered_for_retry() {
    let mut c = Controller::new();
    c.on_device_added(4, camera_desc("C", caps(true, false)), false)
        .expect("fresh identity");
    let failed = c.on_session_event(4, SessionEvent::OpenedErr { code: -9900 }).expect("tracked");
    assert_eq!(failed.notice, SessionNotice::OpenFailed { code: -9900 });
    assert_eq!(c.device_state(4), Some(SessionState::Discovered));
    // The caller chooses to retry.
    assert_eq!(c.request_open_session(4), Ok(true));
    assert_eq!(c.device_state(4), Some(SessionState::Opening));
}

#[test]
fn close_of_closed_session_is_a_successful_no_op() {
    let mut c = Controller::new();
    c.on_device_added(5, camera_desc("D", caps(true, false)), false)
        .expect("fresh identity");
    c.on_session_event(5, SessionEvent::OpenedOk).expect("tracked");
    assert_eq!(c.request_close_session(5), Ok(true));
    let closed = c.on_session_event(5, SessionEvent::ClosedOk).expect("tracked");
    assert_eq!(closed.notice, SessionNotice::SessionClosed { error: None });
    assert!(closed.release_delegate);
    assert_eq!(c.device_state(5), Some(SessionState::Closed));
    // Closing again reports success and does nothing.
    assert_eq!(c.request_close_session(5), Ok(false));
    assert_eq!(c.device_state(5), Some(SessionState::Closed));
}

#[test]
fn close_of_never_opened_session_is_a_successful_no_op() {
    let mut c = Controller::new();
    let desc = DeviceDesc {
        kind: DeviceKind::Other,
        name: scalars("hub"),
        transport: TransportType::Usb,
        location_description: scalars("USB port"),
        is_remote: false,
        capabilities: caps(false, false),
    };
    c.on_device_added(6, desc, false).expect("fresh identity");
    assert_eq!(c.request_close_session(6), Ok(false));
    assert_eq!(c.device_state(6), Some(SessionState::Discovered));
}

#[test]
fn removal_is_terminal_and_wins_over_everything() {
    let mut c = Controller::new();
    c.on_device_added(7, camera_desc("E", caps(true, false)), false)
        .expect("fresh identity");
    let removed = c.on_session_event(7, SessionEvent::DeviceRemoved).expect("tracked");
    assert_eq!(removed.notice, SessionNotice::DeviceGone);
    assert!(removed.release_delegate);
    assert_eq!(c.device_state(7), Some(SessionState::Removed));
    // A late open confirmation is stale and does not reopen the device.
    let late = c.on_session_event(7, SessionEvent::OpenedOk).expect("tracked");
    assert_eq!(late.notice, SessionNotice::Stale);
    assert!(!late.release_delegate);
    assert_eq!(c.device_state(7), Some(SessionState::Removed));
    // Every request on the invalidated handle is rejected.
    assert_eq!(c.request_open_session(7), Err(RequestError::InvalidHandle));
    assert_eq!(c.request_close_session(7), Err(RequestError::InvalidHandle));
    assert_eq!(c.request_take_picture(7), Err(RequestError::InvalidHandle));
    assert_eq!(
        c.request_download_file(7, 1, 100, 1),
        Err(RequestError::InvalidHandle)
    );
}

#[test]
fn removal_aborts_the_pending_transfer_through_the_completion_path() {
    let mut c = Controller::new();
    c.on_device_added(8, camera_desc("F", caps(true, false)), false)
        .expect("fresh identity");
    c.on_session_event(8, SessionEvent::OpenedOk).expect("tracked");
    c.request_download_file(8, 42, 500, 9).expect("accepted");
    let removed = c.on_session_event(8, SessionEvent::DeviceRemoved).expect("tracked");
    let aborted = removed.aborted_transfer.expect("pending transfer is not leaked");
    assert_eq!(aborted.handler, 9);
    assert_eq!(aborted.token, 500);
    assert_eq!(aborted.result, Err(RequestError::InvalidHandle));
}

#[test]
fn second_transfer_while_one_is_pending_is_rejected_without_side_effects() {
    let mut c = Controller::new();
    c.on_device_added(9, camera_desc("G", caps(true, false)), false)
        .expect("fresh identity");
    c.on_session_event(9, SessionEvent::OpenedOk).expect("tracked");
    assert_eq!(c.request_download_file(9, 1, 700, 2), Ok(()));
    assert_eq!(
        c.request_upload_file(9, &scalars("file:///shot.jpg"), 701, 2),
        Err(RequestError::ConcurrentRequestRejected)
    );
    assert_eq!(
        c.request_read_data_from_file(9, 1, 0, 16, 702, 2),
        Err(RequestError::ConcurrentRequestRejected)
    );
    assert_eq!(
        c.request_download_file(9, 1, 703, 2),
        Err(RequestError::ConcurrentRequestRejected)
    );
    // The pending download still completes normally afterwards.
    let done = c.on_transfer_completed(9, 700, Ok(12345)).expect("tracked");
    match done {
        TransferDelivery::Notify { notice } => {
            assert_eq!(notice.handler, 2);
            assert_eq!(notice.token, 700);
            assert_eq!(notice.result, Ok(12345));
        }
        other => panic!("expected a delivery, got {:?}", other),
    }
    // And the device accepts a new transfer again.
    assert_eq!(c.request_upload_file(9, &scalars("file:///b"), 704, 2), Ok(()));
}

#[test]
fn scenario_cancelled_download_swallows_the_late_error_completion() {
    let mut c = Controller::new();
    c.on_device_added(10, camera_desc("H", caps(true, false)), false)
        .expect("fresh identity");
    c.on_session_event(10, SessionEvent::OpenedOk).expect("tracked");
    c.request_download_file(10, 3, 800, 4).expect("accepted");
    assert_eq!(c.cancel_download(10), Ok(true));
    // The native layer still reports a late error for the same token:
    // the caller must see zero handler invocations.
    let late = c.on_transfer_completed(10, 800, Err(-54)).expect("tracked");
    assert_eq!(late, TransferDelivery::Swallowed);
    // The token is retired: anything later for it matches nothing.
    let again = c.on_transfer_completed(10, 800, Err(-54)).expect("tracked");
    assert_eq!(again, TransferDelivery::Unmatched);
}

#[test]
fn cancel_download_with_nothing_in_flight_is_a_no_op() {
    let mut c = Controller::new();
    c.on_device_added(11, camera_desc("I", caps(true, false)), false)
        .expect("fresh identity");
    assert_eq!(c.cancel_download(11), Ok(false));
}

#[test]
fn scenario_tethering_without_capability_is_rejected_before_any_native_call() {
    let mut c = Controller::new();
    c.on_device_added(12, camera_desc("J", caps(false, true)), false)
        .expect("fresh identity");
    c.on_session_event(12, SessionEvent::OpenedOk).expect("tracked");
    assert_eq!(
        c.request_enable_tethering(12),
        Err(RequestError::CapabilityMissing)
    );
    assert_eq!(
        c.request_disable_tethering(12),
        Err(RequestError::CapabilityMissing)
    );
    assert_eq!(
        c.request_take_picture(12),
        Err(RequestError::CapabilityMissing)
    );
    // The clock-sync capability is present, so that request goes through.
    assert_eq!(c.request_sync_clock(12), Ok(()));
}

#[test]
fn watchdog_expiry_synthesizes_a_timeout_through_the_completion_path() {
    let mut c = Controller::new();
    c.on_device_added(13, camera_desc("K", caps(true, false)), false)
        .expect("fresh identity");
    c.on_session_event(13, SessionEvent::OpenedOk).expect("tracked");
    c.request_read_data_from_file(13, 5, 0, 1024, 900, 6).expect("accepted");
    let expired = c.on_watchdog_expired(13, 900).expect("tracked");
    match expired {
        TransferDelivery::Notify { notice } => {
            assert_eq!(notice.handler, 6);
            assert_eq!(notice.token, 900);
            assert_eq!(notice.result, Err(RequestError::Timeout));
        }
        other => panic!("expected a timeout delivery, got {:?}", other),
    }
    // The real completion arriving afterwards matches nothing and is
    // logged by the embedding layer rather than silently dropped.
    let real = c.on_transfer_completed(13, 900, Ok(7)).expect("tracked");
    assert_eq!(real, TransferDelivery::Unmatched);
}

#[test]
fn watchdog_for_an_unknown_token_changes_nothing() {
    let mut c = Controller::new();
    c.on_device_added(14, camera_desc("L", caps(true, false)), false)
        .expect("fresh identity");
    assert_eq!(c.on_watchdog_expired(14, 1), Ok(TransferDelivery::Unmatched));
}

#[test]
fn events_for_untracked_devices_are_invalid_handles() {
    let mut c = Controller::new();
    assert_eq!(
        c.on_session_event(99, SessionEvent::OpenedOk),
        Err(RequestError::InvalidHandle)
    );
    assert_eq!(
        c.on_transfer_completed(99, 1, Ok(0)),
        Err(RequestError::InvalidHandle)
    );
    assert_eq!(c.request_yield(99), Err(RequestError::InvalidHandle));
    assert_eq!(c.device_state(99), None);
}

#[test]
fn native_error_completions_arrive_as_native_call_failures() {
    let mut c = Controller::new();
    c.on_device_added(15, camera_desc("M", caps(true, false)), false)
        .expect("fresh identity");
    c.request_download_file(15, 2, 300, 8).expect("accepted");
    let done = c.on_transfer_completed(15, 300, Err(-4321)).expect("tracked");
    match done {
        TransferDelivery::Notify { notice } => {
            assert_eq!(notice.result, Err(RequestError::NativeCallFailed { code: -4321 }));
        }
        other => panic!("expected a delivery, got {:?}", other),
    }
}

#[test]
fn concurrent_open_requests_are_rejected() {
    let mut c = Controller::new();
    c.on_device_added(16, camera_desc("N", caps(true, false)), false)
        .expect("fresh identity");
    // The auto-open is already in flight.
    assert_eq!(
        c.request_open_session(16),
        Err(RequestError::ConcurrentRequestRejected)
    );
    assert_eq!(
        c.request_close_session(16),
        Err(RequestError::ConcurrentRequestRejected)
    );
    c.on_session_event(16, SessionEvent::OpenedOk).expect("tracked");
    // Opening an open session is a reported no-op.
    assert_eq!(c.request_open_session(16), Ok(false));
}

#[test]
fn content_catalog_ready_is_delivered_only_for_open_sessions() {
    let mut c = Controller::new();
    c.on_device_added(17, camera_desc("O", caps(true, false)), false)
        .expect("fresh identity");
    assert!(!c.on_content_catalog_ready(17));
    c.on_session_event(17, SessionEvent::OpenedOk).expect("tracked");
    assert!(c.on_content_catalog_ready(17));
    assert!(!c.on_content_catalog_ready(999));
}

#[test]
fn plain_requests_need_only_a_usable_handle() {
    let mut c = Controller::new();
    c.on_device_added(18, camera_desc("P", caps(false, false)), false)
        .expect("fresh identity");
    assert_eq!(c.request_eject_or_disconnect(18), Ok(()));
    assert_eq!(c.request_yield(18), Ok(()));
    assert_eq!(c.request_delete_files(18, &vec![1, 2, 3]), Ok(()));
    assert_eq!(c.cancel_delete(18), Ok(()));
    assert_eq!(c.request_send_ptp_command(18, 5, 6), Ok(()));
}
