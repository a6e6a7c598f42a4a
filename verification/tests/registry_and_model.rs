use image_capture_core::capability::{Capability, CapabilitySet};
use image_capture_core::device::{
    files_of_type, CameraProperties, FileItem, MediaKind, TransportType,
};
use image_capture_core::errors::RequestError;
use image_capture_core::registry::{DelegateRegistry, DelegateRole};
use image_capture_core::runloop::MainQueue;
use image_capture_core::session::{step, SessionEvent, SessionState};

#[test]
fn scenario_second_browser_registration_conflicts_first_succeeds() {
    let mut reg = DelegateRegistry::new();
    // Two registrations race; they are serialized on the main thread, and
    // the second one loses.
    assert_eq!(reg.register_browser(), Ok(()));
    assert_eq!(
        reg.register_browser(),
        Err(RequestError::RegistrationConflict)
    );
    // After a release the browser can be registered again.
    assert!(reg.release_browser());
    assert_eq!(reg.register_browser(), Ok(()));
}

#[test]
fn class_definition_is_idempotent_per_role() {
    let mut reg = DelegateRegistry::new();
    assert!(reg.define_class(DelegateRole::DeviceSession));
    assert!(!reg.define_class(DelegateRole::DeviceSession));
    assert!(reg.define_class(DelegateRole::Browser));
    assert!(!reg.define_class(DelegateRole::Browser));
}

#[test]
fn releasing_an_idle_registry_is_a_no_op() {
    let mut reg = DelegateRegistry::new();
    assert!(!reg.release_browser());
    assert_eq!(reg.register_browser(), Ok(()));
}

#[test]
fn removal_event_is_terminal_in_every_state() {
    let all = [
        SessionState::Discovered,
        SessionState::Opening,
        SessionState::Open,
        SessionState::Closing,
        SessionState::Closed,
        SessionState::Removed,
    ];
    for s in all {
        assert_eq!(step(s, SessionEvent::DeviceRemoved), SessionState::Removed);
    }
}

#[test]
fn no_event_leads_out_of_removed_or_back_to_open_from_closed() {
    let events = [
        SessionEvent::DeviceRemoved,
        SessionEvent::OpenedOk,
        SessionEvent::OpenedErr { code: -1 },
        SessionEvent::ClosedOk,
        SessionEvent::ClosedErr { code: -1 },
    ];
    for e in events {
        assert_eq!(step(SessionState::Removed, e), SessionState::Removed);
        assert_ne!(step(SessionState::Closed, e), SessionState::Open);
    }
}

#[test]
fn open_session_transitions_follow_the_table() {
    assert_eq!(
        step(SessionState::Opening, SessionEvent::OpenedOk),
        SessionState::Open
    );
    assert_eq!(
        step(SessionState::Opening, SessionEvent::OpenedErr { code: -2 }),
        SessionState::Discovered
    );
    assert_eq!(
        step(SessionState::Open, SessionEvent::ClosedOk),
        SessionState::Closed
    );
    assert_eq!(
        step(SessionState::Closing, SessionEvent::ClosedErr { code: -2 }),
        SessionState::Closed
    );
    // Stale events change nothing.
    assert_eq!(
        step(SessionState::Discovered, SessionEvent::OpenedOk),
        SessionState::Discovered
    );
}

#[test]
fn capability_set_reports_exactly_its_tags() {
    let set = CapabilitySet::empty().with(Capability::SyncClock).with(Capability::ReceiveFile);
    assert!(set.has(Capability::SyncClock));
    assert!(set.has(Capability::ReceiveFile));
    assert!(!set.has(Capability::TakePicture));
    assert!(!set.has(Capability::DeleteOneFile));
    assert!(!set.has(Capability::DeleteAllFiles));
    assert!(!set.has(Capability::AcceptPtpCommands));
    assert!(!CapabilitySet::empty().has(Capability::SyncClock));
}

#[test]
fn files_of_type_keeps_order_and_kind() {
    let catalog = vec![
        FileItem { id: 1, kind: MediaKind::Image },
        FileItem { id: 2, kind: MediaKind::Movie },
        FileItem { id: 3, kind: MediaKind::Image },
        FileItem { id: 4, kind: MediaKind::Audio },
        FileItem { id: 5, kind: MediaKind::Image },
    ];
    let images = files_of_type(&catalog, MediaKind::Image);
    assert_eq!(
        images,
        vec![
            FileItem { id: 1, kind: MediaKind::Image },
            FileItem { id: 3, kind: MediaKind::Image },
            FileItem { id: 5, kind: MediaKind::Image },
        ]
    );
    let audio = files_of_type(&catalog, MediaKind::Audio);
    assert_eq!(audio, vec![FileItem { id: 4, kind: MediaKind::Audio }]);
}

#[test]
fn camera_properties_accessors_report_the_model() {
    let props = CameraProperties {
        battery_level_available: true,
        battery_level: 87,
        content_catalog_percent: 100,
        time_offset_seconds: -42,
        tethered_capture_enabled: false,
        access_restricted: false,
        mount_point: None,
    };
    assert_eq!(props.battery_level(TransportType::Usb), 87);
    assert_eq!(props.content_catalog_percent_completed(TransportType::Usb), 100);
    let caps = CapabilitySet::empty().with(Capability::SyncClock);
    assert_eq!(props.time_offset(&caps), -42);
    assert!(props.mount_point(TransportType::Usb).is_none());
}

#[test]
fn mass_storage_devices_expose_their_mount_point() {
    let mount: Vec<u32> = "/Volumes/EOS_DIGITAL".chars().map(|c| c as u32).collect();
    let props = CameraProperties {
        battery_level_available: false,
        battery_level: 0,
        content_catalog_percent: 0,
        time_offset_seconds: 0,
        tethered_capture_enabled: false,
        access_restricted: false,
        mount_point: Some(mount.clone()),
    };
    assert_eq!(
        props.mount_point(TransportType::MassStorage).as_ref(),
        Some(&mount)
    );
}

#[test]
fn main_queue_hands_tasks_back_in_order() {
    let mut q = MainQueue::new();
    q.run_on_main(10);
    q.run_on_main(20);
    q.run_on_main(30);
    assert_eq!(q.next_task(), Some(10));
    assert_eq!(q.next_task(), Some(20));
    assert_eq!(q.next_task(), Some(30));
    assert_eq!(q.next_task(), None);
}

#[test]
fn waiting_on_main_drains_everything_queued_before() {
    let mut q = MainQueue::new();
    q.run_on_main(1);
    q.run_on_main(2);
    q.run_on_main_and_wait(3);
    assert_eq!(q.next_task(), None);
}

#[test]
fn callback_marks_nest_correctly() {
    let mut q = MainQueue::new();
    q.enter_callback();
    q.run_on_main(5);
    q.exit_callback();
    assert_eq!(q.next_task(), Some(5));
}

#[test]
fn error_descriptions_are_stable() {
    assert_eq!(
        RequestError::NativeCallFailed { code: -1 }.describe(),
        "native call failed"
    );
    assert_eq!(RequestError::InvalidHandle.describe(), "invalid handle");
    assert_eq!(RequestError::CapabilityMissing.describe(), "capability missing");
    assert_eq!(
        RequestError::ConcurrentRequestRejected.describe(),
        "concurrent request rejected"
    );
    assert_eq!(
        RequestError::RegistrationConflict.describe(),
        "registration conflict"
    );
    assert_eq!(RequestError::Timeout.describe(), "timeout");
}
