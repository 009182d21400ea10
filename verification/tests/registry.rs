use rust_webvr::MockVRControlMsg;
use rust_webvr::MockVRInit;
use rust_webvr::VRDisplayData;
use rust_webvr::VRDisplayEvent;
use rust_webvr::VRDisplayEventReason;
use rust_webvr::VREvent;
use rust_webvr::VRGamepadEvent;
use rust_webvr::VRServiceManager;
use std::time::Duration;
use std::time::Instant;
use vr_arbiter::arbitrator::SessionArbitrator;
use vr_arbiter::events::events_of;
use vr_arbiter::events::DeviceEvent;
use vr_arbiter::events::EventReason;
use vr_arbiter::registry::Registry;
use vr_arbiter::types::DeviceHandle;
use vr_arbiter::types::VrError;

fn mock_registry(count: usize) -> Registry {
    let mut service = VRServiceManager::new();
    for _ in 0..count {
        service.register_mock();
    }
    Registry::with_service(service)
}

/// A registry over `count` mock displays, and their ids as listed.
fn listed_registry(count: usize) -> (Registry, Vec<u64>) {
    let mut registry = mock_registry(count);
    let ids = registry.list_devices().iter().map(|s| s.id).collect();
    (registry, ids)
}

#[test]
fn displays_are_known_once_listed() {
    let mut registry = mock_registry(2);
    assert!(!registry.is_initialized());
    for id in 0..64 {
        assert!(!registry.contains_device(id));
        assert_eq!(registry.get_device(id), None);
    }
    let list = registry.list_devices();
    assert!(registry.is_initialized());
    assert_eq!(list.len(), 2);
    for s in list.iter() {
        assert_eq!(registry.get_device(s.id), Some(DeviceHandle { id: s.id }));
        assert_eq!(u64::from(s.data.0.display_id), s.id);
        assert_eq!(s.name, s.data.0.display_name);
    }
    assert_eq!(registry.get_device(list[1].id + 1), None);
}

#[test]
fn listing_is_complete_ordered_and_repeatable() {
    let mut registry = mock_registry(3);
    let first: Vec<u64> = registry.list_devices().iter().map(|s| s.id).collect();
    assert_eq!(first.len(), 3);
    assert!(first[0] < first[1] && first[1] < first[2]);
    // The mock hands out consecutive ids: nothing lies between the listed ones.
    assert_eq!(first[2], first[0] + 2);
    for id in first[0]..=first[2] {
        assert!(registry.contains_device(id));
    }
    let second: Vec<u64> = registry.list_devices().iter().map(|s| s.id).collect();
    assert_eq!(second, first);
}

#[test]
fn drained_events_are_converted_in_order() {
    let record = |id: u32, name: &str| {
        let mut d = VRDisplayData::default();
        d.display_id = id;
        d.display_name = name.to_string();
        d.connected = true;
        d.capabilities.can_present = true;
        d.left_eye_parameters.render_width = 800;
        d
    };
    let drained = vec![
        VREvent::Display(VRDisplayEvent::Focus(record(77, "seventy-seven"))),
        VREvent::Gamepad(VRGamepadEvent::Disconnect(2)),
        VREvent::Display(VRDisplayEvent::Disconnect(9)),
        VREvent::Display(VRDisplayEvent::Change(record(5, "five"))),
        VREvent::Display(VRDisplayEvent::Activate(record(6, "six"), VRDisplayEventReason::Mounted)),
        VREvent::Display(VRDisplayEvent::Deactivate(record(6, "six"), VRDisplayEventReason::Unmounted)),
        VREvent::Display(VRDisplayEvent::PresentChange(record(6, "six"), true)),
        VREvent::Display(VRDisplayEvent::Exit(u32::MAX)),
    ];
    let events = events_of(drained);
    assert_eq!(events.len(), 7);
    match &events[0] {
        DeviceEvent::Focus(s) => {
            assert_eq!(s.id, 77);
            assert_eq!(s.name, "seventy-seven");
            assert!(s.connected);
            assert!(s.capabilities.can_present);
            assert!(!s.capabilities.has_position);
            assert_eq!(s.left_render_size.width, 800);
            assert!(s.stage.is_none());
            assert_eq!(s.data.0.display_id, 77);
        },
        other => panic!("unexpected event {:?}", other),
    }
    assert!(matches!(events[1], DeviceEvent::Disconnect(9)));
    assert!(matches!(&events[2], DeviceEvent::Change(s) if s.id == 5));
    assert!(matches!(&events[3], DeviceEvent::Activate(s, EventReason::Mounted) if s.id == 6));
    assert!(matches!(&events[4], DeviceEvent::Deactivate(s, EventReason::Unmounted) if s.id == 6));
    assert!(matches!(&events[5], DeviceEvent::PresentChange(s, true) if s.id == 6));
    assert!(matches!(events[6], DeviceEvent::Exit(id) if id == u64::from(u32::MAX)));
    assert!(events_of(Vec::new()).is_empty());
    assert!(events_of(vec![VREvent::Gamepad(VRGamepadEvent::Disconnect(1))]).is_empty());
}

#[test]
fn registry_without_services_stays_empty() {
    let mut registry = Registry::new();
    assert!(registry.list_devices().is_empty());
    assert!(registry.is_initialized());
    assert!(registry.poll_hardware_events().is_empty());
    assert!(registry.snapshot(0).is_none());
    assert!(!registry.reset_pose(0));
}

#[test]
fn snapshot_and_pose_reset_answer_for_known_displays_only() {
    let mut registry = mock_registry(1);
    let id = registry.list_devices()[0].id;
    assert!(registry.reset_pose(id));
    assert!(!registry.reset_pose(id + 1));
    assert!(!registry.reset_pose(u64::MAX));
    let s = registry.snapshot(id).expect("the display is known");
    assert_eq!(s.id, id);
    assert_eq!(s.name, "Mock VRDisplay");
    assert!(registry.snapshot(id + 1).is_none());
    assert!(registry.snapshot(id + (1 << 32)).is_none());
}

#[test]
fn polling_an_idle_mock_yields_no_event() {
    let (mut registry, ids) = listed_registry(1);
    assert!(registry.poll_hardware_events().is_empty());
    assert!(registry.contains_device(ids[0]));
}

#[test]
fn access_is_checked_against_registry_and_owner() {
    let (registry, ids) = listed_registry(1);
    let device = ids[0];
    let mut arbitrator = SessionArbitrator::new();
    assert_eq!(arbitrator.check_access(&registry, 1, device), Ok(DeviceHandle { id: device }));
    assert_eq!(arbitrator.check_access(&registry, 1, device + 5), Err(VrError::DeviceNotFound));
    arbitrator.acquire(1, device);
    assert_eq!(arbitrator.owner_of(device), Some(1));
    assert_eq!(arbitrator.check_access(&registry, 1, device), Ok(DeviceHandle { id: device }));
    assert_eq!(arbitrator.check_access(&registry, 2, device), Err(VrError::DeviceBusy));
}

#[test]
fn release_by_a_stranger_is_a_silent_no_op() {
    let mut arbitrator = SessionArbitrator::new();
    arbitrator.release(1, 0);
    assert_eq!(arbitrator.owner_of(0), None);
    arbitrator.acquire(1, 0);
    arbitrator.release(2, 0);
    assert_eq!(arbitrator.owner_of(0), Some(1));
    arbitrator.acquire(1, 0);
    assert_eq!(arbitrator.owner_of(0), Some(1));
    arbitrator.release(1, 0);
    assert_eq!(arbitrator.owner_of(0), None);
    arbitrator.release(1, 0);
    assert_eq!(arbitrator.owner_of(0), None);
}

#[test]
fn polled_events_name_a_display_that_can_be_looked_up() {
    let mut service = VRServiceManager::new();
    let remote = service.register_mock_with_remote(MockVRInit::default());
    let mut registry = Registry::with_service(service);
    let listed = registry.list_devices()[0].id;
    remote.send(MockVRControlMsg::Blur).unwrap();
    remote.send(MockVRControlMsg::Focus).unwrap();
    let start = Instant::now();
    let mut events = Vec::new();
    while events.len() < 2 && start.elapsed() < Duration::from_secs(5) {
        events.extend(registry.poll_hardware_events());
        std::hint::spin_loop();
    }
    assert_eq!(events.len(), 2);
    match (&events[0], &events[1]) {
        (DeviceEvent::Blur(first), DeviceEvent::Focus(second)) => {
            assert!(first.id <= u64::from(u32::MAX));
            assert_eq!(first.id, listed);
            assert_eq!(second.id, listed);
            assert!(registry.contains_device(first.id));
        },
        other => panic!("unexpected events {:?}", other),
    }
    assert!(registry.poll_hardware_events().is_empty());
}
