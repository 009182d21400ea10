use rust_webvr::MockVRControlMsg;
use rust_webvr::MockVRInit;
use rust_webvr::MockVRView;
use rust_webvr::VRDisplayData;
use rust_webvr::VRServiceManager;
use std::time::Duration;
use std::time::Instant;
use vr_arbiter::dispatcher::delivery;
use vr_arbiter::dispatcher::fan_out;
use vr_arbiter::dispatcher::goes_on;
use vr_arbiter::dispatcher::Reply;
use vr_arbiter::dispatcher::WebVRMsg;
use vr_arbiter::dispatcher::WebVRThread;
use vr_arbiter::events::retain_broadcast;
use vr_arbiter::events::DeviceEvent;
use vr_arbiter::events::EventReason;
use vr_arbiter::scheduler::after_tick;
use vr_arbiter::scheduler::PollAction;
use vr_arbiter::scheduler::PollScheduler;
use vr_arbiter::scheduler::PollState;
use vr_arbiter::scheduler::TickOutcome;
use vr_arbiter::scheduler::POLL_INTERVAL_MS;
use vr_arbiter::snapshot::DeviceCapabilities;
use vr_arbiter::snapshot::DeviceSnapshot;
use vr_arbiter::snapshot::RenderSize;
use vr_arbiter::snapshot::WebVRDisplayData;
use vr_arbiter::types::VrError;

fn mock_thread() -> WebVRThread {
    let mut service = VRServiceManager::new();
    service.register_mock();
    WebVRThread::with_service(service)
}

/// Polls until an event is handed on, for five seconds at most.
fn poll_until_event(thread: &mut WebVRThread) -> Vec<DeviceEvent> {
    let start = Instant::now();
    let mut seen = Vec::new();
    while seen.is_empty() && start.elapsed() < Duration::from_secs(5) {
        seen.extend(thread.poll_events().broadcast.events);
        std::hint::spin_loop();
    }
    seen
}

fn snapshot(id: u64) -> DeviceSnapshot {
    DeviceSnapshot {
        id,
        name: format!("display {}", id),
        connected: true,
        capabilities: DeviceCapabilities {
            can_present: true,
            has_orientation: true,
            has_position: false,
            has_external_display: false,
        },
        left_render_size: RenderSize { width: 640, height: 480 },
        right_render_size: RenderSize { width: 640, height: 480 },
        stage: None,
        data: WebVRDisplayData(VRDisplayData::default()),
    }
}

fn every_kind_of_event() -> Vec<DeviceEvent> {
    vec![
        DeviceEvent::Connect(snapshot(3)),
        DeviceEvent::Change(snapshot(3)),
        DeviceEvent::Disconnect(3),
        DeviceEvent::Pause(3),
        DeviceEvent::Activate(snapshot(3), EventReason::Mounted),
        DeviceEvent::Resume(3),
        DeviceEvent::Deactivate(snapshot(3), EventReason::Unmounted),
        DeviceEvent::Exit(3),
        DeviceEvent::Blur(snapshot(3)),
        DeviceEvent::Focus(snapshot(3)),
        DeviceEvent::PresentChange(snapshot(3), true),
    ]
}

fn kind(e: &DeviceEvent) -> &'static str {
    match e {
        DeviceEvent::Connect(_) => "connect",
        DeviceEvent::Disconnect(_) => "disconnect",
        DeviceEvent::Activate(_, _) => "activate",
        DeviceEvent::Deactivate(_, _) => "deactivate",
        DeviceEvent::Change(_) => "change",
        DeviceEvent::Blur(_) => "blur",
        DeviceEvent::Focus(_) => "focus",
        DeviceEvent::PresentChange(_, _) => "presentchange",
        DeviceEvent::Pause(_) => "pause",
        DeviceEvent::Resume(_) => "resume",
        DeviceEvent::Exit(_) => "exit",
    }
}

#[test]
fn poll_interval_is_half_a_second() {
    assert_eq!(POLL_INTERVAL_MS, 500);
    assert_eq!(after_tick(TickOutcome::Reply(true)), PollAction::Sleep(500));
}

#[test]
fn timer_task_stops_unless_told_to_continue() {
    assert_eq!(after_tick(TickOutcome::Reply(false)), PollAction::Stop);
    assert_eq!(after_tick(TickOutcome::SendFailed), PollAction::Stop);
    assert_eq!(after_tick(TickOutcome::ReplyLost), PollAction::Stop);
}

#[test]
fn scheduler_starts_once() {
    let mut scheduler = PollScheduler::new();
    assert_eq!(scheduler.state(), PollState::Idle);
    assert!(!scheduler.request_start(false));
    assert_eq!(scheduler.state(), PollState::Idle);
    assert!(scheduler.request_start(true));
    assert_eq!(scheduler.state(), PollState::Active);
    assert!(!scheduler.request_start(true));
    assert!(!scheduler.request_start(false));
    assert!(scheduler.is_active());
    assert!(!scheduler.record_poll(false));
    assert_eq!(scheduler.state(), PollState::Idle);
    assert!(scheduler.record_poll(true));
    assert_eq!(scheduler.state(), PollState::Active);
}

#[test]
fn registration_before_initialisation_does_not_start_polling() {
    let mut thread = mock_thread();
    let step = thread.handle_message(WebVRMsg::RegisterContext(1));
    assert!(!step.start_poller);
    assert!(!thread.is_polling());
    assert!(thread.is_registered(1));
    assert!(matches!(step.reply, Reply::Nothing));
}

#[test]
fn listing_displays_starts_polling() {
    let mut thread = mock_thread();
    assert!(!thread.registry().is_initialized());
    let step = thread.handle_message(WebVRMsg::GetVRDisplays);
    assert!(thread.registry().is_initialized());
    assert!(step.start_poller);
    assert!(thread.is_polling());
    match step.reply {
        Reply::Displays(Ok(list)) => assert_eq!(list.len(), 1),
        other => panic!("unexpected reply {:?}", other),
    }
    // Polling is already going on: no second task.
    assert!(!thread.handle_message(WebVRMsg::GetVRDisplays).start_poller);
    assert!(!thread.handle_message(WebVRMsg::RegisterContext(1)).start_poller);
}

#[test]
fn polling_follows_the_registered_contexts() {
    let mut thread = mock_thread();
    thread.handle_get_displays();
    // The display list was served by a direct call: the scheduler is idle.
    assert!(!thread.is_polling());
    let step = thread.handle_message(WebVRMsg::RegisterContext(7));
    assert!(step.start_poller);
    assert!(thread.is_polling());
    let tick = thread.handle_message(WebVRMsg::PollEvents);
    assert!(matches!(tick.reply, Reply::KeepPolling(true)));
    assert_eq!(after_tick(TickOutcome::Reply(true)), PollAction::Sleep(POLL_INTERVAL_MS));
    thread.handle_message(WebVRMsg::UnregisterContext(7));
    // The scheduler learns of it at the next tick.
    assert!(thread.is_polling());
    let tick = thread.handle_message(WebVRMsg::PollEvents);
    assert!(matches!(tick.reply, Reply::KeepPolling(false)));
    assert!(!thread.is_polling());
    assert_eq!(after_tick(TickOutcome::Reply(false)), PollAction::Stop);
    // Interest that reappears starts a new task.
    assert!(thread.handle_message(WebVRMsg::RegisterContext(8)).start_poller);
}

#[test]
fn registering_twice_and_unregistering_a_stranger_change_nothing() {
    let mut thread = mock_thread();
    thread.handle_register_context(5);
    thread.handle_register_context(5);
    assert_eq!(thread.recipients(), vec![5]);
    thread.handle_unregister_context(6);
    assert_eq!(thread.recipients(), vec![5]);
    thread.handle_unregister_context(5);
    assert!(thread.recipients().is_empty());
    assert!(!thread.poll_events().keep_polling);
}

#[test]
fn fresh_dispatcher_knows_no_display() {
    let mut thread = WebVRThread::new();
    assert!(!thread.is_polling());
    assert!(!thread.registry().is_initialized());
    assert!(!thread.registry().contains_device(0));
    assert_eq!(thread.handle_framedata(1, 0), Err(VrError::DeviceNotFound));
    assert!(thread.handle_get_displays().is_empty());
    assert!(thread.registry().is_initialized());
    assert!(thread.recipients().is_empty());
}

#[test]
fn change_and_loop_hints_are_not_broadcast() {
    let kept = retain_broadcast(every_kind_of_event());
    let kinds: Vec<&str> = kept.iter().map(kind).collect();
    assert_eq!(
        kinds,
        vec!["connect", "disconnect", "activate", "deactivate", "blur", "focus", "presentchange"]
    );
    for e in every_kind_of_event() {
        let expected = !matches!(
            e,
            DeviceEvent::Change(_) | DeviceEvent::Pause(_) | DeviceEvent::Resume(_) | DeviceEvent::Exit(_)
        );
        assert_eq!(e.broadcast(), expected);
    }
}

#[test]
fn fan_out_keeps_recipients_and_order() {
    let b = fan_out(every_kind_of_event(), vec![9, 4, 6]);
    assert_eq!(b.recipients, vec![9, 4, 6]);
    assert_eq!(b.events.len(), 7);
    assert_eq!(kind(&b.events[0]), "connect");
    assert_eq!(kind(&b.events[6]), "presentchange");
    let none = fan_out(Vec::new(), vec![1]);
    assert!(none.events.is_empty());
    assert_eq!(none.recipients, vec![1]);
}

#[test]
fn poll_without_pending_events_hands_on_nothing() {
    let mut thread = mock_thread();
    thread.handle_get_displays();
    thread.handle_register_context(1);
    let out = thread.poll_events();
    assert!(out.keep_polling);
    assert!(out.broadcast.events.is_empty());
    assert_eq!(out.broadcast.recipients, vec![1]);
}

#[test]
fn hardware_events_reach_registered_contexts() {
    let mut service = VRServiceManager::new();
    let remote = service.register_mock_with_remote(MockVRInit::default());
    let mut thread = WebVRThread::with_service(service);
    thread.handle_get_displays();
    thread.handle_register_context(1);
    thread.handle_register_context(2);
    remote.send(MockVRControlMsg::Focus).unwrap();
    let out = thread.poll_events();
    assert!(out.keep_polling);
    let mut recipients = out.broadcast.recipients.clone();
    recipients.sort();
    assert_eq!(recipients, vec![1, 2]);
    let mut seen = out.broadcast.events;
    if seen.is_empty() {
        seen = poll_until_event(&mut thread);
    }
    assert_eq!(seen.len(), 1);
    match &seen[0] {
        DeviceEvent::Focus(s) => {
            assert_eq!(s.name, "Mock VRDisplay");
            assert!(thread.registry().contains_device(s.id));
        },
        other => panic!("unexpected event {:?}", other),
    }
}

#[test]
fn metadata_change_from_the_hardware_is_kept_back() {
    let mut service = VRServiceManager::new();
    let remote = service.register_mock_with_remote(MockVRInit::default());
    let mut thread = WebVRThread::with_service(service);
    thread.handle_get_displays();
    thread.handle_register_context(1);
    let view = || MockVRView { projection: [0.0; 16], offset: [0.0; 3] };
    remote.send(MockVRControlMsg::SetViews(view(), view())).unwrap();
    remote.send(MockVRControlMsg::Blur).unwrap();
    let seen = poll_until_event(&mut thread);
    // The change came first and was dropped; the blur got through.
    assert_eq!(seen.len(), 1);
    assert_eq!(kind(&seen[0]), "blur");
}

#[test]
fn exit_ends_the_dispatcher_and_nothing_else_does() {
    let mut thread = mock_thread();
    let step = thread.handle_message(WebVRMsg::Exit);
    assert!(step.stop);
    assert!(!goes_on(&step, &Ok(())));
    let step = thread.handle_message(WebVRMsg::RequestPresent(1, 999));
    assert!(!step.stop);
    assert!(matches!(step.reply, Reply::Present(Err(VrError::DeviceNotFound))));
    assert!(goes_on(&step, &delivery(false)));
}

#[test]
fn undelivered_reply_is_a_transport_failure() {
    assert_eq!(delivery(false), Err(VrError::TransportFailure));
    assert_eq!(delivery(true), Ok(()));
}
