//! Hardware events and the policy that decides which of them reach clients.

use vstd::prelude::*;
use rust_webvr_api::VRDisplayData;
use rust_webvr_api::VRDisplayEvent;
use rust_webvr_api::VRDisplayEventReason;
use rust_webvr_api::VREvent;
use crate::snapshot::snapshot_form;
use crate::snapshot::snapshot_from_data;
use crate::snapshot::DeviceSnapshot;
use crate::types::ContextId;
use crate::types::DeviceId;

verus! {

#[verifier::external_type_specification]
#[verifier::external_body]
pub struct ExVREvent(VREvent);

#[verifier::external_type_specification]
#[verifier::external_body]
pub struct ExVRDisplayEvent(VRDisplayEvent);

#[verifier::external_type_specification]
#[verifier::external_body]
pub struct ExVRDisplayEventReason(VRDisplayEventReason);

/// Why a display asks to be presented to, or to leave presentation.
#[derive(Clone, Copy, Debug, PartialEq, Eq, Structural)]
pub enum EventReason {
    /// The page was navigated to from a page that was presenting.
    Navigation,
    /// The user has put the display on.
    Mounted,
    /// The user has taken the display off.
    Unmounted,
}

/// One event of a display.
#[derive(Debug)]
pub enum DeviceEvent {
    /// A display has been connected.
    Connect(DeviceSnapshot),
    /// The display with this id has been disconnected.
    Disconnect(DeviceId),
    /// Something suggests that the display should be presented to.
    Activate(DeviceSnapshot, EventReason),
    /// Something suggests that the display should leave presentation.
    Deactivate(DeviceSnapshot, EventReason),
    /// Metadata of the display has changed.
    Change(DeviceSnapshot),
    /// Presentation has been paused by the user agent, the system or the hardware.
    Blur(DeviceSnapshot),
    /// Presentation has resumed after a blur.
    Focus(DeviceSnapshot),
    /// The display has begun (`true`) or ended (`false`) presenting.
    PresentChange(DeviceSnapshot, bool),
    /// The presentation loop of the display with this id must pause.
    Pause(DeviceId),
    /// The presentation loop of the display with this id must resume.
    Resume(DeviceId),
    /// The user has left presentation on the display with this id.
    Exit(DeviceId),
}

/// A display event as the hardware layer hands it out, its fields moved
/// into the variant of the same name.
pub enum RawEvent {
    Connect(VRDisplayData),
    Disconnect(u32),
    Activate(VRDisplayData, VRDisplayEventReason),
    Deactivate(VRDisplayData, VRDisplayEventReason),
    Change(VRDisplayData),
    Blur(VRDisplayData),
    Focus(VRDisplayData),
    PresentChange(VRDisplayData, bool),
    Pause(u32),
    Resume(u32),
    Exit(u32),
}

/// The id by which an event names its display: the id of the snapshot
/// that it carries, or the id that it carries by itself.
pub open spec fn device_of(e: DeviceEvent) -> DeviceId {
    match e {
        DeviceEvent::Connect(s) => s.id,
        DeviceEvent::Disconnect(id) => id,
        DeviceEvent::Activate(s, _) => s.id,
        DeviceEvent::Deactivate(s, _) => s.id,
        DeviceEvent::Change(s) => s.id,
        DeviceEvent::Blur(s) => s.id,
        DeviceEvent::Focus(s) => s.id,
        DeviceEvent::PresentChange(s, _) => s.id,
        DeviceEvent::Pause(id) => id,
        DeviceEvent::Resume(id) => id,
        DeviceEvent::Exit(id) => id,
    }
}

/// One or more events together with the contexts that must receive each of them.
#[derive(Debug)]
pub struct Broadcast {
    pub recipients: Vec<ContextId>,
    pub events: Vec<DeviceEvent>,
}

/// The events that clients are told about: connection, disconnection,
/// activation, deactivation, blur, focus and a change of presentation.
/// A metadata change and the presentation-loop hints are kept from them.
pub open spec fn is_broadcast(e: DeviceEvent) -> bool {
    match e {
        DeviceEvent::Connect(_) => true,
        DeviceEvent::Disconnect(_) => true,
        DeviceEvent::Activate(_, _) => true,
        DeviceEvent::Deactivate(_, _) => true,
        DeviceEvent::Change(_) => false,
        DeviceEvent::Blur(_) => true,
        DeviceEvent::Focus(_) => true,
        DeviceEvent::PresentChange(_, _) => true,
        DeviceEvent::Pause(_) => false,
        DeviceEvent::Resume(_) => false,
        DeviceEvent::Exit(_) => false,
    }
}

impl DeviceEvent {
    /// Whether this event is broadcast to the registered contexts.
    pub fn broadcast(&self) -> (b: bool)
        ensures
            b == is_broadcast(*self),
    {
        match self {
            DeviceEvent::Connect(_) => true,
            DeviceEvent::Disconnect(_) => true,
            DeviceEvent::Activate(_, _) => true,
            DeviceEvent::Deactivate(_, _) => true,
            DeviceEvent::Change(_) => false,
            DeviceEvent::Blur(_) => true,
            DeviceEvent::Focus(_) => true,
            DeviceEvent::PresentChange(_, _) => true,
            DeviceEvent::Pause(_) => false,
            DeviceEvent::Resume(_) => false,
            DeviceEvent::Exit(_) => false,
        }
    }
}

/// The events of `events` that are broadcast, in their order.
pub open spec fn broadcast_only(events: Seq<DeviceEvent>) -> Seq<DeviceEvent> {
    events.filter(|e: DeviceEvent| is_broadcast(e))
}

/// Keeps, in their order, the events that are broadcast.
pub fn retain_broadcast(events: Vec<DeviceEvent>) -> (kept: Vec<DeviceEvent>)
    ensures
        kept@ == broadcast_only(events@),
{
    let ghost all = events@;
    let mut kept: Vec<DeviceEvent> = Vec::new();
    for e in iter: events.into_iter()
        invariant
            iter.seq() == all,
            kept@ == broadcast_only(all.take(iter.index())),
    {
        proof {
            let i = iter.index();
            assert(all.take(i + 1) == all.take(i).push(e));
            all.take(i).lemma_filter_push(e, |e: DeviceEvent| is_broadcast(e));
        }
        if e.broadcast() {
            kept.push(e);
        }
    }
    proof {
        assert(all.take(all.len() as int) == all);
    }
    kept
}

/// The display event inside an event of the hardware layer, if it is one.
pub uninterp spec fn display_part(e: VREvent) -> Option<VRDisplayEvent>;

/// The variant and the fields of a display event.
pub uninterp spec fn raw_form(e: VRDisplayEvent) -> RawEvent;

/// The reason that a reason of the hardware layer stands for.
pub uninterp spec fn reason_form(r: VRDisplayEventReason) -> EventReason;

/// Tells the two kinds of `VREvent` apart: a display event is handed on,
/// a gamepad event is dropped. The result depends on the event alone.
#[verifier::external_body]
pub(crate) fn display_event_of(e: VREvent) -> (r: Option<VRDisplayEvent>)
    ensures
        r == display_part(e),
{
    match e {
        VREvent::Display(d) => Some(d),
        VREvent::Gamepad(_) => None,
    }
}

/// Moves the fields of a `VRDisplayEvent` into the variant of the same
/// name. The result depends on the event alone.
#[verifier::external_body]
pub(crate) fn raw_event_of(e: VRDisplayEvent) -> (r: RawEvent)
    ensures
        r == raw_form(e),
{
    match e {
        VRDisplayEvent::Connect(d) => RawEvent::Connect(d),
        VRDisplayEvent::Disconnect(k) => RawEvent::Disconnect(k),
        VRDisplayEvent::Activate(d, r) => RawEvent::Activate(d, r),
        VRDisplayEvent::Deactivate(d, r) => RawEvent::Deactivate(d, r),
        VRDisplayEvent::Change(d) => RawEvent::Change(d),
        VRDisplayEvent::Blur(d) => RawEvent::Blur(d),
        VRDisplayEvent::Focus(d) => RawEvent::Focus(d),
        VRDisplayEvent::PresentChange(d, p) => RawEvent::PresentChange(d, p),
        VRDisplayEvent::Pause(k) => RawEvent::Pause(k),
        VRDisplayEvent::Resume(k) => RawEvent::Resume(k),
        VRDisplayEvent::Exit(k) => RawEvent::Exit(k),
    }
}

/// Tells the three values of `VRDisplayEventReason` apart. The result
/// depends on the reason alone.
#[verifier::external_body]
pub(crate) fn reason_of(r: VRDisplayEventReason) -> (reason: EventReason)
    ensures
        reason == reason_form(r),
{
    match r {
        VRDisplayEventReason::Navigation => EventReason::Navigation,
        VRDisplayEventReason::Mounted => EventReason::Mounted,
        VRDisplayEventReason::Unmounted => EventReason::Unmounted,
    }
}

/// The event that `raw` stands for: the variant of the same name, with
/// each display record read as a snapshot and each key widened to an id.
pub open spec fn event_form(raw: RawEvent) -> DeviceEvent {
    match raw {
        RawEvent::Connect(d) => DeviceEvent::Connect(snapshot_form(d)),
        RawEvent::Disconnect(k) => DeviceEvent::Disconnect(k as DeviceId),
        RawEvent::Activate(d, r) => DeviceEvent::Activate(snapshot_form(d), reason_form(r)),
        RawEvent::Deactivate(d, r) => DeviceEvent::Deactivate(snapshot_form(d), reason_form(r)),
        RawEvent::Change(d) => DeviceEvent::Change(snapshot_form(d)),
        RawEvent::Blur(d) => DeviceEvent::Blur(snapshot_form(d)),
        RawEvent::Focus(d) => DeviceEvent::Focus(snapshot_form(d)),
        RawEvent::PresentChange(d, p) => DeviceEvent::PresentChange(snapshot_form(d), p),
        RawEvent::Pause(k) => DeviceEvent::Pause(k as DeviceId),
        RawEvent::Resume(k) => DeviceEvent::Resume(k as DeviceId),
        RawEvent::Exit(k) => DeviceEvent::Exit(k as DeviceId),
    }
}

/// The event that `raw` stands for.
pub fn event_of(raw: RawEvent) -> (e: DeviceEvent)
    ensures
        e == event_form(raw),
        device_of(e) <= u32::MAX,
{
    match raw {
        RawEvent::Connect(d) => DeviceEvent::Connect(snapshot_from_data(d)),
        RawEvent::Disconnect(k) => DeviceEvent::Disconnect(k as DeviceId),
        RawEvent::Activate(d, r) => DeviceEvent::Activate(snapshot_from_data(d), reason_of(r)),
        RawEvent::Deactivate(d, r) => DeviceEvent::Deactivate(snapshot_from_data(d), reason_of(r)),
        RawEvent::Change(d) => DeviceEvent::Change(snapshot_from_data(d)),
        RawEvent::Blur(d) => DeviceEvent::Blur(snapshot_from_data(d)),
        RawEvent::Focus(d) => DeviceEvent::Focus(snapshot_from_data(d)),
        RawEvent::PresentChange(d, p) => DeviceEvent::PresentChange(snapshot_from_data(d), p),
        RawEvent::Pause(k) => DeviceEvent::Pause(k as DeviceId),
        RawEvent::Resume(k) => DeviceEvent::Resume(k as DeviceId),
        RawEvent::Exit(k) => DeviceEvent::Exit(k as DeviceId),
    }
}

/// What one event of the hardware layer becomes: a display event becomes
/// the event that it stands for, and a gamepad event becomes nothing.
pub open spec fn converted(e: VREvent) -> Option<DeviceEvent> {
    match display_part(e) {
        Some(d) => Some(event_form(raw_form(d))),
        None => None,
    }
}

/// What a drained list of events becomes: each display event in its
/// place, the gamepad events left out.
pub open spec fn events_form(drained: Seq<VREvent>) -> Seq<DeviceEvent> {
    drained.filter_map(|e: VREvent| converted(e))
}

/// Converts the list of events that the hardware layer has handed out:
/// the display events, in their order, each as the event that it stands
/// for. Every event names its display by an id that a key of the
/// hardware layer can hold.
pub fn events_of(drained: Vec<VREvent>) -> (events: Vec<DeviceEvent>)
    ensures
        events@ == events_form(drained@),
        forall|i: int| 0 <= i < events@.len() ==> device_of(#[trigger] events@[i]) <= u32::MAX,
{
    let ghost all = drained@;
    let mut events: Vec<DeviceEvent> = Vec::new();
    for e in iter: drained.into_iter()
        invariant
            iter.seq() == all,
            events@ == events_form(all.take(iter.index())),
            forall|i: int| 0 <= i < events@.len() ==> device_of(#[trigger] events@[i]) <= u32::MAX,
    {
        proof {
            all.lemma_filter_map_take_succ(|e: VREvent| converted(e), iter.index());
        }
        match display_event_of(e) {
            Some(d) => {
                events.push(event_of(raw_event_of(d)));
            },
            None => {},
        }
    }
    proof {
        assert(all.take(all.len() as int) == all);
    }
    events
}

} // verus!
