//! The client's side of one display: the snapshot that it keeps, whether it
//! presents, which events it fires, and what it asks of the dispatcher.

use vstd::prelude::*;
use crate::dispatcher::WebVRMsg;
use crate::events::is_broadcast;
use crate::events::DeviceEvent;
use crate::events::EventReason;
use crate::layer::given;
use crate::layer::message_of;
use crate::layer::validate_layer;
use crate::layer::validated_layer;
use crate::layer::LayerBounds;
use crate::layer::LayerError;
use crate::snapshot::DeviceSnapshot;
use crate::types::error_message;
use crate::types::ContextId;
use crate::types::DeviceId;
use crate::types::VrError;

verus! {

/// The name under which an event is fired at clients. Only the events that
/// are broadcast have one.
pub open spec fn event_name(e: DeviceEvent) -> Seq<char>
    recommends
        is_broadcast(e),
{
    match e {
        DeviceEvent::Connect(_) => "onvrdisplayconnect"@,
        DeviceEvent::Disconnect(_) => "onvrdisplaydisconnect"@,
        DeviceEvent::Activate(_, _) => "onvrdisplayactivate"@,
        DeviceEvent::Deactivate(_, _) => "onvrdisplaydeactivate"@,
        DeviceEvent::Blur(_) => "onvrdisplayblur"@,
        DeviceEvent::Focus(_) => "onvrdisplayfocus"@,
        DeviceEvent::PresentChange(_, _) => "onvrdisplaypresentchange"@,
        _ => Seq::empty(),
    }
}

/// The reason that an event carries: an activation or a deactivation has
/// one, the others have none.
pub open spec fn event_reason(e: DeviceEvent) -> Option<EventReason> {
    match e {
        DeviceEvent::Activate(_, r) => Some(r),
        DeviceEvent::Deactivate(_, r) => Some(r),
        _ => None,
    }
}

/// An event as a client sees it.
#[derive(Debug)]
pub struct ClientEvent {
    pub type_: String,
    pub bubbles: bool,
    pub cancelable: bool,
    pub display: DeviceId,
    pub reason: Option<EventReason>,
}

impl ClientEvent {
    pub fn new(type_: String, bubbles: bool, cancelable: bool, display: DeviceId, reason: Option<EventReason>) -> (e:
        ClientEvent)
        ensures
            e.type_ == type_,
            e.bubbles == bubbles,
            e.cancelable == cancelable,
            e.display == display,
            e.reason == reason,
    {
        ClientEvent { type_, bubbles, cancelable, display, reason }
    }

    /// The client event for a hardware event of `display`: it goes by the
    /// event's name, carries its reason, and neither bubbles nor can be
    /// cancelled.
    pub fn new_from_webvr(display: DeviceId, event: &DeviceEvent) -> (e: ClientEvent)
        requires
            is_broadcast(*event),
        ensures
            e.type_@ == event_name(*event),
            !e.bubbles,
            !e.cancelable,
            e.display == display,
            e.reason == event_reason(*event),
    {
        let (name, reason) = match event {
            DeviceEvent::Connect(_) => ("onvrdisplayconnect", None),
            DeviceEvent::Disconnect(_) => ("onvrdisplaydisconnect", None),
            DeviceEvent::Activate(_, reason) => ("onvrdisplayactivate", Some(*reason)),
            DeviceEvent::Deactivate(_, reason) => ("onvrdisplaydeactivate", Some(*reason)),
            DeviceEvent::Blur(_) => ("onvrdisplayblur", None),
            DeviceEvent::Focus(_) => ("onvrdisplayfocus", None),
            _ => ("onvrdisplaypresentchange", None),
        };
        ClientEvent::new(name.to_owned(), false, false, display, reason)
    }

    /// The client event for `event`, or `None` for an event that has no
    /// name among clients.
    pub fn try_from_webvr(display: DeviceId, event: &DeviceEvent) -> (r: Option<ClientEvent>)
        ensures
            r is Some == is_broadcast(*event),
            r matches Some(e) ==> {
                &&& e.type_@ == event_name(*event)
                &&& !e.bubbles
                &&& !e.cancelable
                &&& e.display == display
                &&& e.reason == event_reason(*event)
            },
    {
        if event.broadcast() {
            Some(ClientEvent::new_from_webvr(display, event))
        } else {
            None
        }
    }
}

/// The snapshot that a client keeps of a display once it has seen `e`:
/// an event that carries a snapshot replaces it, and a disconnection marks
/// it as not connected.
pub open spec fn snapshot_after(d: DeviceSnapshot, e: DeviceEvent) -> DeviceSnapshot {
    match e {
        DeviceEvent::Connect(s) => s,
        DeviceEvent::Disconnect(_) => DeviceSnapshot { connected: false, ..d },
        DeviceEvent::Activate(s, _) => s,
        DeviceEvent::Deactivate(s, _) => s,
        DeviceEvent::Change(s) => s,
        DeviceEvent::Blur(s) => s,
        DeviceEvent::Focus(s) => s,
        DeviceEvent::PresentChange(s, _) => s,
        _ => d,
    }
}

/// Whether a client presents once it has seen `e`: only a change of
/// presentation tells it otherwise.
pub open spec fn presenting_after(presenting: bool, e: DeviceEvent) -> bool {
    match e {
        DeviceEvent::PresentChange(_, p) => p,
        _ => presenting,
    }
}

/// Whether a display fires `e` at its listeners: an activation, a
/// deactivation, a blur, a focus and a change of presentation are fired;
/// a connection, a disconnection and a change of metadata only update
/// what the display knows.
pub open spec fn is_fired(e: DeviceEvent) -> bool {
    e is Activate || e is Deactivate || e is Blur || e is Focus || e is PresentChange
}

/// Why a client's request to start or stop presenting came to nothing.
#[derive(Clone, Copy, Debug, PartialEq, Eq, Structural)]
pub enum PresentRejection {
    /// The display cannot present.
    CannotPresent,
    /// The request did not name exactly one layer.
    LayerCount,
    /// The layer is not valid.
    Layer(LayerError),
    /// The display is not presenting.
    NotPresenting,
    /// No dispatcher can be reached.
    NotAvailable,
    /// The dispatcher refused.
    Refused(VrError),
}

/// The text that goes with each rejection.
pub open spec fn rejection_message(r: PresentRejection) -> Seq<char> {
    match r {
        PresentRejection::CannotPresent => "VRDisplay canPresent is false"@,
        PresentRejection::LayerCount => "The number of layers must be 1"@,
        PresentRejection::Layer(e) => message_of(e),
        PresentRejection::NotPresenting => "VRDisplay is not presenting"@,
        PresentRejection::NotAvailable => "Not available"@,
        PresentRejection::Refused(e) => error_message(e),
    }
}

impl PresentRejection {
    /// The text that a client is given with the rejection.
    pub fn message(&self) -> (m: &'static str)
        ensures
            m@ == rejection_message(*self),
    {
        match self {
            PresentRejection::CannotPresent => "VRDisplay canPresent is false",
            PresentRejection::LayerCount => "The number of layers must be 1",
            PresentRejection::Layer(e) => e.message(),
            PresentRejection::NotPresenting => "VRDisplay is not presenting",
            PresentRejection::NotAvailable => "Not available",
            PresentRejection::Refused(e) => e.message(),
        }
    }
}

/// One layer as a client names it.
#[derive(Debug)]
pub struct LayerRequest<T> {
    /// Whether the source of the layer yields a WebGL context.
    pub has_webgl_context: bool,
    pub left_bounds: Option<Vec<T>>,
    pub right_bounds: Option<Vec<T>>,
}

/// What a valid request to present leads to.
#[derive(Debug)]
pub enum PresentPlan<T> {
    /// The display presents already: the layer shown is replaced, and the
    /// request is fulfilled at once.
    UpdateLayer(LayerBounds<T>),
    /// The dispatcher is to be sent this request; once it grants it, the
    /// layer is shown.
    Request(WebVRMsg, LayerBounds<T>),
}

/// The checks that a request to present goes through, in their order: the
/// display can present, exactly one layer is named, and the layer is
/// valid. `Ok` holds the bounds of the layer for the two eyes.
pub open spec fn checked_layers<T>(can_present: bool, layers: Seq<LayerRequest<T>>, defaults: LayerBounds<T>) -> Result<
    (Seq<T>, Seq<T>),
    PresentRejection,
> {
    if !can_present {
        Err(PresentRejection::CannotPresent)
    } else if layers.len() != 1 {
        Err(PresentRejection::LayerCount)
    } else {
        match validated_layer(
            layers[0].has_webgl_context,
            given(layers[0].left_bounds),
            given(layers[0].right_bounds),
            defaults,
        ) {
            Ok(bounds) => Ok(bounds),
            Err(e) => Err(PresentRejection::Layer(e)),
        }
    }
}

/// A display as a client holds it.
#[derive(Debug)]
pub struct VRDisplay {
    display: DeviceSnapshot,
    presenting: bool,
}

/// What a client knows of a display.
pub struct DisplayState {
    /// The snapshot that the client keeps.
    pub data: DeviceSnapshot,
    /// Whether the client presents on the display.
    pub presenting: bool,
}

impl View for VRDisplay {
    type V = DisplayState;

    closed spec fn view(&self) -> DisplayState {
        DisplayState { data: self.display, presenting: self.presenting }
    }
}

impl VRDisplay {
    /// A display that is not presenting.
    pub fn new(display: DeviceSnapshot) -> (d: VRDisplay)
        ensures
            d@.data == display,
            !d@.presenting,
    {
        VRDisplay { display, presenting: false }
    }

    pub fn get_display_id(&self) -> (id: DeviceId)
        ensures
            id == self@.data.id,
    {
        self.display.id
    }

    pub fn is_connected(&self) -> (b: bool)
        ensures
            b == self@.data.connected,
    {
        self.display.connected
    }

    pub fn is_presenting(&self) -> (b: bool)
        ensures
            b == self@.presenting,
    {
        self.presenting
    }

    /// The snapshot that the client keeps.
    pub fn snapshot(&self) -> (s: &DeviceSnapshot)
        ensures
            *s == self@.data,
    {
        &self.display
    }

    /// Replaces the snapshot that the client keeps.
    pub fn update_display(&mut self, display: DeviceSnapshot)
        ensures
            final(self)@.data == display,
            final(self)@.presenting == old(self)@.presenting,
    {
        self.display = display;
    }

    /// Takes note of a hardware event and returns the event to fire at the
    /// listeners of the display, if the event is one that is fired.
    pub fn handle_webvr_event(&mut self, event: DeviceEvent) -> (fired: Option<ClientEvent>)
        ensures
            final(self)@.data == snapshot_after(old(self)@.data, event),
            final(self)@.presenting == presenting_after(old(self)@.presenting, event),
            fired is Some == is_fired(event),
            fired matches Some(e) ==> {
                &&& e.type_@ == event_name(event)
                &&& !e.bubbles
                &&& !e.cancelable
                &&& e.display == final(self)@.data.id
                &&& e.reason == event_reason(event)
            },
    {
        let fires = match &event {
            DeviceEvent::Activate(_, _) => true,
            DeviceEvent::Deactivate(_, _) => true,
            DeviceEvent::Blur(_) => true,
            DeviceEvent::Focus(_) => true,
            DeviceEvent::PresentChange(_, _) => true,
            _ => false,
        };
        let fired = if fires {
            Some(ClientEvent::new_from_webvr(self.display.id, &event))
        } else {
            None
        };
        match event {
            DeviceEvent::Connect(s) => {
                self.display = s;
            },
            DeviceEvent::Disconnect(_) => {
                self.display.connected = false;
            },
            DeviceEvent::Activate(s, _) => {
                self.display = s;
            },
            DeviceEvent::Deactivate(s, _) => {
                self.display = s;
            },
            DeviceEvent::Change(s) => {
                self.display = s;
            },
            DeviceEvent::Blur(s) => {
                self.display = s;
            },
            DeviceEvent::Focus(s) => {
                self.display = s;
            },
            DeviceEvent::PresentChange(s, presenting) => {
                self.display = s;
                self.presenting = presenting;
            },
            _ => {},
        }
        match fired {
            Some(e) => Some(ClientEvent::new(e.type_, e.bubbles, e.cancelable, self.display.id, e.reason)),
            None => None,
        }
    }

    /// Decides what a request of `context` to present `layers` leads to.
    /// The checks come in this order: the display can present; exactly one
    /// layer is named; the layer is valid. A display that presents already
    /// only has its layer replaced; otherwise the dispatcher is asked, if
    /// one can be reached.
    pub fn plan_request_present<T: Copy>(
        &self,
        context: ContextId,
        layers: &Vec<LayerRequest<T>>,
        defaults: LayerBounds<T>,
        dispatcher_available: bool,
    ) -> (r: Result<PresentPlan<T>, PresentRejection>)
        ensures
            match checked_layers(self@.data.capabilities.can_present, layers@, defaults) {
                Err(e) => r matches Err(e2) && e2 == e,
                Ok((left, right)) => if self@.presenting {
                    r matches Ok(PresentPlan::UpdateLayer(b)) && b.left_bounds@ == left
                        && b.right_bounds@ == right
                } else if dispatcher_available {
                    r matches Ok(PresentPlan::Request(msg, b)) && msg == WebVRMsg::RequestPresent(
                        context,
                        self@.data.id,
                    ) && b.left_bounds@ == left && b.right_bounds@ == right
                } else {
                    r matches Err(e2) && e2 == PresentRejection::NotAvailable
                },
            },
    {
        if !self.display.capabilities.can_present {
            return Err(PresentRejection::CannotPresent);
        }
        if layers.len() != 1 {
            return Err(PresentRejection::LayerCount);
        }
        let layer = &layers[0];
        let bounds = match validate_layer(
            layer.has_webgl_context,
            &layer.left_bounds,
            &layer.right_bounds,
            defaults,
        ) {
            Ok(b) => b,
            Err(e) => {
                return Err(PresentRejection::Layer(e));
            },
        };
        if self.presenting {
            Ok(PresentPlan::UpdateLayer(bounds))
        } else if dispatcher_available {
            Ok(PresentPlan::Request(WebVRMsg::RequestPresent(context, self.display.id), bounds))
        } else {
            Err(PresentRejection::NotAvailable)
        }
    }

    /// Takes the dispatcher's answer to a request to present: a grant
    /// makes the display presenting, a refusal is handed on.
    pub fn complete_request_present(&mut self, reply: Result<(), VrError>) -> (r: Result<(), PresentRejection>)
        ensures
            final(self)@.data == old(self)@.data,
            match reply {
                Ok(_) => r is Ok && final(self)@.presenting,
                Err(e) => r == Err::<(), PresentRejection>(PresentRejection::Refused(e))
                    && final(self)@.presenting == old(self)@.presenting,
            },
    {
        match reply {
            Ok(_) => {
                self.presenting = true;
                Ok(())
            },
            Err(e) => Err(PresentRejection::Refused(e)),
        }
    }

    /// Decides what a request of `context` to stop presenting leads to: a
    /// display that is not presenting rejects it; otherwise the dispatcher
    /// is asked, if one can be reached.
    pub fn plan_exit_present(&self, context: ContextId, dispatcher_available: bool) -> (r: Result<
        WebVRMsg,
        PresentRejection,
    >)
        ensures
            r == if !self@.presenting {
                Err::<WebVRMsg, PresentRejection>(PresentRejection::NotPresenting)
            } else if dispatcher_available {
                Ok::<WebVRMsg, PresentRejection>(WebVRMsg::ExitPresent(context, self@.data.id))
            } else {
                Err::<WebVRMsg, PresentRejection>(PresentRejection::NotAvailable)
            },
    {
        if !self.presenting {
            Err(PresentRejection::NotPresenting)
        } else if dispatcher_available {
            Ok(WebVRMsg::ExitPresent(context, self.display.id))
        } else {
            Err(PresentRejection::NotAvailable)
        }
    }

    /// Takes the dispatcher's answer to a request to stop presenting: a
    /// grant ends the presentation, a refusal is handed on.
    pub fn complete_exit_present(&mut self, reply: Result<(), VrError>) -> (r: Result<(), PresentRejection>)
        ensures
            final(self)@.data == old(self)@.data,
            match reply {
                Ok(_) => r is Ok && !final(self)@.presenting,
                Err(e) => r == Err::<(), PresentRejection>(PresentRejection::Refused(e))
                    && final(self)@.presenting == old(self)@.presenting,
            },
    {
        match reply {
            Ok(_) => {
                self.presenting = false;
                Ok(())
            },
            Err(e) => Err(PresentRejection::Refused(e)),
        }
    }

    /// The request for frame data that `context` sends for this display,
    /// if a dispatcher can be reached.
    pub fn frame_data_request(&self, context: ContextId, dispatcher_available: bool) -> (r: Option<WebVRMsg>)
        ensures
            r == if dispatcher_available {
                Some(WebVRMsg::GetFrameData(context, self@.data.id))
            } else {
                None
            },
    {
        if dispatcher_available {
            Some(WebVRMsg::GetFrameData(context, self.display.id))
        } else {
            None
        }
    }

    /// The request to reset the pose that `context` sends for this
    /// display, if a dispatcher can be reached.
    pub fn reset_pose_request(&self, context: ContextId, dispatcher_available: bool) -> (r: Option<WebVRMsg>)
        ensures
            r == if dispatcher_available {
                Some(WebVRMsg::ResetPose(context, self@.data.id))
            } else {
                None
            },
    {
        if dispatcher_available {
            Some(WebVRMsg::ResetPose(context, self.display.id))
        } else {
            None
        }
    }
}

} // verus!
