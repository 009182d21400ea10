//! The request dispatcher: the one owner of the registry and the
//! arbitrator, which serves one request at a time.

use vstd::prelude::*;
use std::collections::HashSet;
use vstd::std_specs::iter::IteratorSpec;
use rust_webvr::VRServiceManager;
use crate::arbitrator::access;
use crate::arbitrator::holds;
use crate::arbitrator::SessionArbitrator;
use crate::events::broadcast_only;
use crate::events::is_broadcast;
use crate::events::retain_broadcast;
use crate::events::Broadcast;
use crate::events::DeviceEvent;
use crate::registry::lists;
use crate::registry::Registry;
use crate::scheduler::starts_task;
use crate::scheduler::state_after_poll;
use crate::scheduler::state_after_start;
use crate::scheduler::PollScheduler;
use crate::scheduler::PollState;
use crate::snapshot::DeviceSnapshot;
use crate::types::ContextId;
use crate::types::DeviceHandle;
use crate::types::DeviceId;
use crate::types::VrError;

verus! {

broadcast use vstd::std_specs::hash::group_hash_axioms;

/// What the dispatcher knows at one moment.
pub struct ThreadState {
    /// The ids that the registry resolves.
    pub devices: Set<DeviceId>,
    /// Whether the hardware layer reports itself initialised.
    pub initialized: bool,
    /// Per display, the context that holds its presenting session.
    pub owners: Map<DeviceId, ContextId>,
    /// The contexts that have declared interest.
    pub registered: Set<ContextId>,
    /// The state of the poll scheduler.
    pub polling: PollState,
}

impl ThreadState {
    /// Every display that is owned is known, and finitely many contexts
    /// are registered.
    pub open spec fn wf(self) -> bool {
        &&& self.owners.dom().subset_of(self.devices)
        &&& self.registered.finite()
    }

    /// Whether any context is registered.
    pub open spec fn contexts_remain(self) -> bool {
        self.registered.len() > 0
    }
}

/// The state after `context` has registered and the scheduler has been
/// asked to start.
pub open spec fn after_register(s: ThreadState, context: ContextId) -> ThreadState {
    ThreadState {
        registered: s.registered.insert(context),
        polling: state_after_start(s.polling, s.initialized),
        ..s
    }
}

/// The state after `context` has unregistered. Its sessions stay.
pub open spec fn after_unregister(s: ThreadState, context: ContextId) -> ThreadState {
    ThreadState { registered: s.registered.remove(context), ..s }
}

/// The state after a poll request has been served.
pub open spec fn after_poll(s: ThreadState) -> ThreadState {
    ThreadState { polling: state_after_poll(s.contexts_remain()), ..s }
}

/// The reply to a request of `context` to present on `device`.
pub open spec fn present_result(s: ThreadState, context: ContextId, device: DeviceId) -> Result<
    (),
    VrError,
> {
    match access(s.owners, s.devices, context, device) {
        Ok(_) => Ok(()),
        Err(e) => Err(e),
    }
}

/// The state after a request of `context` to present on `device`.
pub open spec fn after_request_present(s: ThreadState, context: ContextId, device: DeviceId) -> ThreadState {
    if present_result(s, context, device) is Ok {
        ThreadState { owners: s.owners.insert(device, context), ..s }
    } else {
        s
    }
}

/// The reply to a request of `context` to stop presenting on `device`: the
/// access check comes first, and a context that passes it without holding
/// the session is told so.
pub open spec fn exit_result(s: ThreadState, context: ContextId, device: DeviceId) -> Result<
    (),
    VrError,
> {
    match access(s.owners, s.devices, context, device) {
        Err(e) => Err(e),
        Ok(_) => if holds(s.owners, context, device) {
            Ok(())
        } else {
            Err(VrError::NotPresenting)
        },
    }
}

/// The state after a request of `context` to stop presenting on `device`.
pub open spec fn after_exit_present(s: ThreadState, context: ContextId, device: DeviceId) -> ThreadState {
    if exit_result(s, context, device) is Ok {
        ThreadState { owners: s.owners.remove(device), ..s }
    } else {
        s
    }
}

/// Whether `e` reports that presentation on `device` has begun
/// (`presenting`) or ended.
pub open spec fn is_present_change(e: DeviceEvent, device: DeviceId, presenting: bool) -> bool {
    match e {
        DeviceEvent::PresentChange(s, p) => s.id == device && p == presenting,
        _ => false,
    }
}

/// Whether `b` carries exactly one event, a change of presentation on
/// `device` to `presenting`, for exactly the contexts of `registered`, each
/// named once.
pub open spec fn announces(b: Broadcast, registered: Set<ContextId>, device: DeviceId, presenting: bool) -> bool {
    &&& b.recipients@.to_set() == registered
    &&& b.recipients@.no_duplicates()
    &&& b.events@.len() == 1
    &&& is_present_change(b.events@[0], device, presenting)
}

/// The answer to a request to start or stop presenting, and the event that
/// announces the change where the request was granted.
#[derive(Debug)]
pub struct PresentOutcome {
    pub result: Result<(), VrError>,
    pub broadcast: Option<Broadcast>,
}

/// The answer to a poll request, and the events to hand on.
#[derive(Debug)]
pub struct PollOutcome {
    pub broadcast: Broadcast,
    pub keep_polling: bool,
}

/// Addresses to `recipients`, in their order, those of `events` that are
/// broadcast.
pub fn fan_out(events: Vec<DeviceEvent>, recipients: Vec<ContextId>) -> (b: Broadcast)
    ensures
        b.recipients@ == recipients@,
        b.events@ == broadcast_only(events@),
{
    Broadcast { recipients, events: retain_broadcast(events) }
}

/// A request to the dispatcher.
#[derive(Clone, Copy, Debug, PartialEq, Eq, Structural)]
pub enum WebVRMsg {
    /// The context declares interest in displays.
    RegisterContext(ContextId),
    /// The context withdraws its interest.
    UnregisterContext(ContextId),
    /// The timer task asks for the hardware events to be handed on.
    PollEvents,
    /// Someone asks for the list of displays.
    GetVRDisplays,
    /// The context asks for frame data of the display.
    GetFrameData(ContextId, DeviceId),
    /// The context asks for the pose of the display to be reset.
    ResetPose(ContextId, DeviceId),
    /// The context asks to start presenting on the display.
    RequestPresent(ContextId, DeviceId),
    /// The context asks to stop presenting on the display.
    ExitPresent(ContextId, DeviceId),
    /// The dispatcher is asked to end.
    Exit,
}

/// What goes back to the sender of a request.
#[derive(Debug)]
pub enum Reply {
    /// The request has no reply.
    Nothing,
    /// To the timer task: whether polling should continue.
    KeepPolling(bool),
    /// The list of displays.
    Displays(Result<Vec<DeviceSnapshot>, VrError>),
    /// The display whose frame data the sender may read.
    FrameAccess(Result<DeviceHandle, VrError>),
    /// The snapshot taken after the pose was reset.
    Pose(Result<DeviceSnapshot, VrError>),
    /// Whether presentation has started or stopped as asked.
    Present(Result<(), VrError>),
}

/// Everything that serving one request asks of the caller.
#[derive(Debug)]
pub struct Step {
    /// What to send back.
    pub reply: Reply,
    /// The events to hand on, with their recipients.
    pub broadcast: Option<Broadcast>,
    /// Whether a timer task has to be started.
    pub start_poller: bool,
    /// Whether the dispatcher ends here.
    pub stop: bool,
}

/// How serving `msg` may take the dispatcher from `pre` to `post`. Listing
/// displays may make displays appear; every other request has one outcome.
pub open spec fn steps(pre: ThreadState, msg: WebVRMsg, post: ThreadState) -> bool {
    match msg {
        WebVRMsg::RegisterContext(c) => post == after_register(pre, c),
        WebVRMsg::UnregisterContext(c) => post == after_unregister(pre, c),
        WebVRMsg::PollEvents => post == after_poll(pre),
        WebVRMsg::GetVRDisplays => {
            &&& pre.devices.subset_of(post.devices)
            &&& post.initialized
            &&& post.owners == pre.owners
            &&& post.registered == pre.registered
            &&& post.polling == PollState::Active
        },
        WebVRMsg::GetFrameData(_, _) => post == pre,
        WebVRMsg::ResetPose(_, _) => post == pre,
        WebVRMsg::RequestPresent(c, d) => post == after_request_present(pre, c, d),
        WebVRMsg::ExitPresent(c, d) => post == after_exit_present(pre, c, d),
        WebVRMsg::Exit => post == pre,
    }
}

/// Whether `step` is what serving `msg` in the state `pre`, which leads to
/// `post`, hands to the caller: the one reply of the kind that the request
/// calls for, the announcement where presentation changed, the order to
/// start a timer task where a registration or a listing took polling from
/// idle to active, and the order to end on `Exit` alone.
pub open spec fn answers(pre: ThreadState, msg: WebVRMsg, post: ThreadState, step: Step) -> bool {
    &&& step.stop == (msg == WebVRMsg::Exit)
    &&& step.start_poller == ((msg is RegisterContext || msg is GetVRDisplays) && pre.polling
        == PollState::Idle && post.polling == PollState::Active)
    &&& match msg {
        WebVRMsg::RegisterContext(_) => step.reply is Nothing && step.broadcast is None,
        WebVRMsg::UnregisterContext(_) => step.reply is Nothing && step.broadcast is None,
        WebVRMsg::PollEvents => {
            &&& step.reply matches Reply::KeepPolling(keep) && keep == pre.contexts_remain()
            &&& step.broadcast matches Some(b) && b.recipients@.to_set() == pre.registered
                && b.recipients@.no_duplicates() && forall|i: int|
                0 <= i < b.events@.len() ==> is_broadcast(#[trigger] b.events@[i])
        },
        WebVRMsg::GetVRDisplays => {
            &&& step.reply matches Reply::Displays(Ok(list)) && lists(list@, post.devices)
            &&& step.broadcast is None
        },
        WebVRMsg::GetFrameData(c, d) => {
            &&& step.reply matches Reply::FrameAccess(r) && r == access(pre.owners, pre.devices, c, d)
            &&& step.broadcast is None
        },
        WebVRMsg::ResetPose(c, d) => {
            &&& step.reply matches Reply::Pose(r) && match r {
                Ok(s) => access(pre.owners, pre.devices, c, d) is Ok && s.id == d,
                Err(e) => access(pre.owners, pre.devices, c, d) == Err::<DeviceHandle, VrError>(e),
            }
            &&& step.broadcast is None
        },
        WebVRMsg::RequestPresent(c, d) => {
            &&& step.reply matches Reply::Present(r) && r == present_result(pre, c, d)
            &&& step.broadcast is Some == present_result(pre, c, d) is Ok
            &&& step.broadcast matches Some(b) ==> announces(b, pre.registered, d, true)
        },
        WebVRMsg::ExitPresent(c, d) => {
            &&& step.reply matches Reply::Present(r) && r == exit_result(pre, c, d)
            &&& step.broadcast is Some == exit_result(pre, c, d) is Ok
            &&& step.broadcast matches Some(b) ==> announces(b, pre.registered, d, false)
        },
        WebVRMsg::Exit => step.reply is Nothing && step.broadcast is None,
    }
}

/// What becomes of a reply that was handed to its channel: a reply that
/// could not be sent is a transport failure.
pub fn delivery(sent: bool) -> (r: Result<(), VrError>)
    ensures
        r == if sent {
            Ok::<(), VrError>(())
        } else {
            Err::<(), VrError>(VrError::TransportFailure)
        },
{
    if sent {
        Ok(())
    } else {
        Err(VrError::TransportFailure)
    }
}

/// Whether the dispatcher goes on to the next request. It ends when the
/// request served was `Exit`, and for no other reason: a reply that could
/// not be delivered is abandoned.
pub fn goes_on(step: &Step, delivered: &Result<(), VrError>) -> (b: bool)
    ensures
        b == !step.stop,
{
    !step.stop
}

/// The dispatcher.
pub struct WebVRThread {
    registry: Registry,
    arbitrator: SessionArbitrator,
    contexts: HashSet<ContextId>,
    scheduler: PollScheduler,
}

impl View for WebVRThread {
    type V = ThreadState;

    closed spec fn view(&self) -> ThreadState {
        ThreadState {
            devices: self.registry.devices(),
            initialized: self.registry.initialized(),
            owners: self.arbitrator@,
            registered: self.contexts@,
            polling: self.scheduler@,
        }
    }
}

impl WebVRThread {
    /// A dispatcher over a fresh registry with the default services: no
    /// display is known yet, nothing is owned, nobody is registered and
    /// polling is idle.
    pub fn new() -> (t: Self)
        ensures
            t@.wf(),
            t@.devices == Set::<DeviceId>::empty(),
            !t@.initialized,
            t@.owners == Map::<DeviceId, ContextId>::empty(),
            t@.registered == Set::<ContextId>::empty(),
            t@.polling == PollState::Idle,
    {
        WebVRThread {
            registry: Registry::new(),
            arbitrator: SessionArbitrator::new(),
            contexts: HashSet::new(),
            scheduler: PollScheduler::new(),
        }
    }

    /// A dispatcher over a service manager that the caller has set up:
    /// nothing is owned, nobody is registered and polling is idle.
    pub fn with_service(service: VRServiceManager) -> (t: Self)
        ensures
            t@.wf(),
            t.service() == service,
            t@.owners == Map::<DeviceId, ContextId>::empty(),
            t@.registered == Set::<ContextId>::empty(),
            t@.polling == PollState::Idle,
    {
        WebVRThread {
            registry: Registry::with_service(service),
            arbitrator: SessionArbitrator::new(),
            contexts: HashSet::new(),
            scheduler: PollScheduler::new(),
        }
    }

    /// The service manager that the registry stands on.
    pub closed spec fn service(&self) -> VRServiceManager {
        self.registry.manager()
    }

    /// The registry, for reading.
    pub fn registry(&self) -> (r: &Registry)
        ensures
            r.devices() == self@.devices,
            r.initialized() == self@.initialized,
            r.manager() == self.service(),
    {
        &self.registry
    }

    /// The context that holds the presenting session of `device`, if any.
    pub fn owner_of(&self, device: DeviceId) -> (r: Option<ContextId>)
        ensures
            r == if self@.owners.contains_key(device) {
                Some(self@.owners[device])
            } else {
                None
            },
    {
        self.arbitrator.owner_of(device)
    }

    /// Whether `context` is registered.
    pub fn is_registered(&self, context: ContextId) -> (b: bool)
        ensures
            b == self@.registered.contains(context),
    {
        self.contexts.contains(&context)
    }

    /// Whether the scheduler is active.
    pub fn is_polling(&self) -> (b: bool)
        ensures
            b == (self@.polling == PollState::Active),
    {
        self.scheduler.is_active()
    }

    /// Adds `context` to the registered contexts; adding it again changes
    /// nothing.
    pub fn handle_register_context(&mut self, context: ContextId)
        requires
            old(self)@.wf(),
        ensures
            final(self)@ == (ThreadState { registered: old(self)@.registered.insert(context), ..old(self)@ }),
            final(self)@.wf(),
    {
        self.contexts.insert(context);
    }

    /// Removes `context` from the registered contexts; removing one that is
    /// not there changes nothing. The sessions that it holds stay.
    pub fn handle_unregister_context(&mut self, context: ContextId)
        requires
            old(self)@.wf(),
        ensures
            final(self)@ == after_unregister(old(self)@, context),
            final(self)@.wf(),
    {
        self.contexts.remove(&context);
    }

    /// Asks the scheduler to start. Returns whether the caller must start
    /// a timer task: only if the hardware layer is initialised and polling
    /// was idle.
    pub fn schedule_poll_events(&mut self) -> (start: bool)
        requires
            old(self)@.wf(),
        ensures
            start == starts_task(old(self)@.polling, old(self)@.initialized),
            final(self)@ == (ThreadState {
                polling: state_after_start(old(self)@.polling, old(self)@.initialized),
                ..old(self)@
            }),
            final(self)@.wf(),
    {
        let initialized = self.registry.is_initialized();
        self.scheduler.request_start(initialized)
    }

    /// The registered contexts, each once, in no particular order.
    pub fn recipients(&self) -> (v: Vec<ContextId>)
        ensures
            v@.to_set() == self@.registered,
            v@.no_duplicates(),
    {
        let mut v: Vec<ContextId> = Vec::new();
        for c in iter: self.contexts.iter()
            invariant
                iter.seq() == self.contexts.iter().remaining(),
                v@.len() == iter.index(),
                forall|i: int| 0 <= i < v@.len() ==> v@[i] == *iter.seq()[i],
        {
            v.push(*c);
        }
        proof {
            assert(v@ =~= self.contexts.iter().remaining().unref());
        }
        v
    }

    /// Addresses `event` to every registered context.
    pub fn notify_event(&self, event: DeviceEvent) -> (b: Broadcast)
        ensures
            b.recipients@.to_set() == self@.registered,
            b.recipients@.no_duplicates(),
            b.events@ == seq![event],
    {
        let mut events: Vec<DeviceEvent> = Vec::new();
        events.push(event);
        Broadcast { recipients: self.recipients(), events }
    }

    /// Lists the displays. The hardware layer is initialised and probed
    /// first, so displays may appear; none disappears, and nothing else
    /// changes. The list holds the current snapshot of every display that
    /// is then known, once each, in ascending order of the ids; who holds
    /// a display plays no part.
    pub fn handle_get_displays(&mut self) -> (r: Vec<DeviceSnapshot>)
        requires
            old(self)@.wf(),
        ensures
            final(self)@.wf(),
            old(self)@.devices.subset_of(final(self)@.devices),
            final(self)@.initialized,
            final(self)@.owners == old(self)@.owners,
            final(self)@.registered == old(self)@.registered,
            final(self)@.polling == old(self)@.polling,
            lists(r@, final(self)@.devices),
    {
        self.registry.list_devices()
    }

    /// Decides whether `context` may read frame data of `device`, and names
    /// the display to read from. The state does not change.
    pub fn handle_framedata(&self, context: ContextId, device: DeviceId) -> (r: Result<DeviceHandle, VrError>)
        ensures
            r == access(self@.owners, self@.devices, context, device),
    {
        self.arbitrator.check_access(&self.registry, context, device)
    }

    /// Resets the pose reference frame of `device` for `context` and
    /// returns the snapshot taken afterwards, or the error of the access
    /// check. What the dispatcher knows does not change.
    pub fn handle_reset_pose(&mut self, context: ContextId, device: DeviceId) -> (r: Result<
        DeviceSnapshot,
        VrError,
    >)
        requires
            old(self)@.wf(),
        ensures
            final(self)@ == old(self)@,
            match r {
                Ok(s) => access(old(self)@.owners, old(self)@.devices, context, device) is Ok && s.id
                    == device,
                Err(e) => access(old(self)@.owners, old(self)@.devices, context, device) == Err::<
                    DeviceHandle,
                    VrError,
                >(e),
            },
    {
        match self.arbitrator.check_access(&self.registry, context, device) {
            Ok(_) => {
                self.registry.reset_pose(device);
                match self.registry.snapshot(device) {
                    Some(s) => Ok(s),
                    None => Err(VrError::DeviceNotFound),
                }
            },
            Err(e) => Err(e),
        }
    }

    /// Starts a presenting session of `context` on `device` if the access
    /// check lets it through, and announces it to every registered
    /// context. A context that already holds the session is granted again
    /// and the ownership map stays as it is.
    pub fn handle_request_present(&mut self, context: ContextId, device: DeviceId) -> (out: PresentOutcome)
        requires
            old(self)@.wf(),
        ensures
            final(self)@.wf(),
            out.result == present_result(old(self)@, context, device),
            final(self)@ == after_request_present(old(self)@, context, device),
            out.broadcast is Some == out.result is Ok,
            out.broadcast matches Some(b) ==> announces(b, old(self)@.registered, device, true),
    {
        match self.arbitrator.check_access(&self.registry, context, device) {
            Ok(_) => {
                self.arbitrator.acquire(context, device);
                let broadcast = match self.registry.snapshot(device) {
                    Some(s) => Some(self.notify_event(DeviceEvent::PresentChange(s, true))),
                    None => None,
                };
                PresentOutcome { result: Ok(()), broadcast }
            },
            Err(e) => PresentOutcome { result: Err(e), broadcast: None },
        }
    }

    /// Ends the presenting session of `context` on `device` and announces
    /// it to every registered context. The access check comes first; a
    /// context that passes it without holding the session gets
    /// `NotPresenting`, and nothing changes.
    pub fn handle_exit_present(&mut self, context: ContextId, device: DeviceId) -> (out: PresentOutcome)
        requires
            old(self)@.wf(),
        ensures
            final(self)@.wf(),
            out.result == exit_result(old(self)@, context, device),
            final(self)@ == after_exit_present(old(self)@, context, device),
            out.broadcast is Some == out.result is Ok,
            out.broadcast matches Some(b) ==> announces(b, old(self)@.registered, device, false),
    {
        match self.arbitrator.check_access(&self.registry, context, device) {
            Ok(_) => {
                if self.arbitrator.owner_of(device) != Some(context) {
                    return PresentOutcome { result: Err(VrError::NotPresenting), broadcast: None };
                }
                self.arbitrator.release(context, device);
                let broadcast = match self.registry.snapshot(device) {
                    Some(s) => Some(self.notify_event(DeviceEvent::PresentChange(s, false))),
                    None => None,
                };
                PresentOutcome { result: Ok(()), broadcast }
            },
            Err(e) => PresentOutcome { result: Err(e), broadcast: None },
        }
    }

    /// Serves a poll request: drains the hardware events, addresses those
    /// that are broadcast to every registered context, and answers whether
    /// polling should continue, which is while a context is registered.
    pub fn poll_events(&mut self) -> (out: PollOutcome)
        requires
            old(self)@.wf(),
        ensures
            final(self)@.wf(),
            final(self)@ == after_poll(old(self)@),
            out.keep_polling == old(self)@.contexts_remain(),
            out.broadcast.recipients@.to_set() == old(self)@.registered,
            out.broadcast.recipients@.no_duplicates(),
            forall|i: int|
                0 <= i < out.broadcast.events@.len() ==> is_broadcast(#[trigger] out.broadcast.events@[i]),
    {
        let events = self.registry.poll_hardware_events();
        let broadcast = fan_out(events, self.recipients());
        proof {
            let pred = |e: DeviceEvent| is_broadcast(e);
            assert forall|i: int| 0 <= i < broadcast.events@.len() implies is_broadcast(
                #[trigger] broadcast.events@[i],
            ) by {
                events@.lemma_filter_pred(pred, i);
            }
        }
        let keep_polling = self.scheduler.record_poll(self.contexts.len() > 0);
        PollOutcome { broadcast, keep_polling }
    }

    /// Serves one request to completion. The state moves as `steps` says,
    /// and the caller is handed exactly one reply of the kind that the
    /// request calls for, be it an error.
    pub fn handle_message(&mut self, msg: WebVRMsg) -> (step: Step)
        requires
            old(self)@.wf(),
        ensures
            final(self)@.wf(),
            steps(old(self)@, msg, final(self)@),
            answers(old(self)@, msg, final(self)@, step),
    {
        match msg {
            WebVRMsg::RegisterContext(context) => {
                self.handle_register_context(context);
                let start_poller = self.schedule_poll_events();
                Step { reply: Reply::Nothing, broadcast: None, start_poller, stop: false }
            },
            WebVRMsg::UnregisterContext(context) => {
                self.handle_unregister_context(context);
                Step { reply: Reply::Nothing, broadcast: None, start_poller: false, stop: false }
            },
            WebVRMsg::PollEvents => {
                let out = self.poll_events();
                Step {
                    reply: Reply::KeepPolling(out.keep_polling),
                    broadcast: Some(out.broadcast),
                    start_poller: false,
                    stop: false,
                }
            },
            WebVRMsg::GetVRDisplays => {
                let list = self.handle_get_displays();
                let start_poller = self.schedule_poll_events();
                Step { reply: Reply::Displays(Ok(list)), broadcast: None, start_poller, stop: false }
            },
            WebVRMsg::GetFrameData(context, device) => {
                let r = self.handle_framedata(context, device);
                Step { reply: Reply::FrameAccess(r), broadcast: None, start_poller: false, stop: false }
            },
            WebVRMsg::ResetPose(context, device) => {
                let r = self.handle_reset_pose(context, device);
                Step { reply: Reply::Pose(r), broadcast: None, start_poller: false, stop: false }
            },
            WebVRMsg::RequestPresent(context, device) => {
                let out = self.handle_request_present(context, device);
                Step {
                    reply: Reply::Present(out.result),
                    broadcast: out.broadcast,
                    start_poller: false,
                    stop: false,
                }
            },
            WebVRMsg::ExitPresent(context, device) => {
                let out = self.handle_exit_present(context, device);
                Step {
                    reply: Reply::Present(out.result),
                    broadcast: out.broadcast,
                    start_poller: false,
                    stop: false,
                }
            },
            WebVRMsg::Exit => Step { reply: Reply::Nothing, broadcast: None, start_poller: false, stop: true },
        }
    }
}

} // verus!
