//! What holds of the dispatcher whatever the requests are.

use vstd::prelude::*;
use crate::arbitrator::access;
use crate::arbitrator::holds;
use crate::arbitrator::may_use;
use crate::dispatcher::after_exit_present;
use crate::dispatcher::after_poll;
use crate::dispatcher::after_register;
use crate::dispatcher::after_request_present;
use crate::dispatcher::after_unregister;
use crate::dispatcher::exit_result;
use crate::dispatcher::present_result;
use crate::dispatcher::steps;
use crate::dispatcher::ThreadState;
use crate::dispatcher::WebVRMsg;
use crate::registry::lists;
use crate::scheduler::action_after_tick;
use crate::scheduler::starts_task;
use crate::scheduler::PollAction;
use crate::scheduler::PollState;
use crate::scheduler::TickOutcome;
use crate::snapshot::DeviceSnapshot;
use crate::types::ContextId;
use crate::types::DeviceHandle;
use crate::types::DeviceId;
use crate::types::VrError;

verus! {

/// Serving a request keeps the state well formed: what is owned stays
/// known, and the registered contexts stay finitely many.
pub proof fn steps_preserve_wf(pre: ThreadState, msg: WebVRMsg, post: ThreadState)
    requires
        pre.wf(),
        steps(pre, msg, post),
    ensures
        post.wf(),
{
}

/// No request makes a display unknown.
pub proof fn known_display_stays_known(pre: ThreadState, msg: WebVRMsg, post: ThreadState, device: DeviceId)
    requires
        steps(pre, msg, post),
        pre.devices.contains(device),
    ensures
        post.devices.contains(device),
{
}

/// A request to read frame data of a known display, by a context that no
/// other context keeps out, is granted and names that very display.
pub proof fn frame_data_names_the_display(s: ThreadState, context: ContextId, device: DeviceId)
    requires
        s.devices.contains(device),
        may_use(s.owners, context, device),
    ensures
        access(s.owners, s.devices, context, device) == Ok::<DeviceHandle, VrError>(
            DeviceHandle { id: device },
        ),
{
}

/// Two lists of the same displays agree up to position `k`.
proof fn lists_agree_up_to(
    first: Seq<DeviceSnapshot>,
    second: Seq<DeviceSnapshot>,
    devices: Set<DeviceId>,
    k: int,
)
    requires
        lists(first, devices),
        lists(second, devices),
        0 <= k <= first.len(),
    ensures
        k <= second.len(),
        forall|i: int| 0 <= i < k ==> (#[trigger] first[i]).id == second[i].id,
    decreases k,
{
    if k > 0 {
        lists_agree_up_to(first, second, devices, k - 1);
        let d = first[k - 1].id;
        assert(devices.contains(d));
        let j = choose|j: int| 0 <= j < second.len() && (#[trigger] second[j]).id == d;
        if j < k - 1 {
            assert(first[j].id == second[j].id);
        }
        assert(k <= second.len());
        let e = second[k - 1].id;
        assert(devices.contains(e));
        let l = choose|l: int| 0 <= l < first.len() && (#[trigger] first[l]).id == e;
        if l < k - 1 {
            assert(first[l].id == second[l].id);
        }
        if j > k - 1 {
            assert(second[k - 1].id < second[j].id);
        }
        if l > k - 1 {
            assert(first[k - 1].id < first[l].id);
        }
    }
}

/// A list of displays names no display twice.
pub proof fn listed_ids_are_distinct(list: Seq<DeviceSnapshot>, devices: Set<DeviceId>, i: int, j: int)
    requires
        lists(list, devices),
        0 <= i < list.len(),
        0 <= j < list.len(),
        i != j,
    ensures
        list[i].id != list[j].id,
{
    if i < j {
        assert(list[i].id < list[j].id);
    } else {
        assert(list[j].id < list[i].id);
    }
}

/// Two listings of the same set of displays name the same ids in the same
/// order: while no display appears, listing again changes nothing.
pub proof fn listings_of_the_same_displays_agree(
    first: Seq<DeviceSnapshot>,
    second: Seq<DeviceSnapshot>,
    devices: Set<DeviceId>,
)
    requires
        lists(first, devices),
        lists(second, devices),
    ensures
        first.len() == second.len(),
        forall|i: int| 0 <= i < first.len() ==> (#[trigger] first[i]).id == second[i].id,
{
    lists_agree_up_to(first, second, devices, first.len() as int);
    lists_agree_up_to(second, first, devices, second.len() as int);
}

/// Whether `states` is what the dispatcher goes through while it serves
/// `msgs` one after the other.
pub open spec fn is_run(states: Seq<ThreadState>, msgs: Seq<WebVRMsg>) -> bool {
    &&& states.len() == msgs.len() + 1
    &&& forall|i: int| 0 <= i < msgs.len() ==> steps(#[trigger] states[i], msgs[i], states[i + 1])
}

/// A display that is known at some point of a run is known ever after: an
/// id, once listed, keeps naming its display.
pub proof fn known_display_stays_known_over_run(
    states: Seq<ThreadState>,
    msgs: Seq<WebVRMsg>,
    device: DeviceId,
    from: int,
    to: int,
)
    requires
        is_run(states, msgs),
        0 <= from <= to < states.len(),
        states[from].devices.contains(device),
    ensures
        states[to].devices.contains(device),
    decreases to - from,
{
    if from < to {
        known_display_stays_known_over_run(states, msgs, device, from, to - 1);
        known_display_stays_known(states[to - 1], msgs[to - 1], states[to], device);
    }
}

/// A display that was known at one point of a run is served at every
/// later point under the same id: a context that no other context keeps
/// out is granted its frame data, and the grant names that display.
pub proof fn listed_display_is_served_later(
    states: Seq<ThreadState>,
    msgs: Seq<WebVRMsg>,
    context: ContextId,
    device: DeviceId,
    from: int,
    to: int,
)
    requires
        is_run(states, msgs),
        0 <= from <= to < states.len(),
        states[from].devices.contains(device),
        may_use(states[to].owners, context, device),
    ensures
        access(states[to].owners, states[to].devices, context, device) == Ok::<DeviceHandle, VrError>(
            DeviceHandle { id: device },
        ),
{
    known_display_stays_known_over_run(states, msgs, device, from, to);
    frame_data_names_the_display(states[to], context, device);
}

/// Over a run in which `a` does not ask to stop presenting on a display
/// that it holds, `a` keeps the display, and every request of another
/// context to present on it is refused as busy.
pub proof fn session_excludes_others_over_run(
    states: Seq<ThreadState>,
    msgs: Seq<WebVRMsg>,
    a: ContextId,
    b: ContextId,
    device: DeviceId,
    at: int,
)
    requires
        is_run(states, msgs),
        states[0].wf(),
        holds(states[0].owners, a, device),
        forall|i: int| 0 <= i < msgs.len() ==> #[trigger] msgs[i] != WebVRMsg::ExitPresent(a, device),
        a != b,
        0 <= at < states.len(),
    ensures
        states[at].wf(),
        holds(states[at].owners, a, device),
        present_result(states[at], b, device) == Err::<(), VrError>(VrError::DeviceBusy),
    decreases at,
{
    if at > 0 {
        session_excludes_others_over_run(states, msgs, a, b, device, at - 1);
        steps_preserve_wf(states[at - 1], msgs[at - 1], states[at]);
        session_lasts_until_exit(states[at - 1], msgs[at - 1], states[at], a, device);
    }
    held_display_is_busy(states[at], a, b, device);
}

/// Once a context `a` has been granted presentation on a display, the
/// request of another context `b` for the same display is refused as
/// busy, and changes nothing.
pub proof fn competing_request_is_busy(s: ThreadState, a: ContextId, b: ContextId, device: DeviceId)
    requires
        a != b,
        present_result(s, a, device) is Ok,
    ensures
        present_result(after_request_present(s, a, device), b, device) == Err::<(), VrError>(
            VrError::DeviceBusy,
        ),
        after_request_present(after_request_present(s, a, device), b, device)
            == after_request_present(s, a, device),
{
}

/// While `a` holds a display, every request of another context `b` to
/// present on it is refused as busy.
pub proof fn held_display_is_busy(s: ThreadState, a: ContextId, b: ContextId, device: DeviceId)
    requires
        s.wf(),
        a != b,
        holds(s.owners, a, device),
    ensures
        present_result(s, b, device) == Err::<(), VrError>(VrError::DeviceBusy),
{
}

/// A session ends only by its holder's own request to stop presenting:
/// whatever else is served, the holder keeps the display.
pub proof fn session_lasts_until_exit(
    pre: ThreadState,
    msg: WebVRMsg,
    post: ThreadState,
    a: ContextId,
    device: DeviceId,
)
    requires
        holds(pre.owners, a, device),
        steps(pre, msg, post),
        msg != WebVRMsg::ExitPresent(a, device),
    ensures
        holds(post.owners, a, device),
{
}

/// A context that is granted presentation twice in a row is granted both
/// times, and the second grant leaves the state as the first made it: the
/// display has the one owner entry.
pub proof fn reacquire_is_idempotent(s: ThreadState, a: ContextId, device: DeviceId)
    requires
        present_result(s, a, device) is Ok,
    ensures
        present_result(after_request_present(s, a, device), a, device) is Ok,
        after_request_present(after_request_present(s, a, device), a, device) == after_request_present(
            s,
            a,
            device,
        ),
        after_request_present(s, a, device).owners.dom() == s.owners.dom().insert(device),
{
    let s1 = after_request_present(s, a, device);
    assert(s1.owners.insert(device, a) =~= s1.owners);
}

/// A request to stop presenting on a known display that nobody holds is
/// refused with `NotPresenting`, and changes nothing.
pub proof fn exit_without_session_is_not_presenting(s: ThreadState, a: ContextId, device: DeviceId)
    requires
        s.devices.contains(device),
        !s.owners.contains_key(device),
    ensures
        exit_result(s, a, device) == Err::<(), VrError>(VrError::NotPresenting),
        after_exit_present(s, a, device) == s,
{
}

/// A request to stop presenting is granted exactly to the holder of a
/// known display.
pub proof fn exit_is_granted_to_the_holder(s: ThreadState, a: ContextId, device: DeviceId)
    ensures
        exit_result(s, a, device) is Ok <==> s.devices.contains(device) && holds(s.owners, a, device),
{
}

/// Once `a` has stopped presenting on a display, any context that asks to
/// present on it is granted.
pub proof fn exit_frees_the_display(s: ThreadState, a: ContextId, b: ContextId, device: DeviceId)
    requires
        exit_result(s, a, device) is Ok,
    ensures
        present_result(after_exit_present(s, a, device), b, device) is Ok,
        holds(after_request_present(after_exit_present(s, a, device), b, device).owners, b, device),
{
}

/// With the hardware layer initialised, a registration leaves the
/// scheduler active with a context to poll for, and a timer task is
/// started exactly if the scheduler was idle.
pub proof fn registration_activates_polling(s: ThreadState, context: ContextId)
    requires
        s.wf(),
        s.initialized,
    ensures
        after_register(s, context).polling == PollState::Active,
        after_register(s, context).contexts_remain(),
        starts_task(s.polling, s.initialized) == (s.polling == PollState::Idle),
{
    let registered = s.registered.insert(context);
    if registered.len() == 0 {
        registered.lemma_len0_is_empty();
    }
}

/// Once the last registered context has unregistered, the next poll
/// request is answered with "stop", leaves the scheduler idle, and the
/// timer task ends on that answer.
pub proof fn polling_idles_after_last_unregister(s: ThreadState, context: ContextId)
    requires
        s.registered.remove(context) == Set::<ContextId>::empty(),
    ensures
        !after_unregister(s, context).contexts_remain(),
        after_poll(after_unregister(s, context)).polling == PollState::Idle,
        action_after_tick(TickOutcome::Reply(after_unregister(s, context).contexts_remain()))
            == PollAction::Stop,
{
}

} // verus!
