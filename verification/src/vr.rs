//! The client's list of displays, kept in step with what the dispatcher
//! reports.

use vstd::prelude::*;
use crate::dispatcher::WebVRMsg;
use crate::display::DisplayState;
use crate::display::VRDisplay;
use crate::snapshot::DeviceSnapshot;
use crate::types::DeviceId;
use crate::types::VrError;

verus! {

/// The position of the first display of `displays` that goes by `id`, or
/// the length of `displays` if none does.
pub open spec fn position_of(displays: Seq<DisplayState>, id: DeviceId) -> int
    decreases displays.len(),
{
    if displays.len() == 0 {
        0
    } else if displays[0].data.id == id {
        0
    } else {
        1 + position_of(displays.drop_first(), id)
    }
}

/// `position_of` names the first display with the id, if there is one.
pub proof fn position_of_is_first(displays: Seq<DisplayState>, id: DeviceId)
    ensures
        0 <= position_of(displays, id) <= displays.len(),
        position_of(displays, id) < displays.len() ==> displays[position_of(displays, id)].data.id == id,
        forall|j: int| 0 <= j < position_of(displays, id) ==> (#[trigger] displays[j]).data.id != id,
    decreases displays.len(),
{
    if displays.len() > 0 && displays[0].data.id != id {
        let rest = displays.drop_first();
        position_of_is_first(rest, id);
        let p = position_of(rest, id);
        assert forall|j: int| 0 <= j < 1 + p implies (#[trigger] displays[j]).data.id != id by {
            if j > 0 {
                assert(displays[j] == rest[j - 1]);
            }
        }
    }
}

/// The first position below `n` at which a display goes by `id` is the
/// position that `position_of` names.
pub proof fn first_match_is_position(displays: Seq<DisplayState>, id: DeviceId, n: int)
    requires
        0 <= n <= displays.len(),
        forall|j: int| 0 <= j < n ==> (#[trigger] displays[j]).data.id != id,
        n < displays.len() ==> displays[n].data.id == id,
    ensures
        position_of(displays, id) == n,
{
    position_of_is_first(displays, id);
}

/// The list after `snapshot` has been brought in: the first display that
/// goes by its id takes the snapshot and keeps whether it presents; if
/// there is none, a display that is not presenting is appended.
pub open spec fn synced(displays: Seq<DisplayState>, snapshot: DeviceSnapshot) -> Seq<DisplayState> {
    let p = position_of(displays, snapshot.id);
    if p < displays.len() {
        displays.update(p, DisplayState { data: snapshot, presenting: displays[p].presenting })
    } else {
        displays.push(DisplayState { data: snapshot, presenting: false })
    }
}

/// The list after each snapshot of `list` has been brought in, in order.
pub open spec fn synced_all(displays: Seq<DisplayState>, list: Seq<DeviceSnapshot>) -> Seq<DisplayState>
    decreases list.len(),
{
    if list.len() == 0 {
        displays
    } else {
        synced(synced_all(displays, list.drop_last()), list.last())
    }
}

/// Whether no two displays of `displays` go by the same id.
pub open spec fn distinct_ids(displays: Seq<DisplayState>) -> bool {
    forall|i: int, j: int|
        0 <= i < j < displays.len() ==> (#[trigger] displays[i]).data.id != (#[trigger] displays[j]).data.id
}

/// Bringing a snapshot in keeps the ids distinct.
pub proof fn synced_keeps_ids_distinct(displays: Seq<DisplayState>, snapshot: DeviceSnapshot)
    requires
        distinct_ids(displays),
    ensures
        distinct_ids(synced(displays, snapshot)),
{
    position_of_is_first(displays, snapshot.id);
}

/// Why a request for the list of displays came to nothing.
#[derive(Clone, Copy, Debug, PartialEq, Eq, Structural)]
pub enum ListRejection {
    /// The client is not allowed to use displays.
    Security,
    /// The dispatcher answered with an error.
    Refused(VrError),
}

/// The displays that a client knows.
#[derive(Debug)]
pub struct VR {
    displays: Vec<VRDisplay>,
}

impl View for VR {
    type V = Seq<DisplayState>;

    closed spec fn view(&self) -> Seq<DisplayState> {
        self.displays@.map_values(|d: VRDisplay| d@)
    }
}

impl VR {
    /// A client that knows no display.
    pub fn new() -> (vr: VR)
        ensures
            vr@ == Seq::<DisplayState>::empty(),
    {
        VR { displays: Vec::new() }
    }

    /// The number of displays known.
    pub fn len(&self) -> (n: usize)
        ensures
            n == self@.len(),
    {
        self.displays.len()
    }

    /// The display at position `i`.
    pub fn display(&self, i: usize) -> (d: &VRDisplay)
        requires
            i < self@.len(),
        ensures
            d@ == self@[i as int],
    {
        &self.displays[i]
    }

    /// The position of the first display that goes by `display_id`.
    pub fn find_display(&self, display_id: DeviceId) -> (r: Option<usize>)
        ensures
            match r {
                Some(i) => i == position_of(self@, display_id) && i < self@.len(),
                None => position_of(self@, display_id) == self@.len(),
            },
    {
        let mut i: usize = 0;
        while i < self.displays.len()
            invariant
                i <= self.displays.len(),
                forall|j: int| 0 <= j < i ==> (#[trigger] self@[j]).data.id != display_id,
            decreases self.displays.len() - i,
        {
            if self.displays[i].get_display_id() == display_id {
                proof {
                    first_match_is_position(self@, display_id, i as int);
                }
                return Some(i);
            }
            i += 1;
        }
        proof {
            first_match_is_position(self@, display_id, i as int);
        }
        None
    }

    /// Brings one snapshot in: the display that goes by its id is updated,
    /// or a new display is appended.
    pub fn sync_display(&mut self, display: DeviceSnapshot)
        ensures
            final(self)@ == synced(old(self)@, display),
    {
        match self.find_display(display.id) {
            Some(i) => {
                let ghost before = self@;
                proof {
                    position_of_is_first(before, display.id);
                }
                let ghost presenting = self.displays[i as int]@.presenting;
                self.displays[i].update_display(display);
                assert(self@ =~= before.update(
                    i as int,
                    DisplayState { data: display, presenting: presenting },
                ));
            },
            None => {
                self.displays.push(VRDisplay::new(display));
            },
        }
    }

    /// Brings a list of snapshots in, in order.
    pub fn sync_displays(&mut self, list: Vec<DeviceSnapshot>)
        ensures
            final(self)@ == synced_all(old(self)@, list@),
    {
        let ghost all = list@;
        for s in iter: list.into_iter()
            invariant
                iter.seq() == all,
                self@ == synced_all(old(self)@, all.take(iter.index())),
        {
            proof {
                let i = iter.index();
                assert(all.take(i + 1).drop_last() == all.take(i));
            }
            self.sync_display(s);
        }
        proof {
            assert(all.take(all.len() as int) == all);
        }
    }

    /// Whether the client is allowed to use displays. Every client is.
    pub fn vr_enabled(&self) -> (b: bool)
        ensures
            b,
    {
        true
    }

    /// Decides what a request for the list of displays leads to: a client
    /// that is not allowed to use displays is rejected; otherwise the
    /// dispatcher is asked if one can be reached, and without one the list
    /// stands as it is.
    pub fn get_vr_displays(&self, enabled: bool, dispatcher_available: bool) -> (r: Result<
        Option<WebVRMsg>,
        ListRejection,
    >)
        ensures
            r == if !enabled {
                Err::<Option<WebVRMsg>, ListRejection>(ListRejection::Security)
            } else if dispatcher_available {
                Ok::<Option<WebVRMsg>, ListRejection>(Some(WebVRMsg::GetVRDisplays))
            } else {
                Ok::<Option<WebVRMsg>, ListRejection>(None)
            },
    {
        if !enabled {
            return Err(ListRejection::Security);
        }
        if dispatcher_available {
            Ok(Some(WebVRMsg::GetVRDisplays))
        } else {
            Ok(None)
        }
    }

    /// Takes the dispatcher's answer to a request for the list of
    /// displays: the displays listed are brought in, in order; an error is
    /// handed on and the list stands as it is.
    pub fn complete_get_vr_displays(&mut self, reply: Result<Vec<DeviceSnapshot>, VrError>) -> (r: Result<
        (),
        ListRejection,
    >)
        ensures
            match reply {
                Ok(list) => r is Ok && final(self)@ == synced_all(old(self)@, list@),
                Err(e) => r == Err::<(), ListRejection>(ListRejection::Refused(e)) && final(self)@ == old(
                    self,
                )@,
            },
    {
        match reply {
            Ok(list) => {
                self.sync_displays(list);
                Ok(())
            },
            Err(e) => Err(ListRejection::Refused(e)),
        }
    }
}

} // verus!
