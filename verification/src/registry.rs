//! The device registry: the set of displays that the hardware layer exposes,
//! and the narrow boundary through which the rest of the library reaches it.

use vstd::prelude::*;
use rust_webvr::VRServiceManager;
use rust_webvr_api::VRDisplayData;
use rust_webvr_api::VREvent;
use crate::events::device_of;
use crate::events::events_of;
use crate::events::DeviceEvent;
use crate::snapshot::snapshot_from_data;
use crate::snapshot::DeviceSnapshot;
use crate::types::DeviceHandle;
use crate::types::DeviceId;

verus! {

#[verifier::external_type_specification]
#[verifier::external_body]
pub struct ExVRServiceManager(VRServiceManager);

/// The keys under which a service manager currently holds displays.
pub uninterp spec fn known_displays(m: VRServiceManager) -> Set<u32>;

/// Whether a service manager has initialised its services.
pub uninterp spec fn services_initialized(m: VRServiceManager) -> bool;

/// `VRServiceManager::new`: the fresh manager holds no display and has not
/// initialised any service.
#[verifier::external_body]
fn manager_new() -> (m: VRServiceManager)
    ensures
        known_displays(m) == Set::<u32>::empty(),
        !services_initialized(m),
{
    VRServiceManager::new()
}

/// `VRServiceManager::register_defaults`: only appends services; the displays
/// held and the initialised flag stay as they were.
#[verifier::external_body]
fn manager_register_defaults(m: &mut VRServiceManager)
    ensures
        known_displays(*final(m)) == known_displays(*old(m)),
        services_initialized(*final(m)) == services_initialized(*old(m)),
{
    m.register_defaults()
}

/// `VRServiceManager::is_initialized`: reads the initialised flag.
#[verifier::external_body]
fn manager_is_initialized(m: &VRServiceManager) -> (b: bool)
    ensures
        b == services_initialized(*m),
{
    m.is_initialized()
}

/// `VRServiceManager::get_display`: a lookup by key among the displays held.
#[verifier::external_body]
fn manager_has_display(m: &VRServiceManager, key: u32) -> (b: bool)
    ensures
        b == known_displays(*m).contains(key),
{
    m.get_display(key).is_some()
}

/// `VRServiceManager::get_displays`, then `VRDisplay::id` and
/// `VRDisplay::data` of each display handed out. The call initialises the
/// services and adds the displays that the services report under keys not
/// yet held; it removes none. It hands out every display held, once, in
/// ascending order of `id`. A display is held under the `id` that it had
/// when it was added, and `id` is documented as the display's unique
/// identifier: the contract takes the `id` handed out to be that key.
#[verifier::external_body]
fn manager_fetch_displays(m: &mut VRServiceManager) -> (r: Vec<(u32, VRDisplayData)>)
    ensures
        known_displays(*old(m)).subset_of(known_displays(*final(m))),
        services_initialized(*final(m)),
        forall|i: int| 0 <= i < r@.len() ==> known_displays(*final(m)).contains((#[trigger] r@[i]).0),
        forall|k: u32| #[trigger]
            known_displays(*final(m)).contains(k) ==> exists|i: int|
                0 <= i < r@.len() && (#[trigger] r@[i]).0 == k,
        forall|i: int, j: int| 0 <= i < j < r@.len() ==> (#[trigger] r@[i]).0 < (#[trigger] r@[j]).0,
{
    m.get_displays().iter().map(|d| (d.borrow().id(), d.borrow().data())).collect()
}

/// `VRServiceManager::get_display`, then `VRDisplay::data`: the record of the
/// display held under `key`, if one is held. The display is borrowed for
/// the one call.
#[verifier::external_body]
fn manager_display_data(m: &VRServiceManager, key: u32) -> (r: Option<VRDisplayData>)
    ensures
        r.is_some() == known_displays(*m).contains(key),
{
    m.get_display(key).map(|d| d.borrow().data())
}

/// `VRServiceManager::get_display`, then `VRDisplay::reset_pose` on the
/// display held under `key`; tells whether one is held. The display is
/// borrowed for the one call.
#[verifier::external_body]
fn manager_reset_pose(m: &VRServiceManager, key: u32) -> (found: bool)
    ensures
        found == known_displays(*m).contains(key),
{
    match m.get_display(key) {
        Some(d) => {
            d.borrow_mut().reset_pose();
            true
        },
        None => false,
    }
}

/// `VRServiceManager::poll_events`: drains the events that the services have
/// queued. The displays held and the initialised flag stay as they were.
#[verifier::external_body]
fn manager_poll_events(m: &mut VRServiceManager) -> (r: Vec<VREvent>)
    ensures
        known_displays(*final(m)) == known_displays(*old(m)),
        services_initialized(*final(m)) == services_initialized(*old(m)),
{
    m.poll_events()
}

/// Whether `list` holds one snapshot for each display of `devices` and for
/// no other, in ascending order of their ids.
pub open spec fn lists(list: Seq<DeviceSnapshot>, devices: Set<DeviceId>) -> bool {
    &&& forall|i: int| 0 <= i < list.len() ==> devices.contains((#[trigger] list[i]).id)
    &&& forall|d: DeviceId| #[trigger]
        devices.contains(d) ==> exists|i: int| 0 <= i < list.len() && (#[trigger] list[i]).id == d
    &&& forall|i: int, j: int|
        0 <= i < j < list.len() ==> (#[trigger] list[i]).id < (#[trigger] list[j]).id
}

/// The set of displays that the hardware layer exposes.
pub struct Registry {
    manager: VRServiceManager,
}

impl Registry {
    /// The ids that this registry resolves to a display.
    pub closed spec fn devices(&self) -> Set<DeviceId> {
        Set::new(|d: DeviceId| d <= u32::MAX && known_displays(self.manager).contains(d as u32))
    }

    /// Whether the hardware layer reports itself initialised.
    pub closed spec fn initialized(&self) -> bool {
        services_initialized(self.manager)
    }

    /// A registry over a fresh service manager with the default services.
    pub fn new() -> (r: Self)
        ensures
            r.devices() == Set::<DeviceId>::empty(),
            !r.initialized(),
    {
        let mut manager = manager_new();
        manager_register_defaults(&mut manager);
        Registry { manager }
    }

    /// The service manager that this registry stands on.
    pub closed spec fn manager(&self) -> VRServiceManager {
        self.manager
    }

    /// A registry over a service manager that the caller has set up.
    pub fn with_service(manager: VRServiceManager) -> (r: Self)
        ensures
            r.manager() == manager,
    {
        Registry { manager }
    }

    /// The service manager, for the calls that only the caller can make.
    pub fn service(&self) -> (m: &VRServiceManager)
        ensures
            *m == self.manager(),
    {
        &self.manager
    }

    pub fn is_initialized(&self) -> (b: bool)
        ensures
            b == self.initialized(),
    {
        manager_is_initialized(&self.manager)
    }

    /// Whether `id` names a display of this registry.
    pub fn contains_device(&self, id: DeviceId) -> (b: bool)
        ensures
            b == self.devices().contains(id),
    {
        if id > 0xffff_ffff {
            false
        } else {
            manager_has_display(&self.manager, id as u32)
        }
    }

    /// A handle on the display that `id` names, if it names one.
    pub fn get_device(&self, id: DeviceId) -> (r: Option<DeviceHandle>)
        ensures
            r == if self.devices().contains(id) {
                Some(DeviceHandle { id })
            } else {
                None
            },
    {
        if self.contains_device(id) {
            Some(DeviceHandle { id })
        } else {
            None
        }
    }

    /// The record of the display that `id` names, as the hardware layer
    /// holds it now.
    fn display_data(&self, id: DeviceId) -> (r: Option<VRDisplayData>)
        ensures
            r.is_some() == self.devices().contains(id),
    {
        if id > 0xffff_ffff {
            None
        } else {
            manager_display_data(&self.manager, id as u32)
        }
    }

    /// The current snapshot of the display that `id` names; it carries `id`.
    pub fn snapshot(&self, id: DeviceId) -> (r: Option<DeviceSnapshot>)
        ensures
            r.is_some() == self.devices().contains(id),
            r matches Some(s) ==> s.id == id,
    {
        match self.display_data(id) {
            Some(d) => {
                let mut s = snapshot_from_data(d);
                s.id = id;
                Some(s)
            },
            None => None,
        }
    }

    /// Resets the pose reference frame of the display that `id` names.
    /// Returns whether `id` names a display.
    pub fn reset_pose(&self, id: DeviceId) -> (found: bool)
        ensures
            found == self.devices().contains(id),
    {
        if id > 0xffff_ffff {
            false
        } else {
            manager_reset_pose(&self.manager, id as u32)
        }
    }

    /// Lists the displays. The hardware layer is initialised and probed
    /// first, so displays may appear; none disappears. The list holds the
    /// current snapshot of every display that the registry then resolves,
    /// once each, in ascending order of the ids, and each snapshot carries
    /// the id under which the registry resolves its display.
    pub fn list_devices(&mut self) -> (r: Vec<DeviceSnapshot>)
        ensures
            old(self).devices().subset_of(final(self).devices()),
            final(self).initialized(),
            lists(r@, final(self).devices()),
    {
        let records = manager_fetch_displays(&mut self.manager);
        let ghost all = records@;
        let mut list: Vec<DeviceSnapshot> = Vec::new();
        for record in iter: records.into_iter()
            invariant
                iter.seq() == all,
                list@.len() == iter.index(),
                forall|j: int| 0 <= j < list@.len() ==> (#[trigger] list@[j]).id == all[j].0,
        {
            let (key, data) = record;
            let mut s = snapshot_from_data(data);
            s.id = key as DeviceId;
            list.push(s);
        }
        proof {
            let devices = self.devices();
            assert forall|d: DeviceId| #[trigger] devices.contains(d) implies exists|i: int|
                0 <= i < list@.len() && (#[trigger] list@[i]).id == d by {
                let k = d as u32;
                assert(known_displays(self.manager).contains(k));
                let i = choose|i: int| 0 <= i < all.len() && (#[trigger] all[i]).0 == k;
                assert(list@[i].id == d);
            }
            assert forall|i: int| 0 <= i < list@.len() implies devices.contains((#[trigger] list@[i]).id) by {
                assert(known_displays(self.manager).contains(all[i].0));
            }
        }
        list
    }

    /// Drains the events that the hardware layer has queued, in the order
    /// in which it hands them out. The set of displays does not change.
    /// Every event names its display by an id that a key of the hardware
    /// layer can hold, so that the display can be looked up by it.
    pub fn poll_hardware_events(&mut self) -> (r: Vec<DeviceEvent>)
        ensures
            final(self).devices() == old(self).devices(),
            final(self).initialized() == old(self).initialized(),
            forall|i: int| 0 <= i < r@.len() ==> device_of(#[trigger] r@[i]) <= u32::MAX,
    {
        events_of(manager_poll_events(&mut self.manager))
    }
}

} // verus!
