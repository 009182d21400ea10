//! The session arbitrator: which context, if any, holds the presenting
//! session of each display.

use vstd::prelude::*;
use std::collections::HashMap;
use crate::registry::Registry;
use crate::types::ContextId;
use crate::types::DeviceHandle;
use crate::types::DeviceId;
use crate::types::VrError;

verus! {

broadcast use vstd::std_specs::hash::group_hash_axioms;

/// Whether `owners` lets `context` use `device`: the device is unowned, or
/// `context` is its owner.
pub open spec fn may_use(owners: Map<DeviceId, ContextId>, context: ContextId, device: DeviceId) -> bool {
    owners.contains_key(device) ==> owners[device] == context
}

/// Whether `context` holds the presenting session of `device`.
pub open spec fn holds(owners: Map<DeviceId, ContextId>, context: ContextId, device: DeviceId) -> bool {
    owners.contains_key(device) && owners[device] == context
}

/// The outcome of the access check: the device must exist, and must be
/// unowned or owned by the context that asks.
pub open spec fn access(
    owners: Map<DeviceId, ContextId>,
    devices: Set<DeviceId>,
    context: ContextId,
    device: DeviceId,
) -> Result<DeviceHandle, VrError> {
    if !devices.contains(device) {
        Err(VrError::DeviceNotFound)
    } else if !may_use(owners, context, device) {
        Err(VrError::DeviceBusy)
    } else {
        Ok(DeviceHandle { id: device })
    }
}

/// The ownership map after `context` has released `device`: the entry goes
/// if `context` held it, and nothing changes otherwise.
pub open spec fn released(owners: Map<DeviceId, ContextId>, context: ContextId, device: DeviceId) -> Map<
    DeviceId,
    ContextId,
> {
    if holds(owners, context, device) {
        owners.remove(device)
    } else {
        owners
    }
}

/// Per display, the one context that holds its presenting session.
pub struct SessionArbitrator {
    presenting: HashMap<DeviceId, ContextId>,
}

impl View for SessionArbitrator {
    type V = Map<DeviceId, ContextId>;

    /// The ownership map: a display is a key exactly while a context holds it.
    closed spec fn view(&self) -> Map<DeviceId, ContextId> {
        self.presenting@
    }
}

impl SessionArbitrator {
    /// An arbitrator under which every display is unowned.
    pub fn new() -> (a: Self)
        ensures
            a@ == Map::<DeviceId, ContextId>::empty(),
    {
        SessionArbitrator { presenting: HashMap::new() }
    }

    /// The context that holds `device`, if one does.
    pub fn owner_of(&self, device: DeviceId) -> (r: Option<ContextId>)
        ensures
            r == if self@.contains_key(device) {
                Some(self@[device])
            } else {
                None
            },
    {
        match self.presenting.get(&device) {
            Some(owner) => Some(*owner),
            None => None,
        }
    }

    /// The single enforcement point of exclusivity: grants `context` access
    /// to `device` only if the registry knows the device and no other
    /// context holds it.
    pub fn check_access(&self, registry: &Registry, context: ContextId, device: DeviceId) -> (r: Result<
        DeviceHandle,
        VrError,
    >)
        ensures
            r == access(self@, registry.devices(), context, device),
    {
        if !registry.contains_device(device) {
            return Err(VrError::DeviceNotFound);
        }
        match self.owner_of(device) {
            Some(owner) => {
                if owner != context {
                    return Err(VrError::DeviceBusy);
                }
            },
            None => {},
        }
        Ok(DeviceHandle { id: device })
    }

    /// Records `context` as the holder of `device`. To be called once the
    /// access check has let `context` through; acquiring again what one
    /// holds changes nothing.
    pub fn acquire(&mut self, context: ContextId, device: DeviceId)
        requires
            may_use(old(self)@, context, device),
        ensures
            final(self)@ == old(self)@.insert(device, context),
            holds(old(self)@, context, device) ==> final(self)@ == old(self)@,
    {
        self.presenting.insert(device, context);
    }

    /// Gives up the session of `context` on `device`. Releasing what the
    /// caller does not hold is a silent no-op.
    pub fn release(&mut self, context: ContextId, device: DeviceId)
        ensures
            final(self)@ == released(old(self)@, context, device),
    {
        let held = match self.presenting.get(&device) {
            Some(owner) => *owner == context,
            None => false,
        };
        if held {
            self.presenting.remove(&device);
        }
    }
}

} // verus!
