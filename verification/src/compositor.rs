//! The compositor side: which displays have a compositor, and what each
//! compositor command asks of the rendering path.

use vstd::prelude::*;
use std::collections::HashSet;
use crate::registry::Registry;
use crate::types::DeviceHandle;
use crate::types::DeviceId;

verus! {

broadcast use vstd::std_specs::hash::group_hash_axioms;

/// A command of the rendering path. A compositor goes by the id of the
/// display that it renders to.
#[derive(Clone, Copy, Debug, PartialEq, Eq, Structural)]
pub enum VRCompositorCommand {
    /// Create the compositor of the display.
    Create(DeviceId),
    /// Synchronise with the display and report the frame data to render with.
    SyncPoses(DeviceId),
    /// Submit the rendered frame to the display.
    SubmitFrame(DeviceId),
    /// Give the compositor up.
    Release(DeviceId),
}

/// What the rendering path has to do for a command.
#[derive(Clone, Copy, Debug, PartialEq, Eq, Structural)]
pub enum CompositorAction {
    /// Nothing.
    Nothing,
    /// Synchronise with this display and reply with its frame data.
    SyncPoses(DeviceHandle),
    /// Reply that the frame data cannot be had: there is no such compositor.
    RefuseSync,
    /// Submit the texture with this id to this display.
    SubmitFrame(DeviceHandle, u32),
}

/// The compositors after `cmd`. `devices` is the set of displays that the
/// registry resolves, or `None` while no registry is available.
pub open spec fn compositors_after(
    compositors: Set<DeviceId>,
    devices: Option<Set<DeviceId>>,
    cmd: VRCompositorCommand,
) -> Set<DeviceId> {
    match cmd {
        VRCompositorCommand::Create(id) => if devices matches Some(known) && known.contains(id) {
            compositors.insert(id)
        } else {
            compositors
        },
        VRCompositorCommand::Release(id) => compositors.remove(id),
        _ => compositors,
    }
}

/// What `cmd` asks of the rendering path: poses and frames go only to a
/// display that has a compositor, and a frame only with a texture.
pub open spec fn action_for(compositors: Set<DeviceId>, cmd: VRCompositorCommand, texture_id: Option<u32>) -> CompositorAction {
    match cmd {
        VRCompositorCommand::SyncPoses(id) => if compositors.contains(id) {
            CompositorAction::SyncPoses(DeviceHandle { id })
        } else {
            CompositorAction::RefuseSync
        },
        VRCompositorCommand::SubmitFrame(id) => match texture_id {
            Some(texture) if compositors.contains(id) => CompositorAction::SubmitFrame(
                DeviceHandle { id },
                texture,
            ),
            _ => CompositorAction::Nothing,
        },
        _ => CompositorAction::Nothing,
    }
}

/// Keeps the compositors that the rendering path has created.
pub struct WebVRCompositorHandler {
    compositors: HashSet<DeviceId>,
}

impl View for WebVRCompositorHandler {
    type V = Set<DeviceId>;

    /// The displays that have a compositor.
    closed spec fn view(&self) -> Set<DeviceId> {
        self.compositors@
    }
}

impl WebVRCompositorHandler {
    /// A handler without compositors.
    pub fn new() -> (h: Box<WebVRCompositorHandler>)
        ensures
            h@ == Set::<DeviceId>::empty(),
    {
        Box::new(WebVRCompositorHandler { compositors: HashSet::new() })
    }

    /// Whether the display has a compositor.
    pub fn has_compositor(&self, device: DeviceId) -> (b: bool)
        ensures
            b == self@.contains(device),
    {
        self.compositors.contains(&device)
    }

    /// Creates the compositor of `device` if a registry is available and
    /// resolves the id; otherwise nothing changes.
    pub fn create_compositor(&mut self, registry: Option<&Registry>, device: DeviceId)
        ensures
            final(self)@ == compositors_after(
                old(self)@,
                match registry {
                    Some(r) => Some(r.devices()),
                    None => None,
                },
                VRCompositorCommand::Create(device),
            ),
    {
        match registry {
            Some(r) => {
                if r.contains_device(device) {
                    self.compositors.insert(device);
                }
            },
            None => {},
        }
    }

    /// Serves one command of the rendering path and says what that path
    /// has to do.
    pub fn handle(
        &mut self,
        registry: Option<&Registry>,
        cmd: VRCompositorCommand,
        texture_id: Option<u32>,
    ) -> (action: CompositorAction)
        ensures
            action == action_for(old(self)@, cmd, texture_id),
            final(self)@ == compositors_after(
                old(self)@,
                match registry {
                    Some(r) => Some(r.devices()),
                    None => None,
                },
                cmd,
            ),
    {
        match cmd {
            VRCompositorCommand::Create(id) => {
                self.create_compositor(registry, id);
                CompositorAction::Nothing
            },
            VRCompositorCommand::SyncPoses(id) => {
                if self.compositors.contains(&id) {
                    CompositorAction::SyncPoses(DeviceHandle { id })
                } else {
                    CompositorAction::RefuseSync
                }
            },
            VRCompositorCommand::SubmitFrame(id) => {
                if self.compositors.contains(&id) {
                    match texture_id {
                        Some(texture) => CompositorAction::SubmitFrame(DeviceHandle { id }, texture),
                        None => CompositorAction::Nothing,
                    }
                } else {
                    CompositorAction::Nothing
                }
            },
            VRCompositorCommand::Release(id) => {
                self.compositors.remove(&id);
                CompositorAction::Nothing
            },
        }
    }
}

} // verus!
