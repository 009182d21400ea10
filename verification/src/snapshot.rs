//! Display metadata as the library hands it to clients.

use vstd::prelude::*;
use rust_webvr_api::VRDisplayData;
use rust_webvr_api::VRStageParameters;
use crate::types::DeviceId;

verus! {

#[verifier::external_type_specification]
#[verifier::external_body]
pub struct ExVRDisplayData(VRDisplayData);

#[verifier::external_type_specification]
#[verifier::external_body]
pub struct ExVRStageParameters(VRStageParameters);

/// Play-area bounds of a display that supports room-scale use: the size of
/// the area and the transform from sitting to standing space.
#[derive(Debug)]
pub struct WebVRStageParameters(pub VRStageParameters);

/// The complete record that the hardware layer keeps of one display,
/// per-eye fields of view included.
#[derive(Debug)]
pub struct WebVRDisplayData(pub VRDisplayData);

/// What a display is able to do.
#[derive(Clone, Copy, Debug, PartialEq, Eq, Structural)]
pub struct DeviceCapabilities {
    pub can_present: bool,
    pub has_orientation: bool,
    pub has_position: bool,
    pub has_external_display: bool,
}

/// Recommended render-target size of one eye, in pixels.
#[derive(Clone, Copy, Debug, PartialEq, Eq, Structural)]
pub struct RenderSize {
    pub width: u32,
    pub height: u32,
}

/// The metadata of one display at the moment it was read.
#[derive(Debug)]
pub struct DeviceSnapshot {
    pub id: DeviceId,
    pub name: String,
    pub connected: bool,
    pub capabilities: DeviceCapabilities,
    pub left_render_size: RenderSize,
    pub right_render_size: RenderSize,
    pub stage: Option<WebVRStageParameters>,
    pub data: WebVRDisplayData,
}

/// The snapshot that a display record reads as.
pub uninterp spec fn snapshot_form(d: VRDisplayData) -> DeviceSnapshot;

/// Reads the fields of a display record into a snapshot; `data` keeps the
/// record itself. The snapshot depends on the record alone. Its id is the
/// record's `display_id`, which is 32 bits wide, widened; nothing else is
/// claimed of the values read.
#[verifier::external_body]
pub(crate) fn snapshot_from_data(d: VRDisplayData) -> (s: DeviceSnapshot)
    ensures
        s == snapshot_form(d),
        s.id <= u32::MAX,
{
    DeviceSnapshot {
        id: d.display_id.into(),
        name: d.display_name.clone(),
        connected: d.connected,
        capabilities: DeviceCapabilities {
            can_present: d.capabilities.can_present,
            has_orientation: d.capabilities.has_orientation,
            has_position: d.capabilities.has_position,
            has_external_display: d.capabilities.has_external_display,
        },
        left_render_size: RenderSize { width: d.left_eye_parameters.render_width, height: d.left_eye_parameters.render_height },
        right_render_size: RenderSize { width: d.right_eye_parameters.render_width, height: d.right_eye_parameters.render_height },
        stage: d.stage_parameters.clone().map(WebVRStageParameters),
        data: WebVRDisplayData(d),
    }
}

} // verus!
