//! Arbitration of exclusive presenting sessions on virtual-reality displays
//! that several isolated client contexts share.

pub mod types;
pub mod snapshot;
pub mod events;
pub mod registry;
pub mod arbitrator;
pub mod scheduler;
pub mod dispatcher;
pub mod compositor;
pub mod layer;
pub mod display;
pub mod vr;
pub mod laws;

pub use dispatcher::WebVRMsg;
pub use dispatcher::WebVRThread;
pub use snapshot::WebVRDisplayData;
pub use snapshot::WebVRStageParameters;
pub use compositor::WebVRCompositorHandler;
pub use display::VRDisplay;
pub use vr::VR;
