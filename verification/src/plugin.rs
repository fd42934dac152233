//! The plugin identity. The host-side integration layer registers one
//! per-frame invocation of [`crate::frame_update`] per camera under this
//! marker, scheduled after surface resizes and camera-transform propagation
//! and before render extraction.

use vstd::prelude::*;

verus! {

/// Provides the camera system: registering this with the host engine makes
/// it run the per-frame scale/viewport update for every camera that carries
/// a [`crate::ZoomMode`].
pub struct PixelCameraPlugin;

} // verus!
