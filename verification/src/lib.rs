//! Integer scale and viewport computation for pixel-art cameras.
//!
//! Pixel-art content is authored against a fixed virtual resolution and must
//! be drawn at an integer number of physical pixels per virtual pixel, or it
//! shimmers. This crate owns that computation: given the physical size of a
//! rendering surface and a per-camera [`ZoomMode`], it produces the integer
//! scale factor and the centered viewport rectangle, decides each frame
//! whether anything needs to be rewritten at all, and clamps the viewport to
//! the surface when the window is smaller than the content. The host engine
//! owns windows, cameras and the render pipeline; it feeds surface sizes in
//! and writes the results onto its camera's projection and viewport.

pub mod apply;
pub mod calc;
pub mod frame;
pub mod plugin;
pub mod zoom;

pub use apply::CameraOutput;
pub use apply::apply;
pub use apply::clamp_rect;
pub use calc::ComputedScale;
pub use calc::Rect;
pub use calc::compute;
pub use frame::CameraPhase;
pub use frame::CameraScaleState;
pub use frame::frame_update;
pub use plugin::PixelCameraPlugin;
pub use zoom::ConfigError;
pub use zoom::ZoomMode;
