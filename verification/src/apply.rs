//! The viewport applier: turns a calculator result into exactly what the
//! host writes onto one camera — the projection scale, and, only when the
//! camera opted in, a viewport rectangle clamped to the surface.

use vstd::prelude::*;

use crate::calc::ComputedScale;
use crate::calc::Rect;

verus! {

/// What is written onto one camera for one frame.
#[derive(Clone, Copy, Debug, PartialEq, Eq, Structural)]
pub struct CameraOutput {
    /// Physical pixels per virtual pixel. The host sets the camera's
    /// projection so that one virtual pixel renders as a `scale x scale`
    /// block (world units per physical pixel `= 1 / scale`).
    pub scale: u32,
    /// The camera's physical viewport rectangle; `None` means the host's
    /// default, the full surface.
    pub viewport: Option<Rect>,
}

/// An origin clamped to lie on the surface; it is never moved otherwise,
/// and never negative.
pub open spec fn spec_clamped_origin(origin: int, surface: int) -> int {
    if origin <= surface {
        origin
    } else {
        surface
    }
}

/// An extent reduced from the far edge so that `origin + extent` stays on
/// the surface, for an origin already on the surface.
pub open spec fn spec_clamped_extent(origin: int, extent: int, surface: int) -> int
    recommends
        0 <= origin <= surface,
{
    if origin + extent <= surface {
        extent
    } else {
        surface - origin
    }
}

/// What it means for `v` to be `r` clamped component-wise to a `w x h`
/// surface: the origin is kept (only pulled back onto the surface if it lay
/// beyond it entirely), and each extent is reduced from the overflowing edge.
pub open spec fn clamped_for(v: Rect, r: Rect, w: int, h: int) -> bool {
    &&& v.x == spec_clamped_origin(r.x as int, w)
    &&& v.y == spec_clamped_origin(r.y as int, h)
    &&& v.width == spec_clamped_extent(v.x as int, r.width as int, w)
    &&& v.height == spec_clamped_extent(v.y as int, r.height as int, h)
}

/// What the applier hands the host for one camera: the scale unchanged, and
/// the clamped viewport exactly when the camera opted in.
pub open spec fn output_for(out: CameraOutput, c: ComputedScale, w: int, h: int, opt_in: bool) -> bool {
    &&& out.scale == c.scale
    &&& opt_in ==> (out.viewport matches Some(v) && clamped_for(v, c.viewport, w, h))
    &&& !opt_in ==> out.viewport is None
}

/// One extent of the clamp, as executable code.
fn clamp_extent(origin: u32, extent: u32, surface: u32) -> (r: u32)
    requires
        origin <= surface,
    ensures
        r == spec_clamped_extent(origin as int, extent as int, surface as int),
{
    if extent <= surface - origin {
        extent
    } else {
        surface - origin
    }
}

/// Clamp a computed viewport rectangle to the surface bounds: the origin is
/// never relocated (beyond pulling it back onto the surface) and whichever
/// edge would overflow loses extent instead.
pub fn clamp_rect(r: &Rect, surface: (u32, u32)) -> (v: Rect)
    ensures
        clamped_for(v, *r, surface.0 as int, surface.1 as int),
{
    let x: u32 = if r.x <= surface.0 {
        r.x
    } else {
        surface.0
    };
    let y: u32 = if r.y <= surface.1 {
        r.y
    } else {
        surface.1
    };
    Rect {
        x,
        y,
        width: clamp_extent(x, r.width, surface.0),
        height: clamp_extent(y, r.height, surface.1),
    }
}

/// Turn a calculator result into the values written onto the camera. The
/// projection scale is passed through untouched; the viewport rectangle is
/// produced only for a camera that opted in, clamped so it never extends
/// past the surface.
pub fn apply(c: &ComputedScale, surface: (u32, u32), viewport_opt_in: bool) -> (out: CameraOutput)
    ensures
        output_for(out, *c, surface.0 as int, surface.1 as int, viewport_opt_in),
{
    if viewport_opt_in {
        CameraOutput { scale: c.scale, viewport: Some(clamp_rect(&c.viewport, surface)) }
    } else {
        CameraOutput { scale: c.scale, viewport: None }
    }
}

/// A clamped viewport always lies inside the surface, and a viewport that
/// already fits is passed through unchanged.
pub proof fn lemma_clamped_viewport_fits(v: Rect, r: Rect, w: u32, h: u32)
    requires
        clamped_for(v, r, w as int, h as int),
    ensures
        v.x + v.width <= w,
        v.y + v.height <= h,
        r.x + r.width <= w && r.y + r.height <= h ==> v == r,
{
}

} // verus!
