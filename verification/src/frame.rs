//! The per-frame update hook as a pure state machine: from a camera's
//! previous state and this frame's inputs to the next state and, when
//! anything changed, the values to write onto the camera. The host runs this
//! once per camera per frame, after surface resizes and before render
//! extraction; identical inputs are a guaranteed no-op, so downstream
//! change detection never sees redundant writes.

use vstd::prelude::*;

use crate::apply::CameraOutput;
use crate::apply::apply;
use crate::apply::output_for;
use crate::calc::ComputedScale;
use crate::calc::Rect;
use crate::calc::compute;
use crate::calc::computed_for;
use crate::zoom::ZoomMode;

verus! {

/// Everything one camera's last successful computation depended on, together
/// with its result. Created on the first successful computation, replaced on
/// every recompute, and dropped with the camera.
#[derive(Clone, Copy, Debug, PartialEq, Eq, Structural)]
pub struct CameraScaleState {
    /// Surface width the state was computed against.
    pub surface_w: u32,
    /// Surface height the state was computed against.
    pub surface_h: u32,
    /// The zoom mode the state was computed against.
    pub mode: ZoomMode,
    /// Whether the camera had opted into viewport updates.
    pub viewport_opt_in: bool,
    /// The computed scale factor.
    pub scale: u32,
    /// The computed nominal (unclamped) viewport rectangle.
    pub viewport: Rect,
}

/// One camera's lifecycle: nothing computed yet, or the last successful
/// computation with the inputs it came from.
#[derive(Clone, Copy, Debug, PartialEq, Eq, Structural)]
pub enum CameraPhase {
    /// No successful computation has happened for this camera yet.
    Uninitialized,
    /// The last successful computation and what it was computed from.
    Initialized(CameraScaleState),
}

/// Whether this frame's inputs differ from the ones the current state was
/// computed from, so that a recompute is due at all.
pub open spec fn needs_recompute(
    phase: CameraPhase,
    w: u32,
    h: u32,
    mode: ZoomMode,
    opt_in: bool,
) -> bool {
    match phase {
        CameraPhase::Uninitialized => true,
        CameraPhase::Initialized(s) => s.surface_w != w || s.surface_h != h || s.mode != mode
            || s.viewport_opt_in != opt_in,
    }
}

/// What it means for a stored state to be the successful computation for
/// this frame's inputs.
pub open spec fn state_for(s: CameraScaleState, w: u32, h: u32, mode: ZoomMode, opt_in: bool) -> bool {
    &&& s.surface_w == w
    &&& s.surface_h == h
    &&& s.mode == mode
    &&& s.viewport_opt_in == opt_in
    &&& computed_for(
        ComputedScale { scale: s.scale, viewport: s.viewport },
        mode,
        w as int,
        h as int,
    )
}

/// A camera phase is consistent when any stored state really is the
/// successful computation for the inputs it records. Every phase the hook
/// produces is consistent, so the stored scale and viewport can never drift
/// from the surface size, mode and opt-in they claim to come from.
pub open spec fn phase_consistent(phase: CameraPhase) -> bool {
    match phase {
        CameraPhase::Uninitialized => true,
        CameraPhase::Initialized(s) => state_for(
            s,
            s.surface_w,
            s.surface_h,
            s.mode,
            s.viewport_opt_in,
        ),
    }
}

/// The full behaviour of one [`frame_update`] step: a no-op when nothing
/// changed or the surface is degenerate, otherwise a fresh state and the
/// values to write onto the camera.
pub open spec fn frame_update_post(
    phase: CameraPhase,
    w: u32,
    h: u32,
    mode: ZoomMode,
    opt_in: bool,
    next: CameraPhase,
    out: Option<CameraOutput>,
) -> bool {
    &&& !needs_recompute(phase, w, h, mode, opt_in) ==> next == phase && out is None
    &&& needs_recompute(phase, w, h, mode, opt_in) && (w == 0 || h == 0) ==> next == phase
        && out is None
    &&& needs_recompute(phase, w, h, mode, opt_in) && w >= 1 && h >= 1 ==> {
        &&& (next matches CameraPhase::Initialized(s) && state_for(s, w, h, mode, opt_in)
            && (out matches Some(o) && output_for(
            o,
            ComputedScale { scale: s.scale, viewport: s.viewport },
            w as int,
            h as int,
            opt_in,
        )))
    }
}

/// One camera's per-frame step. Recomputes only when the surface size, the
/// zoom mode, or the viewport opt-in changed since the stored state (or when
/// nothing was stored yet); returns the unchanged state and no output
/// otherwise, and likewise while the surface is degenerate, so the last
/// valid state is retained across e.g. a minimized window.
pub fn frame_update(
    phase: &CameraPhase,
    surface: (u32, u32),
    mode: &ZoomMode,
    viewport_opt_in: bool,
) -> (r: (CameraPhase, Option<CameraOutput>))
    requires
        mode.wf(),
    ensures
        frame_update_post(*phase, surface.0, surface.1, *mode, viewport_opt_in, r.0, r.1),
        phase_consistent(*phase) ==> phase_consistent(r.0),
{
    let recompute = match phase {
        CameraPhase::Uninitialized => true,
        CameraPhase::Initialized(s) => s.surface_w != surface.0 || s.surface_h != surface.1
            || s.mode != *mode || s.viewport_opt_in != viewport_opt_in,
    };
    if !recompute {
        return (*phase, None);
    }
    match compute(surface, mode) {
        None => (*phase, None),
        Some(c) => {
            let out = apply(&c, surface, viewport_opt_in);
            let s = CameraScaleState {
                surface_w: surface.0,
                surface_h: surface.1,
                mode: *mode,
                viewport_opt_in,
                scale: c.scale,
                viewport: c.viewport,
            };
            (CameraPhase::Initialized(s), Some(out))
        },
    }
}

/// While the inputs a camera's state was computed from are unchanged, the
/// hook is a no-op: the state is kept and nothing is written.
pub proof fn lemma_unchanged_inputs_no_op(
    s: CameraScaleState,
    next: CameraPhase,
    out: Option<CameraOutput>,
)
    requires
        frame_update_post(
            CameraPhase::Initialized(s),
            s.surface_w,
            s.surface_h,
            s.mode,
            s.viewport_opt_in,
            next,
            out,
        ),
    ensures
        next == CameraPhase::Initialized(s),
        out is None,
{
}

/// The frame a surface resize is observed, the scale is recomputed from the
/// new surface — and it is recomputed only then, never from a stale size.
pub proof fn lemma_resize_recomputes(
    s: CameraScaleState,
    w: u32,
    h: u32,
    next: CameraPhase,
    out: Option<CameraOutput>,
)
    requires
        w >= 1,
        h >= 1,
        s.surface_w != w || s.surface_h != h,
        frame_update_post(
            CameraPhase::Initialized(s),
            w,
            h,
            s.mode,
            s.viewport_opt_in,
            next,
            out,
        ),
    ensures
        out matches Some(o) && o.scale == crate::calc::spec_scale(s.mode, w as int, h as int),
        next matches CameraPhase::Initialized(n) && state_for(
            n,
            w,
            h,
            s.mode,
            s.viewport_opt_in,
        ),
{
}

/// Removing the viewport opt-in forces a recompute whose output reverts the
/// camera's viewport to the host default — the full surface — while the
/// projection scale is unaffected.
pub proof fn lemma_opt_out_reverts_viewport(
    s: CameraScaleState,
    next: CameraPhase,
    out: Option<CameraOutput>,
)
    requires
        s.surface_w >= 1,
        s.surface_h >= 1,
        s.viewport_opt_in == true,
        state_for(s, s.surface_w, s.surface_h, s.mode, true),
        frame_update_post(
            CameraPhase::Initialized(s),
            s.surface_w,
            s.surface_h,
            s.mode,
            false,
            next,
            out,
        ),
    ensures
        out matches Some(o) && o.viewport is None && o.scale == s.scale,
{
}

} // verus!
