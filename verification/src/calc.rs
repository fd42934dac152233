//! The scale/viewport calculator: a pure function from one surface-size
//! snapshot and one [`ZoomMode`] to the integer scale factor and the centered
//! viewport rectangle, or to "no change" when the surface is degenerate.

use vstd::prelude::*;
use vstd::arithmetic::div_mod::lemma_remainder_lower;
use vstd::arithmetic::mul::lemma_mul_inequality;

use crate::zoom::ZoomMode;

verus! {

/// An axis-aligned rectangle in physical pixels, with its origin at the
/// surface corner the host measures viewports from.
#[derive(Clone, Copy, Debug, PartialEq, Eq, Structural)]
pub struct Rect {
    /// Horizontal distance of the rectangle from the surface edge.
    pub x: u32,
    /// Vertical distance of the rectangle from the surface edge.
    pub y: u32,
    /// Horizontal extent in physical pixels.
    pub width: u32,
    /// Vertical extent in physical pixels.
    pub height: u32,
}

/// The calculator's result for one camera against one surface snapshot:
/// the integer scale factor and the nominal (not yet clamped) viewport.
#[derive(Clone, Copy, Debug, PartialEq, Eq, Structural)]
pub struct ComputedScale {
    /// Physical pixels per virtual pixel; always at least one.
    pub scale: u32,
    /// The centered viewport rectangle. It may exceed the surface when the
    /// surface is smaller than the target even at scale one; clamping to the
    /// surface is the applier's job.
    pub viewport: Rect,
}

/// `max(1, floor(surface / target))`: the largest integer scale at which
/// `target` virtual pixels fit into `surface` physical pixels, clamped below
/// at one so content never vanishes on an undersized surface.
pub open spec fn fit_scale(surface: int, target: int) -> int
    recommends
        target >= 1,
{
    if surface / target >= 1 {
        surface / target
    } else {
        1
    }
}

/// The scale factor a mode yields on a `w x h` surface.
pub open spec fn spec_scale(mode: ZoomMode, w: int, h: int) -> int {
    match mode {
        ZoomMode::Fixed(n) => n as int,
        ZoomMode::FitSize(tw, th) => {
            let s = if w / (tw as int) <= h / (th as int) {
                w / (tw as int)
            } else {
                h / (th as int)
            };
            if s >= 1 {
                s
            } else {
                1
            }
        },
        ZoomMode::FitWidth(tw) => fit_scale(w, tw as int),
        ZoomMode::FitHeight(th) => fit_scale(h, th as int),
    }
}

/// The nominal viewport width: the scaled target width where the mode
/// constrains the width, the full surface width where it does not.
pub open spec fn spec_viewport_w(mode: ZoomMode, w: int, h: int) -> int {
    match mode {
        ZoomMode::Fixed(_) => w,
        ZoomMode::FitSize(tw, _) => tw * spec_scale(mode, w, h),
        ZoomMode::FitWidth(tw) => tw * spec_scale(mode, w, h),
        ZoomMode::FitHeight(_) => w,
    }
}

/// The nominal viewport height: the scaled target height where the mode
/// constrains the height, the full surface height where it does not.
pub open spec fn spec_viewport_h(mode: ZoomMode, w: int, h: int) -> int {
    match mode {
        ZoomMode::Fixed(_) => h,
        ZoomMode::FitSize(_, th) => th * spec_scale(mode, w, h),
        ZoomMode::FitWidth(_) => h,
        ZoomMode::FitHeight(th) => th * spec_scale(mode, w, h),
    }
}

/// The centered origin on one axis: `floor((surface - extent) / 2)` when the
/// extent fits, zero when it does not (the origin is never negative).
pub open spec fn spec_origin(surface: int, extent: int) -> int {
    if extent <= surface {
        (surface - extent) / 2
    } else {
        0
    }
}

/// What it means for a [`ComputedScale`] to be the calculator's answer for
/// `mode` on a `w x h` surface.
pub open spec fn computed_for(c: ComputedScale, mode: ZoomMode, w: int, h: int) -> bool {
    &&& c.scale == spec_scale(mode, w, h)
    &&& c.viewport.width == spec_viewport_w(mode, w, h)
    &&& c.viewport.height == spec_viewport_h(mode, w, h)
    &&& c.viewport.x == spec_origin(w, spec_viewport_w(mode, w, h))
    &&& c.viewport.y == spec_origin(h, spec_viewport_h(mode, w, h))
}

/// A scaled target extent never exceeds the surface when the unclamped
/// division gave the scale, and never exceeds the target itself times one
/// when the clamp to one fired; either way it fits in the surface's type.
proof fn lemma_scaled_extent_bound(surface: int, target: int, scale: int)
    requires
        surface >= 0,
        target >= 1,
        1 <= scale,
        scale <= fit_scale(surface, target),
    ensures
        surface / target >= 1 ==> target * scale <= surface,
        surface / target < 1 ==> scale == 1 && target * scale == target,
{
    if surface / target >= 1 {
        lemma_remainder_lower(surface, target);
        lemma_mul_inequality(scale, surface / target, target);
    }
}

/// `max(1, surface / target)` as executable code.
fn fit_scale_exec(surface: u32, target: u32) -> (r: u32)
    requires
        target >= 1,
    ensures
        r == fit_scale(surface as int, target as int),
{
    let s: u32 = surface / target;
    if s >= 1 {
        s
    } else {
        1
    }
}

/// `target * scale` for a scale no larger than `max(1, surface / target)`:
/// the product fits in `u32` because it is bounded by the surface where the
/// division gave the scale, and by the target itself where the clamp fired.
fn scaled_extent(target: u32, scale: u32, surface: u32) -> (r: u32)
    requires
        target >= 1,
        1 <= scale,
        scale <= fit_scale(surface as int, target as int),
    ensures
        r == target * scale,
{
    proof {
        lemma_scaled_extent_bound(surface as int, target as int, scale as int);
    }
    target * scale
}

/// The centered origin on one axis as executable code.
fn origin_exec(surface: u32, extent: u32) -> (r: u32)
    ensures
        r == spec_origin(surface as int, extent as int),
{
    if extent <= surface {
        (surface - extent) / 2
    } else {
        0
    }
}

/// Compute the integer scale factor and the nominal, centered viewport for
/// one camera: `None` exactly when the surface is degenerate (a zero
/// dimension, e.g. a minimized window), in which case the caller keeps its
/// previous valid state.
pub fn compute(surface: (u32, u32), mode: &ZoomMode) -> (r: Option<ComputedScale>)
    requires
        mode.wf(),
    ensures
        r is Some <==> surface.0 >= 1 && surface.1 >= 1,
        (r matches Some(c) ==> computed_for(c, *mode, surface.0 as int, surface.1 as int)),
        (r matches Some(c) ==> c.scale >= 1),
{
    let (w, h) = surface;
    if w == 0 || h == 0 {
        return None;
    }
    match mode {
        ZoomMode::Fixed(n) => Some(
            ComputedScale {
                scale: *n,
                viewport: Rect { x: 0, y: 0, width: w, height: h },
            },
        ),
        ZoomMode::FitSize(tw, th) => {
            let sw: u32 = w / *tw;
            let sh: u32 = h / *th;
            let s: u32 = if sw <= sh {
                sw
            } else {
                sh
            };
            let scale: u32 = if s >= 1 {
                s
            } else {
                1
            };
            let vw: u32 = scaled_extent(*tw, scale, w);
            let vh: u32 = scaled_extent(*th, scale, h);
            Some(
                ComputedScale {
                    scale,
                    viewport: Rect {
                        x: origin_exec(w, vw),
                        y: origin_exec(h, vh),
                        width: vw,
                        height: vh,
                    },
                },
            )
        },
        ZoomMode::FitWidth(tw) => {
            let scale: u32 = fit_scale_exec(w, *tw);
            let vw: u32 = scaled_extent(*tw, scale, w);
            Some(
                ComputedScale {
                    scale,
                    viewport: Rect { x: origin_exec(w, vw), y: 0, width: vw, height: h },
                },
            )
        },
        ZoomMode::FitHeight(th) => {
            let scale: u32 = fit_scale_exec(h, *th);
            let vh: u32 = scaled_extent(*th, scale, h);
            Some(
                ComputedScale {
                    scale,
                    viewport: Rect { x: 0, y: origin_exec(h, vh), width: w, height: vh },
                },
            )
        },
    }
}

/// Under `FitSize` the scale is `max(1, floor(min(w/tw, h/th)))`, and
/// whenever a scale of at least one was achievable without the clamp the
/// scaled target fits inside the surface on both axes.
pub proof fn lemma_fit_size_viewport_fits(w: u32, h: u32, tw: u32, th: u32)
    requires
        tw >= 1,
        th >= 1,
    ensures
        spec_scale(ZoomMode::FitSize(tw, th), w as int, h as int) == {
            let m = if w as int / tw as int <= h as int / th as int {
                w as int / tw as int
            } else {
                h as int / th as int
            };
            if m >= 1 {
                m
            } else {
                1
            }
        },
        w as int / tw as int >= 1 && h as int / th as int >= 1 ==> spec_viewport_w(
            ZoomMode::FitSize(tw, th),
            w as int,
            h as int,
        ) <= w && spec_viewport_h(ZoomMode::FitSize(tw, th), w as int, h as int) <= h,
{
    let wi = w as int;
    let hi = h as int;
    let twi = tw as int;
    let thi = th as int;
    if wi / twi >= 1 && hi / thi >= 1 {
        let s = spec_scale(ZoomMode::FitSize(tw, th), wi, hi);
        assert(1 <= s && s <= wi / twi && s <= hi / thi);
        lemma_remainder_lower(wi, twi);
        lemma_mul_inequality(s, wi / twi, twi);
        assert(s * twi <= (wi / twi) * twi);
        assert(twi * s <= wi);
        lemma_remainder_lower(hi, thi);
        lemma_mul_inequality(s, hi / thi, thi);
        assert(s * thi <= (hi / thi) * thi);
        assert(thi * s <= hi);
    }
}

/// Under `FitWidth` and `FitHeight` the scaled target fits the surface on
/// its constrained axis whenever a scale of at least one was achievable
/// without the clamp; the other axis is the full surface by definition.
pub proof fn lemma_fit_axis_viewport_fits(w: u32, h: u32, t: u32)
    requires
        t >= 1,
    ensures
        w as int / t as int >= 1 ==> spec_viewport_w(ZoomMode::FitWidth(t), w as int, h as int)
            <= w,
        h as int / t as int >= 1 ==> spec_viewport_h(ZoomMode::FitHeight(t), w as int, h as int)
            <= h,
{
    let wi = w as int;
    let hi = h as int;
    let ti = t as int;
    if wi / ti >= 1 {
        lemma_remainder_lower(wi, ti);
        assert(spec_scale(ZoomMode::FitWidth(t), wi, hi) == wi / ti);
        assert(ti * (wi / ti) <= wi);
    }
    if hi / ti >= 1 {
        lemma_remainder_lower(hi, ti);
        assert(spec_scale(ZoomMode::FitHeight(t), wi, hi) == hi / ti);
        assert(ti * (hi / ti) <= hi);
    }
}

/// The viewport is centered: its origin is `floor((surface - extent) / 2)`
/// on each axis whenever the extent fits the surface.
pub proof fn lemma_origin_centered(c: ComputedScale, mode: ZoomMode, w: u32, h: u32)
    requires
        computed_for(c, mode, w as int, h as int),
        c.viewport.width <= w,
        c.viewport.height <= h,
    ensures
        c.viewport.x == (w - c.viewport.width) / 2,
        c.viewport.y == (h - c.viewport.height) / 2,
{
}

/// The calculator is deterministic: two results computed from identical
/// inputs are bit-identical.
pub proof fn lemma_compute_deterministic(
    c1: ComputedScale,
    c2: ComputedScale,
    mode: ZoomMode,
    w: u32,
    h: u32,
)
    requires
        computed_for(c1, mode, w as int, h as int),
        computed_for(c2, mode, w as int, h as int),
    ensures
        c1 == c2,
{
    assert(c1.viewport == c2.viewport);
}

/// A `Fixed` scale is invariant under any surface size change.
pub proof fn lemma_fixed_scale_invariant(n: u32, w1: u32, h1: u32, w2: u32, h2: u32)
    ensures
        spec_scale(ZoomMode::Fixed(n), w1 as int, h1 as int) == spec_scale(
            ZoomMode::Fixed(n),
            w2 as int,
            h2 as int,
        ),
{
}

} // verus!
