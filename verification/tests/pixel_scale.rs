//! Tests for the zoom-mode constructors, the calculator and the applier.

use pixcam::{apply, clamp_rect, compute, ConfigError, Rect, ZoomMode};

#[test]
fn fixed_construction_rejects_non_positive() {
    assert_eq!(ZoomMode::fixed(0), Err(ConfigError::NonPositiveScale));
    assert_eq!(ZoomMode::fixed(-1), Err(ConfigError::NonPositiveScale));
    assert_eq!(ZoomMode::fixed(3), Ok(ZoomMode::Fixed(3)));
}

#[test]
fn fit_construction_rejects_non_positive_targets() {
    assert_eq!(ZoomMode::fit_size(0, 180), Err(ConfigError::NonPositiveTarget));
    assert_eq!(ZoomMode::fit_size(320, 0), Err(ConfigError::NonPositiveTarget));
    assert_eq!(ZoomMode::fit_size(-320, -180), Err(ConfigError::NonPositiveTarget));
    assert_eq!(ZoomMode::fit_width(0), Err(ConfigError::NonPositiveTarget));
    assert_eq!(ZoomMode::fit_height(-5), Err(ConfigError::NonPositiveTarget));
    assert_eq!(ZoomMode::fit_size(320, 180), Ok(ZoomMode::FitSize(320, 180)));
    assert_eq!(ZoomMode::fit_width(320), Ok(ZoomMode::FitWidth(320)));
    assert_eq!(ZoomMode::fit_height(180), Ok(ZoomMode::FitHeight(180)));
}

#[test]
fn fit_size_exact_fit() {
    // Surface 1280x720 with a 320x180 target: scale 4, full-surface viewport.
    let mode = ZoomMode::fit_size(320, 180).unwrap();
    let c = compute((1280, 720), &mode).unwrap();
    assert_eq!(c.scale, 4);
    assert_eq!(c.viewport, Rect { x: 0, y: 0, width: 1280, height: 720 });
}

#[test]
fn fit_size_letterboxed() {
    // Surface 800x600: min(800/320, 600/180) = min(2.5, 3.33) floors to 2;
    // the 640x360 viewport is centered at (80, 120).
    let mode = ZoomMode::fit_size(320, 180).unwrap();
    let c = compute((800, 600), &mode).unwrap();
    assert_eq!(c.scale, 2);
    assert_eq!(c.viewport, Rect { x: 80, y: 120, width: 640, height: 360 });
}

#[test]
fn fit_size_undersized_surface_clamps_to_one() {
    // Surface 200x100 is smaller than the 320x180 target even at scale one:
    // the calculator keeps scale 1 and the nominal 320x180 viewport; the
    // applier clamps the rectangle to the surface bounds.
    let mode = ZoomMode::fit_size(320, 180).unwrap();
    let c = compute((200, 100), &mode).unwrap();
    assert_eq!(c.scale, 1);
    assert_eq!(c.viewport.width, 320);
    assert_eq!(c.viewport.height, 180);
    let out = apply(&c, (200, 100), true);
    assert_eq!(out.scale, 1);
    assert_eq!(out.viewport, Some(Rect { x: 0, y: 0, width: 200, height: 100 }));
}

#[test]
fn fit_size_scaled_viewport_fits_when_achievable() {
    // Whenever a scale of at least one is achievable without clamping, the
    // scaled target fits the surface on both axes.
    let mode = ZoomMode::fit_size(320, 180).unwrap();
    for &(w, h) in &[(320, 180), (321, 181), (777, 555), (1920, 1080), (4000, 3000)] {
        let c = compute((w, h), &mode).unwrap();
        assert!(c.scale >= 1);
        assert!(u64::from(c.viewport.width) <= u64::from(w));
        assert!(u64::from(c.viewport.height) <= u64::from(h));
        assert_eq!(c.viewport.width, 320 * c.scale);
        assert_eq!(c.viewport.height, 180 * c.scale);
    }
}

#[test]
fn fit_width_ignores_height() {
    let mode = ZoomMode::fit_width(320).unwrap();
    let c = compute((800, 600), &mode).unwrap();
    assert_eq!(c.scale, 2);
    // Width is the scaled target, height the full surface.
    assert_eq!(c.viewport, Rect { x: 80, y: 0, width: 640, height: 600 });
}

#[test]
fn fit_height_ignores_width() {
    let mode = ZoomMode::fit_height(180).unwrap();
    let c = compute((800, 600), &mode).unwrap();
    assert_eq!(c.scale, 3);
    // Height is the scaled target, width the full surface.
    assert_eq!(c.viewport, Rect { x: 0, y: 30, width: 800, height: 540 });
}

#[test]
fn fixed_scale_ignores_surface() {
    // The same Fixed mode yields the same scale on any surface.
    let mode = ZoomMode::fixed(3).unwrap();
    for &surface in &[(100, 100), (800, 600), (1920, 1080), (1, 1)] {
        let c = compute(surface, &mode).unwrap();
        assert_eq!(c.scale, 3);
        // With no nominal target, the viewport defaults to the full surface.
        assert_eq!(c.viewport, Rect { x: 0, y: 0, width: surface.0, height: surface.1 });
    }
}

#[test]
fn degenerate_surface_is_skipped() {
    let mode = ZoomMode::fit_size(320, 180).unwrap();
    assert!(compute((0, 720), &mode).is_none());
    assert!(compute((1280, 0), &mode).is_none());
    assert!(compute((0, 0), &mode).is_none());
    assert!(compute((0, 0), &ZoomMode::fixed(2).unwrap()).is_none());
}

#[test]
fn recompute_is_deterministic() {
    // Identical inputs give bit-identical results.
    let mode = ZoomMode::fit_size(320, 180).unwrap();
    let a = compute((801, 601), &mode).unwrap();
    let b = compute((801, 601), &mode).unwrap();
    assert_eq!(a, b);
}

#[test]
fn origin_is_centered_with_floor_rounding() {
    // Odd leftovers floor: surface 801x601, viewport 640x360 ->
    // origins floor(161/2) = 80 and floor(241/2) = 120.
    let mode = ZoomMode::fit_size(320, 180).unwrap();
    let c = compute((801, 601), &mode).unwrap();
    assert_eq!(c.viewport, Rect { x: 80, y: 120, width: 640, height: 360 });
}

#[test]
fn apply_without_opt_in_leaves_full_surface() {
    let mode = ZoomMode::fit_size(320, 180).unwrap();
    let c = compute((800, 600), &mode).unwrap();
    let out = apply(&c, (800, 600), false);
    assert_eq!(out.scale, 2);
    assert_eq!(out.viewport, None);
}

#[test]
fn clamp_keeps_fitting_rect_unchanged() {
    let r = Rect { x: 80, y: 120, width: 640, height: 360 };
    assert_eq!(clamp_rect(&r, (800, 600)), r);
}

#[test]
fn clamp_reduces_overflowing_edges_only() {
    // A rectangle reaching past the far edges loses extent there; the origin
    // is kept.
    let r = Rect { x: 700, y: 500, width: 640, height: 360 };
    assert_eq!(clamp_rect(&r, (800, 600)), Rect { x: 700, y: 500, width: 100, height: 100 });
}
