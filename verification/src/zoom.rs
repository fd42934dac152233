//! The zoom-mode data model: which scaling strategy a camera uses, and the
//! checked constructors that keep every stored dimension positive.

use vstd::prelude::*;

verus! {

/// Why a [`ZoomMode`] construction was rejected.
#[derive(Clone, Copy, Debug, PartialEq, Eq, Structural)]
pub enum ConfigError {
    /// `fixed` was asked for a scale below one.
    NonPositiveScale,
    /// A fit mode was asked for a target dimension below one.
    NonPositiveTarget,
}

/// The scaling strategy attached to one camera. Exactly one per camera.
///
/// All stored values are positive: use the checked constructors
/// ([`ZoomMode::fixed`], [`ZoomMode::fit_size`], [`ZoomMode::fit_width`],
/// [`ZoomMode::fit_height`]), which reject non-positive scales and targets at
/// construction time.
#[derive(Clone, Copy, Debug, PartialEq, Eq, Structural)]
pub enum ZoomMode {
    /// A constant integer scale; the surface size is ignored.
    Fixed(u32),
    /// The largest integer scale at which `width x height` virtual pixels fit
    /// inside the surface on both axes.
    FitSize(u32, u32),
    /// The largest integer scale at which `width` virtual pixels fit the
    /// surface width; the height is unconstrained.
    FitWidth(u32),
    /// The largest integer scale at which `height` virtual pixels fit the
    /// surface height; the width is unconstrained.
    FitHeight(u32),
}

impl ZoomMode {
    /// Every stored scale or target dimension is at least one.
    pub open spec fn wf(self) -> bool {
        match self {
            ZoomMode::Fixed(n) => n >= 1,
            ZoomMode::FitSize(tw, th) => tw >= 1 && th >= 1,
            ZoomMode::FitWidth(tw) => tw >= 1,
            ZoomMode::FitHeight(th) => th >= 1,
        }
    }

    /// A constant scale; rejected unless `scale >= 1`.
    pub fn fixed(scale: i32) -> (r: Result<ZoomMode, ConfigError>)
        ensures
            scale >= 1 ==> (r matches Ok(m) && m == ZoomMode::Fixed(scale as u32) && m.wf()),
            scale < 1 ==> (r matches Err(e) && e == ConfigError::NonPositiveScale),
    {
        if scale >= 1 {
            Ok(ZoomMode::Fixed(scale as u32))
        } else {
            Err(ConfigError::NonPositiveScale)
        }
    }

    /// Fit a `width x height` virtual resolution; rejected unless both
    /// dimensions are at least one.
    pub fn fit_size(width: i32, height: i32) -> (r: Result<ZoomMode, ConfigError>)
        ensures
            width >= 1 && height >= 1 ==> (r matches Ok(m) && m == ZoomMode::FitSize(
                width as u32,
                height as u32,
            ) && m.wf()),
            width < 1 || height < 1 ==> (r matches Err(e) && e == ConfigError::NonPositiveTarget),
    {
        if width >= 1 && height >= 1 {
            Ok(ZoomMode::FitSize(width as u32, height as u32))
        } else {
            Err(ConfigError::NonPositiveTarget)
        }
    }

    /// Fit a virtual width; rejected unless it is at least one.
    pub fn fit_width(width: i32) -> (r: Result<ZoomMode, ConfigError>)
        ensures
            width >= 1 ==> (r matches Ok(m) && m == ZoomMode::FitWidth(width as u32) && m.wf()),
            width < 1 ==> (r matches Err(e) && e == ConfigError::NonPositiveTarget),
    {
        if width >= 1 {
            Ok(ZoomMode::FitWidth(width as u32))
        } else {
            Err(ConfigError::NonPositiveTarget)
        }
    }

    /// Fit a virtual height; rejected unless it is at least one.
    pub fn fit_height(height: i32) -> (r: Result<ZoomMode, ConfigError>)
        ensures
            height >= 1 ==> (r matches Ok(m) && m == ZoomMode::FitHeight(height as u32) && m.wf()),
            height < 1 ==> (r matches Err(e) && e == ConfigError::NonPositiveTarget),
    {
        if height >= 1 {
            Ok(ZoomMode::FitHeight(height as u32))
        } else {
            Err(ConfigError::NonPositiveTarget)
        }
    }
}

} // verus!
