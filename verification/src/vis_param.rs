//! Per-frame visualization parameters: the active overlay mode and its
//! scalar tuning values. Scalars are exact fixed-point numbers in units of
//! 1/65536, so that the default heat-map scale of one is `FIXED_ONE`.

use vstd::prelude::*;

verus! {

/// Scale factor of the fixed-point scalars used throughout the crate:
/// a stored value of `FIXED_ONE` means the real number one.
pub const FIXED_ONE: i64 = 65536;

/// Default lower depth-test bound (200 in fixed-point units).
pub const DEFAULT_DEPTH_MIN: i64 = 200 * 65536;

/// Default upper depth-test bound (5000 in fixed-point units).
pub const DEFAULT_DEPTH_MAX: i64 = 5000 * 65536;

/// Which visualization a node draws: the plain rendered output, or the
/// gaze-deflection overlay.
#[derive(Clone, Copy, Debug, PartialEq, Eq, Structural)]
pub enum VisualizationType {
    Output,
    Deflection,
}

impl Default for VisualizationType {
    /// The default visualization is the plain output.
    fn default() -> (r: Self)
        ensures
            r == VisualizationType::Output,
    {
        VisualizationType::Output
    }
}

/// Immutable-per-frame bundle selecting the visualization mode and its
/// scalar tuning values, all in 1/65536 fixed-point units.
#[derive(Clone, Copy, Debug, PartialEq, Eq, Structural)]
pub struct VisualizationParameters {
    pub vis_type: VisualizationType,
    /// Heat-map intensity scale.
    pub heat_scale: i64,
    /// Scale used by directional gaze calculations.
    pub dir_calc_scale: i64,
    /// Lower depth-test bound for overlay effects.
    pub test_depth_min: i64,
    /// Upper depth-test bound for overlay effects.
    pub test_depth_max: i64,
}

impl Default for VisualizationParameters {
    /// Defaults: plain output, both scales one, depth bounds 200 and 5000.
    fn default() -> (r: Self)
        ensures
            r == (VisualizationParameters {
                vis_type: VisualizationType::Output,
                heat_scale: FIXED_ONE,
                dir_calc_scale: FIXED_ONE,
                test_depth_min: DEFAULT_DEPTH_MIN,
                test_depth_max: DEFAULT_DEPTH_MAX,
            }),
    {
        VisualizationParameters {
            vis_type: VisualizationType::default(),
            heat_scale: FIXED_ONE,
            dir_calc_scale: FIXED_ONE,
            test_depth_min: DEFAULT_DEPTH_MIN,
            test_depth_max: DEFAULT_DEPTH_MAX,
        }
    }
}

} // verus!
