//! Tunable distances and factors of correction and smoothing.

use vstd::prelude::*;
use crate::scalar::Scalar;

verus! {

/// How a client reacts when its prediction and the server part ways.
#[derive(Clone, Copy, Debug, PartialEq, Eq)]
pub struct MultiplayerConfig {
    /// Distance between predicted and authoritative position from which a
    /// prediction is corrected.
    pub moveable_correction_position_distance_threshold: Scalar,
    /// Share of the positional error that one correction takes out.
    pub moveable_correction_position_factor: Scalar,
    /// Distance below which smoothing uses only its minimum factor.
    pub visual_smooth_min_threshold: Scalar,
    /// Width of the zone over which smoothing goes from its minimum to its
    /// maximum factor.
    pub visual_smooth_range: Scalar,
    /// Smoothing factor for small corrections.
    pub visual_smooth_factor_min: Scalar,
    /// Smoothing factor for large corrections.
    pub visual_smooth_factor_max: Scalar,
    /// Speed multiplier of the approach.
    pub visual_smooth_speed_multiplier: Scalar,
    /// Distance under which the rendered body snaps onto its target.
    pub visual_snap_threshold: Scalar,
}

impl Default for MultiplayerConfig {
    /// Correction from 0.01 with factor 0.9; smoothing from 0.1 over a
    /// range of 0.4, with factors 0.98 and 0.90 and multiplier 15; snapping
    /// at 0.005.
    fn default() -> (cfg: MultiplayerConfig)
        ensures
            cfg.moveable_correction_position_distance_threshold.bits == 0x3c23_d70a,
            cfg.moveable_correction_position_factor.bits == 0x3f66_6666,
            cfg.visual_smooth_min_threshold.bits == 0x3dcc_cccd,
            cfg.visual_smooth_range.bits == 0x3ecc_cccd,
            cfg.visual_smooth_factor_min.bits == 0x3f7a_e148,
            cfg.visual_smooth_factor_max.bits == 0x3f66_6666,
            cfg.visual_smooth_speed_multiplier.bits == 0x4170_0000,
            cfg.visual_snap_threshold.bits == 0x3ba3_d70a,
    {
        MultiplayerConfig {
            moveable_correction_position_distance_threshold: Scalar { bits: 0x3c23_d70a },
            moveable_correction_position_factor: Scalar { bits: 0x3f66_6666 },
            visual_smooth_min_threshold: Scalar { bits: 0x3dcc_cccd },
            visual_smooth_range: Scalar { bits: 0x3ecc_cccd },
            visual_smooth_factor_min: Scalar { bits: 0x3f7a_e148 },
            visual_smooth_factor_max: Scalar { bits: 0x3f66_6666 },
            visual_smooth_speed_multiplier: Scalar { bits: 0x4170_0000 },
            visual_snap_threshold: Scalar { bits: 0x3ba3_d70a },
        }
    }
}

/// How fast a character moves, speeds up and slows down.
#[derive(Clone, Copy, Debug, PartialEq, Eq)]
pub struct CharacterConfig {
    pub speed: Scalar,
    pub acceleration: Scalar,
    pub friction: Scalar,
}

impl Default for CharacterConfig {
    /// Speed 100, acceleration 10, friction 4.
    fn default() -> (cfg: CharacterConfig)
        ensures
            cfg.speed.bits == 0x42c8_0000,
            cfg.acceleration.bits == 0x4120_0000,
            cfg.friction.bits == 0x4080_0000,
    {
        CharacterConfig {
            speed: Scalar { bits: 0x42c8_0000 },
            acceleration: Scalar { bits: 0x4120_0000 },
            friction: Scalar { bits: 0x4080_0000 },
        }
    }
}

} // verus!
