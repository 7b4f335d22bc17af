//! The camera's bloom parameter set.
//!
//! The host renderer works in floating point; this model holds every
//! continuous parameter in fixed point instead, in millionths of a unit
//! (`UNIT` is 1.0, `FOV_MAX` is 180 degrees), so that each adjustment and
//! each clamp is exact integer arithmetic. Intensity, low-frequency boost
//! curvature, high-pass frequency and threshold softness are clamped to
//! `[0, UNIT]`; the threshold is kept at or above zero; the low-frequency
//! boost is unclamped and only saturates at the ends of its machine range.

use vstd::prelude::*;

verus! {

/// One whole parameter unit (1.0), in fixed-point millionths.
pub const UNIT: u32 = 1_000_000;

/// How the bloom pass is composited over the scene.
#[derive(Clone, Copy, Debug, PartialEq, Eq, Structural)]
pub enum BloomCompositeMode {
    /// The bloom contribution replaces energy taken from the source pixel.
    EnergyConserving,
    /// The bloom contribution is added on top of the source pixel.
    Additive,
}

/// The bloom parameter set attached to the camera while bloom is enabled.
#[derive(Clone, Copy, Debug, PartialEq, Eq, Structural)]
pub struct BloomSettings {
    /// Overall strength of the effect, clamped to `[0, UNIT]`.
    pub intensity: u32,
    /// Boost of the lower-frequency bloom layers; unclamped, saturating only
    /// at the ends of the machine range, and free to go negative.
    pub low_frequency_boost: i64,
    /// Curvature of the low-frequency boost, clamped to `[0, UNIT]`.
    pub low_frequency_boost_curvature: u32,
    /// High-pass cutoff of the prefilter, clamped to `[0, UNIT]`.
    pub high_pass_frequency: u32,
    /// How the bloom pass is composited.
    pub composite_mode: BloomCompositeMode,
    /// Prefilter brightness threshold, kept at or above zero.
    pub threshold: u64,
    /// Softness of the threshold knee, clamped to `[0, UNIT]`.
    pub threshold_softness: u32,
}

impl BloomSettings {
    /// Every clamped parameter sits inside its stated range.
    pub open spec fn wf(self) -> bool {
        &&& self.intensity <= UNIT
        &&& self.low_frequency_boost_curvature <= UNIT
        &&& self.high_pass_frequency <= UNIT
        &&& self.threshold_softness <= UNIT
    }

    /// The "natural" preset the camera starts with and returns to when bloom
    /// is toggled back on: intensity 0.15, low-frequency boost 0.7 with
    /// curvature 0.95, high-pass frequency 1.0, energy-conserving
    /// compositing, and a zero threshold.
    pub open spec fn spec_natural() -> BloomSettings {
        BloomSettings {
            intensity: 150_000,
            low_frequency_boost: 700_000,
            low_frequency_boost_curvature: 950_000,
            high_pass_frequency: 1_000_000,
            composite_mode: BloomCompositeMode::EnergyConserving,
            threshold: 0,
            threshold_softness: 0,
        }
    }

    /// Builds the "natural" preset.
    pub fn natural() -> (b: BloomSettings)
        ensures
            b == BloomSettings::spec_natural(),
            b.wf(),
    {
        BloomSettings {
            intensity: 150_000,
            low_frequency_boost: 700_000,
            low_frequency_boost_curvature: 950_000,
            high_pass_frequency: 1_000_000,
            composite_mode: BloomCompositeMode::EnergyConserving,
            threshold: 0,
            threshold_softness: 0,
        }
    }
}

} // verus!
