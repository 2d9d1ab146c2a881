//! The closed set of interpolation algorithms.

use vstd::prelude::*;

verus! {

/// The resampler type used to distinguish the interpolation function used
/// for the conversion.
///
/// Has a great impact on quality and performance.
#[non_exhaustive]
#[derive(Debug, Copy, Clone, Eq, PartialEq, Hash, Structural)]
pub enum ResampleType {
    SincBestQuality,
    SincMediumQuality,
    SincFastest,
    ZeroOrderHold,
    Linear,
}

/// The human-readable name of each resampler type.
pub open spec fn resample_type_name(t: ResampleType) -> Seq<char> {
    match t {
        ResampleType::SincBestQuality => "Best Sinc Interpolator"@,
        ResampleType::SincMediumQuality => "Medium Sinc Interpolator"@,
        ResampleType::SincFastest => "Fastest Sinc Interpolator"@,
        ResampleType::ZeroOrderHold => "ZOH Interpolator"@,
        ResampleType::Linear => "Linear Interpolator"@,
    }
}

/// The human-readable description of each resampler type.
pub open spec fn resample_type_description(t: ResampleType) -> Seq<char> {
    match t {
        ResampleType::SincBestQuality => "Band limited sinc interpolation, best quality, 144dB SNR, 96% BW."@,
        ResampleType::SincMediumQuality => "Band limited sinc interpolation, medium quality, 121dB SNR, 90% BW."@,
        ResampleType::SincFastest => "Band limited sinc interpolation, fastest, 97dB SNR, 80% BW."@,
        ResampleType::ZeroOrderHold => "Zero order hold interpolator, very fast, poor quality."@,
        ResampleType::Linear => "Linear interpolator, very fast, poor quality."@,
    }
}

impl ResampleType {
    /// Return a human-readable name for this type of resampler.
    pub fn name(&self) -> (r: &'static str)
        ensures
            r@ == resample_type_name(*self),
    {
        match self {
            Self::SincBestQuality => "Best Sinc Interpolator",
            Self::SincMediumQuality => "Medium Sinc Interpolator",
            Self::SincFastest => "Fastest Sinc Interpolator",
            Self::ZeroOrderHold => "ZOH Interpolator",
            Self::Linear => "Linear Interpolator",
        }
    }

    /// Return the human-readable description for this type of resampler.
    pub fn description(&self) -> (r: &'static str)
        ensures
            r@ == resample_type_description(*self),
    {
        match self {
            Self::SincBestQuality => "Band limited sinc interpolation, best quality, 144dB SNR, 96% BW.",
            Self::SincMediumQuality => "Band limited sinc interpolation, medium quality, 121dB SNR, 90% BW.",
            Self::SincFastest => "Band limited sinc interpolation, fastest, 97dB SNR, 80% BW.",
            Self::ZeroOrderHold => "Zero order hold interpolator, very fast, poor quality.",
            Self::Linear => "Linear interpolator, very fast, poor quality.",
        }
    }
}

} // verus!
