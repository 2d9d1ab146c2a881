//! The older name of the algorithm selector, kept for callers that still
//! use it.

use vstd::prelude::*;

verus! {

/// A converter type used to distinguish the interpolation function used for
/// the conversion. Has a great impact on quality and performance.
#[derive(Debug, Copy, Clone, Eq, PartialEq, Hash, Structural)]
pub enum ConverterType {
    SincBestQuality,
    SincMediumQuality,
    SincFastest,
    ZeroOrderHold,
    Linear,
}

/// The human-readable name of each converter type.
pub open spec fn converter_type_name(t: ConverterType) -> Seq<char> {
    match t {
        ConverterType::SincBestQuality => "Best Sinc Interpolator"@,
        ConverterType::SincMediumQuality => "Medium Sinc Interpolator"@,
        ConverterType::SincFastest => "Fastest Sinc Interpolator"@,
        ConverterType::ZeroOrderHold => "ZOH Interpolator"@,
        ConverterType::Linear => "Linear Interpolator"@,
    }
}

/// The human-readable description of each converter type.
pub open spec fn converter_type_description(t: ConverterType) -> Seq<char> {
    match t {
        ConverterType::SincBestQuality => "Band limited sinc interpolation, best quality, 144dB SNR, 96% BW."@,
        ConverterType::SincMediumQuality => "Band limited sinc interpolation, medium quality, 121dB SNR, 90% BW."@,
        ConverterType::SincFastest => "Band limited sinc interpolation, fastest, 97dB SNR, 80% BW."@,
        ConverterType::ZeroOrderHold => "Zero order hold interpolator, very fast, poor quality."@,
        ConverterType::Linear => "Linear interpolator, very fast, poor quality."@,
    }
}

impl ConverterType {
    /// Return a human-readable name for this type of converter.
    pub fn name(&self) -> (r: &'static str)
        ensures
            r@ == converter_type_name(*self),
    {
        match self {
            Self::SincBestQuality => "Best Sinc Interpolator",
            Self::SincMediumQuality => "Medium Sinc Interpolator",
            Self::SincFastest => "Fastest Sinc Interpolator",
            Self::ZeroOrderHold => "ZOH Interpolator",
            Self::Linear => "Linear Interpolator",
        }
    }

    /// Return the human-readable description for this type of converter.
    pub fn description(&self) -> (r: &'static str)
        ensures
            r@ == converter_type_description(*self),
    {
        match self {
            Self::SincBestQuality => "Band limited sinc interpolation, best quality, 144dB SNR, 96% BW.",
            Self::SincMediumQuality => "Band limited sinc interpolation, medium quality, 121dB SNR, 90% BW.",
            Self::SincFastest => "Band limited sinc interpolation, fastest, 97dB SNR, 80% BW.",
            Self::ZeroOrderHold => "Zero order hold interpolator, very fast, poor quality.",
            Self::Linear => "Linear interpolator, very fast, poor quality.",
        }
    }
}

} // verus!
