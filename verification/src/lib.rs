//! A library for sample rate conversion of audio.
//!
//! The crate holds the integer side of a streaming resampler, with a
//! proved contract on every function: the ratio and channel validation
//! behind converter construction, the error vocabulary with its numeric
//! codes and descriptions, the closed set of interpolation algorithms with
//! their names, and the sizing and loop decisions of the one-shot
//! conversion driver. The floating-point interpolation arithmetic itself
//! runs outside the verified core and takes its decisions from here.

mod converter_type;
mod driver;
mod error;
mod linear;
mod ratio;
mod resample_type;
mod resampler;

pub use crate::converter_type::ConverterType;
pub use crate::converter_type::converter_type_description;
pub use crate::converter_type::converter_type_name;
pub use crate::driver::convert_step;
pub use crate::driver::div_round_up;
pub use crate::driver::expected_output_frames;
pub use crate::driver::initial_output_len;
pub use crate::driver::initial_output_samples;
pub use crate::driver::lemma_div_round_up_is_ceil;
pub use crate::driver::lemma_expected_output_frames_bounds;
pub use crate::driver::lemma_expected_output_frames_round_trip;
pub use crate::driver::output_frames_estimate;
pub use crate::error::Error;
pub use crate::error::ErrorKind;
pub use crate::error::kind_description;
pub use crate::error::kind_of_code;
pub use crate::linear::SRC_LINEAR;
pub use crate::linear::linear_get_description;
pub use crate::linear::linear_get_name;
pub use crate::ratio::lemma_ratio_boundary;
pub use crate::ratio::lemma_ratio_bounds_scale;
pub use crate::ratio::lemma_ratio_bounds_symmetric;
pub use crate::ratio::ratio_within_bounds;
pub use crate::ratio::validate_ratio;
pub use crate::resample_type::ResampleType;
pub use crate::resample_type::resample_type_description;
pub use crate::resample_type::resample_type_name;
pub use crate::resampler::Processed;
pub use crate::resampler::Resampler;
