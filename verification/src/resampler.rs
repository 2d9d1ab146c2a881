//! Converter construction and the bookkeeping of a streaming conversion.
//!
//! A converter instance fixes an interpolation algorithm, a channel count
//! and a conversion ratio for its lifetime. Construction validates the
//! ratio and the channel count; no partially constructed instance is ever
//! observable.

use vstd::prelude::*;

use crate::error::Error;
use crate::error::ErrorKind;
use crate::ratio::ratio_within_bounds;
use crate::ratio::validate_ratio;
use crate::resample_type::ResampleType;

verus! {

/// A type representing the result of a samplerate conversion: how many
/// input samples were read and how many output samples were written.
#[derive(Debug, Copy, Clone)]
pub struct Processed {
    /// The number of input samples read.
    pub read: usize,
    /// The number of output samples written.
    pub written: usize,
}

impl Processed {
    /// Add the counts of one conversion step to a running total.
    pub fn accumulate(&mut self, step: Processed)
        requires
            old(self).read + step.read <= usize::MAX,
            old(self).written + step.written <= usize::MAX,
        ensures
            final(self).read == old(self).read + step.read,
            final(self).written == old(self).written + step.written,
    {
        self.read = self.read + step.read;
        self.written = self.written + step.written;
    }
}

impl Default for Processed {
    /// A total of zero samples read and zero written.
    fn default() -> (r: Self)
        ensures
            r.read == 0,
            r.written == 0,
    {
        Processed { read: 0, written: 0 }
    }
}

/// A samplerate converter.
///
/// It records the algorithm, the channel count and the two rates whose
/// quotient is the conversion ratio; all are fixed for the lifetime of the
/// instance, and only values that passed validation are representable.
#[derive(Debug, Copy, Clone)]
pub struct Resampler {
    /// The interpolation algorithm.
    pub resample_type: ResampleType,
    /// The number of interleaved channels in every buffer handed to this
    /// converter.
    pub channels: u8,
    /// The sample rate of the input stream.
    pub from_rate: u32,
    /// The sample rate of the output stream.
    pub to_rate: u32,
}

impl Resampler {
    /// A converter is well formed when its ratio lies in the supported
    /// interval and it has at least one channel.
    pub open spec fn wf(&self) -> bool {
        &&& ratio_within_bounds(self.to_rate as int, self.from_rate as int)
        &&& 1 <= self.channels
    }

    /// Create a new samplerate converter assuming the given channel count
    /// and sample rates.
    ///
    /// The ratio `to_rate / from_rate` must lie in `[1/256, 256]`, else
    /// `BadSrcRatio` is returned; the channel count must be at least one,
    /// else `BadChannelCount`. On success the returned converter carries
    /// exactly the given parameters.
    pub fn new(resample_type: ResampleType, channels: u8, from_rate: u32, to_rate: u32) -> (r:
        Result<Self, Error>)
        ensures
            !ratio_within_bounds(to_rate as int, from_rate as int) ==> (r matches Err(e)
                && e.spec_kind() == ErrorKind::BadSrcRatio),
            ratio_within_bounds(to_rate as int, from_rate as int) && channels == 0 ==> (r matches
                Err(e) && e.spec_kind() == ErrorKind::BadChannelCount),
            ratio_within_bounds(to_rate as int, from_rate as int) && 1 <= channels ==> (r matches
                Ok(s) && s == (Resampler { resample_type, channels, from_rate, to_rate })),
            r matches Ok(s) ==> s.wf(),
    {
        // Make sure that the provided ratio is supported.
        if !validate_ratio(to_rate, from_rate) {
            return Err(Error::from_kind(ErrorKind::BadSrcRatio));
        }
        if channels < 1 {
            return Err(Error::from_kind(ErrorKind::BadChannelCount));
        }
        Ok(Resampler { resample_type, channels, from_rate, to_rate })
    }
}

} // verus!
