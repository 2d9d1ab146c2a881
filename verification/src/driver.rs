//! Sizing and loop decisions of the one-shot conversion driver.
//!
//! A one-shot conversion sizes its output buffer from the expected frame
//! count, repeatedly drains the converter, and grows the buffer by a fixed
//! increment whenever a pass ran out of output space before all input was
//! read. The decisions of that loop are made here; the caller only carries
//! them out on its buffers.

use vstd::arithmetic::div_mod::lemma_fundamental_div_mod;
use vstd::arithmetic::div_mod::lemma_mod_bound;
use vstd::prelude::*;

verus! {

/// The least integer at or above `n / d`.
pub open spec fn div_round_up(n: int, d: int) -> int
    recommends
        1 <= d,
{
    if n % d == 0 {
        n / d
    } else {
        n / d + 1
    }
}

/// The number of whole output frames that `input_frames` input frames
/// yield at the ratio `to_rate / from_rate`.
pub open spec fn expected_output_frames(input_frames: int, from_rate: int, to_rate: int) -> int {
    div_round_up(input_frames * to_rate, from_rate)
}

/// `div_round_up(n, d)` is the exact ceiling of the quotient `n / d`: taken
/// `d` times it reaches `n`, while one less than it falls short of `n`.
pub proof fn lemma_div_round_up_is_ceil(n: int, d: int)
    requires
        0 <= n,
        1 <= d,
    ensures
        n <= div_round_up(n, d) * d,
        div_round_up(n, d) * d < n + d,
{
    let q = n / d;
    let r = n % d;
    lemma_fundamental_div_mod(n, d);
    lemma_mod_bound(n, d);
    if r == 0 {
        assert(q * d == n) by (nonlinear_arith)
            requires
                n == d * q + r,
                r == 0,
        ;
    } else {
        assert((q + 1) * d == n + d - r) by (nonlinear_arith)
            requires
                n == d * q + r,
        ;
    }
}

/// The frame estimate is the exact ceiling: `n` input frames at ratio
/// `to_rate / from_rate` are estimated as the least frame count `e` with
/// `e * from_rate >= n * to_rate`.
pub proof fn lemma_expected_output_frames_bounds(input_frames: int, from_rate: int, to_rate: int)
    requires
        0 <= input_frames,
        1 <= from_rate,
        0 <= to_rate,
    ensures
        input_frames * to_rate <= expected_output_frames(input_frames, from_rate, to_rate)
            * from_rate,
        expected_output_frames(input_frames, from_rate, to_rate) * from_rate < input_frames
            * to_rate + from_rate,
{
    assert(0 <= input_frames * to_rate) by (nonlinear_arith)
        requires
            0 <= input_frames,
            0 <= to_rate,
    ;
    lemma_div_round_up_is_ceil(input_frames * to_rate, from_rate);
}

/// Converting a frame count there and back again loses nothing and adds
/// less than one frame of each rate's granularity: estimating `n` frames
/// from rate A to rate B and the estimate back from B to A yields a count
/// `r` with `n <= r` and `r * to_rate < n * to_rate + from_rate + to_rate`.
pub proof fn lemma_expected_output_frames_round_trip(n: int, from_rate: int, to_rate: int)
    requires
        0 <= n,
        1 <= from_rate,
        1 <= to_rate,
    ensures
        n <= expected_output_frames(
            expected_output_frames(n, from_rate, to_rate),
            to_rate,
            from_rate,
        ),
        expected_output_frames(expected_output_frames(n, from_rate, to_rate), to_rate, from_rate)
            * to_rate < n * to_rate + from_rate + to_rate,
{
    let down = expected_output_frames(n, from_rate, to_rate);
    lemma_expected_output_frames_bounds(n, from_rate, to_rate);
    assert(0 <= n * to_rate) by (nonlinear_arith)
        requires
            0 <= n,
            0 <= to_rate,
    ;
    assert(0 <= down) by (nonlinear_arith)
        requires
            0 <= n * to_rate <= down * from_rate,
            1 <= from_rate,
    ;
    let up = expected_output_frames(down, to_rate, from_rate);
    lemma_expected_output_frames_bounds(down, to_rate, from_rate);
    assert(n <= up) by (nonlinear_arith)
        requires
            n * to_rate <= down * from_rate <= up * to_rate,
            1 <= to_rate,
    ;
}

/// Estimate how many output frames `input_frames` input frames yield at the
/// ratio `to_rate / from_rate`, rounding up to whole frames.
///
/// Returns `None` exactly when the intermediate product `input_frames *
/// to_rate` does not fit in a machine word.
pub fn output_frames_estimate(input_frames: usize, from_rate: u32, to_rate: u32) -> (r: Option<
    usize,
>)
    requires
        1 <= from_rate,
    ensures
        (r is Some) <==> input_frames * to_rate <= usize::MAX,
        r matches Some(n) ==> n == expected_output_frames(
            input_frames as int,
            from_rate as int,
            to_rate as int,
        ),
{
    let from = from_rate as usize;
    match input_frames.checked_mul(to_rate as usize) {
        None => None,
        Some(product) => {
            let quotient = product / from;
            let remainder = product % from;
            if remainder != 0 {
                proof {
                    lemma_fundamental_div_mod(product as int, from as int);
                    assert(quotient < product) by (nonlinear_arith)
                        requires
                            product == from * quotient + remainder,
                            1 <= remainder,
                            2 <= from,
                            0 <= quotient,
                    ;
                }
                Some(quotient + 1)
            } else {
                Some(quotient)
            }
        },
    }
}

/// The output buffer length, in samples, that the one-shot driver starts
/// with: the expected output frame count times the channel count.
pub open spec fn initial_output_samples(
    input_len: int,
    channels: int,
    from_rate: int,
    to_rate: int,
) -> int {
    expected_output_frames(input_len / channels, from_rate, to_rate) * channels
}

/// Size the initial output buffer for a one-shot conversion of `input_len`
/// interleaved samples.
///
/// Returns `None` exactly when an intermediate value does not fit in a
/// machine word.
pub fn initial_output_len(input_len: usize, channels: u8, from_rate: u32, to_rate: u32) -> (r:
    Option<usize>)
    requires
        1 <= channels,
        1 <= from_rate,
    ensures
        r matches Some(n) ==> n == initial_output_samples(
            input_len as int,
            channels as int,
            from_rate as int,
            to_rate as int,
        ),
        (r is Some) <==> ((input_len as int / channels as int) * to_rate <= usize::MAX
            && initial_output_samples(
            input_len as int,
            channels as int,
            from_rate as int,
            to_rate as int,
        ) <= usize::MAX),
{
    let input_frames = input_len / channels as usize;
    match output_frames_estimate(input_frames, from_rate, to_rate) {
        None => None,
        Some(frames) => frames.checked_mul(channels as usize),
    }
}

/// One scheduling decision of the one-shot driver, taken after a drain
/// pass: once all `input_len` input samples have been read the conversion
/// is complete and `None` is returned; otherwise the pass ran out of output
/// space, and the output buffer of `output_len` samples is to be grown to
/// the returned length, 64 frames larger.
///
/// Growth returns `None` only in the degenerate case that the grown length
/// no longer fits in a machine word.
pub fn convert_step(total_read: usize, input_len: usize, output_len: usize, channels: u8) -> (r:
    Option<usize>)
    requires
        1 <= channels,
    ensures
        total_read >= input_len ==> r is None,
        total_read < input_len && output_len + 64 * channels <= usize::MAX ==> r == Some(
            (output_len + 64 * channels) as usize,
        ),
        total_read < input_len && output_len + 64 * channels > usize::MAX ==> r is None,
{
    if total_read >= input_len {
        None
    } else {
        output_len.checked_add(64 * channels as usize)
    }
}

} // verus!
