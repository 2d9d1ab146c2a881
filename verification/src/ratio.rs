//! Validation of conversion ratios.
//!
//! A conversion ratio is the rational number `to_rate / from_rate`. The
//! converter supports ratios in the closed interval `[1/256, 256]`; a ratio
//! outside that interval is rejected at construction time.

use vstd::prelude::*;

verus! {

/// The rational number `to_rate / from_rate` is well defined (both rates are
/// positive) and lies in the closed interval `[1/256, 256]`.
///
/// Both bounds are phrased multiplicatively: for positive rates,
/// `to_rate / from_rate <= 256` exactly when `to_rate <= 256 * from_rate`,
/// and `1/256 <= to_rate / from_rate` exactly when
/// `from_rate <= 256 * to_rate`.
pub open spec fn ratio_within_bounds(to_rate: int, from_rate: int) -> bool {
    &&& 1 <= from_rate
    &&& 1 <= to_rate
    &&& from_rate <= 256 * to_rate
    &&& to_rate <= 256 * from_rate
}

/// Decide whether the ratio `to_rate / from_rate` is supported.
///
/// Returns `true` exactly when both rates are positive and the ratio lies in
/// `[1/256, 256]`; the boundary ratios `1/256` and `256` themselves are
/// supported.
pub fn validate_ratio(to_rate: u32, from_rate: u32) -> (valid: bool)
    ensures
        valid == ratio_within_bounds(to_rate as int, from_rate as int),
{
    1 <= from_rate && 1 <= to_rate && (from_rate as u64) <= 256 * (to_rate as u64) && (to_rate
        as u64) <= 256 * (from_rate as u64)
}

/// The supported interval is closed under inverting the ratio: converting
/// from rate A to rate B is allowed exactly when converting from B back to A
/// is.
pub proof fn lemma_ratio_bounds_symmetric(to_rate: int, from_rate: int)
    ensures
        ratio_within_bounds(to_rate, from_rate) <==> ratio_within_bounds(from_rate, to_rate),
{
}

/// Scaling both rates by the same positive factor leaves validity unchanged:
/// only the ratio of the two rates matters.
pub proof fn lemma_ratio_bounds_scale(to_rate: int, from_rate: int, k: int)
    requires
        1 <= k,
    ensures
        ratio_within_bounds(k * to_rate, k * from_rate) <==> ratio_within_bounds(
            to_rate,
            from_rate,
        ),
{
    assert(ratio_within_bounds(k * to_rate, k * from_rate) <==> ratio_within_bounds(
        to_rate,
        from_rate,
    )) by (nonlinear_arith)
        requires
            1 <= k,
    ;
}

/// The bounds are tight: for any positive `from_rate`, the ratio `256`
/// (reached at `to_rate == 256 * from_rate`) is the largest supported ratio,
/// and `1/256` the smallest; one step past either boundary is rejected.
pub proof fn lemma_ratio_boundary(from_rate: int)
    requires
        1 <= from_rate,
    ensures
        ratio_within_bounds(256 * from_rate, from_rate),
        !ratio_within_bounds(256 * from_rate + 1, from_rate),
        ratio_within_bounds(from_rate, 256 * from_rate),
        !ratio_within_bounds(from_rate, 256 * from_rate + 1),
{
}

} // verus!
