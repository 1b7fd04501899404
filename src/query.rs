//! What a quantile request on a key's slot returns.
use vstd::prelude::*;
use crate::digest::{Digest, DigestModel, NEG_ZERO_BITS, ONE_BITS, POS_ZERO_BITS};

verus! {

/// Why a quantile request was refused.
#[derive(Clone, Copy, Debug, PartialEq, Eq, Structural)]
pub enum QueryError {
    /// The quantile is NaN or lies outside `[0, 1]`.
    QuantileOutOfRange,
}

/// The answer to a quantile request, as far as it is decided without
/// floating-point arithmetic.
#[derive(Clone, Copy, Debug, PartialEq, Eq, Structural)]
pub enum Estimate {
    /// The key holds no digest, or a digest with no observation.
    Absent,
    /// The estimate is exactly this value (as an IEEE-754 bit pattern).
    Exact(u64),
    /// The estimate is interpolated between the centroids straddling the
    /// quantile's target weight.
    Interpolate,
}

/// Whether the bit pattern `q` is a double in `[0, 1]`. Non-negative doubles
/// order as their bit patterns do, `1.0` is the largest in range, every NaN
/// and every negative value but `-0.0` lies above it.
pub open spec fn is_unit_quantile(q: u64) -> bool {
    q <= ONE_BITS || q == NEG_ZERO_BITS
}

/// Whether the bit pattern `q` is the double zero, of either sign.
pub open spec fn is_zero(q: u64) -> bool {
    q == POS_ZERO_BITS || q == NEG_ZERO_BITS
}

/// The answer for a digest `m` and an in-range quantile `q`.
pub open spec fn estimate_of(m: DigestModel, q: u64) -> Estimate {
    if m.centroids.len() == 0 {
        Estimate::Absent
    } else if m.centroids.len() == 1 {
        Estimate::Exact(m.centroids[0].mean)
    } else if is_zero(q) {
        Estimate::Exact(m.min)
    } else if q == ONE_BITS {
        Estimate::Exact(m.max)
    } else {
        Estimate::Interpolate
    }
}

/// The answer for a slot and a quantile.
pub open spec fn slot_estimate(slot: Option<Digest>, q: u64) -> Result<Estimate, QueryError> {
    if !is_unit_quantile(q) {
        Err(QueryError::QuantileOutOfRange)
    } else {
        match slot {
            None => Ok(Estimate::Absent),
            Some(d) => Ok(estimate_of(d@, q)),
        }
    }
}

/// Whether the bit pattern `q` is a double in `[0, 1]`.
pub fn quantile_in_range(q: u64) -> (r: bool)
    ensures
        r == is_unit_quantile(q),
{
    q <= ONE_BITS || q == NEG_ZERO_BITS
}

/// Decides a quantile request on a key's slot. An out-of-range quantile is
/// refused. A key without a digest, or whose digest holds no observation,
/// has no estimate. A digest of one centroid answers its mean for every
/// quantile. Otherwise quantile 0 answers the minimum, quantile 1 the maximum,
/// and any other quantile is interpolated.
pub fn plan_estimate(slot: &Option<Digest>, q: u64) -> (r: Result<Estimate, QueryError>)
    ensures
        r == slot_estimate(*slot, q),
{
    if !quantile_in_range(q) {
        return Err(QueryError::QuantileOutOfRange);
    }
    match slot {
        None => Ok(Estimate::Absent),
        Some(d) => {
            let n = d.centroids.len();
            if n == 0 {
                Ok(Estimate::Absent)
            } else if n == 1 {
                Ok(Estimate::Exact(d.centroids[0].mean))
            } else if q == POS_ZERO_BITS || q == NEG_ZERO_BITS {
                Ok(Estimate::Exact(d.min))
            } else if q == ONE_BITS {
                Ok(Estimate::Exact(d.max))
            } else {
                Ok(Estimate::Interpolate)
            }
        },
    }
}

/// For a digest of two or more centroids, quantile 0 is answered by the
/// digest's minimum and quantile 1 by its maximum, exactly.
pub proof fn lemma_end_quantiles(d: Digest)
    requires
        d@.centroids.len() >= 2,
    ensures
        slot_estimate(Some(d), POS_ZERO_BITS) == Ok::<Estimate, QueryError>(Estimate::Exact(d.min)),
        slot_estimate(Some(d), NEG_ZERO_BITS) == Ok::<Estimate, QueryError>(Estimate::Exact(d.min)),
        slot_estimate(Some(d), ONE_BITS) == Ok::<Estimate, QueryError>(Estimate::Exact(d.max)),
{
}

/// A key without a digest has no estimate for any in-range quantile.
pub proof fn lemma_absent_key_has_no_estimate(q: u64)
    requires
        is_unit_quantile(q),
    ensures
        slot_estimate(None, q) == Ok::<Estimate, QueryError>(Estimate::Absent),
{
}

} // verus!
