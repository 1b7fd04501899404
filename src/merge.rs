//! What a merge request does to a key's slot.
use vstd::prelude::*;
use crate::digest::DEFAULT_COMPRESSION;

verus! {

/// Whether the values of a merge request arrive in ascending order.
#[derive(Clone, Copy, Debug, PartialEq, Eq, Structural)]
pub enum MergeMode {
    /// The caller guarantees ascending order; it is not checked.
    Sorted,
    /// Any order; the values are sorted before they are folded in.
    Unsorted,
}

/// The work a merge request calls for.
#[derive(Clone, Copy, Debug, PartialEq, Eq, Structural)]
pub enum MergeStep {
    /// Nothing to fold: the slot stays as it is, and an absent digest stays absent.
    Skip,
    /// Fold the values into the key's digest, in the given mode.
    Fold(MergeMode),
    /// Create an empty digest of the given compression, then fold the values
    /// into it in the given mode.
    Create(u64, MergeMode),
}

/// The step for a request of `n_values` values on a slot that holds a digest
/// (`has_digest`) or none, and the number of values reported back.
pub open spec fn merge_plan(has_digest: bool, mode: MergeMode, n_values: nat) -> (MergeStep, nat) {
    if n_values == 0 {
        (MergeStep::Skip, 0)
    } else if has_digest {
        (MergeStep::Fold(mode), n_values)
    } else {
        (MergeStep::Create(DEFAULT_COMPRESSION, mode), n_values)
    }
}

/// Decides a merge request: an empty request changes nothing, a request on a
/// key with a digest folds into it, one on a key without a digest creates one
/// of the default compression first. The count is the number of values merged.
pub fn plan_merge(has_digest: bool, mode: MergeMode, n_values: usize) -> (r: (MergeStep, usize))
    ensures
        (r.0, r.1 as nat) == merge_plan(has_digest, mode, n_values as nat),
{
    if n_values == 0 {
        (MergeStep::Skip, 0)
    } else if has_digest {
        (MergeStep::Fold(mode), n_values)
    } else {
        (MergeStep::Create(DEFAULT_COMPRESSION, mode), n_values)
    }
}

/// A merge request with no values reports zero values merged, leaves a key's
/// digest as it was, and creates no digest for a key that had none.
pub proof fn lemma_empty_merge_changes_nothing(has_digest: bool, mode: MergeMode)
    ensures
        merge_plan(has_digest, mode, 0) == (MergeStep::Skip, 0nat),
{
}

/// A merge request with values always reports exactly their number, and
/// always leaves the key with a digest.
pub proof fn lemma_merge_reports_count(has_digest: bool, mode: MergeMode, n_values: nat)
    requires
        n_values > 0,
    ensures
        merge_plan(has_digest, mode, n_values).1 == n_values,
        merge_plan(has_digest, mode, n_values).0 != MergeStep::Skip,
{
}

} // verus!
