use vstd::prelude::*;

verus! {

/// Whether a binary with modification time `candidate` is strictly newer than
/// one with modification time `baseline`. A missing time (no such file, no
/// permission, no support for it) never counts as newer.
pub open spec fn spec_is_newer(candidate: Option<i128>, baseline: Option<i128>) -> bool {
    match (candidate, baseline) {
        (Some(c), Some(b)) => c > b,
        _ => false,
    }
}

/// Decides whether `candidate` is strictly newer than `baseline`. Times are
/// nanoseconds from the Unix epoch (negative before it); `None` stands for a
/// time that could not be read.
pub fn latest_binary_is_newer(candidate: Option<i128>, baseline: Option<i128>) -> (r: bool)
    ensures
        r == spec_is_newer(candidate, baseline),
        r <==> (candidate is Some && baseline is Some && candidate->0 > baseline->0),
{
    match (candidate, baseline) {
        (Some(c), Some(b)) => c > b,
        _ => false,
    }
}

/// A binary is never newer than itself, and of two binaries with distinct
/// known times exactly one is newer than the other.
pub proof fn lemma_newer_irreflexive_antisymmetric(a: Option<i128>, b: Option<i128>)
    ensures
        !spec_is_newer(a, a),
        spec_is_newer(a, b) ==> !spec_is_newer(b, a),
        (a is Some && b is Some && a != b) ==> (spec_is_newer(a, b) != spec_is_newer(b, a)),
{
}

/// Where either time is missing, neither binary is newer than the other.
pub proof fn lemma_newer_needs_both_times(a: Option<i128>, b: Option<i128>)
    requires
        a is None || b is None,
    ensures
        !spec_is_newer(a, b),
        !spec_is_newer(b, a),
{
}

} // verus!
