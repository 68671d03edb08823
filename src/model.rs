//! The mathematical model: text as a sequence of Unicode scalar values, and the
//! overlap of two such sequences.
use vstd::prelude::*;

verus! {

/// `p` is a prefix of `s`.
pub open spec fn is_prefix_of(p: Seq<char>, s: Seq<char>) -> bool {
    p.len() <= s.len() && s.subrange(0, p.len() as int) == p
}

/// `p` is a suffix of `s`.
pub open spec fn is_suffix_of(p: Seq<char>, s: Seq<char>) -> bool {
    p.len() <= s.len() && s.subrange(s.len() - p.len(), s.len() as int) == p
}

/// The suffix of `left` that starts at offset `k` is a prefix of `right`.
pub open spec fn overlaps_at(left: Seq<char>, right: Seq<char>, k: int) -> bool {
    0 <= k <= left.len() && is_prefix_of(left.subrange(k, left.len() as int), right)
}

/// The first offset at or after `k` at which `left` overlaps `right`, or the
/// length of `left` where there is none before it.
pub open spec fn first_overlap_from(left: Seq<char>, right: Seq<char>, k: int) -> int
    decreases left.len() - k,
{
    if k >= left.len() {
        left.len() as int
    } else if overlaps_at(left, right, k) {
        k
    } else {
        first_overlap_from(left, right, k + 1)
    }
}

/// The smallest offset into `left` whose suffix is a prefix of `right`; the
/// length of `left` (an empty suffix) where no non-empty suffix is.
pub open spec fn overlap_index(left: Seq<char>, right: Seq<char>) -> int {
    first_overlap_from(left, right, 0)
}

/// The longest suffix of `left` that is a prefix of `right`.
pub open spec fn overlap_end_of(left: Seq<char>, right: Seq<char>) -> Seq<char> {
    left.subrange(overlap_index(left, right), left.len() as int)
}

/// The longest prefix of `this` that is a suffix of `other`, taken from `this`.
pub open spec fn overlap_start_of(this: Seq<char>, other: Seq<char>) -> Seq<char> {
    this.subrange(0, other.len() - overlap_index(other, this))
}

/// Any offset at or after `k` at which `left` overlaps `right` is at or after
/// `first_overlap_from(left, right, k)`, which is itself such an offset.
pub proof fn lemma_first_overlap_from(left: Seq<char>, right: Seq<char>, k: int)
    requires
        0 <= k <= left.len(),
    ensures
        k <= first_overlap_from(left, right, k) <= left.len(),
        overlaps_at(left, right, first_overlap_from(left, right, k)),
        forall|j: int|
            k <= j < first_overlap_from(left, right, k) ==> !overlaps_at(left, right, j),
    decreases left.len() - k,
{
    if k >= left.len() {
        assert(left.subrange(left.len() as int, left.len() as int) =~= Seq::<char>::empty());
        assert(right.subrange(0, 0) =~= Seq::<char>::empty());
    } else if !overlaps_at(left, right, k) {
        lemma_first_overlap_from(left, right, k + 1);
    }
}

} // verus!
