//! What holds of every overlap, proved over the model.
use vstd::prelude::*;
use crate::model::{
    first_overlap_from, is_prefix_of, is_suffix_of, lemma_first_overlap_from, overlap_end_of,
    overlap_index, overlap_start_of, overlaps_at,
};

verus! {

/// The overlap index lies within `left`, `left` overlaps `right` there, and at
/// no smaller offset.
pub proof fn lemma_overlap_index_is_least(left: Seq<char>, right: Seq<char>)
    ensures
        0 <= overlap_index(left, right) <= left.len(),
        overlaps_at(left, right, overlap_index(left, right)),
        forall|j: int| 0 <= j < overlap_index(left, right) ==> !overlaps_at(left, right, j),
{
    lemma_first_overlap_from(left, right, 0);
}

/// The overlap is no longer than either input.
pub proof fn lemma_overlap_len_bounded(left: Seq<char>, right: Seq<char>)
    ensures
        overlap_end_of(left, right).len() <= left.len(),
        overlap_end_of(left, right).len() <= right.len(),
{
    lemma_overlap_index_is_least(left, right);
}

/// `left` ends with the overlap and `right` starts with it.
pub proof fn lemma_overlap_is_suffix_and_prefix(left: Seq<char>, right: Seq<char>)
    ensures
        is_suffix_of(overlap_end_of(left, right), left),
        is_prefix_of(overlap_end_of(left, right), right),
{
    lemma_overlap_index_is_least(left, right);
    let k = overlap_index(left, right);
    assert(left.subrange(left.len() - (left.len() - k), left.len() as int) =~= left.subrange(
        k,
        left.len() as int,
    ));
}

/// No text that is both a suffix of `left` and a prefix of `right` is longer
/// than the overlap.
pub proof fn lemma_overlap_is_longest(left: Seq<char>, right: Seq<char>, p: Seq<char>)
    requires
        is_suffix_of(p, left),
        is_prefix_of(p, right),
    ensures
        p.len() <= overlap_end_of(left, right).len(),
{
    lemma_overlap_index_is_least(left, right);
    let j = left.len() - p.len();
    assert(overlaps_at(left, right, j));
}

/// A text overlaps itself whole.
pub proof fn lemma_overlap_of_self(s: Seq<char>)
    ensures
        overlap_end_of(s, s) == s,
{
    assert(s.subrange(0, s.len() as int) =~= s);
    assert(overlaps_at(s, s, 0));
    assert(overlap_index(s, s) == first_overlap_from(s, s, 0));
    assert(overlap_index(s, s) == 0);
}

/// An empty text on either side gives an empty overlap.
pub proof fn lemma_overlap_with_empty(s: Seq<char>)
    ensures
        overlap_end_of(Seq::<char>::empty(), s) == Seq::<char>::empty(),
        overlap_end_of(s, Seq::<char>::empty()) == Seq::<char>::empty(),
{
    lemma_overlap_len_bounded(Seq::<char>::empty(), s);
    lemma_overlap_len_bounded(s, Seq::<char>::empty());
    assert(overlap_end_of(Seq::<char>::empty(), s) =~= Seq::<char>::empty());
    assert(overlap_end_of(s, Seq::<char>::empty()) =~= Seq::<char>::empty());
}

/// The overlap at the start of `a` is a prefix of `a`, and holds the same
/// scalar values as the overlap at the end of `b` with `a`; the overlap at the
/// end of `a` is a suffix of `a`.
pub proof fn lemma_overlap_views_of_self(a: Seq<char>, b: Seq<char>)
    ensures
        is_prefix_of(overlap_start_of(a, b), a),
        overlap_start_of(a, b) == overlap_end_of(b, a),
        is_suffix_of(overlap_end_of(a, b), a),
{
    lemma_overlap_is_suffix_and_prefix(b, a);
    lemma_overlap_is_suffix_and_prefix(a, b);
    lemma_overlap_index_is_least(b, a);
    let n = b.len() - overlap_index(b, a);
    assert(a.subrange(0, n).subrange(0, n) =~= a.subrange(0, n));
}

} // verus!
