//! The overlap index: where the longest suffix of one text that is a prefix of
//! another begins.
use vstd::prelude::*;
use vstd::std_specs::iter::IteratorSpec;
use crate::model::{first_overlap_from, is_prefix_of, overlap_index, overlaps_at};

verus! {

/// Whether `p` is a prefix of `s`, found by walking the scalar values of both
/// side by side.
fn starts_with_scalars(s: &str, p: &str) -> (b: bool)
    ensures
        b == is_prefix_of(p@, s@),
{
    let mut ps = p.chars();
    let mut ss = s.chars();
    let ghost mut i: int = 0;
    loop
        invariant
            0 <= i <= p@.len(),
            i <= s@.len(),
            ps.remaining() == p@.subrange(i, p@.len() as int),
            ss.remaining() == s@.subrange(i, s@.len() as int),
            p@.subrange(0, i) == s@.subrange(0, i),
            ps.decrease() is Some,
        decreases ps.decrease()->0,
    {
        match ps.next() {
            None => {
                assert(p@.subrange(0, i) =~= p@);
                return true;
            },
            Some(c) => {
                match ss.next() {
                    None => {
                        return false;
                    },
                    Some(d) => {
                        assert(c == p@[i] && d == s@[i]);
                        if c != d {
                            assert(!is_prefix_of(p@, s@)) by {
                                if p@.len() <= s@.len() {
                                    assert(s@.subrange(0, p@.len() as int)[i] == d);
                                }
                            }
                            return false;
                        }
                        assert(p@.subrange(0, i + 1) =~= s@.subrange(0, i + 1));
                        proof {
                            i = i + 1;
                        }
                    },
                }
            },
        }
    }
}

/// Returns the scalar offset into `left` at which the longest suffix of `left`
/// that is also a prefix of `right` begins.
///
/// Where no non-empty suffix of `left` is a prefix of `right`, the result is the
/// number of scalar values in `left`, so that slicing `left` from it gives an
/// empty view. Candidate suffixes are tried from the longest down, each as a
/// view into `left`.
pub fn string_overlap_index(left: &str, right: &str) -> (k: usize)
    ensures
        k == overlap_index(left@, right@),
{
    let n = left.unicode_len();
    let mut k: usize = 0;
    while k < n
        invariant
            n == left@.len(),
            k <= n,
            overlap_index(left@, right@) == first_overlap_from(left@, right@, k as int),
        decreases n - k,
    {
        let suffix = left.substring_char(k, n);
        if starts_with_scalars(right, suffix) {
            assert(overlaps_at(left@, right@, k as int));
            return k;
        }
        k = k + 1;
    }
    k
}

} // verus!
