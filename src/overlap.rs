//! The overlap as a view into one of the two texts.
use vstd::prelude::*;
use crate::index::string_overlap_index;
use crate::laws::lemma_overlap_index_is_least;
use crate::model::{overlap_end_of, overlap_start_of};

verus! {

/// Methods for finding overlaps between values, at either end of `self`.
///
/// Both methods return a part of `self`, whichever side of `self` the overlap
/// is on; this is why there are two of them rather than one method called with
/// its arguments swapped.
pub trait Overlap: View<V = Seq<char>> {
    /// Returns the overlap found at the start of `self` and the end of `other`:
    /// the longest prefix of `self` that is also a suffix of `other`.
    fn overlap_start(&self, other: &Self) -> (r: &Self)
        ensures
            r@ == overlap_start_of(self@, other@),
    ;

    /// Returns the overlap found at the end of `self` and the start of `other`:
    /// the longest suffix of `self` that is also a prefix of `other`.
    fn overlap_end(&self, other: &Self) -> (r: &Self)
        ensures
            r@ == overlap_end_of(self@, other@),
    ;
}

impl Overlap for str {
    fn overlap_start(&self, other: &str) -> (r: &str) {
        let k = string_overlap_index(other, self);
        let n = other.unicode_len();
        proof {
            lemma_overlap_index_is_least(other@, self@);
        }
        self.substring_char(0, n - k)
    }

    fn overlap_end(&self, other: &str) -> (r: &str) {
        let k = string_overlap_index(self, other);
        let n = self.unicode_len();
        proof {
            lemma_overlap_index_is_least(self@, other@);
        }
        self.substring_char(k, n)
    }
}

/// Returns the largest suffix of `left` that is also a prefix of `right`, as a
/// view into `left`.
pub fn overlap<'a>(left: &'a str, right: &str) -> (r: &'a str)
    ensures
        r@ == overlap_end_of(left@, right@),
{
    left.overlap_end(right)
}

} // verus!
