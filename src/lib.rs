//! Finding the overlap between two string slices.
//!
//! An overlap is the largest substring found both at the end of one string
//! slice and at the beginning of another. The [`Overlap`] trait, implemented on
//! `str`, gives the overlap as a view into the value it is called on, at its
//! start or at its end.
pub mod model;
pub mod index;
pub mod overlap;
pub mod laws;

pub use index::string_overlap_index;
pub use overlap::{overlap, Overlap};
