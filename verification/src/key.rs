//! What a type must offer to serve as a key: equality and copying that follow its view.

use vstd::prelude::*;

verus! {

/// A key of a [`crate::table::Table`] or a [`crate::cache::Cache`]. Two keys name the
/// same entry exactly when their views are equal.
pub trait CacheKey: View + Sized {
    /// Whether `self` and `other` name the same entry.
    fn same(&self, other: &Self) -> (same: bool)
        ensures
            same == (self@ == other@),
    ;

    /// A second key that names the same entry.
    fn duplicate(&self) -> (copy: Self)
        ensures
            copy@ == self@,
    ;
}

impl CacheKey for String {
    fn same(&self, other: &Self) -> (same: bool) {
        *self == *other
    }

    fn duplicate(&self) -> (copy: Self) {
        self.clone()
    }
}

impl CacheKey for u64 {
    fn same(&self, other: &Self) -> (same: bool) {
        *self == *other
    }

    fn duplicate(&self) -> (copy: Self) {
        *self
    }
}

} // verus!
