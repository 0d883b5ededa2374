//! The kinds of value that a field of a record can hold.

use vstd::prelude::*;

verus! {

/// A value that can be stored under a field name.
///
/// Values are compared and copied by their view, so that two records with the
/// same views behave alike.
pub trait FieldValue: View + Sized {
    /// Returns a copy of the value.
    fn duplicate(&self) -> (copy: Self)
        ensures
            copy@ == self@,
    ;

    /// Tells whether two values are the same.
    fn same_as(&self, other: &Self) -> (same: bool)
        ensures
            same == (self@ == other@),
    ;
}

impl FieldValue for bool {
    fn duplicate(&self) -> (copy: bool) {
        *self
    }

    fn same_as(&self, other: &bool) -> (same: bool) {
        *self == *other
    }
}

impl FieldValue for u64 {
    fn duplicate(&self) -> (copy: u64) {
        *self
    }

    fn same_as(&self, other: &u64) -> (same: bool) {
        *self == *other
    }
}

impl FieldValue for String {
    fn duplicate(&self) -> (copy: String) {
        self.clone()
    }

    fn same_as(&self, other: &String) -> (same: bool) {
        *self == *other
    }
}

} // verus!
