//! The values a widget can hold before validation.

use vstd::prelude::*;

verus! {

/// A type of raw widget value: text for an input box, a flag for a checkbox.
///
/// Contracts speak of a raw value through its view. The trait supplies what a
/// field needs of it: the value shown when nothing was ever supplied, a copy,
/// and a comparison.
pub trait Raw: View + Sized {
    /// The view of the value that stands in when nothing was supplied.
    spec fn zero() -> Self::V;

    /// The value that stands in when nothing was supplied.
    fn blank() -> (r: Self)
        ensures
            r@ == Self::zero(),
    ;

    /// A copy with the same view.
    fn copy(&self) -> (r: Self)
        ensures
            r@ == self@,
    ;

    /// Whether two raw values have the same view.
    fn same(&self, other: &Self) -> (b: bool)
        ensures
            b == (self@ == other@),
    ;
}

impl Raw for String {
    open spec fn zero() -> Seq<char> {
        Seq::empty()
    }

    fn blank() -> (r: Self) {
        String::new()
    }

    fn copy(&self) -> (r: Self) {
        self.clone()
    }

    fn same(&self, other: &Self) -> (b: bool) {
        *self == *other
    }
}

impl Raw for bool {
    open spec fn zero() -> bool {
        false
    }

    fn blank() -> (r: Self) {
        false
    }

    fn copy(&self) -> (r: Self) {
        *self
    }

    fn same(&self, other: &Self) -> (b: bool) {
        *self == *other
    }
}

} // verus!
