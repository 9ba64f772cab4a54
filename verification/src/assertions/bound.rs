use vstd::prelude::*;
use vstd::std_specs::cmp::PartialOrdSpec;

use crate::matchers::bound::have_lower_bound;
use crate::matchers::bound::have_upper_bound;
use crate::matchers::bound::spec_has_lower_bound;
use crate::matchers::bound::spec_has_upper_bound;
use crate::matchers::AssertionFailure;
use crate::matchers::Should;

verus! {

/// Bounds asserts that every element of a collection stays within an upper or
/// a lower bound. An empty collection satisfies either bound vacuously.
pub trait Bounds<T: PartialOrd + core::fmt::Debug>: View<V = Seq<T>> {
    /// The assertion succeeds exactly when every element is less than or
    /// equal to the given element.
    fn should_have_upper_bound(&self, element: &T) -> (outcome: Result<(), AssertionFailure>)
        ensures
            T::obeys_partial_cmp_spec() ==> ((outcome is Ok) <==> spec_has_upper_bound(
                self@,
                *element,
            )),
    ;

    /// The assertion succeeds exactly when every element is greater than or
    /// equal to the given element.
    fn should_have_lower_bound(&self, element: &T) -> (outcome: Result<(), AssertionFailure>)
        ensures
            T::obeys_partial_cmp_spec() ==> ((outcome is Ok) <==> spec_has_lower_bound(
                self@,
                *element,
            )),
    ;
}

impl<T: PartialOrd + core::fmt::Debug> Bounds<T> for Vec<T> {
    fn should_have_upper_bound(&self, element: &T) -> (outcome: Result<(), AssertionFailure>) {
        self.as_slice().should_have_upper_bound(element)
    }

    fn should_have_lower_bound(&self, element: &T) -> (outcome: Result<(), AssertionFailure>) {
        self.as_slice().should_have_lower_bound(element)
    }
}

impl<T: PartialOrd + core::fmt::Debug, const N: usize> Bounds<T> for [T; N] {
    fn should_have_upper_bound(&self, element: &T) -> (outcome: Result<(), AssertionFailure>) {
        self.as_slice().should_have_upper_bound(element)
    }

    fn should_have_lower_bound(&self, element: &T) -> (outcome: Result<(), AssertionFailure>) {
        self.as_slice().should_have_lower_bound(element)
    }
}

impl<T: PartialOrd + core::fmt::Debug> Bounds<T> for [T] {
    fn should_have_upper_bound(&self, element: &T) -> (outcome: Result<(), AssertionFailure>) {
        self.should(&have_upper_bound(element))
    }

    fn should_have_lower_bound(&self, element: &T) -> (outcome: Result<(), AssertionFailure>) {
        self.should(&have_lower_bound(element))
    }
}

} // verus!
