use vstd::prelude::*;
use vstd::std_specs::cmp::PartialEqSpec;

use crate::matchers::empty::be_empty;
use crate::matchers::membership::contain;
use crate::matchers::membership::contain_all;
use crate::matchers::membership::contain_any;
use crate::matchers::membership::spec_contains;
use crate::matchers::membership::spec_contains_all;
use crate::matchers::membership::spec_contains_any;
use crate::matchers::AssertionFailure;
use crate::matchers::Should;
use crate::matchers::ShouldNot;

verus! {

/// MembershipAssertion asserts what a collection holds: a single element,
/// all of a set of elements, any of a set of elements, or nothing at all.
/// Elements are found by equality.
pub trait MembershipAssertion<T: PartialEq + core::fmt::Debug>: View<V = Seq<T>> {
    /// The assertion succeeds exactly when some element equals the given one.
    fn should_contain(&self, element: &T) -> (outcome: Result<(), AssertionFailure>)
        ensures
            T::obeys_eq_spec() ==> ((outcome is Ok) <==> spec_contains(self@, *element)),
    ;

    /// The assertion succeeds exactly when no element equals the given one.
    fn should_not_contain(&self, element: &T) -> (outcome: Result<(), AssertionFailure>)
        ensures
            T::obeys_eq_spec() ==> ((outcome is Ok) <==> !spec_contains(self@, *element)),
    ;

    /// The assertion succeeds exactly when each of the given elements is
    /// found in the collection by equality.
    fn should_contain_all(&self, elements: &[T]) -> (outcome: Result<(), AssertionFailure>)
        ensures
            T::obeys_eq_spec() ==> ((outcome is Ok) <==> spec_contains_all(self@, elements@)),
    ;

    /// The assertion succeeds exactly when at least one of the given elements
    /// is missing from the collection.
    fn should_not_contain_all(&self, elements: &[T]) -> (outcome: Result<(), AssertionFailure>)
        ensures
            T::obeys_eq_spec() ==> ((outcome is Ok) <==> !spec_contains_all(self@, elements@)),
    ;

    /// The assertion succeeds exactly when at least one of the given elements
    /// is found in the collection by equality.
    fn should_contain_any(&self, elements: &[T]) -> (outcome: Result<(), AssertionFailure>)
        ensures
            T::obeys_eq_spec() ==> ((outcome is Ok) <==> spec_contains_any(self@, elements@)),
    ;

    /// The assertion succeeds exactly when none of the given elements is
    /// found in the collection by equality.
    fn should_not_contain_any(&self, elements: &[T]) -> (outcome: Result<(), AssertionFailure>)
        ensures
            T::obeys_eq_spec() ==> ((outcome is Ok) <==> !spec_contains_any(self@, elements@)),
    ;

    /// The assertion succeeds exactly when the collection holds no elements.
    fn should_be_empty(&self) -> (outcome: Result<(), AssertionFailure>)
        ensures
            (outcome is Ok) <==> self@.len() == 0,
    ;

    /// The assertion succeeds exactly when the collection holds an element.
    fn should_not_be_empty(&self) -> (outcome: Result<(), AssertionFailure>)
        ensures
            (outcome is Ok) <==> self@.len() != 0,
    ;
}

impl<T: PartialEq + core::fmt::Debug> MembershipAssertion<T> for Vec<T> {
    fn should_contain(&self, element: &T) -> (outcome: Result<(), AssertionFailure>) {
        self.as_slice().should_contain(element)
    }

    fn should_not_contain(&self, element: &T) -> (outcome: Result<(), AssertionFailure>) {
        self.as_slice().should_not_contain(element)
    }

    fn should_contain_all(&self, elements: &[T]) -> (outcome: Result<(), AssertionFailure>) {
        self.as_slice().should_contain_all(elements)
    }

    fn should_not_contain_all(&self, elements: &[T]) -> (outcome: Result<(), AssertionFailure>) {
        self.as_slice().should_not_contain_all(elements)
    }

    fn should_contain_any(&self, elements: &[T]) -> (outcome: Result<(), AssertionFailure>) {
        self.as_slice().should_contain_any(elements)
    }

    fn should_not_contain_any(&self, elements: &[T]) -> (outcome: Result<(), AssertionFailure>) {
        self.as_slice().should_not_contain_any(elements)
    }

    fn should_be_empty(&self) -> (outcome: Result<(), AssertionFailure>) {
        self.as_slice().should_be_empty()
    }

    fn should_not_be_empty(&self) -> (outcome: Result<(), AssertionFailure>) {
        self.as_slice().should_not_be_empty()
    }
}

impl<T: PartialEq + core::fmt::Debug, const N: usize> MembershipAssertion<T> for [T; N] {
    fn should_contain(&self, element: &T) -> (outcome: Result<(), AssertionFailure>) {
        self.as_slice().should_contain(element)
    }

    fn should_not_contain(&self, element: &T) -> (outcome: Result<(), AssertionFailure>) {
        self.as_slice().should_not_contain(element)
    }

    fn should_contain_all(&self, elements: &[T]) -> (outcome: Result<(), AssertionFailure>) {
        self.as_slice().should_contain_all(elements)
    }

    fn should_not_contain_all(&self, elements: &[T]) -> (outcome: Result<(), AssertionFailure>) {
        self.as_slice().should_not_contain_all(elements)
    }

    fn should_contain_any(&self, elements: &[T]) -> (outcome: Result<(), AssertionFailure>) {
        self.as_slice().should_contain_any(elements)
    }

    fn should_not_contain_any(&self, elements: &[T]) -> (outcome: Result<(), AssertionFailure>) {
        self.as_slice().should_not_contain_any(elements)
    }

    fn should_be_empty(&self) -> (outcome: Result<(), AssertionFailure>) {
        self.as_slice().should_be_empty()
    }

    fn should_not_be_empty(&self) -> (outcome: Result<(), AssertionFailure>) {
        self.as_slice().should_not_be_empty()
    }
}

impl<T: PartialEq + core::fmt::Debug> MembershipAssertion<T> for [T] {
    fn should_contain(&self, element: &T) -> (outcome: Result<(), AssertionFailure>) {
        self.should(&contain(element))
    }

    fn should_not_contain(&self, element: &T) -> (outcome: Result<(), AssertionFailure>) {
        self.should_not(&contain(element))
    }

    fn should_contain_all(&self, elements: &[T]) -> (outcome: Result<(), AssertionFailure>) {
        self.should(&contain_all(elements))
    }

    fn should_not_contain_all(&self, elements: &[T]) -> (outcome: Result<(), AssertionFailure>) {
        self.should_not(&contain_all(elements))
    }

    fn should_contain_any(&self, elements: &[T]) -> (outcome: Result<(), AssertionFailure>) {
        self.should(&contain_any(elements))
    }

    fn should_not_contain_any(&self, elements: &[T]) -> (outcome: Result<(), AssertionFailure>) {
        self.should_not(&contain_any(elements))
    }

    fn should_be_empty(&self) -> (outcome: Result<(), AssertionFailure>) {
        self.should(&be_empty())
    }

    fn should_not_be_empty(&self) -> (outcome: Result<(), AssertionFailure>) {
        self.should_not(&be_empty())
    }
}

} // verus!
