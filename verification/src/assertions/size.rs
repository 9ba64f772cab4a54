use vstd::prelude::*;

use crate::matchers::length::have_atleast_same_length;
use crate::matchers::length::have_atmost_same_length;
use crate::matchers::length::have_same_length;
use crate::matchers::range::have_length_in_exclusive_range;
use crate::matchers::range::have_length_in_inclusive_range;
use crate::matchers::AssertionFailure;
use crate::matchers::Should;
use crate::matchers::ShouldNot;

verus! {

/// SizeAssertions asserts the exact element count of a collection: equal to,
/// at least, at most a given count, equal to another collection's count, or
/// within a range of counts.
pub trait SizeAssertions {
    /// The element count the assertions speak about.
    spec fn spec_size(&self) -> nat;

    /// The assertion succeeds exactly when the collection holds `size`
    /// elements.
    fn should_have_size(&self, size: usize) -> (outcome: Result<(), AssertionFailure>)
        ensures
            (outcome is Ok) <==> self.spec_size() == size,
    ;

    /// The assertion succeeds exactly when the collection does not hold
    /// `size` elements.
    fn should_not_have_size(&self, size: usize) -> (outcome: Result<(), AssertionFailure>)
        ensures
            (outcome is Ok) <==> self.spec_size() != size,
    ;

    /// The assertion succeeds exactly when the collection holds at least
    /// `size` elements.
    fn should_have_at_least_size(&self, size: usize) -> (outcome: Result<(), AssertionFailure>)
        ensures
            (outcome is Ok) <==> self.spec_size() >= size,
    ;

    /// The assertion succeeds exactly when the collection holds at most
    /// `size` elements.
    fn should_have_at_most_size(&self, size: usize) -> (outcome: Result<(), AssertionFailure>)
        ensures
            (outcome is Ok) <==> self.spec_size() <= size,
    ;

    /// The assertion succeeds exactly when the collection holds as many
    /// elements as the other, whatever either element type is.
    fn should_be_same_size_as<U>(&self, other: &[U]) -> (outcome: Result<(), AssertionFailure>)
        ensures
            (outcome is Ok) <==> self.spec_size() == other@.len(),
    ;

    /// The assertion succeeds exactly when the inclusive range contains the
    /// element count.
    fn should_have_size_in_inclusive_range(&self, range: core::ops::RangeInclusive<usize>) -> (
        outcome: Result<(), AssertionFailure>)
        ensures
            (outcome is Ok) <==> (range@.start <= self.spec_size() && (if range@.exhausted {
                self.spec_size() < range@.end
            } else {
                self.spec_size() <= range@.end
            })),
    ;

    /// The assertion succeeds exactly when the inclusive range does not
    /// contain the element count.
    fn should_not_have_size_in_inclusive_range(&self, range: core::ops::RangeInclusive<usize>) -> (
        outcome: Result<(), AssertionFailure>)
        ensures
            (outcome is Ok) <==> !(range@.start <= self.spec_size() && (if range@.exhausted {
                self.spec_size() < range@.end
            } else {
                self.spec_size() <= range@.end
            })),
    ;

    /// The assertion succeeds exactly when the half-open range contains the
    /// element count.
    fn should_have_size_in_exclusive_range(&self, range: core::ops::Range<usize>) -> (outcome:
        Result<(), AssertionFailure>)
        ensures
            (outcome is Ok) <==> (range.start <= self.spec_size() && self.spec_size()
                < range.end),
    ;

    /// The assertion succeeds exactly when the half-open range does not
    /// contain the element count.
    fn should_not_have_size_in_exclusive_range(&self, range: core::ops::Range<usize>) -> (outcome:
        Result<(), AssertionFailure>)
        ensures
            (outcome is Ok) <==> !(range.start <= self.spec_size() && self.spec_size()
                < range.end),
    ;
}

impl<T: core::fmt::Debug> SizeAssertions for Vec<T> {
    open spec fn spec_size(&self) -> nat {
        self@.len()
    }

    fn should_have_size(&self, size: usize) -> (outcome: Result<(), AssertionFailure>) {
        self.as_slice().should_have_size(size)
    }

    fn should_not_have_size(&self, size: usize) -> (outcome: Result<(), AssertionFailure>) {
        self.as_slice().should_not_have_size(size)
    }

    fn should_have_at_least_size(&self, size: usize) -> (outcome: Result<(), AssertionFailure>) {
        self.as_slice().should_have_at_least_size(size)
    }

    fn should_have_at_most_size(&self, size: usize) -> (outcome: Result<(), AssertionFailure>) {
        self.as_slice().should_have_at_most_size(size)
    }

    fn should_be_same_size_as<U>(&self, other: &[U]) -> (outcome: Result<(), AssertionFailure>) {
        self.as_slice().should_be_same_size_as(other)
    }

    fn should_have_size_in_inclusive_range(&self, range: core::ops::RangeInclusive<usize>) -> (
        outcome: Result<(), AssertionFailure>) {
        self.as_slice().should_have_size_in_inclusive_range(range)
    }

    fn should_not_have_size_in_inclusive_range(&self, range: core::ops::RangeInclusive<usize>) -> (
        outcome: Result<(), AssertionFailure>) {
        self.as_slice().should_not_have_size_in_inclusive_range(range)
    }

    fn should_have_size_in_exclusive_range(&self, range: core::ops::Range<usize>) -> (outcome:
        Result<(), AssertionFailure>) {
        self.as_slice().should_have_size_in_exclusive_range(range)
    }

    fn should_not_have_size_in_exclusive_range(&self, range: core::ops::Range<usize>) -> (outcome:
        Result<(), AssertionFailure>) {
        self.as_slice().should_not_have_size_in_exclusive_range(range)
    }
}

impl<T: core::fmt::Debug, const N: usize> SizeAssertions for [T; N] {
    open spec fn spec_size(&self) -> nat {
        self@.len()
    }

    fn should_have_size(&self, size: usize) -> (outcome: Result<(), AssertionFailure>) {
        self.as_slice().should_have_size(size)
    }

    fn should_not_have_size(&self, size: usize) -> (outcome: Result<(), AssertionFailure>) {
        self.as_slice().should_not_have_size(size)
    }

    fn should_have_at_least_size(&self, size: usize) -> (outcome: Result<(), AssertionFailure>) {
        self.as_slice().should_have_at_least_size(size)
    }

    fn should_have_at_most_size(&self, size: usize) -> (outcome: Result<(), AssertionFailure>) {
        self.as_slice().should_have_at_most_size(size)
    }

    fn should_be_same_size_as<U>(&self, other: &[U]) -> (outcome: Result<(), AssertionFailure>) {
        self.as_slice().should_be_same_size_as(other)
    }

    fn should_have_size_in_inclusive_range(&self, range: core::ops::RangeInclusive<usize>) -> (
        outcome: Result<(), AssertionFailure>) {
        self.as_slice().should_have_size_in_inclusive_range(range)
    }

    fn should_not_have_size_in_inclusive_range(&self, range: core::ops::RangeInclusive<usize>) -> (
        outcome: Result<(), AssertionFailure>) {
        self.as_slice().should_not_have_size_in_inclusive_range(range)
    }

    fn should_have_size_in_exclusive_range(&self, range: core::ops::Range<usize>) -> (outcome:
        Result<(), AssertionFailure>) {
        self.as_slice().should_have_size_in_exclusive_range(range)
    }

    fn should_not_have_size_in_exclusive_range(&self, range: core::ops::Range<usize>) -> (outcome:
        Result<(), AssertionFailure>) {
        self.as_slice().should_not_have_size_in_exclusive_range(range)
    }
}

impl<T: core::fmt::Debug> SizeAssertions for [T] {
    open spec fn spec_size(&self) -> nat {
        self@.len()
    }

    fn should_have_size(&self, size: usize) -> (outcome: Result<(), AssertionFailure>) {
        self.should(&have_same_length(size))
    }

    fn should_not_have_size(&self, size: usize) -> (outcome: Result<(), AssertionFailure>) {
        self.should_not(&have_same_length(size))
    }

    fn should_have_at_least_size(&self, size: usize) -> (outcome: Result<(), AssertionFailure>) {
        self.should(&have_atleast_same_length(size))
    }

    fn should_have_at_most_size(&self, size: usize) -> (outcome: Result<(), AssertionFailure>) {
        self.should(&have_atmost_same_length(size))
    }

    fn should_be_same_size_as<U>(&self, other: &[U]) -> (outcome: Result<(), AssertionFailure>) {
        self.should(&have_same_length(other.len()))
    }

    fn should_have_size_in_inclusive_range(&self, range: core::ops::RangeInclusive<usize>) -> (
        outcome: Result<(), AssertionFailure>) {
        self.len().should(&have_length_in_inclusive_range(&range))
    }

    fn should_not_have_size_in_inclusive_range(&self, range: core::ops::RangeInclusive<usize>) -> (
        outcome: Result<(), AssertionFailure>) {
        self.len().should_not(&have_length_in_inclusive_range(&range))
    }

    fn should_have_size_in_exclusive_range(&self, range: core::ops::Range<usize>) -> (outcome:
        Result<(), AssertionFailure>) {
        self.len().should(&have_length_in_exclusive_range(&range))
    }

    fn should_not_have_size_in_exclusive_range(&self, range: core::ops::Range<usize>) -> (outcome:
        Result<(), AssertionFailure>) {
        self.len().should_not(&have_length_in_exclusive_range(&range))
    }
}

} // verus!
