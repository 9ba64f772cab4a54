use vstd::prelude::*;
use vstd::std_specs::cmp::PartialOrdIs;
use vstd::std_specs::cmp::PartialOrdSpec;
use vstd::std_specs::range::ContainsSpec;

use crate::matchers::ordered::be_greater_than;
use crate::matchers::ordered::be_greater_than_equal_to;
use crate::matchers::ordered::be_less_than;
use crate::matchers::ordered::be_less_than_equal_to;
use crate::matchers::range::be_in_exclusive_range;
use crate::matchers::range::be_in_inclusive_range;
use crate::matchers::AssertionFailure;
use crate::matchers::Should;
use crate::matchers::ShouldNot;

verus! {

/// OrderAssertions asserts how a value stands to another under the order of
/// its type: strictly or weakly above or below it, or within an inclusive or
/// half-open range.
pub trait OrderAssertions<T: PartialOrd + core::fmt::Debug>: PartialOrd<T> + Sized where
    T: PartialOrd<Self>,
 {
    /// The assertion succeeds exactly when the value is strictly greater
    /// than the other.
    fn should_be_greater_than(&self, other: &T) -> (outcome: Result<(), AssertionFailure>)
        ensures
            <Self as PartialOrdSpec<T>>::obeys_partial_cmp_spec() ==> ((outcome is Ok)
                <==> self.is_gt(other)),
    ;

    /// The assertion succeeds exactly when the value is greater than or
    /// equal to the other.
    fn should_be_greater_than_equal_to(&self, other: &T) -> (outcome: Result<(), AssertionFailure>)
        ensures
            <Self as PartialOrdSpec<T>>::obeys_partial_cmp_spec() ==> ((outcome is Ok)
                <==> self.is_ge(other)),
    ;

    /// The assertion succeeds exactly when the value is strictly less than
    /// the other.
    fn should_be_less_than(&self, other: &T) -> (outcome: Result<(), AssertionFailure>)
        ensures
            <Self as PartialOrdSpec<T>>::obeys_partial_cmp_spec() ==> ((outcome is Ok)
                <==> self.is_lt(other)),
    ;

    /// The assertion succeeds exactly when the value is less than or equal
    /// to the other.
    fn should_be_less_than_equal_to(&self, other: &T) -> (outcome: Result<(), AssertionFailure>)
        ensures
            <Self as PartialOrdSpec<T>>::obeys_partial_cmp_spec() ==> ((outcome is Ok)
                <==> self.is_le(other)),
    ;

    /// The assertion succeeds exactly when the value is not strictly greater
    /// than the other.
    fn should_not_be_greater_than(&self, other: &T) -> (outcome: Result<(), AssertionFailure>)
        ensures
            <Self as PartialOrdSpec<T>>::obeys_partial_cmp_spec() ==> ((outcome is Ok)
                <==> !self.is_gt(other)),
    ;

    /// The assertion succeeds exactly when the value is neither greater than
    /// nor equal to the other.
    fn should_not_be_greater_than_equal_to(&self, other: &T) -> (outcome: Result<
        (),
        AssertionFailure,
    >)
        ensures
            <Self as PartialOrdSpec<T>>::obeys_partial_cmp_spec() ==> ((outcome is Ok)
                <==> !self.is_ge(other)),
    ;

    /// The assertion succeeds exactly when the value is not strictly less
    /// than the other.
    fn should_not_be_less_than(&self, other: &T) -> (outcome: Result<(), AssertionFailure>)
        ensures
            <Self as PartialOrdSpec<T>>::obeys_partial_cmp_spec() ==> ((outcome is Ok)
                <==> !self.is_lt(other)),
    ;

    /// The assertion succeeds exactly when the value is neither less than
    /// nor equal to the other.
    fn should_not_be_less_than_equal_to(&self, other: &T) -> (outcome: Result<
        (),
        AssertionFailure,
    >)
        ensures
            <Self as PartialOrdSpec<T>>::obeys_partial_cmp_spec() ==> ((outcome is Ok)
                <==> !self.is_le(other)),
    ;

    /// The assertion succeeds exactly when the inclusive range contains the
    /// value.
    fn should_be_in_inclusive_range(&self, range: core::ops::RangeInclusive<T>) -> (outcome:
        Result<(), AssertionFailure>)
        ensures
            <core::ops::RangeInclusive<T> as ContainsSpec<T, Self>>::obeys_contains() ==> ((outcome
                is Ok) <==> range.contains_spec(self)),
    ;

    /// The assertion succeeds exactly when the inclusive range does not
    /// contain the value.
    fn should_not_be_in_inclusive_range(&self, range: core::ops::RangeInclusive<T>) -> (outcome:
        Result<(), AssertionFailure>)
        ensures
            <core::ops::RangeInclusive<T> as ContainsSpec<T, Self>>::obeys_contains() ==> ((outcome
                is Ok) <==> !range.contains_spec(self)),
    ;

    /// The assertion succeeds exactly when the half-open range contains the
    /// value.
    fn should_be_in_exclusive_range(&self, range: core::ops::Range<T>) -> (outcome: Result<
        (),
        AssertionFailure,
    >)
        ensures
            <core::ops::Range<T> as ContainsSpec<T, Self>>::obeys_contains() ==> ((outcome is Ok)
                <==> range.contains_spec(self)),
    ;

    /// The assertion succeeds exactly when the half-open range does not
    /// contain the value.
    fn should_not_be_in_exclusive_range(&self, range: core::ops::Range<T>) -> (outcome: Result<
        (),
        AssertionFailure,
    >)
        ensures
            <core::ops::Range<T> as ContainsSpec<T, Self>>::obeys_contains() ==> ((outcome is Ok)
                <==> !range.contains_spec(self)),
    ;
}

impl<T: PartialOrd + core::fmt::Debug> OrderAssertions<T> for T {
    fn should_be_greater_than(&self, other: &T) -> (outcome: Result<(), AssertionFailure>) {
        self.should(&be_greater_than(other))
    }

    fn should_be_greater_than_equal_to(&self, other: &T) -> (outcome: Result<
        (),
        AssertionFailure,
    >) {
        self.should(&be_greater_than_equal_to(other))
    }

    fn should_be_less_than(&self, other: &T) -> (outcome: Result<(), AssertionFailure>) {
        self.should(&be_less_than(other))
    }

    fn should_be_less_than_equal_to(&self, other: &T) -> (outcome: Result<(), AssertionFailure>) {
        self.should(&be_less_than_equal_to(other))
    }

    fn should_not_be_greater_than(&self, other: &T) -> (outcome: Result<(), AssertionFailure>) {
        self.should_not(&be_greater_than(other))
    }

    fn should_not_be_greater_than_equal_to(&self, other: &T) -> (outcome: Result<
        (),
        AssertionFailure,
    >) {
        self.should_not(&be_greater_than_equal_to(other))
    }

    fn should_not_be_less_than(&self, other: &T) -> (outcome: Result<(), AssertionFailure>) {
        self.should_not(&be_less_than(other))
    }

    fn should_not_be_less_than_equal_to(&self, other: &T) -> (outcome: Result<
        (),
        AssertionFailure,
    >) {
        self.should_not(&be_less_than_equal_to(other))
    }

    fn should_be_in_inclusive_range(&self, range: core::ops::RangeInclusive<T>) -> (outcome:
        Result<(), AssertionFailure>) {
        self.should(&be_in_inclusive_range(&range))
    }

    fn should_not_be_in_inclusive_range(&self, range: core::ops::RangeInclusive<T>) -> (outcome:
        Result<(), AssertionFailure>) {
        self.should_not(&be_in_inclusive_range(&range))
    }

    fn should_be_in_exclusive_range(&self, range: core::ops::Range<T>) -> (outcome: Result<
        (),
        AssertionFailure,
    >) {
        self.should(&be_in_exclusive_range(&range))
    }

    fn should_not_be_in_exclusive_range(&self, range: core::ops::Range<T>) -> (outcome: Result<
        (),
        AssertionFailure,
    >) {
        self.should_not(&be_in_exclusive_range(&range))
    }
}

} // verus!
