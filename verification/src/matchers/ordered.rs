use vstd::prelude::*;
use vstd::std_specs::cmp::PartialOrdIs;
use vstd::std_specs::cmp::PartialOrdSpec;
use vstd::string::StringExecFns;

use crate::matchers::debug_string;
use crate::matchers::Matcher;
use crate::matchers::MatcherResult;

verus! {

/// OrderedMatcher compares a value with a configured operand under one of the
/// four order relations.
pub enum OrderedMatcher<'a, T: PartialOrd + core::fmt::Debug> {
    GreaterThan(&'a T),
    GreaterThanEqualTo(&'a T),
    LessThan(&'a T),
    LessThanEqualTo(&'a T),
}

impl<'a, T: PartialOrd + core::fmt::Debug> OrderedMatcher<'a, T> {
    /// The predicate this matcher decides.
    pub open spec fn matches_value(&self, value: T) -> bool {
        match self {
            OrderedMatcher::GreaterThan(other) => value.is_gt(*other),
            OrderedMatcher::GreaterThanEqualTo(other) => value.is_ge(*other),
            OrderedMatcher::LessThan(other) => value.is_lt(*other),
            OrderedMatcher::LessThanEqualTo(other) => value.is_le(*other),
        }
    }
}

impl<'a, T: PartialOrd + core::fmt::Debug> Matcher<T> for OrderedMatcher<'a, T> {
    open spec fn obeys_matches_spec(&self) -> bool {
        T::obeys_partial_cmp_spec()
    }

    open spec fn matches(&self, value: &T) -> bool {
        self.matches_value(*value)
    }

    fn test(&self, value: &T) -> (result: MatcherResult) {
        match self {
            OrderedMatcher::GreaterThan(other) => {
                let passed = value.gt(other);
                let mut failure_message = debug_string(value);
                failure_message.append(" should be greater than ");
                failure_message.append(debug_string(*other).as_str());
                let mut negated_failure_message = debug_string(value);
                negated_failure_message.append(" should not be greater than ");
                negated_failure_message.append(debug_string(*other).as_str());
                MatcherResult::formatted(passed, failure_message, negated_failure_message)
            },
            OrderedMatcher::GreaterThanEqualTo(other) => {
                let passed = value.ge(other);
                let mut failure_message = debug_string(value);
                failure_message.append(" should be greater than equal to ");
                failure_message.append(debug_string(*other).as_str());
                let mut negated_failure_message = debug_string(value);
                negated_failure_message.append(" should not be greater than equal to ");
                negated_failure_message.append(debug_string(*other).as_str());
                MatcherResult::formatted(passed, failure_message, negated_failure_message)
            },
            OrderedMatcher::LessThan(other) => {
                let passed = value.lt(other);
                let mut failure_message = debug_string(value);
                failure_message.append(" should be less than ");
                failure_message.append(debug_string(*other).as_str());
                let mut negated_failure_message = debug_string(value);
                negated_failure_message.append(" should not be less than ");
                negated_failure_message.append(debug_string(*other).as_str());
                MatcherResult::formatted(passed, failure_message, negated_failure_message)
            },
            OrderedMatcher::LessThanEqualTo(other) => {
                let passed = value.le(other);
                let mut failure_message = debug_string(value);
                failure_message.append(" should be less than equal to ");
                failure_message.append(debug_string(*other).as_str());
                let mut negated_failure_message = debug_string(value);
                negated_failure_message.append(" should not be less than equal to ");
                negated_failure_message.append(debug_string(*other).as_str());
                MatcherResult::formatted(passed, failure_message, negated_failure_message)
            },
        }
    }
}

/// be_greater_than creates a matcher that accepts a value exactly when it is
/// strictly greater than the operand.
pub fn be_greater_than<'a, T: PartialOrd + core::fmt::Debug>(other: &'a T) -> (matcher:
    OrderedMatcher<'a, T>)
    ensures
        matcher == OrderedMatcher::GreaterThan(other),
{
    OrderedMatcher::GreaterThan(other)
}

/// be_greater_than_equal_to creates a matcher that accepts a value exactly
/// when it is greater than or equal to the operand.
pub fn be_greater_than_equal_to<'a, T: PartialOrd + core::fmt::Debug>(other: &'a T) -> (matcher:
    OrderedMatcher<'a, T>)
    ensures
        matcher == OrderedMatcher::GreaterThanEqualTo(other),
{
    OrderedMatcher::GreaterThanEqualTo(other)
}

/// be_less_than creates a matcher that accepts a value exactly when it is
/// strictly less than the operand.
pub fn be_less_than<'a, T: PartialOrd + core::fmt::Debug>(other: &'a T) -> (matcher: OrderedMatcher<
    'a,
    T,
>)
    ensures
        matcher == OrderedMatcher::LessThan(other),
{
    OrderedMatcher::LessThan(other)
}

/// be_less_than_equal_to creates a matcher that accepts a value exactly when
/// it is less than or equal to the operand.
pub fn be_less_than_equal_to<'a, T: PartialOrd + core::fmt::Debug>(other: &'a T) -> (matcher:
    OrderedMatcher<'a, T>)
    ensures
        matcher == OrderedMatcher::LessThanEqualTo(other),
{
    OrderedMatcher::LessThanEqualTo(other)
}

} // verus!
