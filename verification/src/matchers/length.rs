use vstd::prelude::*;
use vstd::string::StringExecFns;

use crate::matchers::debug_string;
use crate::matchers::Matcher;
use crate::matchers::MatcherResult;

verus! {

/// LengthMatcher compares the exact element count of a collection with an
/// expected count.
pub enum LengthMatcher {
    Same(usize),
    Atleast(usize),
    Atmost(usize),
}

impl LengthMatcher {
    /// The predicate this matcher decides over an element count.
    pub open spec fn matches_length(&self, length: nat) -> bool {
        match self {
            LengthMatcher::Same(expected) => length == *expected,
            LengthMatcher::Atleast(expected) => length >= *expected,
            LengthMatcher::Atmost(expected) => length <= *expected,
        }
    }

    fn test<T: core::fmt::Debug>(&self, collection: &[T]) -> (result: MatcherResult)
        ensures
            result.spec_passed() == self.matches_length(collection@.len()),
    {
        let length = collection.len();
        match self {
            LengthMatcher::Same(expected) => {
                let passed = length == *expected;
                let mut failure_message = debug_string(collection);
                failure_message.append(" should have length ");
                failure_message.append(debug_string(expected).as_str());
                let mut negated_failure_message = debug_string(collection);
                negated_failure_message.append(" should not have length ");
                negated_failure_message.append(debug_string(expected).as_str());
                MatcherResult::formatted(passed, failure_message, negated_failure_message)
            },
            LengthMatcher::Atleast(expected) => {
                let passed = length >= *expected;
                let mut failure_message = debug_string(collection);
                failure_message.append(" should have at least length ");
                failure_message.append(debug_string(expected).as_str());
                let mut negated_failure_message = debug_string(collection);
                negated_failure_message.append(" should not have at least length ");
                negated_failure_message.append(debug_string(expected).as_str());
                MatcherResult::formatted(passed, failure_message, negated_failure_message)
            },
            LengthMatcher::Atmost(expected) => {
                let passed = length <= *expected;
                let mut failure_message = debug_string(collection);
                failure_message.append(" should have at most length ");
                failure_message.append(debug_string(expected).as_str());
                let mut negated_failure_message = debug_string(collection);
                negated_failure_message.append(" should not have at most length ");
                negated_failure_message.append(debug_string(expected).as_str());
                MatcherResult::formatted(passed, failure_message, negated_failure_message)
            },
        }
    }
}

impl<T: core::fmt::Debug> Matcher<Vec<T>> for LengthMatcher {
    open spec fn obeys_matches_spec(&self) -> bool {
        true
    }

    open spec fn matches(&self, value: &Vec<T>) -> bool {
        self.matches_length(value@.len())
    }

    fn test(&self, value: &Vec<T>) -> (result: MatcherResult) {
        self.test(value.as_slice())
    }
}

impl<T: core::fmt::Debug, const N: usize> Matcher<[T; N]> for LengthMatcher {
    open spec fn obeys_matches_spec(&self) -> bool {
        true
    }

    open spec fn matches(&self, value: &[T; N]) -> bool {
        self.matches_length(value@.len())
    }

    fn test(&self, value: &[T; N]) -> (result: MatcherResult) {
        self.test(value.as_slice())
    }
}

impl<T: core::fmt::Debug> Matcher<&[T]> for LengthMatcher {
    open spec fn obeys_matches_spec(&self) -> bool {
        true
    }

    open spec fn matches(&self, value: &&[T]) -> bool {
        self.matches_length(value@.len())
    }

    fn test(&self, value: &&[T]) -> (result: MatcherResult) {
        self.test(*value)
    }
}

/// have_same_length creates a matcher that accepts a collection exactly when
/// it holds the given number of elements.
pub fn have_same_length(length: usize) -> (matcher: LengthMatcher)
    ensures
        matcher == LengthMatcher::Same(length),
{
    LengthMatcher::Same(length)
}

/// have_atleast_same_length creates a matcher that accepts a collection
/// exactly when it holds at least the given number of elements.
pub fn have_atleast_same_length(length: usize) -> (matcher: LengthMatcher)
    ensures
        matcher == LengthMatcher::Atleast(length),
{
    LengthMatcher::Atleast(length)
}

/// have_atmost_same_length creates a matcher that accepts a collection
/// exactly when it holds at most the given number of elements.
pub fn have_atmost_same_length(length: usize) -> (matcher: LengthMatcher)
    ensures
        matcher == LengthMatcher::Atmost(length),
{
    LengthMatcher::Atmost(length)
}

} // verus!
