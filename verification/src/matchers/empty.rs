use vstd::prelude::*;
use vstd::string::StringExecFns;

use crate::matchers::debug_string;
use crate::matchers::Matcher;
use crate::matchers::MatcherResult;

verus! {

/// EmptyMatcher checks that a collection holds no elements.
pub struct EmptyMatcher;

impl EmptyMatcher {
    fn test<T: core::fmt::Debug>(&self, collection: &[T]) -> (result: MatcherResult)
        ensures
            result.spec_passed() == (collection@.len() == 0),
    {
        let passed = collection.len() == 0;
        let mut failure_message = debug_string(collection);
        failure_message.append(" should be empty");
        let mut negated_failure_message = debug_string(collection);
        negated_failure_message.append(" should not be empty");
        MatcherResult::formatted(passed, failure_message, negated_failure_message)
    }
}

impl<T: core::fmt::Debug> Matcher<Vec<T>> for EmptyMatcher {
    open spec fn obeys_matches_spec(&self) -> bool {
        true
    }

    open spec fn matches(&self, value: &Vec<T>) -> bool {
        value@.len() == 0
    }

    fn test(&self, value: &Vec<T>) -> (result: MatcherResult) {
        self.test(value.as_slice())
    }
}

impl<T: core::fmt::Debug, const N: usize> Matcher<[T; N]> for EmptyMatcher {
    open spec fn obeys_matches_spec(&self) -> bool {
        true
    }

    open spec fn matches(&self, value: &[T; N]) -> bool {
        value@.len() == 0
    }

    fn test(&self, value: &[T; N]) -> (result: MatcherResult) {
        self.test(value.as_slice())
    }
}

impl<T: core::fmt::Debug> Matcher<&[T]> for EmptyMatcher {
    open spec fn obeys_matches_spec(&self) -> bool {
        true
    }

    open spec fn matches(&self, value: &&[T]) -> bool {
        value@.len() == 0
    }

    fn test(&self, value: &&[T]) -> (result: MatcherResult) {
        self.test(*value)
    }
}

/// be_empty creates a matcher that accepts a collection exactly when it holds
/// no elements.
pub fn be_empty() -> (matcher: EmptyMatcher)
    ensures
        matcher == EmptyMatcher,
{
    EmptyMatcher
}

} // verus!
