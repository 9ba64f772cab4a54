use vstd::prelude::*;
use vstd::string::StringExecFns;

use crate::matchers::bound::BoundMatcher;
use crate::matchers::empty::EmptyMatcher;
use crate::matchers::length::LengthMatcher;
use crate::matchers::membership::MembershipMatcher;
use crate::matchers::Matcher;
use crate::matchers::MatcherResult;

verus! {

/// CollectionMatcher erases the concrete type of the collection matchers
/// into one tagged union, so that checks of different kinds can be stored in
/// one sequence and combined by a [`CompositeMatcher`].
pub enum CollectionMatcher<'a, T: PartialOrd + PartialEq + core::fmt::Debug> {
    Bound(BoundMatcher<T>),
    Length(LengthMatcher),
    Membership(MembershipMatcher<'a, T>),
    Empty(EmptyMatcher),
}

/// A tagged collection matcher decides exactly what the matcher inside
/// decides.
impl<'a, T: PartialOrd + PartialEq + core::fmt::Debug> Matcher<Vec<T>> for CollectionMatcher<
    'a,
    T,
> {
    open spec fn obeys_matches_spec(&self) -> bool {
        match self {
            CollectionMatcher::Bound(matcher) => <BoundMatcher<T> as Matcher<Vec<T>>>::obeys_matches_spec(
                matcher,
            ),
            CollectionMatcher::Length(matcher) => <LengthMatcher as Matcher<Vec<T>>>::obeys_matches_spec(
                matcher,
            ),
            CollectionMatcher::Membership(matcher) => <MembershipMatcher<'a, T> as Matcher<
                Vec<T>,
            >>::obeys_matches_spec(matcher),
            CollectionMatcher::Empty(matcher) => <EmptyMatcher as Matcher<Vec<T>>>::obeys_matches_spec(
                matcher,
            ),
        }
    }

    open spec fn matches(&self, value: &Vec<T>) -> bool {
        match self {
            CollectionMatcher::Bound(matcher) => <BoundMatcher<T> as Matcher<Vec<T>>>::matches(
                matcher,
                value,
            ),
            CollectionMatcher::Length(matcher) => <LengthMatcher as Matcher<Vec<T>>>::matches(
                matcher,
                value,
            ),
            CollectionMatcher::Membership(matcher) => <MembershipMatcher<'a, T> as Matcher<
                Vec<T>,
            >>::matches(matcher, value),
            CollectionMatcher::Empty(matcher) => <EmptyMatcher as Matcher<Vec<T>>>::matches(
                matcher,
                value,
            ),
        }
    }

    fn test(&self, value: &Vec<T>) -> (result: MatcherResult) {
        match self {
            CollectionMatcher::Bound(matcher) => <BoundMatcher<T> as Matcher<Vec<T>>>::test(
                matcher,
                value,
            ),
            CollectionMatcher::Length(matcher) => <LengthMatcher as Matcher<Vec<T>>>::test(
                matcher,
                value,
            ),
            CollectionMatcher::Membership(matcher) => <MembershipMatcher<'a, T> as Matcher<
                Vec<T>,
            >>::test(matcher, value),
            CollectionMatcher::Empty(matcher) => <EmptyMatcher as Matcher<Vec<T>>>::test(
                matcher,
                value,
            ),
        }
    }
}

/// CompositeMatcher folds the outcomes of a sequence of matchers over one
/// value under a logical operator. A combination of no matchers is vacuously
/// true under AllOf and false under AnyOf: that polarity is deliberate and
/// part of the contract, mirroring the quantifier each operator stands for.
pub enum CompositeMatcher<M> {
    AllOf(Vec<M>),
    AnyOf(Vec<M>),
}

impl<T, M: Matcher<T>> Matcher<T> for CompositeMatcher<M> {
    open spec fn obeys_matches_spec(&self) -> bool {
        match self {
            CompositeMatcher::AllOf(matchers) => forall|i: int|
                #![trigger matchers@[i]]
                0 <= i < matchers@.len() ==> matchers@[i].obeys_matches_spec(),
            CompositeMatcher::AnyOf(matchers) => forall|i: int|
                #![trigger matchers@[i]]
                0 <= i < matchers@.len() ==> matchers@[i].obeys_matches_spec(),
        }
    }

    open spec fn matches(&self, value: &T) -> bool {
        match self {
            CompositeMatcher::AllOf(matchers) => forall|i: int|
                #![trigger matchers@[i]]
                0 <= i < matchers@.len() ==> matchers@[i].matches(value),
            CompositeMatcher::AnyOf(matchers) => exists|i: int|
                #![trigger matchers@[i]]
                0 <= i < matchers@.len() && matchers@[i].matches(value),
        }
    }

    fn test(&self, value: &T) -> (result: MatcherResult) {
        match self {
            CompositeMatcher::AllOf(matchers) => {
                let mut all_passed = true;
                let mut failure_message = String::new();
                let mut negated_failure_message = String::new();
                let mut index: usize = 0;
                while index < matchers.len()
                    invariant
                        index <= matchers@.len(),
                        (forall|i: int|
                            #![trigger matchers@[i]]
                            0 <= i < matchers@.len() ==> matchers@[i].obeys_matches_spec()) ==> (
                        all_passed <==> (forall|j: int|
                            #![trigger matchers@[j]]
                            0 <= j < index ==> matchers@[j].matches(value))),
                    decreases matchers@.len() - index,
                {
                    let child_result = matchers[index].test(value);
                    if !child_result.passed() {
                        if !all_passed {
                            failure_message.append("; ");
                        }
                        all_passed = false;
                        failure_message.append(child_result.failure_message().as_str());
                    }
                    if index > 0 {
                        negated_failure_message.append("; ");
                    }
                    negated_failure_message.append(child_result.negated_failure_message().as_str());
                    index += 1;
                }
                MatcherResult::formatted(all_passed, failure_message, negated_failure_message)
            },
            CompositeMatcher::AnyOf(matchers) => {
                let mut any_passed = false;
                let mut any_failed = false;
                let mut failure_message = String::new();
                let mut negated_failure_message = String::new();
                let mut index: usize = 0;
                while index < matchers.len()
                    invariant
                        index <= matchers@.len(),
                        (forall|i: int|
                            #![trigger matchers@[i]]
                            0 <= i < matchers@.len() ==> matchers@[i].obeys_matches_spec()) ==> (
                        any_passed <==> (exists|j: int|
                            #![trigger matchers@[j]]
                            0 <= j < index && matchers@[j].matches(value))),
                    decreases matchers@.len() - index,
                {
                    let child_result = matchers[index].test(value);
                    if child_result.passed() {
                        if any_passed {
                            negated_failure_message.append("; ");
                        }
                        any_passed = true;
                        negated_failure_message.append(
                            child_result.negated_failure_message().as_str(),
                        );
                    } else {
                        if any_failed {
                            failure_message.append("; ");
                        }
                        any_failed = true;
                        failure_message.append(child_result.failure_message().as_str());
                    }
                    index += 1;
                }
                MatcherResult::formatted(any_passed, failure_message, negated_failure_message)
            },
        }
    }
}

/// all_of creates a matcher that accepts a value exactly when every combined
/// matcher accepts it; with no matchers it accepts every value.
pub fn all_of<M>(matchers: Vec<M>) -> (matcher: CompositeMatcher<M>)
    ensures
        matcher == CompositeMatcher::AllOf(matchers),
{
    CompositeMatcher::AllOf(matchers)
}

/// any_of creates a matcher that accepts a value exactly when at least one
/// combined matcher accepts it; with no matchers it rejects every value.
pub fn any_of<M>(matchers: Vec<M>) -> (matcher: CompositeMatcher<M>)
    ensures
        matcher == CompositeMatcher::AnyOf(matchers),
{
    CompositeMatcher::AnyOf(matchers)
}

/// A combination of no matchers is vacuously true under AllOf and false
/// under AnyOf, whatever the value.
pub proof fn lemma_empty_composite_polarity<T, M: Matcher<T>>(matchers: Vec<M>, value: &T)
    requires
        matchers@.len() == 0,
    ensures
        CompositeMatcher::AllOf(matchers).matches(value),
        !CompositeMatcher::AnyOf(matchers).matches(value),
{
}

} // verus!
