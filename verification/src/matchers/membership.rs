use vstd::prelude::*;
use vstd::std_specs::cmp::PartialEqIs;
use vstd::std_specs::cmp::PartialEqSpec;
use vstd::string::StringExecFns;

use crate::matchers::debug_string;
use crate::matchers::Matcher;
use crate::matchers::MatcherResult;

verus! {

/// Some element of the sequence equals the given element.
pub open spec fn spec_contains<T: PartialEq>(elements: Seq<T>, element: T) -> bool {
    exists|i: int| #![trigger elements[i]] 0 <= i < elements.len() && elements[i].is_eq(&element)
}

/// Every element of `others` is found in `elements` by equality. An empty
/// `others` satisfies this vacuously.
pub open spec fn spec_contains_all<T: PartialEq>(elements: Seq<T>, others: Seq<T>) -> bool {
    forall|j: int| #![trigger others[j]] 0 <= j < others.len() ==> spec_contains(
        elements,
        others[j],
    )
}

/// At least one element of `others` is found in `elements` by equality. An
/// empty `others` never satisfies this.
pub open spec fn spec_contains_any<T: PartialEq>(elements: Seq<T>, others: Seq<T>) -> bool {
    exists|j: int| #![trigger others[j]] 0 <= j < others.len() && spec_contains(
        elements,
        others[j],
    )
}

/// MembershipMatcher checks a collection for one element, for all of a set of
/// elements, or for any of a set of elements.
pub enum MembershipMatcher<'a, T: PartialEq + core::fmt::Debug> {
    Contain(&'a T),
    ContainAll(&'a [T]),
    ContainAny(&'a [T]),
}

/// The slice holds an element equal to the given one.
fn contains<T: PartialEq>(collection: &[T], element: &T) -> (result: bool)
    ensures
        T::obeys_eq_spec() ==> result == spec_contains(collection@, *element),
{
    let mut index: usize = 0;
    while index < collection.len()
        invariant
            index <= collection@.len(),
            T::obeys_eq_spec() ==> (forall|i: int|
                #![trigger collection@[i]]
                0 <= i < index ==> !collection@[i].is_eq(element)),
        decreases collection@.len() - index,
    {
        if collection[index].eq(element) {
            return true;
        }
        index += 1;
    }
    false
}

/// The slice holds an element equal to each of the given ones.
fn contains_all<T: PartialEq>(collection: &[T], elements: &[T]) -> (result: bool)
    ensures
        T::obeys_eq_spec() ==> result == spec_contains_all(collection@, elements@),
{
    let mut index: usize = 0;
    while index < elements.len()
        invariant
            index <= elements@.len(),
            T::obeys_eq_spec() ==> (forall|j: int|
                #![trigger elements@[j]]
                0 <= j < index ==> spec_contains(collection@, elements@[j])),
        decreases elements@.len() - index,
    {
        if !contains(collection, &elements[index]) {
            return false;
        }
        index += 1;
    }
    true
}

/// The slice holds an element equal to at least one of the given ones.
fn contains_any<T: PartialEq>(collection: &[T], elements: &[T]) -> (result: bool)
    ensures
        T::obeys_eq_spec() ==> result == spec_contains_any(collection@, elements@),
{
    let mut index: usize = 0;
    while index < elements.len()
        invariant
            index <= elements@.len(),
            T::obeys_eq_spec() ==> (forall|j: int|
                #![trigger elements@[j]]
                0 <= j < index ==> !spec_contains(collection@, elements@[j])),
        decreases elements@.len() - index,
    {
        if contains(collection, &elements[index]) {
            return true;
        }
        index += 1;
    }
    false
}

impl<'a, T: PartialEq + core::fmt::Debug> MembershipMatcher<'a, T> {
    /// The predicate this matcher decides over the elements of a collection.
    pub open spec fn matches_elements(&self, elements: Seq<T>) -> bool {
        match self {
            MembershipMatcher::Contain(element) => spec_contains(elements, **element),
            MembershipMatcher::ContainAll(others) => spec_contains_all(elements, others@),
            MembershipMatcher::ContainAny(others) => spec_contains_any(elements, others@),
        }
    }

    fn test(&self, collection: &[T]) -> (result: MatcherResult)
        ensures
            T::obeys_eq_spec() ==> result.spec_passed() == self.matches_elements(collection@),
    {
        match self {
            MembershipMatcher::Contain(element) => {
                let passed = contains(collection, element);
                let mut failure_message = debug_string(collection);
                failure_message.append(" should contain ");
                failure_message.append(debug_string(*element).as_str());
                let mut negated_failure_message = debug_string(collection);
                negated_failure_message.append(" should not contain ");
                negated_failure_message.append(debug_string(*element).as_str());
                MatcherResult::formatted(passed, failure_message, negated_failure_message)
            },
            MembershipMatcher::ContainAll(others) => {
                let passed = contains_all(collection, others);
                let mut failure_message = debug_string(collection);
                failure_message.append(" should contain all of ");
                failure_message.append(debug_string(*others).as_str());
                let mut negated_failure_message = debug_string(collection);
                negated_failure_message.append(" should not contain all of ");
                negated_failure_message.append(debug_string(*others).as_str());
                MatcherResult::formatted(passed, failure_message, negated_failure_message)
            },
            MembershipMatcher::ContainAny(others) => {
                let passed = contains_any(collection, others);
                let mut failure_message = debug_string(collection);
                failure_message.append(" should contain any of ");
                failure_message.append(debug_string(*others).as_str());
                let mut negated_failure_message = debug_string(collection);
                negated_failure_message.append(" should not contain any of ");
                negated_failure_message.append(debug_string(*others).as_str());
                MatcherResult::formatted(passed, failure_message, negated_failure_message)
            },
        }
    }
}

impl<'a, T: PartialEq + core::fmt::Debug> Matcher<Vec<T>> for MembershipMatcher<'a, T> {
    open spec fn obeys_matches_spec(&self) -> bool {
        T::obeys_eq_spec()
    }

    open spec fn matches(&self, value: &Vec<T>) -> bool {
        self.matches_elements(value@)
    }

    fn test(&self, value: &Vec<T>) -> (result: MatcherResult) {
        self.test(value.as_slice())
    }
}

impl<'a, T: PartialEq + core::fmt::Debug, const N: usize> Matcher<[T; N]> for MembershipMatcher<
    'a,
    T,
> {
    open spec fn obeys_matches_spec(&self) -> bool {
        T::obeys_eq_spec()
    }

    open spec fn matches(&self, value: &[T; N]) -> bool {
        self.matches_elements(value@)
    }

    fn test(&self, value: &[T; N]) -> (result: MatcherResult) {
        self.test(value.as_slice())
    }
}

impl<'a, T: PartialEq + core::fmt::Debug> Matcher<&[T]> for MembershipMatcher<'a, T> {
    open spec fn obeys_matches_spec(&self) -> bool {
        T::obeys_eq_spec()
    }

    open spec fn matches(&self, value: &&[T]) -> bool {
        self.matches_elements(value@)
    }

    fn test(&self, value: &&[T]) -> (result: MatcherResult) {
        self.test(*value)
    }
}

/// contain creates a matcher that accepts a collection exactly when some
/// element equals the given one.
pub fn contain<'a, T: PartialEq + core::fmt::Debug>(element: &'a T) -> (matcher: MembershipMatcher<
    'a,
    T,
>)
    ensures
        matcher == MembershipMatcher::Contain(element),
{
    MembershipMatcher::Contain(element)
}

/// contain_all creates a matcher that accepts a collection exactly when each
/// of the given elements is found in it by equality.
pub fn contain_all<'a, T: PartialEq + core::fmt::Debug>(elements: &'a [T]) -> (matcher:
    MembershipMatcher<'a, T>)
    ensures
        matcher == MembershipMatcher::ContainAll(elements),
{
    MembershipMatcher::ContainAll(elements)
}

/// contain_any creates a matcher that accepts a collection exactly when at
/// least one of the given elements is found in it by equality.
pub fn contain_any<'a, T: PartialEq + core::fmt::Debug>(elements: &'a [T]) -> (matcher:
    MembershipMatcher<'a, T>)
    ensures
        matcher == MembershipMatcher::ContainAny(elements),
{
    MembershipMatcher::ContainAny(elements)
}

} // verus!
