use vstd::prelude::*;
use vstd::std_specs::cmp::PartialOrdIs;
use vstd::std_specs::cmp::PartialOrdSpec;
use vstd::string::StringExecFns;

use crate::matchers::debug_string;
use crate::matchers::Matcher;
use crate::matchers::MatcherResult;

verus! {

/// Every element of the sequence is less than or equal to the bound. An empty
/// sequence satisfies this vacuously for any bound.
pub open spec fn spec_has_upper_bound<T: PartialOrd>(elements: Seq<T>, bound: T) -> bool {
    forall|i: int| #![trigger elements[i]] 0 <= i < elements.len() ==> elements[i].is_le(&bound)
}

/// Every element of the sequence is greater than or equal to the bound. An
/// empty sequence satisfies this vacuously for any bound.
pub open spec fn spec_has_lower_bound<T: PartialOrd>(elements: Seq<T>, bound: T) -> bool {
    forall|i: int| #![trigger elements[i]] 0 <= i < elements.len() ==> elements[i].is_ge(&bound)
}

/// BoundMatcher checks a collection against an upper or a lower bound.
pub enum BoundMatcher<T: PartialOrd + core::fmt::Debug> {
    Upper(T),
    Lower(T),
}

/// All elements of the slice are less than or equal to the bound.
fn all_le<T: PartialOrd>(collection: &[T], bound: &T) -> (result: bool)
    ensures
        T::obeys_partial_cmp_spec() ==> result == spec_has_upper_bound(collection@, *bound),
{
    let mut index: usize = 0;
    while index < collection.len()
        invariant
            index <= collection@.len(),
            T::obeys_partial_cmp_spec() ==> (forall|i: int|
                #![trigger collection@[i]]
                0 <= i < index ==> collection@[i].is_le(bound)),
        decreases collection@.len() - index,
    {
        if !collection[index].le(bound) {
            return false;
        }
        index += 1;
    }
    true
}

/// All elements of the slice are greater than or equal to the bound.
fn all_ge<T: PartialOrd>(collection: &[T], bound: &T) -> (result: bool)
    ensures
        T::obeys_partial_cmp_spec() ==> result == spec_has_lower_bound(collection@, *bound),
{
    let mut index: usize = 0;
    while index < collection.len()
        invariant
            index <= collection@.len(),
            T::obeys_partial_cmp_spec() ==> (forall|i: int|
                #![trigger collection@[i]]
                0 <= i < index ==> collection@[i].is_ge(bound)),
        decreases collection@.len() - index,
    {
        if !collection[index].ge(bound) {
            return false;
        }
        index += 1;
    }
    true
}

impl<T: PartialOrd + core::fmt::Debug> BoundMatcher<T> {
    /// The predicate this matcher decides over the elements of a collection.
    pub open spec fn matches_elements(&self, elements: Seq<T>) -> bool {
        match self {
            BoundMatcher::Upper(bound) => spec_has_upper_bound(elements, *bound),
            BoundMatcher::Lower(bound) => spec_has_lower_bound(elements, *bound),
        }
    }

    fn test(&self, collection: &[T]) -> (result: MatcherResult)
        ensures
            T::obeys_partial_cmp_spec() ==> result.spec_passed() == self.matches_elements(
                collection@,
            ),
    {
        match self {
            BoundMatcher::Upper(bound) => {
                let passed = all_le(collection, bound);
                let mut failure_message = debug_string(collection);
                failure_message.append(" should have upper bound ");
                failure_message.append(debug_string(bound).as_str());
                let mut negated_failure_message = debug_string(collection);
                negated_failure_message.append(" should not have upper bound ");
                negated_failure_message.append(debug_string(bound).as_str());
                MatcherResult::formatted(passed, failure_message, negated_failure_message)
            },
            BoundMatcher::Lower(bound) => {
                let passed = all_ge(collection, bound);
                let mut failure_message = debug_string(collection);
                failure_message.append(" should have lower bound ");
                failure_message.append(debug_string(bound).as_str());
                let mut negated_failure_message = debug_string(collection);
                negated_failure_message.append(" should not have lower bound ");
                negated_failure_message.append(debug_string(bound).as_str());
                MatcherResult::formatted(passed, failure_message, negated_failure_message)
            },
        }
    }
}

impl<T: PartialOrd + core::fmt::Debug> Matcher<Vec<T>> for BoundMatcher<T> {
    open spec fn obeys_matches_spec(&self) -> bool {
        T::obeys_partial_cmp_spec()
    }

    open spec fn matches(&self, value: &Vec<T>) -> bool {
        self.matches_elements(value@)
    }

    fn test(&self, value: &Vec<T>) -> (result: MatcherResult) {
        self.test(value.as_slice())
    }
}

impl<T: PartialOrd + core::fmt::Debug, const N: usize> Matcher<[T; N]> for BoundMatcher<T> {
    open spec fn obeys_matches_spec(&self) -> bool {
        T::obeys_partial_cmp_spec()
    }

    open spec fn matches(&self, value: &[T; N]) -> bool {
        self.matches_elements(value@)
    }

    fn test(&self, value: &[T; N]) -> (result: MatcherResult) {
        self.test(value.as_slice())
    }
}

impl<T: PartialOrd + core::fmt::Debug> Matcher<&[T]> for BoundMatcher<T> {
    open spec fn obeys_matches_spec(&self) -> bool {
        T::obeys_partial_cmp_spec()
    }

    open spec fn matches(&self, value: &&[T]) -> bool {
        self.matches_elements(value@)
    }

    fn test(&self, value: &&[T]) -> (result: MatcherResult) {
        self.test(*value)
    }
}

/// Runs a matcher that borrows its bound against a slice of owned elements,
/// so that an assertion on a collection can compare against an operand it
/// only borrows.
fn test_with_borrowed_bound<'a, T: PartialOrd + core::fmt::Debug>(
    matcher: &BoundMatcher<&'a T>,
    collection: &[T],
) -> (result: MatcherResult)
    ensures
        T::obeys_partial_cmp_spec() ==> (result.spec_passed() == (match *matcher {
            BoundMatcher::Upper(bound) => spec_has_upper_bound(collection@, *bound),
            BoundMatcher::Lower(bound) => spec_has_lower_bound(collection@, *bound),
        })),
{
    match matcher {
        BoundMatcher::Upper(bound) => {
            let passed = all_le(collection, *bound);
            let mut failure_message = debug_string(collection);
            failure_message.append(" should have upper bound ");
            failure_message.append(debug_string(*bound).as_str());
            let mut negated_failure_message = debug_string(collection);
            negated_failure_message.append(" should not have upper bound ");
            negated_failure_message.append(debug_string(*bound).as_str());
            MatcherResult::formatted(passed, failure_message, negated_failure_message)
        },
        BoundMatcher::Lower(bound) => {
            let passed = all_ge(collection, *bound);
            let mut failure_message = debug_string(collection);
            failure_message.append(" should have lower bound ");
            failure_message.append(debug_string(*bound).as_str());
            let mut negated_failure_message = debug_string(collection);
            negated_failure_message.append(" should not have lower bound ");
            negated_failure_message.append(debug_string(*bound).as_str());
            MatcherResult::formatted(passed, failure_message, negated_failure_message)
        },
    }
}

/// A matcher that borrows its bound decides the same predicate over a slice
/// of owned elements as an owning matcher would.
impl<'a, T: PartialOrd + core::fmt::Debug> Matcher<&[T]> for BoundMatcher<&'a T> {
    open spec fn obeys_matches_spec(&self) -> bool {
        T::obeys_partial_cmp_spec()
    }

    open spec fn matches(&self, value: &&[T]) -> bool {
        match *self {
            BoundMatcher::Upper(bound) => spec_has_upper_bound(value@, *bound),
            BoundMatcher::Lower(bound) => spec_has_lower_bound(value@, *bound),
        }
    }

    fn test(&self, value: &&[T]) -> (result: MatcherResult) {
        test_with_borrowed_bound(self, *value)
    }
}

/// The predicates are vacuously true of an empty collection: any bound is
/// both an upper and a lower bound of a collection without elements.
pub proof fn lemma_empty_collection_satisfies_any_bound<T: PartialOrd>(bound: T)
    ensures
        spec_has_upper_bound(Seq::<T>::empty(), bound),
        spec_has_lower_bound(Seq::<T>::empty(), bound),
{
}

/// have_upper_bound creates a matcher that accepts a collection exactly when
/// every element is less than or equal to the given bound.
pub fn have_upper_bound<T: PartialOrd + core::fmt::Debug>(bound: T) -> (matcher: BoundMatcher<T>)
    ensures
        matcher == BoundMatcher::Upper(bound),
{
    BoundMatcher::Upper(bound)
}

/// have_lower_bound creates a matcher that accepts a collection exactly when
/// every element is greater than or equal to the given bound.
pub fn have_lower_bound<T: PartialOrd + core::fmt::Debug>(bound: T) -> (matcher: BoundMatcher<T>)
    ensures
        matcher == BoundMatcher::Lower(bound),
{
    BoundMatcher::Lower(bound)
}

} // verus!
