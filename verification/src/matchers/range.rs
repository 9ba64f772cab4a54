use vstd::prelude::*;
use vstd::std_specs::cmp::PartialOrdIs;
use vstd::std_specs::cmp::PartialOrdSpec;
use vstd::std_specs::range::ContainsSpec;
use vstd::string::StringExecFns;

use crate::matchers::debug_string;
use crate::matchers::Matcher;
use crate::matchers::MatcherResult;

verus! {

/// RangeMatcher checks a value for membership in an inclusive or an exclusive
/// range. Inclusive membership means `low <= value <= high`; exclusive
/// membership means `low <= value < high`.
pub enum RangeMatcher<'a, T: PartialOrd + core::fmt::Debug> {
    Inclusive(&'a core::ops::RangeInclusive<T>),
    Exclusive(&'a core::ops::Range<T>),
}

impl<'a, T: PartialOrd + core::fmt::Debug> Matcher<T> for RangeMatcher<'a, T> {
    open spec fn obeys_matches_spec(&self) -> bool {
        T::obeys_partial_cmp_spec()
    }

    open spec fn matches(&self, value: &T) -> bool {
        match self {
            RangeMatcher::Inclusive(range) => range.contains_spec(value),
            RangeMatcher::Exclusive(range) => range.contains_spec(value),
        }
    }

    fn test(&self, value: &T) -> (result: MatcherResult) {
        match self {
            RangeMatcher::Inclusive(range) => {
                let passed = range.contains(value);
                let mut failure_message = debug_string(value);
                failure_message.append(" should fall in range ");
                failure_message.append(debug_string(*range).as_str());
                let mut negated_failure_message = debug_string(value);
                negated_failure_message.append(" should not fall in range ");
                negated_failure_message.append(debug_string(*range).as_str());
                MatcherResult::formatted(passed, failure_message, negated_failure_message)
            },
            RangeMatcher::Exclusive(range) => {
                let passed = range.contains(value);
                let mut failure_message = debug_string(value);
                failure_message.append(" should fall in range ");
                failure_message.append(debug_string(*range).as_str());
                let mut negated_failure_message = debug_string(value);
                negated_failure_message.append(" should not fall in range ");
                negated_failure_message.append(debug_string(*range).as_str());
                MatcherResult::formatted(passed, failure_message, negated_failure_message)
            },
        }
    }
}

/// Membership in an inclusive range that iteration has not exhausted holds
/// exactly when the value lies between the two ends of the range: the low
/// end is less than or equal to the value and the value is less than or
/// equal to the high end.
pub proof fn lemma_inclusive_range_membership<T: PartialOrd>(
    range: core::ops::RangeInclusive<T>,
    value: T,
)
    requires
        !range@.exhausted,
    ensures
        range.contains_spec(&value) <==> (range@.start.is_le(&value) && value.is_le(
            &range@.end,
        )),
{
}

/// Membership in a half-open range holds exactly when the value lies at or
/// above the low end and strictly below the high end.
pub proof fn lemma_exclusive_range_membership<T: PartialOrd>(
    range: core::ops::Range<T>,
    value: T,
)
    ensures
        range.contains_spec(&value) <==> (range.start.is_le(&value) && value.is_lt(&range.end)),
{
}

/// be_in_inclusive_range creates a matcher that accepts a value exactly when
/// the inclusive range contains it.
pub fn be_in_inclusive_range<'a, T: PartialOrd + core::fmt::Debug>(
    range: &'a core::ops::RangeInclusive<T>,
) -> (matcher: RangeMatcher<'a, T>)
    ensures
        matcher == RangeMatcher::Inclusive(range),
{
    RangeMatcher::Inclusive(range)
}

/// be_in_exclusive_range creates a matcher that accepts a value exactly when
/// the half-open range contains it.
pub fn be_in_exclusive_range<'a, T: PartialOrd + core::fmt::Debug>(
    range: &'a core::ops::Range<T>,
) -> (matcher: RangeMatcher<'a, T>)
    ensures
        matcher == RangeMatcher::Exclusive(range),
{
    RangeMatcher::Exclusive(range)
}

/// have_length_in_inclusive_range creates a matcher that accepts an element
/// count exactly when the inclusive range contains it.
pub fn have_length_in_inclusive_range<'a>(range: &'a core::ops::RangeInclusive<usize>) -> (matcher:
    RangeMatcher<'a, usize>)
    ensures
        matcher == RangeMatcher::Inclusive(range),
{
    RangeMatcher::Inclusive(range)
}

/// have_length_in_exclusive_range creates a matcher that accepts an element
/// count exactly when the half-open range contains it.
pub fn have_length_in_exclusive_range<'a>(range: &'a core::ops::Range<usize>) -> (matcher:
    RangeMatcher<'a, usize>)
    ensures
        matcher == RangeMatcher::Exclusive(range),
{
    RangeMatcher::Exclusive(range)
}

} // verus!
