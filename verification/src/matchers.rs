pub mod bound;
pub mod compose;
pub mod empty;
pub mod file;
pub mod length;
pub mod membership;
pub mod ordered;
pub mod range;

use vstd::prelude::*;
use vstd::string::StringExecFns;

verus! {

/// Relies on core::fmt's Debug formatting, reached through the format!
/// macro: renders a value the way the `{:?}` placeholder does. Nothing is
/// assumed of the rendered text.
#[verifier::external_body]
pub(crate) fn debug_string<T: core::fmt::Debug + ?Sized>(value: &T) -> String {
    format!("{:?}", value)
}

/// Matcher is the capability every concrete check implements: a pure test of
/// one value that yields a MatcherResult.
///
/// `matches` is the mathematical predicate the matcher decides, and
/// `obeys_matches_spec` says whether that predicate faithfully describes what
/// `test` computes. For matchers whose outcome rests on comparison traits the
/// flag follows the comparison's own spec obligations; for matchers whose
/// outcome rests on the environment (the filesystem) the flag is false and
/// nothing is promised of the pass flag.
pub trait Matcher<T> {
    /// Whether `matches` faithfully describes the outcome of `test`.
    spec fn obeys_matches_spec(&self) -> bool;

    /// The predicate this matcher decides.
    spec fn matches(&self, value: &T) -> bool;

    /// Runs the check against one value.
    fn test(&self, value: &T) -> (result: MatcherResult)
        ensures
            self.obeys_matches_spec() ==> result.spec_passed() == self.matches(value),
    ;
}

/// MatcherResult is the outcome of one matcher run: a pass flag together with
/// the two pre-rendered messages, one for a failed positive assertion and one
/// for a negative assertion that unexpectedly succeeded.
pub struct MatcherResult {
    passed: bool,
    failure_message: String,
    negated_failure_message: String,
}

impl MatcherResult {
    /// The pass flag of this result.
    pub closed spec fn spec_passed(&self) -> bool {
        self.passed
    }

    /// The message shown when a positive assertion fails.
    pub closed spec fn failure_message_text(&self) -> Seq<char> {
        self.failure_message@
    }

    /// The message shown when a negative assertion unexpectedly succeeds.
    pub closed spec fn negated_failure_message_text(&self) -> Seq<char> {
        self.negated_failure_message@
    }

    /// new creates a MatcherResult from string literals.
    pub fn new(
        passed: bool,
        failure_message: &'static str,
        negated_failure_message: &'static str,
    ) -> (result: MatcherResult)
        ensures
            result.spec_passed() == passed,
            result.failure_message_text() == failure_message@,
            result.negated_failure_message_text() == negated_failure_message@,
    {
        MatcherResult::formatted(
            passed,
            String::from_str(failure_message),
            String::from_str(negated_failure_message),
        )
    }

    /// formatted creates a MatcherResult from already formatted messages.
    pub fn formatted(
        passed: bool,
        failure_message: String,
        negated_failure_message: String,
    ) -> (result: MatcherResult)
        ensures
            result.spec_passed() == passed,
            result.failure_message_text() == failure_message@,
            result.negated_failure_message_text() == negated_failure_message@,
    {
        MatcherResult { passed, failure_message, negated_failure_message }
    }

    /// passed reports whether the matcher accepted the value.
    pub fn passed(&self) -> (passed: bool)
        ensures
            passed == self.spec_passed(),
    {
        self.passed
    }

    /// The stored failure message.
    pub fn failure_message(&self) -> (message: &String)
        ensures
            message@ == self.failure_message_text(),
    {
        &self.failure_message
    }

    /// The stored negated failure message.
    pub fn negated_failure_message(&self) -> (message: &String)
        ensures
            message@ == self.negated_failure_message_text(),
    {
        &self.negated_failure_message
    }
}

/// AssertionFailure carries the message of one failed assertion. A failed
/// assertion is never recovered from: callers are expected to propagate it to
/// the test harness at once.
pub struct AssertionFailure {
    message: String,
}

impl AssertionFailure {
    /// The carried message.
    pub closed spec fn message_text(&self) -> Seq<char> {
        self.message@
    }

    /// message returns the human-readable description of the failure.
    pub fn message(&self) -> (message: &String)
        ensures
            message@ == self.message_text(),
    {
        &self.message
    }
}

/// Should provides the positive assertion entry point: the value should meet
/// the matcher's condition.
pub trait Should<M>: Sized where M: Matcher<Self> {
    /// Runs the matcher against the value itself. The outcome is an
    /// AssertionFailure carrying the matcher's failure message exactly when
    /// the matcher rejected the value.
    fn should(&self, matcher: &M) -> (outcome: Result<(), AssertionFailure>)
        ensures
            matcher.obeys_matches_spec() ==> ((outcome is Ok) <==> matcher.matches(self)),
    ;
}

/// ShouldNot provides the negative assertion entry point: the value should
/// not meet the matcher's condition.
pub trait ShouldNot<M>: Sized where M: Matcher<Self> {
    /// Runs the matcher against the value itself and inverts the outcome. The
    /// outcome is an AssertionFailure carrying the matcher's negated failure
    /// message exactly when the matcher accepted the value.
    fn should_not(&self, matcher: &M) -> (outcome: Result<(), AssertionFailure>)
        ensures
            matcher.obeys_matches_spec() ==> ((outcome is Ok) <==> !matcher.matches(self)),
    ;
}

impl<T, M: Matcher<T>> Should<M> for T {
    fn should(&self, matcher: &M) -> (outcome: Result<(), AssertionFailure>)
        ensures
            matcher.obeys_matches_spec() ==> ((outcome is Ok) <==> matcher.matches(self)),
    {
        let matcher_result = matcher.test(self);
        if !matcher_result.passed {
            Err(AssertionFailure { message: matcher_result.failure_message })
        } else {
            Ok(())
        }
    }
}

impl<T, M: Matcher<T>> ShouldNot<M> for T {
    fn should_not(&self, matcher: &M) -> (outcome: Result<(), AssertionFailure>)
        ensures
            matcher.obeys_matches_spec() ==> ((outcome is Ok) <==> !matcher.matches(self)),
    {
        let matcher_result = matcher.test(self);
        let passed = !matcher_result.passed;
        if !passed {
            Err(AssertionFailure { message: matcher_result.negated_failure_message })
        } else {
            Ok(())
        }
    }
}

/// The two dispatch polarities are logical complements: for a matcher whose
/// predicate is faithful, outcomes that meet the contracts of `should` and
/// `should_not` on one value disagree on failure — there is no value for
/// which both fail or neither fails.
pub proof fn lemma_should_and_should_not_are_complements<T, M: Matcher<T>>(
    matcher: &M,
    value: &T,
    positive: Result<(), AssertionFailure>,
    negative: Result<(), AssertionFailure>,
)
    requires
        matcher.obeys_matches_spec(),
        (positive is Ok) <==> matcher.matches(value),
        (negative is Ok) <==> !matcher.matches(value),
    ensures
        (positive is Err) <==> !(negative is Err),
{
}

/// A matcher run is deterministic: any two results that meet the contract of
/// `test` on the same matcher and value carry the same pass flag.
pub proof fn lemma_test_is_deterministic<T, M: Matcher<T>>(
    matcher: &M,
    value: &T,
    first: MatcherResult,
    second: MatcherResult,
)
    requires
        matcher.obeys_matches_spec(),
        first.spec_passed() == matcher.matches(value),
        second.spec_passed() == matcher.matches(value),
    ensures
        first.spec_passed() == second.spec_passed(),
{
}

/// BoxWrap moves a matcher onto the heap so that composed matchers can own
/// their children behind one indirection.
pub trait BoxWrap<W>: Matcher<W> + Sized {
    /// Wraps the matcher into a Box without changing what it decides.
    fn boxed(self) -> (boxed: Box<Self>)
        ensures
            *boxed == self,
    ;
}

impl<W, M: Matcher<W>> BoxWrap<W> for M {
    fn boxed(self) -> (boxed: Box<Self>)
        ensures
            *boxed == self,
    {
        Box::new(self)
    }
}

/// A boxed matcher decides exactly what the matcher inside decides.
impl<W, M: Matcher<W>> Matcher<W> for Box<M> {
    open spec fn obeys_matches_spec(&self) -> bool {
        (**self).obeys_matches_spec()
    }

    open spec fn matches(&self, value: &W) -> bool {
        (**self).matches(value)
    }

    fn test(&self, value: &W) -> (result: MatcherResult)
        ensures
            self.obeys_matches_spec() ==> result.spec_passed() == self.matches(value),
    {
        (**self).test(value)
    }
}

} // verus!
