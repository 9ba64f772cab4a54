//! A fluent assertion library for test suites, with verified matchers.
//!
//! Every check is a [`matchers::Matcher`]: a pure test of one value that
//! yields a [`matchers::MatcherResult`] carrying a pass flag and two
//! pre-rendered messages. The [`matchers::Should`] and
//! [`matchers::ShouldNot`] capabilities dispatch any matcher against any
//! value of the matching type and report failure as a value that callers
//! propagate at once. The traits under [`assertions`] wrap the matcher
//! catalogue into readable calls such as `collection.should_contain(..)`.

pub mod assertions;
pub mod matchers;
