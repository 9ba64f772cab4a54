use clearcheck::matchers::bound::{have_lower_bound, have_upper_bound};
use clearcheck::matchers::Matcher;

#[test]
fn bound_should_have_an_upper_bound() {
    let matcher = have_upper_bound(4);
    let collection = vec![1, 2, 3, 4];

    assert!(matcher.test(&collection).passed());
}

#[test]
fn bound_should_have_an_upper_bound_but_was_not() {
    let matcher = have_upper_bound(3);
    let collection = vec![1, 2, 3, 4];

    assert!(!matcher.test(&collection).passed());
}

#[test]
fn bound_should_have_a_lower_bound() {
    let matcher = have_lower_bound(1);
    let collection = vec![1, 2, 3, 4];

    assert!(matcher.test(&collection).passed());
}

#[test]
fn bound_should_have_a_lower_bound_but_was_not() {
    let matcher = have_lower_bound(3);
    let collection = vec![1, 2, 3, 4];

    assert!(!matcher.test(&collection).passed());
}

#[test]
fn bound_matcher_failure_message_names_the_collection_and_the_bound() {
    let matcher = have_upper_bound(3);
    let collection = vec![1, 2, 3, 4];

    let result = matcher.test(&collection);
    assert!(!result.passed());
    assert!(result.failure_message().contains("[1, 2, 3, 4]"));
    assert!(result.failure_message().contains("upper bound 3"));
}
