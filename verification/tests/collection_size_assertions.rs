use clearcheck::assertions::size::SizeAssertions;

#[test]
fn should_have_size_as_2() {
    let collection = vec!["junit", "testify"];
    assert!(collection.should_have_size(2).is_ok());
}

#[test]
fn should_have_size_as_3_but_was_not() {
    let collection = vec!["junit", "testify"];
    assert!(collection.should_have_size(3).is_err());
}

#[test]
fn should_not_have_size_as_3() {
    let collection = vec!["junit", "testify"];
    assert!(collection.should_not_have_size(3).is_ok());
}

#[test]
fn should_not_have_size_as_2_but_was() {
    let collection = vec!["junit", "testify"];
    assert!(collection.should_not_have_size(2).is_err());
}

#[test]
fn should_have_at_least_size_3() {
    let collection = vec!["junit", "testify", "catch2"];
    assert!(collection.should_have_at_least_size(3).is_ok());
}

#[test]
fn should_have_at_least_size_4_but_was_not() {
    let collection = vec!["junit", "testify", "catch2"];
    assert!(collection.should_have_at_least_size(4).is_err());
}

#[test]
fn should_have_at_most_size_3() {
    let collection = vec!["junit", "testify", "catch2"];
    assert!(collection.should_have_at_most_size(3).is_ok());
}

#[test]
fn should_have_at_most_size_2_but_was_not() {
    let collection = vec!["junit", "testify", "catch2"];
    assert!(collection.should_have_at_most_size(2).is_err());
}

#[test]
fn should_be_same_size_as_other() {
    let collection = vec!["junit", "testify", "catch2"];
    assert!(collection.should_be_same_size_as(&[1, 2, 3]).is_ok());
}

#[test]
fn should_be_same_size_as_other_but_was_not() {
    let collection = vec!["junit", "testify"];
    assert!(collection.should_be_same_size_as(&[1, 2, 3]).is_err());
}

#[test]
fn should_have_size_in_the_inclusive_range() {
    let collection = vec!["junit", "testify"];
    assert!(collection.should_have_size_in_inclusive_range(2..=8).is_ok());
}

#[test]
fn should_have_size_in_the_inclusive_range_but_was_not() {
    let collection = vec!["junit", "testify"];
    assert!(collection.should_have_size_in_inclusive_range(3..=4).is_err());
}

#[test]
fn should_not_have_size_in_the_inclusive_range() {
    let collection = vec!["junit", "testify"];
    assert!(collection.should_not_have_size_in_inclusive_range(3..=4).is_ok());
}

#[test]
fn should_not_have_size_in_the_inclusive_range_but_was() {
    let collection = vec!["junit", "testify"];
    assert!(collection.should_not_have_size_in_inclusive_range(1..=2).is_err());
}

#[test]
fn should_have_size_in_the_exclusive_range() {
    let collection = vec!["junit", "testify"];
    assert!(collection.should_have_size_in_exclusive_range(1..3).is_ok());
}

#[test]
fn should_have_size_in_the_range_but_was_not() {
    let collection = vec!["junit", "testify"];
    assert!(collection.should_have_size_in_exclusive_range(3..8).is_err());
}

#[test]
fn should_not_have_size_in_the_exclusive_range() {
    let collection = vec!["junit", "testify"];
    assert!(collection.should_not_have_size_in_exclusive_range(3..4).is_ok());
}

#[test]
fn should_not_have_size_in_the_exclusive_range_but_was() {
    let collection = vec!["junit", "testify"];
    assert!(collection.should_not_have_size_in_exclusive_range(1..9).is_err());
}
