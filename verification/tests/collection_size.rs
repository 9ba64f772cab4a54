use clearcheck::assertions::size::SizeAssertions;

#[test]
fn should_have_size() {
    let collection = vec!["junit", "testify"];
    assert!(collection.should_have_size(2).is_ok());
}

#[test]
fn should_have_size_but_was_not() {
    let collection = vec!["junit", "testify"];
    assert!(collection.should_have_size(3).is_err());
}

#[test]
fn should_not_have_size() {
    let collection = vec!["junit", "testify"];
    assert!(collection.should_not_have_size(3).is_ok());
}

#[test]
fn should_not_have_size_but_was() {
    let collection = vec!["junit", "testify"];
    assert!(collection.should_not_have_size(2).is_err());
}

#[test]
fn should_have_at_least_size() {
    let collection = vec!["junit", "testify", "catch2"];
    assert!(collection.should_have_at_least_size(3).is_ok());
}

#[test]
fn should_have_at_least_size_but_was_not() {
    let collection = vec!["junit", "testify", "catch2"];
    assert!(collection.should_have_at_least_size(4).is_err());
}

#[test]
fn should_have_at_most_size() {
    let collection = vec!["junit", "testify", "catch2"];
    assert!(collection.should_have_at_most_size(3).is_ok());
}

#[test]
fn should_have_at_most_size_but_was_not() {
    let collection = vec!["junit", "testify", "catch2"];
    assert!(collection.should_have_at_most_size(2).is_err());
}

#[test]
fn size_should_be_same_size_as_other() {
    let collection = vec!["junit", "testify", "catch2"];
    assert!(collection.should_be_same_size_as(&[1, 2, 3]).is_ok());
}

#[test]
fn size_should_be_same_size_as_other_but_was_not() {
    let collection = vec!["junit", "testify"];
    assert!(collection.should_be_same_size_as(&[1, 2, 3]).is_err());
}
