use clearcheck::assertions::membership::MembershipAssertion;

#[test]
fn contain_should_contain() {
    let collection = vec!["junit", "assert4j", "catch2"];
    assert!(collection.should_contain(&"assert4j").is_ok());
}

#[test]
fn contain_should_contain_but_was_not_contained() {
    let collection = vec!["junit", "assert4j", "catch2"];
    assert!(collection.should_contain(&"catch").is_err());
}

#[test]
fn contain_should_not_contain() {
    let collection = vec!["junit", "assert4j", "catch2"];
    assert!(collection.should_not_contain(&"catch").is_ok());
}

#[test]
fn contain_should_not_contain_but_was_contained() {
    let collection = vec!["junit", "assert4j", "catch2"];
    assert!(collection.should_not_contain(&"catch2").is_err());
}
