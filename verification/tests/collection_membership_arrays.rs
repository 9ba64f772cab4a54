use clearcheck::assertions::membership::MembershipAssertion;

#[test]
fn membership_should_contain() {
    let collection = ["junit", "assert4j", "catch2"];
    assert!(collection.should_contain(&"assert4j").is_ok());
}

#[test]
fn membership_should_contain_but_was_not_contained() {
    let collection = ["junit", "assert4j", "catch2"];
    assert!(collection.should_contain(&"catch").is_err());
}

#[test]
fn membership_should_not_contain() {
    let collection = ["junit", "assert4j", "catch2"];
    assert!(collection.should_not_contain(&"catch").is_ok());
}

#[test]
fn membership_should_not_contain_but_was_contained() {
    let collection = ["junit", "assert4j", "catch2"];
    assert!(collection.should_not_contain(&"catch2").is_err());
}

#[test]
fn membership_should_be_empty_but_was_not() {
    let collection = ["junit", "testify"];
    assert!(collection.should_be_empty().is_err());
}

#[test]
fn membership_should_be_empty() {
    let collection: [i32; 0] = [];
    assert!(collection.should_be_empty().is_ok());
}

#[test]
fn membership_should_not_be_empty_but_was() {
    let collection: [i32; 0] = [];
    assert!(collection.should_not_be_empty().is_err());
}

#[test]
fn membership_should_not_be_empty() {
    let collection = ["junit", "testify"];
    assert!(collection.should_not_be_empty().is_ok());
}

#[test]
fn membership_should_contain_all() {
    let collection = ["junit", "assert4j", "catch2"];
    let to_be_contained = ["assert4j", "junit"];
    assert!(collection.should_contain_all(&to_be_contained).is_ok());
}

#[test]
fn membership_should_contain_all_but_was_not_contained() {
    let collection = ["junit", "assert4j", "catch2"];
    let to_be_contained = ["assert4j", "xunit"];
    assert!(collection.should_contain_all(&to_be_contained).is_err());
}

#[test]
fn membership_should_not_contain_all() {
    let collection = ["junit", "assert4j", "catch2"];
    let to_be_contained = ["assert4j", "junit", "catch"];
    assert!(collection.should_not_contain_all(&to_be_contained).is_ok());
}

#[test]
fn membership_should_not_contain_all_but_it_did() {
    let collection = ["junit", "assert4j", "catch2"];
    let to_be_contained = ["assert4j", "junit"];
    assert!(collection.should_not_contain_all(&to_be_contained).is_err());
}

#[test]
fn membership_should_contain_any() {
    let collection = ["junit", "assert4j", "catch2"];
    let to_be_contained = ["assert4j", "xunit"];
    assert!(collection.should_contain_any(&to_be_contained).is_ok());
}

#[test]
fn membership_should_contain_any_but_was_not_contained() {
    let collection = ["junit", "assert4j", "catch2"];
    let to_be_contained = ["catch", "xunit"];
    assert!(collection.should_contain_any(&to_be_contained).is_err());
}

#[test]
fn membership_should_not_contain_any() {
    let collection = ["junit", "assert4j", "catch2"];
    let to_be_contained = ["assert", "xunit", "catch"];
    assert!(collection.should_not_contain_any(&to_be_contained).is_ok());
}

#[test]
fn membership_should_not_contain_any_but_it_did() {
    let collection = ["junit", "assert4j", "catch2"];
    let to_be_contained = ["assert4j", "junit"];
    assert!(collection.should_not_contain_any(&to_be_contained).is_err());
}
