use clearcheck::assertions::bound::Bounds;

#[test]
fn should_have_an_upper_bound() {
    let collection = vec![1, 2, 3, 4];
    assert!(collection.should_have_upper_bound(&4).is_ok());
}

#[test]
fn should_have_an_upper_bound_but_was_not() {
    let collection = vec![1, 2, 3, 4];
    assert!(collection.should_have_upper_bound(&1).is_err());
}

#[test]
fn should_have_a_lower_bound() {
    let collection = vec![1, 2, 3, 4];
    assert!(collection.should_have_lower_bound(&1).is_ok());
}

#[test]
fn should_have_a_lower_bound_but_was_not() {
    let collection = vec![1, 2, 3, 4];
    assert!(collection.should_have_lower_bound(&3).is_err());
}

#[test]
fn bound_assertions_work_on_arrays_and_slices() {
    let collection = [1, 2, 3, 4];
    assert!(collection.should_have_upper_bound(&4).is_ok());
    let slice: &[i32] = &collection;
    assert!(slice.should_have_lower_bound(&1).is_ok());
    assert!(slice.should_have_upper_bound(&3).is_err());
}

#[test]
fn empty_collection_satisfies_any_bound() {
    let collection: Vec<i32> = vec![];
    assert!(collection.should_have_upper_bound(&-100).is_ok());
    assert!(collection.should_have_lower_bound(&100).is_ok());
}
