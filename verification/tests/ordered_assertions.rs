use clearcheck::assertions::ordered::OrderAssertions;

#[test]
fn should_be_greater_than() {
    let value = 12.5;
    assert!(value.should_be_greater_than(&10.98).is_ok());
}

#[test]
fn should_be_greater_than_equal_to() {
    let value = 12.59;
    assert!(value.should_be_greater_than_equal_to(&12.59).is_ok());
}

#[test]
fn should_be_less_than() {
    let value = 6.98;
    assert!(value.should_be_less_than(&9.98).is_ok());
}

#[test]
fn should_be_less_than_equal_to() {
    let value = 12.59;
    assert!(value.should_be_less_than_equal_to(&12.59).is_ok());
}

#[test]
fn should_not_be_greater_than() {
    let value = 12.5;
    assert!(value.should_not_be_greater_than(&14.98).is_ok());
}

#[test]
fn should_not_be_greater_than_equal_to() {
    let value = 12.59;
    assert!(value.should_not_be_greater_than_equal_to(&13.59).is_ok());
}

#[test]
fn should_not_be_less_than() {
    let value = 9.98;
    assert!(value.should_not_be_less_than(&8.98).is_ok());
}

#[test]
fn should_not_be_less_than_equal_to() {
    let value = 13.59;
    assert!(value.should_not_be_less_than_equal_to(&12.59).is_ok());
}

#[test]
fn should_be_in_inclusive_range() {
    let value = 9.98;
    assert!(value.should_be_in_inclusive_range(8.90..=9.99).is_ok());
}

#[test]
fn should_not_be_in_inclusive_range() {
    let value = 9.98;
    assert!(value.should_not_be_in_inclusive_range(8.90..=9.10).is_ok());
}

#[test]
fn should_be_in_exclusive_range() {
    let value = 9.98;
    assert!(value.should_be_in_exclusive_range(8.90..9.99).is_ok());
}

#[test]
fn should_not_be_in_exclusive_range() {
    let value = 9.98;
    assert!(value.should_not_be_in_exclusive_range(8.90..9.10).is_ok());
}

#[test]
fn should_be_greater_than_but_was_not() {
    let value = 1.1;
    assert!(value.should_be_greater_than(&10.98).is_err());
}

#[test]
fn should_be_greater_than_equal_to_but_was_not() {
    let value = 1.59;
    assert!(value.should_be_greater_than_equal_to(&12.59).is_err());
}

#[test]
fn should_be_less_than_but_was_not() {
    let value = 16.98;
    assert!(value.should_be_less_than(&9.98).is_err());
}

#[test]
fn should_be_less_than_equal_to_but_was_not() {
    let value = 18.59;
    assert!(value.should_be_less_than_equal_to(&12.59).is_err());
}

#[test]
fn should_not_be_greater_than_but_was() {
    let value = 15.5;
    assert!(value.should_not_be_greater_than(&14.98).is_err());
}

#[test]
fn should_not_be_greater_than_equal_to_but_was() {
    let value = 14.59;
    assert!(value.should_not_be_greater_than_equal_to(&13.59).is_err());
}

#[test]
fn should_not_be_less_than_but_was() {
    let value = 1.98;
    assert!(value.should_not_be_less_than(&8.98).is_err());
}

#[test]
fn should_not_be_less_than_equal_to_but_was() {
    let value = 11.59;
    assert!(value.should_not_be_less_than_equal_to(&12.59).is_err());
}

#[test]
fn should_be_in_inclusive_range_but_was_not() {
    let value = 9.98;
    assert!(value.should_be_in_inclusive_range(8.90..=9.90).is_err());
}

#[test]
fn should_not_be_in_inclusive_range_but_was() {
    let value = 9.98;
    assert!(value.should_not_be_in_inclusive_range(8.90..=9.99).is_err());
}

#[test]
fn should_be_in_exclusive_range_but_was_not() {
    let value = 9.98;
    assert!(value.should_be_in_exclusive_range(8.90..9.90).is_err());
}

#[test]
fn should_not_be_in_exclusive_range_but_was_not() {
    let value = 9.98;
    assert!(value.should_not_be_in_exclusive_range(8.90..9.99).is_err());
}

#[test]
fn exclusive_range_excludes_its_upper_bound() {
    let value = 9.98;
    assert!(value.should_be_in_inclusive_range(8.90..=9.99).is_ok());
    assert!(value.should_be_in_exclusive_range(8.90..9.98).is_err());
}

#[test]
fn order_assertions_work_on_integers() {
    let value = 5;
    assert!(value.should_be_greater_than(&3).is_ok());
    assert!(value.should_be_in_inclusive_range(1..=5).is_ok());
    assert!(value.should_be_in_exclusive_range(1..5).is_err());
}
