use spectral::assert_that;
use spectral::prelude::{ContainingOptionAssertions, OptionAssertions};

#[test]
fn should_not_panic_if_option_is_expected_to_contain_value_and_does() {
    let option = Some("Hello");
    assert!(assert_that(&option).is_some().is_ok());
}

#[test]
#[should_panic(expected = "\n\texpected: option[some]\n\t but was: option[none]")]
fn should_panic_if_option_is_expected_to_contain_value_and_does_not() {
    let option: Option<&str> = None;
    if let Err(message) = assert_that(&option).is_some() {
        panic!("{}", message);
    }
}

#[test]
fn should_be_able_to_unwrap_option_if_some() {
    let option = Some("Hello");
    assert!(assert_that(&option).is_some().unwrap().is_equal_to(&"Hello").is_ok());
}

#[test]
fn contains_value_should_allow_multiple_borrow_types() {
    let option = Some("Hello");
    assert!(assert_that(&option).contains_value(&mut "Hello").is_ok());
    assert!(assert_that(&option).contains_value(&"Hello").is_ok());
}

#[test]
fn should_not_panic_if_option_contains_expected_value() {
    let option = Some("Hello");
    assert!(assert_that(&option).contains_value(&"Hello").is_ok());
}

#[test]
#[should_panic(expected = "\n\texpected: option to contain <\"Hi\">\n\t but was: <\"Hello\">")]
fn should_panic_if_option_does_not_contain_expected_value() {
    let option = Some("Hello");
    if let Err(message) = assert_that(&option).contains_value(&"Hi") {
        panic!("{}", message);
    }
}

#[test]
#[should_panic(expected = "\n\texpected: option<\"Hello\">\n\t but was: option[none]")]
fn should_panic_if_option_is_none_but_expected_value() {
    let option: Option<&str> = None;
    if let Err(message) = assert_that(&option).contains_value(&"Hello") {
        panic!("{}", message);
    }
}

#[test]
fn should_not_panic_if_option_is_empty() {
    let option: Option<&str> = None;
    assert!(assert_that(&option).is_none().is_ok());
}

#[test]
#[should_panic(expected = "\n\texpected: option[none]\n\t but was: option<\"Hello\"")]
fn should_panic_if_option_is_not_empty_but_was_expected_as_empty() {
    let option = Some("Hello");
    if let Err(message) = assert_that(&option).is_none() {
        panic!("{}", message);
    }
}

#[test]
fn unwrapping_an_option_keeps_the_subject_name() {
    let option = Some(2);
    if let Err(message) = assert_that(&option).named(&"count").is_some().unwrap().is_equal_to(&3) {
        assert!(message.contains("for subject [count]"));
    } else {
        panic!("expected a failure message");
    }
}
