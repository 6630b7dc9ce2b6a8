use spectral::assert_that;
use spectral::prelude::{ContainingResultAssertions, ResultAssertions};

#[derive(Debug)]
struct Incomporable;

#[test]
fn should_not_panic_if_result_is_expected_to_be_ok_and_is() {
    let result: Result<&str, &str> = Ok("Hello");
    assert!(assert_that(&result).is_ok().is_ok());
}

#[test]
#[should_panic(expected = "\n\texpected: result[ok]\n\t but was: result[error]<\"Oh no\">")]
fn should_panic_if_result_is_expected_to_be_ok_and_is_not() {
    let result: Result<&str, &str> = Err("Oh no");
    if let Err(message) = assert_that(&result).is_ok() {
        panic!("{}", message);
    }
}

#[test]
fn should_return_unwrapped_value_if_subject_is_ok() {
    let result: Result<&str, &str> = Ok("Hello");
    assert!(assert_that(&result).is_ok().unwrap().is_equal_to(&"Hello").is_ok());
}

#[test]
fn should_not_panic_if_result_is_expected_to_be_error_and_is() {
    let result: Result<&str, &str> = Err("Oh no");
    assert!(assert_that(&result).is_error().is_ok());
}

#[test]
#[should_panic(expected = "\n\texpected: result[error]\n\t but was: result[ok]<\"Hello\">")]
fn should_panic_if_result_is_expected_to_be_error_and_is_not() {
    let result: Result<&str, &str> = Ok("Hello");
    if let Err(message) = assert_that(&result).is_error() {
        panic!("{}", message);
    }
}

#[test]
fn should_return_unwrapped_value_if_subject_is_err() {
    let result: Result<&str, &str> = Err("Hello");
    assert!(assert_that(&result).is_error().unwrap().is_equal_to(&"Hello").is_ok());
}

#[test]
fn should_not_panic_if_result_is_ok_with_expected_value() {
    let result: Result<&str, &str> = Ok("Hello");
    assert!(assert_that(&result).is_ok_containing(&"Hello").is_ok());
}

#[test]
fn should_not_panic_if_result_is_ok_with_uncomparable_ok() {
    let result: Result<&str, Incomporable> = Ok("Hello");
    assert!(assert_that(&result).is_ok_containing(&"Hello").is_ok());
}

#[test]
#[should_panic(expected = "\n\texpected: Result[ok] containing <\"Hi\">\
               \n\t but was: Result[ok] containing <\"Hello\">")]
fn should_panic_if_result_is_ok_without_expected_value() {
    let result: Result<&str, &str> = Ok("Hello");
    if let Err(message) = assert_that(&result).is_ok_containing(&"Hi") {
        panic!("{}", message);
    }
}

#[test]
#[should_panic(expected = "\n\texpected: Result[ok] containing <\"Hi\">\
               \n\t but was: Result[err] containing <\"Hi\">")]
fn should_panic_if_result_is_err_if_ok_with_value_expected() {
    let result: Result<&str, &str> = Err("Hi");
    if let Err(message) = assert_that(&result).is_ok_containing(&"Hi") {
        panic!("{}", message);
    }
}

#[test]
fn should_not_panic_if_result_is_err_with_expected_value() {
    let result: Result<&str, &str> = Err("Oh no");
    assert!(assert_that(&result).is_err_containing(&"Oh no").is_ok());
}

#[test]
fn should_not_panic_if_result_is_err_with_uncomparable_ok() {
    let result: Result<Incomporable, &str> = Err("Oh no");
    assert!(assert_that(&result).is_err_containing(&"Oh no").is_ok());
}

#[test]
#[should_panic(expected = "\n\texpected: Result[err] containing <\"Oh no\">\
               \n\t but was: Result[err] containing <\"Whoops\">")]
fn should_panic_if_result_is_err_without_expected_value() {
    let result: Result<&str, &str> = Err("Whoops");
    if let Err(message) = assert_that(&result).is_err_containing(&"Oh no") {
        panic!("{}", message);
    }
}

#[test]
#[should_panic(expected = "\n\texpected: Result[err] containing <\"Oh no\">\
               \n\t but was: Result[ok] containing <\"Oh no\">")]
fn should_panic_if_result_is_ok_if_err_with_value_expected() {
    let result: Result<&str, &str> = Ok("Oh no");
    if let Err(message) = assert_that(&result).is_err_containing(&"Oh no") {
        panic!("{}", message);
    }
}
