use spectral::assert_that;
use spectral::prelude::VecAssertions;

#[test]
fn should_not_panic_if_vec_length_matches_expected() {
    let test_vec = vec![1, 2, 3];
    assert!(assert_that(&test_vec).has_length(3).is_ok());
    assert!(assert_that(&&test_vec).has_length(3).is_ok());
}

#[test]
#[should_panic(expected = "\n\texpected: vec to have length <1>\n\t but was: <3>")]
fn should_panic_if_vec_length_does_not_match_expected() {
    let test_vec = vec![1, 2, 3];
    if let Err(message) = assert_that(&test_vec).has_length(1) {
        panic!("{}", message);
    }
}

#[test]
fn should_not_panic_if_vec_was_expected_to_be_empty_and_is() {
    let test_vec: Vec<u8> = vec![];
    assert!(assert_that(&test_vec).is_empty().is_ok());
    assert!(assert_that(&&test_vec).is_empty().is_ok());
}

#[test]
#[should_panic(expected = "\n\texpected: an empty vec\
               \n\t but was: a vec with length <1>")]
fn should_panic_if_vec_was_expected_to_be_empty_and_is_not() {
    if let Err(message) = assert_that(&vec![1]).is_empty() {
        panic!("{}", message);
    }
}

#[test]
fn vec_length_failure_renders_large_lengths_in_decimal() {
    let test_vec: Vec<u8> = vec![0; 120];
    if let Err(message) = assert_that(&test_vec).has_length(105) {
        assert!(message.contains("expected: vec to have length <105>"));
        assert!(message.contains("but was: <120>"));
    } else {
        panic!("expected a failure message");
    }
}
