use spectral::prelude::MappingIterAssertions;
use spectral::{assert_that, asserting};

#[derive(Debug, PartialEq)]
struct TestStruct {
    pub value: u8,
}

#[test]
fn should_be_able_to_use_macro_form_with_deliberate_reference() {
    let test_vec = vec![1, 2, 3, 4, 5];

    let location = format!("{}:{}", "tests/core.rs", 11);
    assert!(assert_that(&test_vec).at_location(location).mapped_contains(|val| val * 2, &6).is_ok());
}

#[test]
fn should_be_able_to_use_macro_form_without_deliberate_reference() {
    let test_vec = vec![1, 2, 3, 4, 5];

    let location = format!("{}:{}", "tests/core.rs", 19);
    assert!(assert_that(&test_vec).at_location(location).mapped_contains(|val| val * 2, &6).is_ok());
}

#[test]
#[should_panic(expected = "\n\ttest condition:\n\texpected: <2>\n\t but was: <1>")]
fn should_contain_assertion_description_in_panic() {
    if let Err(message) = asserting(&"test condition").that(&1).is_equal_to(&2) {
        panic!("{}", message);
    }
}

#[test]
#[should_panic(expected = "\n\tclosure:\n\texpectation failed for value <\"Hello\">")]
fn should_contain_assertion_description_if_message_is_provided() {
    let value = "Hello";
    if let Err(message) = asserting(&"closure").that(&value).matches(|val| val.eq(&"Hi")) {
        panic!("{}", message);
    }
}

#[test]
#[should_panic(expected = "\n\texpected: <2>\n\t but was: <1>\
               \n\n\tat location: tests/core.rs:")]
fn should_contain_file_and_line_in_panic_for_assertions() {
    let location = format!("{}:{}", "tests/core.rs", 46);
    if let Err(message) = assert_that(&1).at_location(location).is_equal_to(&2) {
        panic!("{}", message);
    }
}

#[test]
#[should_panic(expected = "\n\texpectation failed for value <\"Hello\">\
               \n\n\tat location: tests/core.rs:")]
fn should_contain_file_and_line_for_assertions_if_message_is_provided() {
    let value = "Hello";
    let location = format!("{}:{}", "tests/core.rs", 56);
    if let Err(message) = assert_that(&value).at_location(location).matches(|val| val.eq(&"Hi")) {
        panic!("{}", message);
    }
}

#[test]
#[should_panic(expected = "\n\ttest condition:\n\texpected: <2>\n\t but was: <1>\
               \n\n\tat location: tests/core.rs:")]
fn should_contain_file_and_line_in_panic_for_descriptive_assertions() {
    let location = format!("{}:{}", "tests/core.rs", 66);
    if let Err(message) = asserting(&"test condition").at_location(location).that(&1).is_equal_to(
        &2,
    ) {
        panic!("{}", message);
    }
}

#[test]
#[should_panic(expected = "\n\tclosure:\n\texpectation failed for value <\"Hello\">\
               \n\n\tat location: tests/core.rs:")]
fn should_contain_file_and_line_for_descriptive_assertions_if_message_is_provided() {
    let value = "Hello";
    let location = format!("{}:{}", "tests/core.rs", 78);
    if let Err(message) = asserting(&"closure").at_location(location).that(&value).matches(|val| {
        val.eq(&"Hi")
    }) {
        panic!("{}", message);
    }
}

#[test]
#[should_panic(expected = "\n\tfor subject [number one]\n\texpected: <2>\n\t but was: <1>\
               \n\n\tat location: tests/core.rs:")]
fn should_contain_subject_name_in_panic_for_assertions() {
    let location = format!("{}:{}", "tests/core.rs", 90);
    if let Err(message) = assert_that(&1).at_location(location).named(&"number one").is_equal_to(
        &2,
    ) {
        panic!("{}", message);
    }
}

#[test]
#[should_panic(expected = "\n\tfor subject [a word]\n\texpectation failed for value <\"Hello\">\
               \n\n\tat location: tests/core.rs:")]
fn should_contain_subject_name_in_panic_for_assertions_if_message_is_provided() {
    let value = "Hello";
    let location = format!("{}:{}", "tests/core.rs", 102);
    if let Err(message) = assert_that(&value).at_location(location).named(&"a word").matches(
        |val| val.eq(&"Hi"),
    ) {
        panic!("{}", message);
    }
}

#[test]
fn should_not_panic_on_equal_subjects() {
    assert!(assert_that(&1).is_equal_to(&1).is_ok());
}

#[test]
#[should_panic(expected = "\n\texpected: <2>\n\t but was: <1>")]
fn should_panic_on_unequal_subjects() {
    if let Err(message) = assert_that(&1).is_equal_to(&2) {
        panic!("{}", message);
    }
}

#[test]
fn should_not_panic_on_unequal_subjects_if_expected() {
    assert!(assert_that(&1).is_not_equal_to(&2).is_ok());
}

#[test]
#[should_panic(expected = "\n\texpected: <1> to not equal <1>\n\t but was: equal")]
fn should_panic_on_equal_subjects_if_expected_unequal() {
    if let Err(message) = assert_that(&1).is_not_equal_to(&1) {
        panic!("{}", message);
    }
}

#[test]
fn should_not_panic_if_value_matches() {
    let value = "Hello";
    assert!(assert_that(&value).matches(|val| val.eq(&"Hello")).is_ok());
}

#[test]
#[should_panic(expected = "\n\texpectation failed for value <\"Hello\">")]
fn should_panic_if_value_does_not_match() {
    let value = "Hello";
    if let Err(message) = assert_that(&value).matches(|val| val.eq(&"Hi")) {
        panic!("{}", message);
    }
}

#[test]
fn should_be_able_to_map_to_inner_field_of_struct_when_matching() {
    let test_struct = TestStruct { value: 5 };
    assert!(assert_that(&test_struct).map(|val| &val.value).is_equal_to(&5).is_ok());
}

#[test]
fn only_the_last_subject_name_appears_in_the_failure() {
    if let Err(message) = assert_that(&1).named(&"first name").named(&"number one").is_equal_to(&2)
    {
        assert!(message.contains("for subject [number one]"));
        assert!(!message.contains("first name"));
    } else {
        panic!("expected a failure message");
    }
}

#[test]
fn only_the_last_location_appears_in_the_failure() {
    let first = String::from("tests/core.rs:1");
    let last = String::from("tests/core.rs:177");
    if let Err(message) = assert_that(&1).at_location(first).at_location(last).is_equal_to(&2) {
        assert!(message.contains("at location: tests/core.rs:177"));
        assert!(!message.contains("tests/core.rs:1\n"));
    } else {
        panic!("expected a failure message");
    }
}

#[test]
fn failure_message_orders_description_name_details_and_location() {
    let location = String::from("tests/core.rs:189");
    if let Err(message) = asserting(&"ordering").at_location(location).that(&1).named(
        &"the subject",
    ).is_equal_to(&2) {
        let description_at = message.find("ordering:").expect("description missing");
        let name_at = message.find("for subject [the subject]").expect("name missing");
        let expected_at = message.find("expected: <2>").expect("expected detail missing");
        let actual_at = message.find("but was: <1>").expect("actual detail missing");
        let location_at = message.find("at location: tests/core.rs:189").expect(
            "location missing",
        );
        assert!(description_at < name_at);
        assert!(name_at < expected_at);
        assert!(expected_at < actual_at);
        assert!(actual_at < location_at);
    } else {
        panic!("expected a failure message");
    }
}

#[test]
fn omitted_metadata_leaves_no_blank_segments() {
    if let Err(message) = assert_that(&1).is_equal_to(&2) {
        assert_eq!(message, "\n\texpected: <2>\n\t but was: <1>\n");
    } else {
        panic!("expected a failure message");
    }
}
