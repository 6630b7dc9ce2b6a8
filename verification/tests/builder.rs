use spectral::{assert_that, asserting, AssertionFailure, DescriptiveSpec, decimal_string};

#[test]
fn fail_renders_the_full_message_once_both_details_are_set() {
    let one = 1;
    let source = assert_that(&one);
    let message = AssertionFailure::from_spec(&source)
        .with_expected(String::from("<2>"))
        .with_actual(String::from("<1>"))
        .fail();
    assert_eq!(message, "\n\texpected: <2>\n\t but was: <1>\n");
}

#[test]
fn fail_with_only_the_expected_detail_reports_an_invalid_assertion() {
    let one = 1;
    let source = assert_that(&one);
    let message = AssertionFailure::from_spec(&source)
        .with_expected(String::from("<2>"))
        .fail();
    assert_eq!(message, "invalid assertion");
}

#[test]
fn fail_with_only_the_actual_detail_reports_an_invalid_assertion() {
    let one = 1;
    let source = assert_that(&one);
    let message = AssertionFailure::from_spec(&source)
        .with_actual(String::from("<1>"))
        .fail();
    assert_eq!(message, "invalid assertion");
}

#[test]
fn fail_with_neither_detail_reports_an_invalid_assertion() {
    let one = 1;
    let source = assert_that(&one);
    let message = AssertionFailure::from_spec(&source).fail();
    assert_eq!(message, "invalid assertion");
}

#[test]
fn fail_with_message_carries_the_metadata_around_the_free_form_line() {
    let one = 1;
    let source = asserting(&"a description").at_location(String::from("tests/builder.rs:45")).that(
        &one,
    );
    let message = AssertionFailure::from_spec(&source).fail_with_message(String::from("all wrong"));
    assert_eq!(
        message,
        "\n\ta description:\n\tall wrong\n\n\tat location: tests/builder.rs:45\n"
    );
}

#[test]
fn descriptive_spec_accessors_expose_the_attached_metadata() {
    let one = 1;
    let source = asserting(&"a description").that(&one).named(&"the one");
    assert_eq!(source.description(), Some("a description"));
    assert_eq!(source.subject_name(), Some("the one"));
    assert_eq!(source.location(), None);
}

#[test]
fn decimal_rendering_matches_ordinary_formatting() {
    assert_eq!(decimal_string(0), "0");
    assert_eq!(decimal_string(9), "9");
    assert_eq!(decimal_string(10), "10");
    assert_eq!(decimal_string(105), "105");
    assert_eq!(decimal_string(12034), format!("{}", 12034));
}
