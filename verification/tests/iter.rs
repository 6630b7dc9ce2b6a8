use spectral::assert_that;
use spectral::prelude::{ContainingIntoIterAssertions, MappingIterAssertions};

#[derive(Debug, PartialEq)]
struct TestStruct {
    pub value: u8,
}

#[derive(Debug)]
enum TestEnum {
    Good,
    Bad,
}

#[test]
fn iter_should_not_panic_if_vec_contains_value() {
    let test_vec = vec![1, 2, 3];
    assert!(assert_that(&test_vec).contains(&2).is_ok());
}

#[test]
#[should_panic(expected = "\n\texpected: iterator to contain <5>\n\t but was: <[1, 2, 3]>")]
fn iter_should_panic_if_vec_does_not_contain_value() {
    let test_vec = vec![1, 2, 3];
    if let Err(message) = assert_that(&test_vec).contains(&5) {
        panic!("{}", message);
    }
}

#[test]
fn should_not_panic_if_iterable_contains_value() {
    let mut test_into_iter = Vec::new();
    test_into_iter.push(1);
    test_into_iter.push(2);
    test_into_iter.push(3);

    assert!(assert_that(&test_into_iter).contains(&2).is_ok());
}

#[test]
#[should_panic(expected = "\n\texpected: iterator to contain <5>\n\t but was: <[1, 2, 3]>")]
fn should_panic_if_iterable_does_not_contain_value() {
    let mut test_into_iter = Vec::new();
    test_into_iter.push(1);
    test_into_iter.push(2);
    test_into_iter.push(3);

    if let Err(message) = assert_that(&test_into_iter).contains(&5) {
        panic!("{}", message);
    }
}

#[test]
fn should_not_panic_if_iteratable_equals_expected_iterator() {
    let expected_vec = vec![1, 2, 3];
    let test_vec = vec![1, 2, 3];

    assert!(assert_that(&test_vec).equals_iterator(&expected_vec).is_ok());
}

#[test]
#[should_panic(expected = "\n\texpected: Iterator item of <4> (read <[1, 2]>)\
               \n\t but was: Iterator item of <3> (read <[1, 2]>)")]
fn should_panic_if_iteratable_does_not_equal_expected_iterator() {
    let expected_vec = vec![1, 2, 4];
    let test_vec = vec![1, 2, 3];

    if let Err(message) = assert_that(&test_vec).equals_iterator(&expected_vec) {
        panic!("{}", message);
    }
}

#[test]
fn should_not_panic_if_iterator_contains_value() {
    let test_vec = vec![1, 2, 3];
    assert!(assert_that(&test_vec).contains(&2).is_ok());
}

#[test]
#[should_panic(expected = "\n\texpected: iterator to contain <5>\n\t but was: <[1, 2, 3]>")]
fn should_panic_if_iterator_does_not_contain_value() {
    let test_vec = vec![1, 2, 3];
    if let Err(message) = assert_that(&test_vec).contains(&5) {
        panic!("{}", message);
    }
}

#[test]
fn should_not_panic_if_iterator_equals_expected_iterator() {
    let expected_vec = vec![1, 2, 3];
    let test_vec = vec![1, 2, 3];

    assert!(assert_that(&test_vec).equals_iterator(&expected_vec).is_ok());
}

#[test]
#[should_panic(expected = "\n\texpected: Iterator item of <4> (read <[1, 2]>)\
               \n\t but was: Iterator item of <3> (read <[1, 2]>)")]
fn should_panic_if_iterator_does_not_equal_expected_iterator() {
    let expected_vec = vec![1, 2, 4];
    let test_vec = vec![1, 2, 3];

    if let Err(message) = assert_that(&test_vec).equals_iterator(&expected_vec) {
        panic!("{}", message);
    }
}

#[test]
fn should_not_panic_if_iterator_matches_on_value() {
    let mut test_into_iter = Vec::new();
    test_into_iter.push(TestEnum::Bad);
    test_into_iter.push(TestEnum::Good);
    test_into_iter.push(TestEnum::Bad);

    let matched = assert_that(&test_into_iter).matching_contains(|val| {
        match val {
            &TestEnum::Good => true,
            _ => false,
        }
    });
    assert!(matched.is_ok());
}

#[test]
#[should_panic(expected = "\n\texpectation failed for iterator with values <[Bad, Bad, Bad]>")]
fn should_panic_if_iterator_does_not_match_on_value() {
    let mut test_into_iter = Vec::new();
    test_into_iter.push(TestEnum::Bad);
    test_into_iter.push(TestEnum::Bad);
    test_into_iter.push(TestEnum::Bad);

    let matched = assert_that(&test_into_iter).matching_contains(|val| {
        match val {
            &TestEnum::Good => true,
            _ => false,
        }
    });
    if let Err(message) = matched {
        panic!("{}", message);
    }
}

#[test]
fn iter_should_not_panic_if_vec_contains_mapped_value() {
    let test_vec = vec![TestStruct { value: 5 }, TestStruct { value: 6 }];
    assert!(assert_that(&test_vec).mapped_contains(|val| val.value, &5).is_ok());
}

#[test]
#[should_panic(expected = "\n\texpected: iterator to contain <1>\n\t but was: <[5, 6]>")]
fn iter_should_panic_if_vec_does_not_contain_mapped_value() {
    let test_vec = vec![TestStruct { value: 5 }, TestStruct { value: 6 }];
    if let Err(message) = assert_that(&test_vec).mapped_contains(|val| val.value, &1) {
        panic!("{}", message);
    }
}

#[test]
fn a_longer_subject_reports_the_first_unexpected_item() {
    let expected_vec = vec![1, 2];
    let test_vec = vec![1, 2, 3];

    if let Err(message) = assert_that(&test_vec).equals_iterator(&expected_vec) {
        assert!(message.contains(
            "\n\texpected: Completed iterator (read <[1, 2]>)\
             \n\t but was: Iterator item of <3> (read <[1, 2]>)"
        ));
    } else {
        panic!("expected a failure message");
    }
}

#[test]
fn a_shorter_subject_reports_the_first_missing_item() {
    let expected_vec = vec![1, 2, 3];
    let test_vec = vec![1, 2];

    if let Err(message) = assert_that(&test_vec).equals_iterator(&expected_vec) {
        assert!(message.contains(
            "\n\texpected: Iterator item of <3> (read <[1, 2]>)\
             \n\t but was: Completed iterator (read <[1, 2]>)"
        ));
    } else {
        panic!("expected a failure message");
    }
}
