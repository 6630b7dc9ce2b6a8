//! Assertions for `Option` subjects.

use vstd::prelude::*;
use vstd::std_specs::cmp::PartialEqSpec;

use crate::{AssertionFailure, DescriptiveSpec, Spec, angled, angled_text, rendered_failure};

verus! {

/// Assertions available once the subject is an `Option`.
pub trait OptionAssertions<'s, T: core::fmt::Debug>: DescriptiveSpec<'s> {
    /// The subject the assertions below are checked against.
    spec fn option_subject(&self) -> Option<T>;

    /// Asserts that the subject is `Some`.
    ///
    /// On success this returns a new assertion over the contained value,
    /// keeping the description, subject name and location.
    fn is_some(&self) -> (r: Result<Spec<'s, T>, String>)
        ensures
            r is Ok <==> self.option_subject() is Some,
            r matches Ok(inner) ==> self.option_subject() == Some(*inner.subject)
                && inner.render_context() == self.render_context(),
            r matches Err(m) ==> m@ == rendered_failure(
                self.render_context(),
                "option[some]"@,
                "option[none]"@,
            ),
    ;

    /// Asserts that the subject is `None`.
    fn is_none(&self) -> (r: Result<(), String>)
        ensures
            r is Ok <==> self.option_subject() is None,
            r matches Err(m) ==> exists|v: Seq<char>|
                m@ == rendered_failure(
                    self.render_context(),
                    "option[none]"@,
                    "option"@ + angled_text(v),
                ),
    ;
}

/// Assertions available once the subject is an `Option` whose contained
/// type can be compared for equality.
pub trait ContainingOptionAssertions<'s, T: core::fmt::Debug + PartialEq>: DescriptiveSpec<
    's,
> {
    /// The subject the assertions below are checked against.
    spec fn containing_subject(&self) -> Option<T>;

    /// Asserts that the subject is a `Some` containing the expected value.
    fn contains_value(&self, expected_value: &T) -> (r: Result<(), String>)
        ensures
            self.containing_subject() is None ==> r is Err,
            T::obeys_eq_spec() ==> (r is Ok <==> (self.containing_subject() matches Some(v)
                && v.eq_spec(expected_value))),
            self.containing_subject() is Some ==> (r matches Err(m) ==> exists|
                e: Seq<char>,
                v: Seq<char>,
            |
                m@ == rendered_failure(
                    self.render_context(),
                    "option to contain "@ + angled_text(e),
                    angled_text(v),
                )),
            self.containing_subject() is None ==> (r matches Err(m) ==> exists|e: Seq<char>|
                m@ == rendered_failure(
                    self.render_context(),
                    "option"@ + angled_text(e),
                    "option[none]"@,
                )),
    ;
}

impl<'s, T: core::fmt::Debug + PartialEq> ContainingOptionAssertions<'s, T> for Spec<
    's,
    Option<T>,
> {
    open spec fn containing_subject(&self) -> Option<T> {
        *self.subject
    }

    fn contains_value(&self, expected_value: &T) -> (r: Result<(), String>) {
        match self.subject {
            Some(val) => {
                if !val.eq(expected_value) {
                    let expected_repr = crate::debug_text(expected_value);
                    let actual_repr = crate::debug_text(val);
                    let mut detail = String::from_str("option to contain ");
                    let expected_angled = angled(expected_repr.as_str());
                    detail.append(expected_angled.as_str());
                    let message = AssertionFailure::from_spec(self)
                        .with_expected(detail)
                        .with_actual(angled(actual_repr.as_str()))
                        .fail();
                    Err(message)
                } else {
                    Ok(())
                }
            },
            None => {
                let expected_repr = crate::debug_text(expected_value);
                let mut detail = String::from_str("option");
                let expected_angled = angled(expected_repr.as_str());
                detail.append(expected_angled.as_str());
                let message = AssertionFailure::from_spec(self)
                    .with_expected(detail)
                    .with_actual(String::from_str("option[none]"))
                    .fail();
                Err(message)
            },
        }
    }
}

impl<'s, T: core::fmt::Debug> OptionAssertions<'s, T> for Spec<'s, Option<T>> {
    open spec fn option_subject(&self) -> Option<T> {
        *self.subject
    }

    fn is_some(&self) -> (r: Result<Spec<'s, T>, String>) {
        match self.subject {
            Some(val) => Ok(
                Spec {
                    subject: val,
                    subject_name: self.subject_name,
                    location: match &self.location {
                        Some(l) => Some(l.clone()),
                        None => None,
                    },
                    description: self.description,
                },
            ),
            None => {
                let message = AssertionFailure::from_spec(self)
                    .with_expected(String::from_str("option[some]"))
                    .with_actual(String::from_str("option[none]"))
                    .fail();
                Err(message)
            },
        }
    }

    fn is_none(&self) -> (r: Result<(), String>) {
        match self.subject {
            None => Ok(()),
            Some(val) => {
                let value_repr = crate::debug_text(val);
                let mut detail = String::from_str("option");
                let value_angled = angled(value_repr.as_str());
                detail.append(value_angled.as_str());
                let message = AssertionFailure::from_spec(self)
                    .with_actual(detail)
                    .with_expected(String::from_str("option[none]"))
                    .fail();
                Err(message)
            },
        }
    }
}

} // verus!
