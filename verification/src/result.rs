//! Assertions for `Result` subjects.

use vstd::prelude::*;
use vstd::std_specs::cmp::PartialEqSpec;

use crate::{AssertionFailure, DescriptiveSpec, Spec, angled, angled_text, rendered_failure};

verus! {

/// Assertions available once the subject is a `Result`.
pub trait ResultAssertions<'s, T: core::fmt::Debug, E: core::fmt::Debug>: DescriptiveSpec<
    's,
> {
    /// The subject the assertions below are checked against.
    spec fn result_subject(&self) -> Result<T, E>;

    /// Asserts that the subject is `Ok`.
    ///
    /// On success this returns a new assertion over the contained value,
    /// keeping the description, subject name and location.
    fn is_ok(&self) -> (r: Result<Spec<'s, T>, String>)
        ensures
            r is Ok <==> self.result_subject() is Ok,
            r matches Ok(inner) ==> self.result_subject() matches Ok(v) && v == *inner.subject
                && inner.render_context() == self.render_context(),
            r matches Err(m) ==> exists|e: Seq<char>|
                m@ == rendered_failure(
                    self.render_context(),
                    "result[ok]"@,
                    "result[error]"@ + angled_text(e),
                ),
    ;

    /// Asserts that the subject is `Err`.
    ///
    /// On success this returns a new assertion over the contained error,
    /// keeping the description, subject name and location.
    fn is_error(&self) -> (r: Result<Spec<'s, E>, String>)
        ensures
            r is Ok <==> self.result_subject() is Err,
            r matches Ok(inner) ==> self.result_subject() matches Err(v) && v == *inner.subject
                && inner.render_context() == self.render_context(),
            r matches Err(m) ==> exists|v: Seq<char>|
                m@ == rendered_failure(
                    self.render_context(),
                    "result[error]"@,
                    "result[ok]"@ + angled_text(v),
                ),
    ;
}

/// Assertions available once the subject is a `Result` whose contained
/// values can be compared for equality.
pub trait ContainingResultAssertions<'s, T: core::fmt::Debug, E: core::fmt::Debug>:
    DescriptiveSpec<'s> {
    /// The subject the assertions below are checked against.
    spec fn containing_subject(&self) -> Result<T, E>;

    /// Asserts that the subject is an `Ok` containing the expected value.
    fn is_ok_containing(&self, expected_value: &T) -> (r: Result<(), String>) where T: PartialEq
        ensures
            self.containing_subject() is Err ==> r is Err,
            T::obeys_eq_spec() ==> (r is Ok <==> (self.containing_subject() matches Ok(v)
                && v.eq_spec(expected_value))),
            self.containing_subject() is Ok ==> (r matches Err(m) ==> exists|
                e: Seq<char>,
                a: Seq<char>,
            |
                m@ == rendered_failure(
                    self.render_context(),
                    detail_text("ok"@, e),
                    detail_text("ok"@, a),
                )),
            self.containing_subject() is Err ==> (r matches Err(m) ==> exists|
                e: Seq<char>,
                a: Seq<char>,
            |
                m@ == rendered_failure(
                    self.render_context(),
                    detail_text("ok"@, e),
                    detail_text("err"@, a),
                )),
    ;

    /// Asserts that the subject is an `Err` containing the expected value.
    fn is_err_containing(&self, expected_value: &E) -> (r: Result<(), String>) where E: PartialEq
        ensures
            self.containing_subject() is Ok ==> r is Err,
            E::obeys_eq_spec() ==> (r is Ok <==> (self.containing_subject() matches Err(v)
                && v.eq_spec(expected_value))),
            self.containing_subject() is Err ==> (r matches Err(m) ==> exists|
                e: Seq<char>,
                a: Seq<char>,
            |
                m@ == rendered_failure(
                    self.render_context(),
                    detail_text("err"@, e),
                    detail_text("err"@, a),
                )),
            self.containing_subject() is Ok ==> (r matches Err(m) ==> exists|
                e: Seq<char>,
                a: Seq<char>,
            |
                m@ == rendered_failure(
                    self.render_context(),
                    detail_text("err"@, e),
                    detail_text("ok"@, a),
                )),
    ;
}

/// The text of one structured `Result` detail: which variant, then the
/// rendered contained value in angle brackets.
pub open spec fn detail_text(variant: Seq<char>, value: Seq<char>) -> Seq<char> {
    "Result["@ + variant + "] containing "@ + angled_text(value)
}

/// Renders one structured `Result` detail, exactly as `detail_text` says.
pub fn build_detail_message(variant: &str, value_repr: &str) -> (r: String)
    ensures
        r@ == detail_text(variant@, value_repr@),
{
    let mut out = String::from_str("Result[");
    out.append(variant);
    out.append("] containing ");
    let value_angled = angled(value_repr);
    out.append(value_angled.as_str());
    proof {
        assert(out@ =~= detail_text(variant@, value_repr@));
    }
    out
}

impl<'s, T: core::fmt::Debug, E: core::fmt::Debug> ContainingResultAssertions<'s, T, E> for Spec<
    's,
    Result<T, E>,
> {
    open spec fn containing_subject(&self) -> Result<T, E> {
        *self.subject
    }

    fn is_ok_containing(&self, expected_value: &T) -> (r: Result<(), String>) where T: PartialEq {
        match self.subject {
            Ok(val) => {
                if !val.eq(expected_value) {
                    let expected_repr = crate::debug_text(expected_value);
                    let actual_repr = crate::debug_text(val);
                    let message = AssertionFailure::from_spec(self)
                        .with_expected(build_detail_message("ok", expected_repr.as_str()))
                        .with_actual(build_detail_message("ok", actual_repr.as_str()))
                        .fail();
                    Err(message)
                } else {
                    Ok(())
                }
            },
            Err(val) => {
                let expected_repr = crate::debug_text(expected_value);
                let actual_repr = crate::debug_text(val);
                let message = AssertionFailure::from_spec(self)
                    .with_expected(build_detail_message("ok", expected_repr.as_str()))
                    .with_actual(build_detail_message("err", actual_repr.as_str()))
                    .fail();
                Err(message)
            },
        }
    }

    fn is_err_containing(&self, expected_value: &E) -> (r: Result<(), String>) where E: PartialEq {
        match self.subject {
            Err(val) => {
                if !val.eq(expected_value) {
                    let expected_repr = crate::debug_text(expected_value);
                    let actual_repr = crate::debug_text(val);
                    let message = AssertionFailure::from_spec(self)
                        .with_expected(build_detail_message("err", expected_repr.as_str()))
                        .with_actual(build_detail_message("err", actual_repr.as_str()))
                        .fail();
                    Err(message)
                } else {
                    Ok(())
                }
            },
            Ok(val) => {
                let expected_repr = crate::debug_text(expected_value);
                let actual_repr = crate::debug_text(val);
                let message = AssertionFailure::from_spec(self)
                    .with_expected(build_detail_message("err", expected_repr.as_str()))
                    .with_actual(build_detail_message("ok", actual_repr.as_str()))
                    .fail();
                Err(message)
            },
        }
    }
}

impl<'s, T: core::fmt::Debug, E: core::fmt::Debug> ResultAssertions<'s, T, E> for Spec<
    's,
    Result<T, E>,
> {
    open spec fn result_subject(&self) -> Result<T, E> {
        *self.subject
    }

    fn is_ok(&self) -> (r: Result<Spec<'s, T>, String>) {
        match self.subject {
            Ok(val) => Ok(
                Spec {
                    subject: val,
                    subject_name: self.subject_name,
                    location: match &self.location {
                        Some(l) => Some(l.clone()),
                        None => None,
                    },
                    description: self.description,
                },
            ),
            Err(err) => {
                let error_repr = crate::debug_text(err);
                let mut detail = String::from_str("result[error]");
                let error_angled = angled(error_repr.as_str());
                detail.append(error_angled.as_str());
                let message = AssertionFailure::from_spec(self)
                    .with_expected(String::from_str("result[ok]"))
                    .with_actual(detail)
                    .fail();
                Err(message)
            },
        }
    }

    fn is_error(&self) -> (r: Result<Spec<'s, E>, String>) {
        match self.subject {
            Err(val) => Ok(
                Spec {
                    subject: val,
                    subject_name: self.subject_name,
                    location: match &self.location {
                        Some(l) => Some(l.clone()),
                        None => None,
                    },
                    description: self.description,
                },
            ),
            Ok(val) => {
                let value_repr = crate::debug_text(val);
                let mut detail = String::from_str("result[ok]");
                let value_angled = angled(value_repr.as_str());
                detail.append(value_angled.as_str());
                let message = AssertionFailure::from_spec(self)
                    .with_expected(String::from_str("result[error]"))
                    .with_actual(detail)
                    .fail();
                Err(message)
            },
        }
    }
}

} // verus!
