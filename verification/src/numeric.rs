//! Assertions for subjects whose type carries an ordering.

use vstd::prelude::*;
use vstd::std_specs::cmp::PartialOrdSpec;

use core::cmp::Ordering;

use crate::{AssertionFailure, DescriptiveSpec, Spec, angled_text, rendered_failure};

verus! {

/// Assertions available once the subject's type is partially ordered.
///
/// Each postcondition pins the outcome down whenever the type's comparison
/// operators agree with its `partial_cmp` specification; for a type whose
/// comparison Verus has no specification for, only the shape of the failure
/// message is promised.
pub trait OrderedAssertions<'s, T: PartialOrd + core::fmt::Debug>: DescriptiveSpec<'s> {
    /// The subject the comparisons below are checked against.
    spec fn ordered_subject(&self) -> T;

    /// Asserts that the subject is less than the expected value.
    fn is_less_than(&self, other: &T) -> (r: Result<(), String>)
        ensures
            T::obeys_partial_cmp_spec() ==> (r is Ok <==> !(self.ordered_subject().partial_cmp_spec(
                other,
            ) matches Some(Ordering::Greater | Ordering::Equal))),
            r matches Err(m) ==> exists|o: Seq<char>, s: Seq<char>|
                m@ == rendered_failure(
                    self.render_context(),
                    "value less than "@ + angled_text(o),
                    angled_text(s),
                ),
    ;

    /// Asserts that the subject is less than or equal to the expected value.
    fn is_less_than_or_equal_to(&self, other: &T) -> (r: Result<(), String>)
        ensures
            T::obeys_partial_cmp_spec() ==> (r is Ok <==> !(self.ordered_subject().partial_cmp_spec(
                other,
            ) == Some(Ordering::Greater))),
            r matches Err(m) ==> exists|o: Seq<char>, s: Seq<char>|
                m@ == rendered_failure(
                    self.render_context(),
                    "value less than or equal to "@ + angled_text(o),
                    angled_text(s),
                ),
    ;

    /// Asserts that the subject is greater than the expected value.
    fn is_greater_than(&self, other: &T) -> (r: Result<(), String>)
        ensures
            T::obeys_partial_cmp_spec() ==> (r is Ok <==> !(self.ordered_subject().partial_cmp_spec(
                other,
            ) matches Some(Ordering::Less | Ordering::Equal))),
            r matches Err(m) ==> exists|o: Seq<char>, s: Seq<char>|
                m@ == rendered_failure(
                    self.render_context(),
                    "value greater than "@ + angled_text(o),
                    angled_text(s),
                ),
    ;

    /// Asserts that the subject is greater than or equal to the expected
    /// value.
    fn is_greater_than_or_equal_to(&self, other: &T) -> (r: Result<(), String>)
        ensures
            T::obeys_partial_cmp_spec() ==> (r is Ok <==> !(self.ordered_subject().partial_cmp_spec(
                other,
            ) == Some(Ordering::Less))),
            r matches Err(m) ==> exists|o: Seq<char>, s: Seq<char>|
                m@ == rendered_failure(
                    self.render_context(),
                    "value greater than or equal to "@ + angled_text(o),
                    angled_text(s),
                ),
    ;
}

/// The failure detail an ordering assertion reports: the comparison it
/// expected to hold, then the rendered bound.
fn comparison_detail(prefix: &str, bound_repr: &str) -> (r: String)
    ensures
        r@ == prefix@ + angled_text(bound_repr@),
{
    let mut out = String::from_str(prefix);
    out.append("<");
    out.append(bound_repr);
    out.append(">");
    proof {
        assert(out@ =~= prefix@ + angled_text(bound_repr@));
    }
    out
}

impl<'s, T: PartialOrd + core::fmt::Debug> OrderedAssertions<'s, T> for Spec<'s, T> {
    open spec fn ordered_subject(&self) -> T {
        *self.subject
    }

    fn is_less_than(&self, other: &T) -> (r: Result<(), String>) {
        if self.subject.ge(other) {
            let bound_repr = crate::debug_text(other);
            let subject_repr = crate::debug_text(self.subject);
            let message = AssertionFailure::from_spec(self)
                .with_expected(comparison_detail("value less than ", bound_repr.as_str()))
                .with_actual(comparison_detail("", subject_repr.as_str()))
                .fail();
            proof {
                reveal_strlit("");
                assert(""@ + angled_text(subject_repr@) =~= angled_text(subject_repr@));
            }
            Err(message)
        } else {
            Ok(())
        }
    }

    fn is_less_than_or_equal_to(&self, other: &T) -> (r: Result<(), String>) {
        if self.subject.gt(other) {
            let bound_repr = crate::debug_text(other);
            let subject_repr = crate::debug_text(self.subject);
            let message = AssertionFailure::from_spec(self)
                .with_expected(
                    comparison_detail("value less than or equal to ", bound_repr.as_str()),
                )
                .with_actual(comparison_detail("", subject_repr.as_str()))
                .fail();
            proof {
                reveal_strlit("");
                assert(""@ + angled_text(subject_repr@) =~= angled_text(subject_repr@));
            }
            Err(message)
        } else {
            Ok(())
        }
    }

    fn is_greater_than(&self, other: &T) -> (r: Result<(), String>) {
        if self.subject.le(other) {
            let bound_repr = crate::debug_text(other);
            let subject_repr = crate::debug_text(self.subject);
            let message = AssertionFailure::from_spec(self)
                .with_expected(comparison_detail("value greater than ", bound_repr.as_str()))
                .with_actual(comparison_detail("", subject_repr.as_str()))
                .fail();
            proof {
                reveal_strlit("");
                assert(""@ + angled_text(subject_repr@) =~= angled_text(subject_repr@));
            }
            Err(message)
        } else {
            Ok(())
        }
    }

    fn is_greater_than_or_equal_to(&self, other: &T) -> (r: Result<(), String>) {
        if self.subject.lt(other) {
            let bound_repr = crate::debug_text(other);
            let subject_repr = crate::debug_text(self.subject);
            let message = AssertionFailure::from_spec(self)
                .with_expected(
                    comparison_detail("value greater than or equal to ", bound_repr.as_str()),
                )
                .with_actual(comparison_detail("", subject_repr.as_str()))
                .fail();
            proof {
                reveal_strlit("");
                assert(""@ + angled_text(subject_repr@) =~= angled_text(subject_repr@));
            }
            Err(message)
        } else {
            Ok(())
        }
    }
}

} // verus!
