//! Assertions for `bool` subjects.

use vstd::prelude::*;

use crate::{AssertionFailure, DescriptiveSpec, Spec, rendered_failure};

verus! {

/// Assertions available once the subject is a `bool`.
pub trait BooleanAssertions<'s>: DescriptiveSpec<'s> {
    /// The subject the assertions below are checked against.
    spec fn boolean_subject(&self) -> bool;

    /// Asserts that the subject is true. The subject type must be `bool`.
    fn is_true(&self) -> (r: Result<(), String>)
        ensures
            r is Ok <==> self.boolean_subject(),
            r matches Err(m) ==> m@ == rendered_failure(
                self.render_context(),
                "bool to be <true>"@,
                "<false>"@,
            ),
    ;

    /// Asserts that the subject is false. The subject type must be `bool`.
    fn is_false(&self) -> (r: Result<(), String>)
        ensures
            r is Ok <==> !self.boolean_subject(),
            r matches Err(m) ==> m@ == rendered_failure(
                self.render_context(),
                "bool to be <false>"@,
                "<true>"@,
            ),
    ;
}

impl<'s> BooleanAssertions<'s> for Spec<'s, bool> {
    open spec fn boolean_subject(&self) -> bool {
        *self.subject
    }

    fn is_true(&self) -> (r: Result<(), String>) {
        if !*self.subject {
            let message = AssertionFailure::from_spec(self)
                .with_expected(String::from_str("bool to be <true>"))
                .with_actual(String::from_str("<false>"))
                .fail();
            Err(message)
        } else {
            Ok(())
        }
    }

    fn is_false(&self) -> (r: Result<(), String>) {
        if *self.subject {
            let message = AssertionFailure::from_spec(self)
                .with_expected(String::from_str("bool to be <false>"))
                .with_actual(String::from_str("<true>"))
                .fail();
            Err(message)
        } else {
            Ok(())
        }
    }
}

} // verus!
