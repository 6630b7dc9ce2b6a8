//! Assertions for `Vec` subjects.

use vstd::prelude::*;

use crate::{
    AssertionFailure, DescriptiveSpec, Spec, angled_text, decimal_string, decimal_text,
    rendered_failure,
};

verus! {

/// Assertions available once the subject is a vector (or a reference to
/// one): they only read its length.
pub trait VecAssertions<'s>: DescriptiveSpec<'s> {
    /// The length of the subject vector.
    spec fn subject_length(&self) -> nat;

    /// Asserts that the length of the subject vector is equal to the
    /// provided length.
    fn has_length(&self, expected: usize) -> (r: Result<(), String>)
        ensures
            r is Ok <==> self.subject_length() == expected,
            r matches Err(m) ==> m@ == rendered_failure(
                self.render_context(),
                "vec to have length "@ + angled_text(decimal_text(expected as nat)),
                angled_text(decimal_text(self.subject_length())),
            ),
    ;

    /// Asserts that the subject vector is empty.
    fn is_empty(&self) -> (r: Result<(), String>)
        ensures
            r is Ok <==> self.subject_length() == 0,
            r matches Err(m) ==> m@ == rendered_failure(
                self.render_context(),
                "an empty vec"@,
                "a vec with length "@ + angled_text(decimal_text(self.subject_length())),
            ),
    ;
}

/// The failure detail `has_length` reports: the expected or found length in
/// angle brackets after the given prefix.
fn length_detail(prefix: &str, length: usize) -> (r: String)
    ensures
        r@ == prefix@ + angled_text(decimal_text(length as nat)),
{
    let mut out = String::from_str(prefix);
    out.append("<");
    let digits = decimal_string(length);
    out.append(digits.as_str());
    out.append(">");
    proof {
        assert(out@ =~= prefix@ + angled_text(decimal_text(length as nat)));
    }
    out
}

impl<'s, T> VecAssertions<'s> for Spec<'s, Vec<T>> {
    open spec fn subject_length(&self) -> nat {
        self.subject@.len()
    }

    fn has_length(&self, expected: usize) -> (r: Result<(), String>) {
        let length = self.subject.len();
        if length != expected {
            let message = AssertionFailure::from_spec(self)
                .with_expected(length_detail("vec to have length ", expected))
                .with_actual(length_detail("", length))
                .fail();
            proof {
                reveal_strlit("");
                assert(""@ + angled_text(decimal_text(length as nat)) =~= angled_text(
                    decimal_text(length as nat),
                ));
            }
            Err(message)
        } else {
            Ok(())
        }
    }

    fn is_empty(&self) -> (r: Result<(), String>) {
        if self.subject.len() != 0 {
            let message = AssertionFailure::from_spec(self)
                .with_expected(String::from_str("an empty vec"))
                .with_actual(length_detail("a vec with length ", self.subject.len()))
                .fail();
            Err(message)
        } else {
            Ok(())
        }
    }
}

impl<'s, T> VecAssertions<'s> for Spec<'s, &'s Vec<T>> {
    open spec fn subject_length(&self) -> nat {
        (*self.subject)@.len()
    }

    fn has_length(&self, expected: usize) -> (r: Result<(), String>) {
        let length = self.subject.len();
        if length != expected {
            let message = AssertionFailure::from_spec(self)
                .with_expected(length_detail("vec to have length ", expected))
                .with_actual(length_detail("", length))
                .fail();
            proof {
                reveal_strlit("");
                assert(""@ + angled_text(decimal_text(length as nat)) =~= angled_text(
                    decimal_text(length as nat),
                ));
            }
            Err(message)
        } else {
            Ok(())
        }
    }

    fn is_empty(&self) -> (r: Result<(), String>) {
        if self.subject.len() != 0 {
            let message = AssertionFailure::from_spec(self)
                .with_expected(String::from_str("an empty vec"))
                .with_actual(length_detail("a vec with length ", self.subject.len()))
                .fail();
            Err(message)
        } else {
            Ok(())
        }
    }
}

} // verus!
