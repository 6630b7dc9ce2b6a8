//! Assertions for string subjects, over both `&str` and `String`.

use vstd::prelude::*;
use vstd::seq_lib::*;

use crate::{AssertionFailure, DescriptiveSpec, Spec, angled, angled_text, rendered_failure};

verus! {

/// Whether `pattern` occurs anywhere inside `text` as a contiguous run of
/// characters.
pub open spec fn contains_text(text: Seq<char>, pattern: Seq<char>) -> bool {
    exists|i: int|
        0 <= i && i + pattern.len() <= text.len() && #[trigger] text.subrange(
            i,
            i + pattern.len() as int,
        ) == pattern
}

/// Whether the characters of `text` from `at` onwards start with `pattern`.
fn matches_at(text: &str, pattern: &str, at: usize, text_len: usize, pattern_len: usize) -> (r:
    bool)
    requires
        text_len == text@.len(),
        pattern_len == pattern@.len(),
        at + pattern_len <= text_len,
    ensures
        r == (text@.subrange(at as int, at as int + pattern@.len() as int) == pattern@),
{
    let mut j: usize = 0;
    while j < pattern_len
        invariant
            0 <= j <= pattern_len,
            text_len == text@.len(),
            pattern_len == pattern@.len(),
            at + pattern_len <= text_len,
            forall|k: int| 0 <= k < j ==> text@[at + k] == pattern@[k],
        decreases pattern_len - j,
    {
        if text.get_char(at + j) != pattern.get_char(j) {
            proof {
                let sub = text@.subrange(at as int, at as int + pattern@.len() as int);
                if sub == pattern@ {
                    assert(sub[j as int] == text@[at + j]);
                }
            }
            return false;
        }
        j += 1;
    }
    proof {
        assert(text@.subrange(at as int, at as int + pattern@.len() as int) =~= pattern@);
    }
    true
}

/// Whether `prefix` is an initial segment of `text`.
pub(crate) fn str_starts_with(text: &str, prefix: &str) -> (r: bool)
    ensures
        r == prefix@.is_prefix_of(text@),
{
    let text_len = text.unicode_len();
    let prefix_len = prefix.unicode_len();
    if prefix_len > text_len {
        return false;
    }
    let r = matches_at(text, prefix, 0, text_len, prefix_len);
    proof {
        if r {
            assert(prefix@ =~= text@.subrange(0, prefix@.len() as int));
        }
    }
    r
}

/// Whether `suffix` is a final segment of `text`.
pub(crate) fn str_ends_with(text: &str, suffix: &str) -> (r: bool)
    ensures
        r == suffix@.is_suffix_of(text@),
{
    let text_len = text.unicode_len();
    let suffix_len = suffix.unicode_len();
    if suffix_len > text_len {
        return false;
    }
    let r = matches_at(text, suffix, text_len - suffix_len, text_len, suffix_len);
    proof {
        assert(r == (suffix@ =~= text@.subrange(
            text@.len() - suffix@.len(),
            text@.len() as int,
        )));
    }
    r
}

/// Whether `pattern` occurs anywhere inside `text`.
pub(crate) fn str_contains(text: &str, pattern: &str) -> (r: bool)
    ensures
        r == contains_text(text@, pattern@),
{
    let text_len = text.unicode_len();
    let pattern_len = pattern.unicode_len();
    if pattern_len > text_len {
        return false;
    }
    if pattern_len == 0 {
        proof {
            assert(text@.subrange(0, 0 + pattern@.len() as int) =~= pattern@);
        }
        return true;
    }
    let mut i: usize = 0;
    while i <= text_len - pattern_len
        invariant
            text_len == text@.len(),
            pattern_len == pattern@.len(),
            0 < pattern_len <= text_len,
            0 <= i <= text_len - pattern_len + 1,
            forall|k: int|
                0 <= k < i ==> #[trigger] text@.subrange(k, k + pattern@.len() as int)
                    != pattern@,
        decreases text_len - pattern_len + 1 - i,
    {
        if matches_at(text, pattern, i, text_len, pattern_len) {
            proof {
                assert(contains_text(text@, pattern@)) by {
                    assert(text@.subrange(i as int, i as int + pattern@.len() as int)
                        == pattern@);
                }
            }
            return true;
        }
        i += 1;
    }
    false
}

/// Whether two string slices hold the same characters.
pub(crate) fn str_eq(a: &str, b: &str) -> (r: bool)
    ensures
        r == (a@ == b@),
{
    let a_len = a.unicode_len();
    let b_len = b.unicode_len();
    if a_len != b_len {
        return false;
    }
    let r = str_starts_with(b, a);
    proof {
        if r {
            assert(a@ =~= b@);
        } else {
            if a@ == b@ {
                assert(a@ =~= b@.subrange(0, a@.len() as int));
            }
        }
    }
    r
}

/// Asserts that `subject` starts with `expected`, reporting any failure
/// with the metadata of `source`.
pub fn starts_with<'s, D: DescriptiveSpec<'s>>(source: &'s D, subject: &str, expected: &str) -> (r:
    Result<(), String>)
    ensures
        r is Ok <==> expected@.is_prefix_of(subject@),
        r matches Err(m) ==> exists|e: Seq<char>, s: Seq<char>|
            m@ == rendered_failure(
                source.render_context(),
                "string starting with "@ + angled_text(e),
                angled_text(s),
            ),
{
    if !str_starts_with(subject, expected) {
        let expected_repr = crate::debug_text(expected);
        let subject_repr = crate::debug_text(subject);
        let mut detail = String::from_str("string starting with ");
        let expected_angled = angled(expected_repr.as_str());
        detail.append(expected_angled.as_str());
        let message = AssertionFailure::from_spec(source)
            .with_expected(detail)
            .with_actual(angled(subject_repr.as_str()))
            .fail();
        Err(message)
    } else {
        Ok(())
    }
}

/// Asserts that `subject` ends with `expected`, reporting any failure with
/// the metadata of `source`.
pub fn ends_with<'s, D: DescriptiveSpec<'s>>(source: &'s D, subject: &str, expected: &str) -> (r:
    Result<(), String>)
    ensures
        r is Ok <==> expected@.is_suffix_of(subject@),
        r matches Err(m) ==> exists|e: Seq<char>, s: Seq<char>|
            m@ == rendered_failure(
                source.render_context(),
                "string ending with "@ + angled_text(e),
                angled_text(s),
            ),
{
    if !str_ends_with(subject, expected) {
        let expected_repr = crate::debug_text(expected);
        let subject_repr = crate::debug_text(subject);
        let mut detail = String::from_str("string ending with ");
        let expected_angled = angled(expected_repr.as_str());
        detail.append(expected_angled.as_str());
        let message = AssertionFailure::from_spec(source)
            .with_expected(detail)
            .with_actual(angled(subject_repr.as_str()))
            .fail();
        Err(message)
    } else {
        Ok(())
    }
}

/// Asserts that `subject` contains `expected`, reporting any failure with
/// the metadata of `source`.
pub fn contains<'s, D: DescriptiveSpec<'s>>(source: &'s D, subject: &str, expected: &str) -> (r:
    Result<(), String>)
    ensures
        r is Ok <==> contains_text(subject@, expected@),
        r matches Err(m) ==> exists|e: Seq<char>, s: Seq<char>|
            m@ == rendered_failure(
                source.render_context(),
                "string containing "@ + angled_text(e),
                angled_text(s),
            ),
{
    if !str_contains(subject, expected) {
        let expected_repr = crate::debug_text(expected);
        let subject_repr = crate::debug_text(subject);
        let mut detail = String::from_str("string containing ");
        let expected_angled = angled(expected_repr.as_str());
        detail.append(expected_angled.as_str());
        let message = AssertionFailure::from_spec(source)
            .with_expected(detail)
            .with_actual(angled(subject_repr.as_str()))
            .fail();
        Err(message)
    } else {
        Ok(())
    }
}

/// Assertions available once the subject is a string.
pub trait StrAssertions<'s>: DescriptiveSpec<'s> {
    /// The characters of the subject string.
    spec fn text_subject(&self) -> Seq<char>;

    /// Asserts that the subject starts with the provided `&str`.
    fn starts_with(&self, expected: &str) -> (r: Result<(), String>)
        ensures
            r is Ok <==> expected@.is_prefix_of(self.text_subject()),
            r matches Err(m) ==> exists|e: Seq<char>, s: Seq<char>|
                m@ == rendered_failure(
                    self.render_context(),
                    "string starting with "@ + angled_text(e),
                    angled_text(s),
                ),
    ;

    /// Asserts that the subject ends with the provided `&str`.
    fn ends_with(&self, expected: &str) -> (r: Result<(), String>)
        ensures
            r is Ok <==> expected@.is_suffix_of(self.text_subject()),
            r matches Err(m) ==> exists|e: Seq<char>, s: Seq<char>|
                m@ == rendered_failure(
                    self.render_context(),
                    "string ending with "@ + angled_text(e),
                    angled_text(s),
                ),
    ;

    /// Asserts that the subject contains the provided `&str`.
    fn contains(&self, expected: &str) -> (r: Result<(), String>)
        ensures
            r is Ok <==> contains_text(self.text_subject(), expected@),
            r matches Err(m) ==> exists|e: Seq<char>, s: Seq<char>|
                m@ == rendered_failure(
                    self.render_context(),
                    "string containing "@ + angled_text(e),
                    angled_text(s),
                ),
    ;
}

impl<'s> StrAssertions<'s> for Spec<'s, &'s str> {
    open spec fn text_subject(&self) -> Seq<char> {
        (*self.subject)@
    }

    fn starts_with(&self, expected: &str) -> (r: Result<(), String>) {
        starts_with(self, self.subject, expected)
    }

    fn ends_with(&self, expected: &str) -> (r: Result<(), String>) {
        ends_with(self, self.subject, expected)
    }

    fn contains(&self, expected: &str) -> (r: Result<(), String>) {
        contains(self, self.subject, expected)
    }
}

impl<'s> StrAssertions<'s> for Spec<'s, String> {
    open spec fn text_subject(&self) -> Seq<char> {
        self.subject@
    }

    fn starts_with(&self, expected: &str) -> (r: Result<(), String>) {
        starts_with(self, self.subject.as_str(), expected)
    }

    fn ends_with(&self, expected: &str) -> (r: Result<(), String>) {
        ends_with(self, self.subject.as_str(), expected)
    }

    fn contains(&self, expected: &str) -> (r: Result<(), String>) {
        contains(self, self.subject.as_str(), expected)
    }
}

} // verus!
