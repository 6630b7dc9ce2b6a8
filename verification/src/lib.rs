//! Fluent assertions over borrowed subjects, with verified failure reporting.
//!
//! An assertion chain starts from [`assert_that`] (or from [`asserting`],
//! which first attaches a description) and wraps a borrowed subject in a
//! [`Spec`]. Assertion methods evaluate a condition over the subject and
//! either succeed, returning `Ok`, or return the fully rendered failure
//! message as an `Err`. The exact text of that message — which metadata
//! segments appear, in which order, and around which expected/actual
//! details — is specified by the spec functions in this module and proved
//! for every method that builds one.

use vstd::prelude::*;
use vstd::std_specs::cmp::PartialEqSpec;

pub mod boolean;
pub mod hashmap;
pub mod iter;
pub mod numeric;
pub mod option;
pub mod path;
pub mod prelude;
pub mod result;
pub mod string;
pub mod vec;

verus! {

/// The metadata that accompanies a failure message: an optional description,
/// an optional subject name, and an optional source location.
pub ghost struct RenderContext {
    pub description: Option<Seq<char>>,
    pub subject_name: Option<Seq<char>>,
    pub location: Option<Seq<char>>,
}

/// The view of an optional borrowed string.
pub open spec fn opt_str_view(s: Option<&str>) -> Option<Seq<char>> {
    match s {
        Some(v) => Some(v@),
        None => None,
    }
}

/// The view of an optional owned string.
pub open spec fn opt_string_view(s: Option<String>) -> Option<Seq<char>> {
    match s {
        Some(v) => Some(v@),
        None => None,
    }
}

/// The description segment of a failure message: absent descriptions
/// contribute nothing, not even a delimiter.
pub open spec fn description_text(description: Option<Seq<char>>) -> Seq<char> {
    match description {
        Some(text) => "\n\t"@ + text + ":"@,
        None => Seq::<char>::empty(),
    }
}

/// The subject-name segment of a failure message: absent names contribute
/// nothing, not even a delimiter.
pub open spec fn subject_name_text(subject_name: Option<Seq<char>>) -> Seq<char> {
    match subject_name {
        Some(text) => "\n\tfor subject ["@ + text + "]"@,
        None => Seq::<char>::empty(),
    }
}

/// The location segment of a failure message: absent locations contribute
/// nothing, not even a delimiter.
pub open spec fn location_text(location: Option<Seq<char>>) -> Seq<char> {
    match location {
        Some(text) => "\n\tat location: "@ + text + "\n"@,
        None => Seq::<char>::empty(),
    }
}

/// The full text of a failure message with structured expected/actual
/// details: description, then subject name, then the expected and actual
/// lines, then the location.
pub open spec fn rendered_failure(
    context: RenderContext,
    expected: Seq<char>,
    actual: Seq<char>,
) -> Seq<char> {
    description_text(context.description) + subject_name_text(context.subject_name)
        + "\n\texpected: "@ + expected + "\n\t but was: "@ + actual + "\n"@ + location_text(
        context.location,
    )
}

/// The full text of a failure message carrying one free-form line instead
/// of an expected/actual pair: description, then subject name, then the
/// message line, then the location.
pub open spec fn rendered_message(context: RenderContext, message: Seq<char>) -> Seq<char> {
    description_text(context.description) + subject_name_text(context.subject_name) + "\n\t"@
        + message + "\n"@ + location_text(context.location)
}

/// A value rendering wrapped in angle brackets, the convention every
/// expected/actual detail follows.
pub open spec fn angled_text(inner: Seq<char>) -> Seq<char> {
    "<"@ + inner + ">"@
}

/// The character a single decimal digit renders as.
pub open spec fn decimal_digit(d: nat) -> char
    recommends
        d < 10,
{
    seq!['0', '1', '2', '3', '4', '5', '6', '7', '8', '9'][d as int]
}

/// The decimal rendering of a natural number, most significant digit first.
pub open spec fn decimal_text(n: nat) -> Seq<char>
    decreases n,
{
    if n < 10 {
        seq![decimal_digit(n)]
    } else {
        decimal_text(n / 10).push(decimal_digit(n % 10))
    }
}

/// The one-character string slice for a single decimal digit.
fn digit_str(d: usize) -> (r: &'static str)
    requires
        d < 10,
    ensures
        r@ == seq![decimal_digit(d as nat)],
{
    let r = match d {
        0 => "0",
        1 => "1",
        2 => "2",
        3 => "3",
        4 => "4",
        5 => "5",
        6 => "6",
        7 => "7",
        8 => "8",
        _ => "9",
    };
    proof {
        reveal_strlit("0");
        reveal_strlit("1");
        reveal_strlit("2");
        reveal_strlit("3");
        reveal_strlit("4");
        reveal_strlit("5");
        reveal_strlit("6");
        reveal_strlit("7");
        reveal_strlit("8");
        reveal_strlit("9");
        assert(r@ =~= seq![decimal_digit(d as nat)]);
    }
    r
}

/// Renders a length or count in decimal, exactly as `decimal_text` says.
pub fn decimal_string(n: usize) -> (r: String)
    ensures
        r@ == decimal_text(n as nat),
    decreases n,
{
    if n < 10 {
        String::from_str(digit_str(n))
    } else {
        let mut prefix = decimal_string(n / 10);
        prefix.append(digit_str(n % 10));
        proof {
            assert(prefix@ =~= decimal_text(n as nat));
        }
        prefix
    }
}

/// A failure message assembles its segments in one fixed order —
/// description, subject name, the expected/actual block, location — and a
/// segment whose metadata is absent is omitted entirely, leaving no
/// delimiter behind.
pub proof fn lemma_failure_message_composition(
    description: Seq<char>,
    subject_name: Seq<char>,
    expected: Seq<char>,
    actual: Seq<char>,
    location: Seq<char>,
)
    ensures
        rendered_failure(
            RenderContext {
                description: Some(description),
                subject_name: Some(subject_name),
                location: Some(location),
            },
            expected,
            actual,
        ) =~= "\n\t"@ + description + ":"@ + "\n\tfor subject ["@ + subject_name + "]"@
            + "\n\texpected: "@ + expected + "\n\t but was: "@ + actual + "\n"@
            + "\n\tat location: "@ + location + "\n"@,
        rendered_failure(
            RenderContext {
                description: None,
                subject_name: Some(subject_name),
                location: Some(location),
            },
            expected,
            actual,
        ) =~= "\n\tfor subject ["@ + subject_name + "]"@ + "\n\texpected: "@ + expected
            + "\n\t but was: "@ + actual + "\n"@ + "\n\tat location: "@ + location + "\n"@,
        rendered_failure(
            RenderContext {
                description: Some(description),
                subject_name: None,
                location: Some(location),
            },
            expected,
            actual,
        ) =~= "\n\t"@ + description + ":"@ + "\n\texpected: "@ + expected + "\n\t but was: "@
            + actual + "\n"@ + "\n\tat location: "@ + location + "\n"@,
        rendered_failure(
            RenderContext {
                description: Some(description),
                subject_name: Some(subject_name),
                location: None,
            },
            expected,
            actual,
        ) =~= "\n\t"@ + description + ":"@ + "\n\tfor subject ["@ + subject_name + "]"@
            + "\n\texpected: "@ + expected + "\n\t but was: "@ + actual + "\n"@,
{
}

/// Something a failure message can be rendered from: it exposes the optional
/// description, subject name and location that the message opens and closes
/// with.
pub trait DescriptiveSpec<'r> {
    /// The metadata this source contributes to a rendered message.
    spec fn render_context(&self) -> RenderContext;

    /// The optional subject name, exactly as the render context has it.
    fn subject_name(&self) -> (r: Option<&'r str>)
        ensures
            opt_str_view(r) == self.render_context().subject_name,
    ;

    /// The optional location, exactly as the render context has it.
    fn location(&self) -> (r: Option<String>)
        ensures
            opt_string_view(r) == self.render_context().location,
    ;

    /// The optional description, exactly as the render context has it.
    fn description(&self) -> (r: Option<&'r str>)
        ensures
            opt_str_view(r) == self.render_context().description,
    ;
}

/// A failed assertion.
///
/// This exposes builder methods to construct the final failure message.
pub struct AssertionFailure<'r, T> {
    pub source: &'r T,
    pub expected: Option<String>,
    pub actual: Option<String>,
}

/// A description for an assertion.
///
/// This is created by the `asserting` function.
pub struct SpecDescription<'r> {
    pub value: &'r str,
    pub location: Option<String>,
}

/// An assertion.
///
/// This is created by either the `assert_that` function, or by calling
/// `that` on a `SpecDescription`.
pub struct Spec<'s, S> {
    pub subject: &'s S,
    pub subject_name: Option<&'s str>,
    pub location: Option<String>,
    pub description: Option<&'s str>,
}

/// Wraps a subject in a `Spec` to provide assertions against it.
///
/// The subject must be a reference.
pub fn assert_that<'s, S>(subject: &'s S) -> (r: Spec<'s, S>)
    ensures
        r.subject == subject,
        r.subject_name is None,
        r.location is None,
        r.description is None,
{
    Spec { subject, subject_name: None, location: None, description: None }
}

/// Describes an assertion.
pub fn asserting<'r>(description: &'r str) -> (r: SpecDescription<'r>)
    ensures
        r.value@ == description@,
        r.location is None,
{
    SpecDescription { value: description, location: None }
}

impl<'r> SpecDescription<'r> {
    /// Provides the location the assertion is made at.
    pub fn at_location(self, location: String) -> (r: Self)
        ensures
            r.value@ == self.value@,
            opt_string_view(r.location) == Some(location@),
    {
        SpecDescription { value: self.value, location: Some(location) }
    }

    /// Creates a new assertion, passing through its description.
    pub fn that<S>(self, subject: &'r S) -> (r: Spec<'r, S>)
        ensures
            r.subject == subject,
            r.subject_name is None,
            opt_string_view(r.location) == opt_string_view(self.location),
            opt_str_view(r.description) == Some(self.value@),
    {
        Spec {
            subject,
            subject_name: None,
            location: self.location,
            description: Some(self.value),
        }
    }
}

impl<'r, S> DescriptiveSpec<'r> for Spec<'r, S> {
    open spec fn render_context(&self) -> RenderContext {
        RenderContext {
            description: opt_str_view(self.description),
            subject_name: opt_str_view(self.subject_name),
            location: opt_string_view(self.location),
        }
    }

    fn subject_name(&self) -> (r: Option<&'r str>) {
        self.subject_name
    }

    fn location(&self) -> (r: Option<String>) {
        match &self.location {
            Some(l) => Some(l.clone()),
            None => None,
        }
    }

    fn description(&self) -> (r: Option<&'r str>) {
        self.description
    }
}

impl<'s, S> Spec<'s, S> {
    /// Provides the actual location of the assertion.
    ///
    /// The most recently provided location wins; any earlier one is
    /// forgotten.
    pub fn at_location(self, location: String) -> (r: Self)
        ensures
            r.subject == self.subject,
            opt_str_view(r.subject_name) == opt_str_view(self.subject_name),
            opt_string_view(r.location) == Some(location@),
            opt_str_view(r.description) == opt_str_view(self.description),
    {
        Spec {
            subject: self.subject,
            subject_name: self.subject_name,
            location: Some(location),
            description: self.description,
        }
    }

    /// Associates a name with the subject.
    ///
    /// This will be displayed if the assertion fails. The most recently
    /// provided name wins; any earlier one is forgotten.
    pub fn named(self, subject_name: &'s str) -> (r: Self)
        ensures
            r.subject == self.subject,
            opt_str_view(r.subject_name) == Some(subject_name@),
            opt_string_view(r.location) == opt_string_view(self.location),
            opt_str_view(r.description) == opt_str_view(self.description),
    {
        Spec {
            subject: self.subject,
            subject_name: Some(subject_name),
            location: self.location,
            description: self.description,
        }
    }
}

/// The condition `is_equal_to` checks: the subject equals the expected
/// value under the subject type's own equality.
pub open spec fn equal_check<S: PartialEq>(subject: &S, expected: &S) -> bool {
    subject.eq_spec(expected)
}

/// The condition `is_not_equal_to` checks: the subject differs from the
/// expected value under the subject type's own equality.
pub open spec fn unequal_check<S: PartialEq>(subject: &S, expected: &S) -> bool {
    !subject.eq_spec(expected)
}

/// An inequality assertion succeeds exactly when the corresponding equality
/// assertion fails: the two conditions are logical negations of each other
/// on every pair of values.
pub proof fn lemma_unequal_negates_equal<S: PartialEq>(subject: &S, expected: &S)
    ensures
        unequal_check(subject, expected) <==> !equal_check(subject, expected),
{
}

/// Setting a subject name or location again wins over any earlier value:
/// `named` and `at_location` fix the corresponding metadata field from
/// their argument alone, so two assertions that were last given the same
/// name render their failures with the same metadata, whatever names or
/// locations either carried before.
pub proof fn lemma_last_metadata_wins<'a, 'b, S>(
    first: Spec<'a, S>,
    second: Spec<'b, S>,
    subject_name: Seq<char>,
    location: Seq<char>,
)
    requires
        first.render_context().subject_name == Some(subject_name),
        second.render_context().subject_name == Some(subject_name),
        first.render_context().location == Some(location),
        second.render_context().location == Some(location),
        first.render_context().description == second.render_context().description,
    ensures
        first.render_context() == second.render_context(),
{
}

/// The condition an equality assertion checks depends on the subject value
/// alone: an assertion obtained by projecting a larger subject with `map`
/// and one built directly over the projected value check the same
/// condition, so projecting first never alters what `is_equal_to` decides.
pub proof fn lemma_map_preserves_equal_check<'a, 'b, T: PartialEq>(
    projected: Spec<'a, T>,
    direct: Spec<'b, T>,
    expected: &T,
)
    requires
        *projected.subject == *direct.subject,
    ensures
        equal_check(projected.subject, expected) == equal_check(direct.subject, expected),
{
}

/// Relies on the `Debug` implementation of the value's type to render it
/// for a failure message.
#[verifier::external_body]
pub(crate) fn debug_text<T: core::fmt::Debug + ?Sized>(value: &T) -> String {
    format!("{:?}", value)
}

/// Relies on the `Debug` implementation of the item type to render the
/// first `count` items of a vector for a failure message.
#[verifier::external_body]
pub(crate) fn debug_text_prefix<T: core::fmt::Debug>(items: &Vec<T>, count: usize) -> String
    requires
        count <= items@.len(),
{
    format!("{:?}", &items[..count])
}

/// Wraps an already-rendered value in the angle brackets every
/// expected/actual detail uses.
pub(crate) fn angled(inner: &str) -> (r: String)
    ensures
        r@ == angled_text(inner@),
{
    let mut out = String::from_str("<");
    out.append(inner);
    out.append(">");
    proof {
        assert(out@ =~= angled_text(inner@));
    }
    out
}

impl<'s, S> Spec<'s, S> where S: core::fmt::Debug + PartialEq {
    /// Asserts that the actual value and the expected value are equal. The
    /// value type must implement `PartialEq`.
    ///
    /// On failure the rendered message reports the expected and the actual
    /// value, each in angle brackets.
    pub fn is_equal_to(&self, expected: &S) -> (r: Result<(), String>)
        ensures
            S::obeys_eq_spec() ==> (r is Ok <==> equal_check(self.subject, expected)),
            r matches Err(m) ==> exists|e: Seq<char>, a: Seq<char>|
                m@ == rendered_failure(
                    self.render_context(),
                    angled_text(e),
                    angled_text(a),
                ),
    {
        if self.subject.eq(expected) {
            Ok(())
        } else {
            let expected_repr = debug_text(expected);
            let actual_repr = debug_text(self.subject);
            let message = AssertionFailure::from_spec(self)
                .with_expected(angled(expected_repr.as_str()))
                .with_actual(angled(actual_repr.as_str()))
                .fail();
            Err(message)
        }
    }

    /// Asserts that the actual value and the expected value are not equal.
    /// The value type must implement `PartialEq`.
    ///
    /// On failure both values are reported as equal, since they are.
    pub fn is_not_equal_to(&self, expected: &S) -> (r: Result<(), String>)
        ensures
            S::obeys_eq_spec() ==> (r is Ok <==> unequal_check(self.subject, expected)),
            r matches Err(m) ==> exists|s: Seq<char>, e: Seq<char>|
                m@ == rendered_failure(
                    self.render_context(),
                    angled_text(s) + " to not equal "@ + angled_text(e),
                    "equal"@,
                ),
    {
        if self.subject.eq(expected) {
            let subject_repr = debug_text(self.subject);
            let expected_repr = debug_text(expected);
            let mut detail = angled(subject_repr.as_str());
            detail.append(" to not equal ");
            let expected_angled = angled(expected_repr.as_str());
            detail.append(expected_angled.as_str());
            let message = AssertionFailure::from_spec(self)
                .with_expected(detail)
                .with_actual(String::from_str("equal"))
                .fail();
            proof {
                assert(angled_text(subject_repr@) + " to not equal "@ + angled_text(expected_repr@)
                    =~= angled_text(subject_repr@) + (" to not equal "@ + angled_text(
                    expected_repr@,
                )));
            }
            Err(message)
        } else {
            Ok(())
        }
    }
}

impl<'s, S> Spec<'s, S> where S: core::fmt::Debug {
    /// Accepts a function taking the subject and returning a bool.
    /// Returning false will cause the assertion to fail.
    ///
    /// The rendered message only states the actual value, since the
    /// predicate's meaning is opaque to this library.
    pub fn matches<F: Fn(&'s S) -> bool>(&self, matching_function: F) -> (r: Result<(), String>)
        requires
            call_requires(matching_function, (self.subject,)),
        ensures
            r is Ok ==> call_ensures(matching_function, (self.subject,), true),
            r is Err ==> call_ensures(matching_function, (self.subject,), false),
            r matches Err(m) ==> exists|v: Seq<char>|
                m@ == rendered_message(
                    self.render_context(),
                    "expectation failed for value "@ + angled_text(v),
                ),
    {
        if matching_function(self.subject) {
            Ok(())
        } else {
            let value_repr = debug_text(self.subject);
            let mut line = String::from_str("expectation failed for value ");
            let value_angled = angled(value_repr.as_str());
            line.append(value_angled.as_str());
            let message = AssertionFailure::from_spec(self).fail_with_message(line);
            proof {
                assert(line@ =~= "expectation failed for value "@ + angled_text(value_repr@));
            }
            Err(message)
        }
    }

    /// Transforms the subject of the `Spec` by passing it through to the
    /// provided mapping function, keeping the description, subject name and
    /// location for any later failure.
    pub fn map<T, F: Fn(&'s S) -> &'s T>(self, mapping_function: F) -> (r: Spec<'s, T>)
        requires
            call_requires(mapping_function, (self.subject,)),
        ensures
            call_ensures(mapping_function, (self.subject,), r.subject),
            r.render_context() == self.render_context(),
    {
        Spec {
            subject: mapping_function(self.subject),
            subject_name: self.subject_name,
            location: self.location,
            description: self.description,
        }
    }
}

impl<'r, T: DescriptiveSpec<'r>> AssertionFailure<'r, T> {
    /// The text `fail` renders: the failure message when both details were
    /// provided, and the fixed contract-violation text otherwise.
    pub open spec fn failure_text(&self) -> Seq<char> {
        match (self.expected, self.actual) {
            (Some(expected), Some(actual)) => rendered_failure(
                self.source.render_context(),
                expected@,
                actual@,
            ),
            _ => "invalid assertion"@,
        }
    }

    /// Construct a new AssertionFailure from a DescriptiveSpec.
    pub fn from_spec(source: &'r T) -> (r: AssertionFailure<'r, T>)
        ensures
            r.source == source,
            r.expected is None,
            r.actual is None,
    {
        AssertionFailure { source, expected: None, actual: None }
    }

    /// Builder method to add the expected value for the failure message.
    pub fn with_expected(self, expected: String) -> (r: Self)
        ensures
            r.source == self.source,
            opt_string_view(r.expected) == Some(expected@),
            opt_string_view(r.actual) == opt_string_view(self.actual),
    {
        AssertionFailure { source: self.source, expected: Some(expected), actual: self.actual }
    }

    /// Builder method to add the actual value for the failure message.
    pub fn with_actual(self, actual: String) -> (r: Self)
        ensures
            r.source == self.source,
            opt_string_view(r.expected) == opt_string_view(self.expected),
            opt_string_view(r.actual) == Some(actual@),
    {
        AssertionFailure { source: self.source, expected: self.expected, actual: Some(actual) }
    }

    /// Builds the failure message with a description (if present), the
    /// expected value, and the actual value. Asking for the message while
    /// either detail is missing is a misuse of this builder and yields the
    /// fixed "invalid assertion" text instead of a rendered message.
    pub fn fail(&self) -> (r: String)
        ensures
            r@ == self.failure_text(),
    {
        match (&self.expected, &self.actual) {
            (Some(expected), Some(actual)) => {
                let mut out = self.maybe_build_description();
                let subject_name = self.maybe_build_subject_name();
                out.append(subject_name.as_str());
                out.append("\n\texpected: ");
                out.append(expected.as_str());
                out.append("\n\t but was: ");
                out.append(actual.as_str());
                out.append("\n");
                let location = self.maybe_build_location();
                out.append(location.as_str());
                proof {
                    assert(out@ =~= self.failure_text());
                }
                out
            },
            _ => {
                let out = String::from_str("invalid assertion");
                out
            },
        }
    }

    /// Builds a failure message around the provided free-form line,
    /// prepending the assertion description if present.
    pub fn fail_with_message(&self, message: String) -> (r: String)
        ensures
            r@ == rendered_message(self.source.render_context(), message@),
    {
        let mut out = self.maybe_build_description();
        let subject_name = self.maybe_build_subject_name();
        out.append(subject_name.as_str());
        out.append("\n\t");
        out.append(message.as_str());
        out.append("\n");
        let location = self.maybe_build_location();
        out.append(location.as_str());
        proof {
            assert(out@ =~= rendered_message(self.source.render_context(), message@));
        }
        out
    }

    fn maybe_build_location(&self) -> (r: String)
        ensures
            r@ == location_text(self.source.render_context().location),
    {
        match self.source.location() {
            Some(value) => {
                let mut out = String::from_str("\n\tat location: ");
                out.append(value.as_str());
                out.append("\n");
                proof {
                    assert(out@ =~= location_text(self.source.render_context().location));
                }
                out
            },
            None => String::new(),
        }
    }

    fn maybe_build_description(&self) -> (r: String)
        ensures
            r@ == description_text(self.source.render_context().description),
    {
        match self.source.description() {
            Some(value) => {
                let mut out = String::from_str("\n\t");
                out.append(value);
                out.append(":");
                proof {
                    assert(out@ =~= description_text(self.source.render_context().description));
                }
                out
            },
            None => String::new(),
        }
    }

    fn maybe_build_subject_name(&self) -> (r: String)
        ensures
            r@ == subject_name_text(self.source.render_context().subject_name),
    {
        match self.source.subject_name() {
            Some(value) => {
                let mut out = String::from_str("\n\tfor subject [");
                out.append(value);
                out.append("]");
                proof {
                    assert(out@ =~= subject_name_text(self.source.render_context().subject_name));
                }
                out
            },
            None => String::new(),
        }
    }
}

} // verus!
