//! Assertions for filesystem path subjects.
//!
//! Whether a path exists or resolves to a file or directory depends on what
//! is on disk when the probe runs, so no postcondition here can promise
//! success from the path value alone. Each probe is a trusted call that
//! returns a plain value, and a verified checker with an exact contract
//! decides the outcome for every value the probe can hand back.

use vstd::prelude::*;

use std::path::{Path, PathBuf};

use crate::string::str_eq;
use crate::{AssertionFailure, DescriptiveSpec, Spec, angled, angled_text, rendered_failure};

verus! {

#[verifier::external_type_specification]
#[verifier::external_body]
pub struct ExPath(Path);

#[verifier::external_type_specification]
#[verifier::external_body]
pub struct ExPathBuf(PathBuf);

/// Relies on `Path::exists` to probe the filesystem; the answer depends on
/// what is on disk when the probe runs.
#[verifier::external_body]
fn path_exists(path: &Path) -> bool {
    path.exists()
}

/// Relies on `Path::is_file` to probe the filesystem; the answer depends
/// on what is on disk when the probe runs.
#[verifier::external_body]
fn path_is_file(path: &Path) -> bool {
    path.is_file()
}

/// Relies on `Path::is_dir` to probe the filesystem; the answer depends on
/// what is on disk when the probe runs.
#[verifier::external_body]
fn path_is_dir(path: &Path) -> bool {
    path.is_dir()
}

/// Relies on `Path::file_name`: `None` when the path ends in `..` or has
/// no final component; otherwise the final component, as text when it is
/// valid UTF-8 and `None` inside when it is not.
#[verifier::external_body]
fn path_file_name(path: &Path) -> Option<Option<String>> {
    path.file_name().map(|name| name.to_str().map(|text| text.to_string()))
}

/// Relies on `PathBuf::as_path` to borrow the same path.
#[verifier::external_body]
fn pathbuf_as_path(path: &PathBuf) -> &Path {
    path.as_path()
}

/// The expected-file-name detail every file-name failure message opens
/// with.
pub open spec fn file_name_text(file_name: Seq<char>) -> Seq<char> {
    "Path with file name of "@ + angled_text(file_name)
}

/// Decides a probed path condition: succeeds exactly when the probe held,
/// and otherwise renders the given expectation and outcome.
pub fn check_path_condition<'s, D: DescriptiveSpec<'s>>(
    source: &'s D,
    holds: bool,
    expectation: String,
    outcome: String,
) -> (r: Result<(), String>)
    ensures
        r is Ok <==> holds,
        r matches Err(m) ==> m@ == rendered_failure(
            source.render_context(),
            expectation@,
            outcome@,
        ),
{
    if holds {
        Ok(())
    } else {
        let message = AssertionFailure::from_spec(source)
            .with_expected(expectation)
            .with_actual(outcome)
            .fail();
        Err(message)
    }
}

/// The expectation detail naming the probed path: the given prefix, the
/// rendered path in angle brackets, then the condition.
fn path_detail(prefix: &str, path_repr: &str, condition: &str) -> (r: String)
    ensures
        r@ == prefix@ + angled_text(path_repr@) + condition@,
{
    let mut out = String::from_str(prefix);
    let path_angled = angled(path_repr);
    out.append(path_angled.as_str());
    out.append(condition);
    proof {
        assert(out@ =~= prefix@ + angled_text(path_repr@) + condition@);
    }
    out
}

/// Asserts that `subject` refers to an existing location, reporting any
/// failure with the metadata of `source`.
pub fn does_exist<'s, D: DescriptiveSpec<'s>>(subject: &Path, source: &'s D) -> (r: Result<
    (),
    String,
>)
    ensures
        r matches Err(m) ==> exists|p: Seq<char>|
            m@ == rendered_failure(
                source.render_context(),
                "Path of "@ + angled_text(p) + " to exist"@,
                "a non-existent Path"@,
            ),
{
    let found = path_exists(subject);
    let path_repr = crate::debug_text(subject);
    check_path_condition(
        source,
        found,
        path_detail("Path of ", path_repr.as_str(), " to exist"),
        String::from_str("a non-existent Path"),
    )
}

/// Asserts that `subject` does not refer to an existing location,
/// reporting any failure with the metadata of `source`.
pub fn does_not_exist<'s, D: DescriptiveSpec<'s>>(subject: &Path, source: &'s D) -> (r: Result<
    (),
    String,
>)
    ensures
        r matches Err(m) ==> exists|p: Seq<char>|
            m@ == rendered_failure(
                source.render_context(),
                "Path of "@ + angled_text(p) + " to not exist"@,
                "a resolvable Path"@,
            ),
{
    let found = path_exists(subject);
    let path_repr = crate::debug_text(subject);
    check_path_condition(
        source,
        !found,
        path_detail("Path of ", path_repr.as_str(), " to not exist"),
        String::from_str("a resolvable Path"),
    )
}

/// Asserts that `subject` refers to an existing file, reporting any
/// failure with the metadata of `source`.
pub fn is_a_file<'s, D: DescriptiveSpec<'s>>(subject: &Path, source: &'s D) -> (r: Result<
    (),
    String,
>)
    ensures
        r matches Err(m) ==> exists|p: Seq<char>|
            m@ == rendered_failure(
                source.render_context(),
                "Path of "@ + angled_text(p) + " to be a file"@,
                "not a resolvable file"@,
            ),
{
    let found = path_is_file(subject);
    let path_repr = crate::debug_text(subject);
    check_path_condition(
        source,
        found,
        path_detail("Path of ", path_repr.as_str(), " to be a file"),
        String::from_str("not a resolvable file"),
    )
}

/// Asserts that `subject` refers to an existing directory, reporting any
/// failure with the metadata of `source`.
pub fn is_a_directory<'s, D: DescriptiveSpec<'s>>(subject: &Path, source: &'s D) -> (r: Result<
    (),
    String,
>)
    ensures
        r matches Err(m) ==> exists|p: Seq<char>|
            m@ == rendered_failure(
                source.render_context(),
                "Path of "@ + angled_text(p) + " to be a directory"@,
                "not a resolvable directory"@,
            ),
{
    let found = path_is_dir(subject);
    let path_repr = crate::debug_text(subject);
    check_path_condition(
        source,
        found,
        path_detail("Path of ", path_repr.as_str(), " to be a directory"),
        String::from_str("not a resolvable directory"),
    )
}

/// Renders the failure detail for a file name the path was expected to
/// have, exactly as `file_name_text` says.
pub fn build_file_name_message(file_name: &str) -> (r: String)
    ensures
        r@ == file_name_text(file_name@),
{
    let mut out = String::from_str("Path with file name of ");
    let name_angled = angled(file_name);
    out.append(name_angled.as_str());
    proof {
        assert(out@ =~= file_name_text(file_name@));
    }
    out
}

/// Renders the failure message for a file name the path did not have, with
/// the metadata of `source`.
pub fn fail_from_file_name<'s, D: DescriptiveSpec<'s>>(
    source: &'s D,
    expected: &str,
    actual: String,
) -> (r: String)
    ensures
        r@ == rendered_failure(source.render_context(), file_name_text(expected@), actual@),
{
    AssertionFailure::from_spec(source)
        .with_expected(build_file_name_message(expected))
        .with_actual(actual)
        .fail()
}

/// Decides a probed file name: succeeds exactly when the probe resolved a
/// name equal to the expected one, and otherwise says whether the name
/// differed, was not valid UTF-8, or was missing altogether.
pub fn check_file_name<'s, D: DescriptiveSpec<'s>>(
    source: &'s D,
    found: Option<Option<String>>,
    expected_file_name: &str,
    path_repr: &str,
) -> (r: Result<(), String>)
    ensures
        r is Ok <==> (found matches Some(resolved) && resolved matches Some(name) && name@
            == expected_file_name@),
        found matches Some(resolved) ==> (resolved matches Some(name) ==> (r matches Err(m)
            ==> m@ == rendered_failure(
            source.render_context(),
            file_name_text(expected_file_name@),
            angled_text(name@),
        ))),
        found matches Some(resolved) ==> (resolved is None ==> (r matches Err(m) ==> m@
            == rendered_failure(
            source.render_context(),
            file_name_text(expected_file_name@),
            "an invalid UTF-8 file name"@,
        ))),
        found is None ==> (r matches Err(m) ==> m@ == rendered_failure(
            source.render_context(),
            file_name_text(expected_file_name@),
            "a non-resolvable path "@ + angled_text(path_repr@),
        )),
{
    match found {
        Some(resolved) => match resolved {
            Some(name) => {
                if str_eq(name.as_str(), expected_file_name) {
                    Ok(())
                } else {
                    let message = fail_from_file_name(
                        source,
                        expected_file_name,
                        angled(name.as_str()),
                    );
                    Err(message)
                }
            },
            None => {
                let message = fail_from_file_name(
                    source,
                    expected_file_name,
                    String::from_str("an invalid UTF-8 file name"),
                );
                Err(message)
            },
        },
        None => {
            let mut outcome = String::from_str("a non-resolvable path ");
            let path_angled = angled(path_repr);
            outcome.append(path_angled.as_str());
            let message = fail_from_file_name(source, expected_file_name, outcome);
            Err(message)
        },
    }
}

/// Asserts that `subject` has the expected file name, reporting any
/// failure with the metadata of `source`.
pub fn has_file_name<'s, D: DescriptiveSpec<'s>>(
    subject: &Path,
    expected_file_name: &str,
    source: &'s D,
) -> (r: Result<(), String>)
    ensures
        r matches Err(m) ==> exists|a: Seq<char>|
            m@ == rendered_failure(
                source.render_context(),
                file_name_text(expected_file_name@),
                a,
            ),
{
    let found = path_file_name(subject);
    let path_repr = crate::debug_text(subject);
    check_file_name(source, found, expected_file_name, path_repr.as_str())
}

/// Assertions available once the subject is a filesystem path.
///
/// These probe the filesystem, so only the rendered failure message is
/// promised; whether they succeed depends on what is on disk.
pub trait PathAssertions<'s>: DescriptiveSpec<'s> {
    /// Asserts that the subject refers to an existing location.
    fn does_exist(&self) -> (r: Result<(), String>)
        ensures
            r matches Err(m) ==> exists|p: Seq<char>|
                m@ == rendered_failure(
                    self.render_context(),
                    "Path of "@ + angled_text(p) + " to exist"@,
                    "a non-existent Path"@,
                ),
    ;

    /// Asserts that the subject does not refer to an existing location.
    fn does_not_exist(&self) -> (r: Result<(), String>)
        ensures
            r matches Err(m) ==> exists|p: Seq<char>|
                m@ == rendered_failure(
                    self.render_context(),
                    "Path of "@ + angled_text(p) + " to not exist"@,
                    "a resolvable Path"@,
                ),
    ;

    /// Asserts that the subject refers to an existing file.
    fn is_a_file(&self) -> (r: Result<(), String>)
        ensures
            r matches Err(m) ==> exists|p: Seq<char>|
                m@ == rendered_failure(
                    self.render_context(),
                    "Path of "@ + angled_text(p) + " to be a file"@,
                    "not a resolvable file"@,
                ),
    ;

    /// Asserts that the subject refers to an existing directory.
    fn is_a_directory(&self) -> (r: Result<(), String>)
        ensures
            r matches Err(m) ==> exists|p: Seq<char>|
                m@ == rendered_failure(
                    self.render_context(),
                    "Path of "@ + angled_text(p) + " to be a directory"@,
                    "not a resolvable directory"@,
                ),
    ;

    /// Asserts that the subject has the expected file name.
    fn has_file_name(&self, expected_file_name: &str) -> (r: Result<(), String>)
        ensures
            r matches Err(m) ==> exists|a: Seq<char>|
                m@ == rendered_failure(
                    self.render_context(),
                    file_name_text(expected_file_name@),
                    a,
                ),
    ;
}

impl<'s> PathAssertions<'s> for Spec<'s, &'s Path> {
    fn does_exist(&self) -> (r: Result<(), String>) {
        does_exist(self.subject, self)
    }

    fn does_not_exist(&self) -> (r: Result<(), String>) {
        does_not_exist(self.subject, self)
    }

    fn is_a_file(&self) -> (r: Result<(), String>) {
        is_a_file(self.subject, self)
    }

    fn is_a_directory(&self) -> (r: Result<(), String>) {
        is_a_directory(self.subject, self)
    }

    fn has_file_name(&self, expected_file_name: &str) -> (r: Result<(), String>) {
        has_file_name(self.subject, expected_file_name, self)
    }
}

impl<'s> PathAssertions<'s> for Spec<'s, PathBuf> {
    fn does_exist(&self) -> (r: Result<(), String>) {
        does_exist(pathbuf_as_path(self.subject), self)
    }

    fn does_not_exist(&self) -> (r: Result<(), String>) {
        does_not_exist(pathbuf_as_path(self.subject), self)
    }

    fn is_a_file(&self) -> (r: Result<(), String>) {
        is_a_file(pathbuf_as_path(self.subject), self)
    }

    fn is_a_directory(&self) -> (r: Result<(), String>) {
        is_a_directory(pathbuf_as_path(self.subject), self)
    }

    fn has_file_name(&self, expected_file_name: &str) -> (r: Result<(), String>) {
        has_file_name(pathbuf_as_path(self.subject), expected_file_name, self)
    }
}

} // verus!
