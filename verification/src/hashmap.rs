//! Assertions for `HashMap` subjects.
//!
//! A hash map only behaves like its mathematical view when Verus can model
//! its key type; the postconditions below therefore promise the outcome
//! under `obeys_key_model` for the key type, and always pin down the shape
//! of the failure message.

use vstd::prelude::*;
use vstd::std_specs::cmp::PartialEqSpec;
use vstd::std_specs::hash::obeys_key_model;

use core::hash::Hash;
use std::collections::HashMap;

use crate::{
    AssertionFailure, DescriptiveSpec, Spec, angled, angled_text, decimal_text, decimal_string,
    rendered_failure,
};

verus! {

broadcast use vstd::std_specs::hash::group_hash_axioms;

/// The failure detail naming the entry a map was expected to hold: the
/// rendered key, then the rendered value, each in angle brackets.
pub open spec fn entry_text(key: Seq<char>, value: Seq<char>) -> Seq<char> {
    "hashmap containing key "@ + angled_text(key) + " with value "@ + angled_text(value)
}

/// Assertions available once the subject is a `HashMap`.
pub trait HashMapAssertions<'s, K: Hash + Eq + core::fmt::Debug, V: core::fmt::Debug>:
    DescriptiveSpec<'s> {
    /// The subject the assertions below are checked against.
    spec fn map_subject(&self) -> Map<K, V>;

    /// Asserts that the length of the subject hashmap is equal to the
    /// provided length.
    fn has_length(&self, expected: usize) -> (r: Result<(), String>)
        ensures
            obeys_key_model::<K>() ==> (r is Ok <==> self.map_subject().dom().len() == expected),
            obeys_key_model::<K>() ==> (r matches Err(m) ==> m@ == rendered_failure(
                self.render_context(),
                "hashmap to have length "@ + angled_text(decimal_text(expected as nat)),
                angled_text(decimal_text(self.map_subject().dom().len())),
            )),
            r matches Err(m) ==> exists|n: Seq<char>|
                m@ == rendered_failure(
                    self.render_context(),
                    "hashmap to have length "@ + angled_text(decimal_text(expected as nat)),
                    angled_text(n),
                ),
    ;

    /// Asserts that the subject hashmap is empty.
    fn is_empty(&self) -> (r: Result<(), String>)
        ensures
            r is Ok <==> self.map_subject().is_empty(),
            obeys_key_model::<K>() ==> (r matches Err(m) ==> m@ == rendered_failure(
                self.render_context(),
                "an empty hashmap"@,
                "a hashmap with length "@ + angled_text(
                    decimal_text(self.map_subject().dom().len()),
                ),
            )),
            r matches Err(m) ==> exists|n: Seq<char>|
                m@ == rendered_failure(
                    self.render_context(),
                    "an empty hashmap"@,
                    "a hashmap with length "@ + angled_text(n),
                ),
    ;

    /// Asserts that the subject hashmap contains the expected key.
    ///
    /// On success this returns a new assertion over the associated value,
    /// keeping the description, subject name and location.
    fn contains_key(&self, expected_key: &K) -> (r: Result<Spec<'s, V>, String>)
        ensures
            obeys_key_model::<K>() ==> (r is Ok <==> self.map_subject().contains_key(
                *expected_key,
            )),
            r matches Ok(inner) ==> inner.render_context() == self.render_context(),
            obeys_key_model::<K>() ==> (r matches Ok(inner) ==> self.map_subject().contains_key(
                *expected_key,
            ) && *inner.subject == self.map_subject()[*expected_key]),
            r matches Err(m) ==> exists|e: Seq<char>, keys: Seq<char>|
                m@ == rendered_failure(
                    self.render_context(),
                    "hashmap to contain key "@ + angled_text(e),
                    angled_text(keys),
                ),
    ;

    /// Asserts that the subject hashmap does not contain the provided key.
    fn does_not_contain_key(&self, expected_key: &K) -> (r: Result<(), String>)
        ensures
            obeys_key_model::<K>() ==> (r is Ok <==> !self.map_subject().contains_key(
                *expected_key,
            )),
            r matches Err(m) ==> exists|e: Seq<char>|
                m@ == rendered_failure(
                    self.render_context(),
                    "hashmap to not contain key "@ + angled_text(e),
                    "present in hashmap"@,
                ),
    ;

    /// Asserts that the subject hashmap contains the expected key with the
    /// expected value.
    fn contains_entry(&self, expected_key: &K, expected_value: &V) -> (r: Result<
        (),
        String,
    >) where V: PartialEq
        ensures
            obeys_key_model::<K>() && V::obeys_eq_spec() ==> (r is Ok <==> (
            self.map_subject().contains_key(*expected_key)
                && self.map_subject()[*expected_key].eq_spec(expected_value))),
            obeys_key_model::<K>() ==> (self.map_subject().contains_key(*expected_key) ==> (
            r matches Err(m) ==> exists|k: Seq<char>, v: Seq<char>, a: Seq<char>|
                m@ == rendered_failure(
                    self.render_context(),
                    entry_text(k, v),
                    "key "@ + angled_text(k) + " with value "@ + angled_text(a) + " instead"@,
                ))),
            obeys_key_model::<K>() ==> (!self.map_subject().contains_key(*expected_key) ==> (
            r matches Err(m) ==> exists|k: Seq<char>, v: Seq<char>, keys: Seq<char>|
                m@ == rendered_failure(
                    self.render_context(),
                    entry_text(k, v),
                    "no matching key, keys are "@ + angled_text(keys),
                ))),
            r matches Err(m) ==> exists|e: Seq<char>, a: Seq<char>|
                m@ == rendered_failure(self.render_context(), e, a),
    ;

    /// Asserts that the subject hashmap does not contain the provided key
    /// and value.
    fn does_not_contain_entry(&self, expected_key: &K, expected_value: &V) -> (r: Result<
        (),
        String,
    >) where V: PartialEq
        ensures
            obeys_key_model::<K>() && V::obeys_eq_spec() ==> (r is Ok <==> !(
            self.map_subject().contains_key(*expected_key)
                && self.map_subject()[*expected_key].eq_spec(expected_value))),
            r matches Err(m) ==> exists|e: Seq<char>, v: Seq<char>|
                m@ == rendered_failure(
                    self.render_context(),
                    "hashmap to not contain key "@ + angled_text(e) + " with value "@
                        + angled_text(v),
                    "present in hashmap"@,
                ),
    ;
}

/// Relies on `HashMap::keys` to list the keys for a failure message; the
/// order they are printed in is whatever order the map yields them in.
#[verifier::external_body]
fn keys_text<K: core::fmt::Debug, V>(map: &HashMap<K, V>) -> String {
    let keys: Vec<&K> = map.keys().collect();
    format!("{:?}", keys)
}

/// The failure detail reporting a key the map was expected to hold or not
/// to hold.
fn key_detail(prefix: &str, key_repr: &str) -> (r: String)
    ensures
        r@ == prefix@ + angled_text(key_repr@),
{
    let mut out = String::from_str(prefix);
    let key_angled = angled(key_repr);
    out.append(key_angled.as_str());
    proof {
        assert(out@ =~= prefix@ + angled_text(key_repr@));
    }
    out
}

impl<'s, K: Hash + Eq + core::fmt::Debug, V: core::fmt::Debug> HashMapAssertions<'s, K, V>
    for Spec<'s, HashMap<K, V>> {
    open spec fn map_subject(&self) -> Map<K, V> {
        self.subject@
    }

    fn has_length(&self, expected: usize) -> (r: Result<(), String>) {
        let length = self.subject.len();
        if length != expected {
            let mut detail = String::from_str("hashmap to have length ");
            let expected_digits = decimal_string(expected);
            detail.append("<");
            detail.append(expected_digits.as_str());
            detail.append(">");
            let length_digits = decimal_string(length);
            let message = AssertionFailure::from_spec(self)
                .with_expected(detail)
                .with_actual(angled(length_digits.as_str()))
                .fail();
            proof {
                assert("hashmap to have length "@ + angled_text(decimal_text(expected as nat))
                    =~= ("hashmap to have length "@ + "<"@) + decimal_text(expected as nat)
                    + ">"@);
            }
            Err(message)
        } else {
            Ok(())
        }
    }

    fn is_empty(&self) -> (r: Result<(), String>) {
        if !self.subject.is_empty() {
            let length_digits = decimal_string(self.subject.len());
            let message = AssertionFailure::from_spec(self)
                .with_expected(String::from_str("an empty hashmap"))
                .with_actual(key_detail("a hashmap with length ", length_digits.as_str()))
                .fail();
            Err(message)
        } else {
            Ok(())
        }
    }

    fn contains_key(&self, expected_key: &K) -> (r: Result<Spec<'s, V>, String>) {
        match self.subject.get(expected_key) {
            Some(value) => Ok(
                Spec {
                    subject: value,
                    subject_name: self.subject_name,
                    location: match &self.location {
                        Some(l) => Some(l.clone()),
                        None => None,
                    },
                    description: self.description,
                },
            ),
            None => {
                let key_repr = crate::debug_text(expected_key);
                let keys_repr = keys_text(self.subject);
                let message = AssertionFailure::from_spec(self)
                    .with_expected(key_detail("hashmap to contain key ", key_repr.as_str()))
                    .with_actual(angled(keys_repr.as_str()))
                    .fail();
                Err(message)
            },
        }
    }

    fn does_not_contain_key(&self, expected_key: &K) -> (r: Result<(), String>) {
        if self.subject.get(expected_key).is_some() {
            let key_repr = crate::debug_text(expected_key);
            let message = AssertionFailure::from_spec(self)
                .with_expected(key_detail("hashmap to not contain key ", key_repr.as_str()))
                .with_actual(String::from_str("present in hashmap"))
                .fail();
            Err(message)
        } else {
            Ok(())
        }
    }

    fn contains_entry(&self, expected_key: &K, expected_value: &V) -> (r: Result<
        (),
        String,
    >) where V: PartialEq {
        let key_repr = crate::debug_text(expected_key);
        let value_repr = crate::debug_text(expected_value);
        match self.subject.get(expected_key) {
            Some(value) => {
                if value.eq(expected_value) {
                    Ok(())
                } else {
                    let actual_repr = crate::debug_text(value);
                    let message = AssertionFailure::from_spec(self)
                        .with_expected(entry_detail(key_repr.as_str(), value_repr.as_str()))
                        .with_actual(instead_detail(key_repr.as_str(), actual_repr.as_str()))
                        .fail();
                    Err(message)
                }
            },
            None => {
                let keys_repr = keys_text(self.subject);
                let message = AssertionFailure::from_spec(self)
                    .with_expected(entry_detail(key_repr.as_str(), value_repr.as_str()))
                    .with_actual(key_detail("no matching key, keys are ", keys_repr.as_str()))
                    .fail();
                Err(message)
            },
        }
    }

    fn does_not_contain_entry(&self, expected_key: &K, expected_value: &V) -> (r: Result<
        (),
        String,
    >) where V: PartialEq {
        match self.subject.get(expected_key) {
            Some(value) => {
                if !value.eq(expected_value) {
                    Ok(())
                } else {
                    let key_repr = crate::debug_text(expected_key);
                    let value_repr = crate::debug_text(expected_value);
                    let mut detail = String::from_str("hashmap to not contain key ");
                    let key_angled = angled(key_repr.as_str());
                    detail.append(key_angled.as_str());
                    detail.append(" with value ");
                    let value_angled = angled(value_repr.as_str());
                    detail.append(value_angled.as_str());
                    let message = AssertionFailure::from_spec(self)
                        .with_expected(detail)
                        .with_actual(String::from_str("present in hashmap"))
                        .fail();
                    proof {
                        assert(detail@ =~= "hashmap to not contain key "@ + angled_text(
                            key_repr@,
                        ) + " with value "@ + angled_text(value_repr@));
                        assert(detail@ =~= "hashmap to not contain key "@ + (angled_text(
                            key_repr@,
                        ) + " with value "@ + angled_text(value_repr@)));
                    }
                    Err(message)
                }
            },
            None => Ok(()),
        }
    }
}

/// Renders one expected map entry, exactly as `entry_text` says.
fn entry_detail(key_repr: &str, value_repr: &str) -> (r: String)
    ensures
        r@ == entry_text(key_repr@, value_repr@),
{
    let mut out = String::from_str("hashmap containing key ");
    let key_angled = angled(key_repr);
    out.append(key_angled.as_str());
    out.append(" with value ");
    let value_angled = angled(value_repr);
    out.append(value_angled.as_str());
    proof {
        assert(out@ =~= "hashmap containing key "@ + angled_text(key_repr@) + " with value "@
            + angled_text(value_repr@));
    }
    out
}

/// The failure detail naming the value a key actually mapped to.
fn instead_detail(key_repr: &str, value_repr: &str) -> (r: String)
    ensures
        r@ == "key "@ + angled_text(key_repr@) + " with value "@ + angled_text(value_repr@)
            + " instead"@,
{
    let mut out = String::from_str("key ");
    let key_angled = angled(key_repr);
    out.append(key_angled.as_str());
    out.append(" with value ");
    let value_angled = angled(value_repr);
    out.append(value_angled.as_str());
    out.append(" instead");
    proof {
        assert(out@ =~= "key "@ + angled_text(key_repr@) + " with value "@ + angled_text(
            value_repr@,
        ) + " instead"@);
    }
    out
}

} // verus!
