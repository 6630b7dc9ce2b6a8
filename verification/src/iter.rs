//! Assertions over the items a vector holds.

use vstd::prelude::*;
use vstd::slice::slice_index_get;
use vstd::std_specs::cmp::PartialEqSpec;

use crate::{AssertionFailure, DescriptiveSpec, Spec, angled, angled_text, rendered_failure};

verus! {

/// Whether two sequences hold items that compare equal position by
/// position, under the item type's own equality.
pub open spec fn items_agree<T: PartialEq>(actual: Seq<T>, expected: Seq<T>) -> bool {
    actual.len() == expected.len() && forall|i: int|
        0 <= i < actual.len() ==> (#[trigger] actual[i]).eq_spec(&expected[i])
}

/// One side of a comparison failure where the iterator still held an item:
/// the first diverging item on that side, then the prefix read before it.
pub open spec fn diverging_item_text(item: Seq<char>, read: Seq<char>) -> Seq<char> {
    "Iterator item of "@ + angled_text(item) + " (read "@ + angled_text(read) + ")"@
}

/// One side of a comparison failure where the iterator had run out of
/// items: the prefix it yielded before ending.
pub open spec fn completed_iterator_text(read: Seq<char>) -> Seq<char> {
    "Completed iterator (read "@ + angled_text(read) + ")"@
}

/// Whether one failure detail of an iterator comparison has one of the two
/// shapes such a comparison can report: a diverging item with the prefix
/// read before it, or an exhausted iterator with the prefix it yielded.
pub open spec fn comparison_detail_shape(detail: Seq<char>) -> bool {
    (exists|item: Seq<char>, read: Seq<char>| detail == #[trigger] diverging_item_text(item, read))
        || (exists|read: Seq<char>| detail == #[trigger] completed_iterator_text(read))
}

/// Whether `expected` compares equal to some item of `items`, under the
/// item type's own equality.
pub open spec fn holds_item<T: PartialEq>(items: Seq<T>, expected: &T) -> bool {
    exists|i: int| 0 <= i < items.len() && expected.eq_spec(&(#[trigger] items[i]))
}

/// Whether `f` can map some item of `items` to a value that compares equal
/// to `expected`.
pub open spec fn some_image_matches<'s, T: 's, M: PartialEq, F: Fn(&'s T) -> M>(
    items: Seq<T>,
    f: F,
    expected: &M,
) -> bool {
    exists|i: int, m: M|
        0 <= i < items.len() && #[trigger] call_ensures(f, (&(items[i]),), m) && m.eq_spec(
            expected,
        )
}

/// Whether `f` can map the item of `items` at position `i` to a value that
/// compares unequal to `expected`.
pub open spec fn image_differs<'s, T: 's, M: PartialEq, F: Fn(&'s T) -> M>(
    items: Seq<T>,
    f: F,
    expected: &M,
    i: int,
) -> bool {
    exists|m: M| #[trigger] call_ensures(f, (&(items[i]),), m) && !m.eq_spec(expected)
}

/// Whether `f` mapped every item of `items` to a value that compares
/// unequal to `expected`.
pub open spec fn every_image_differs<'s, T: 's, M: PartialEq, F: Fn(&'s T) -> M>(
    items: Seq<T>,
    f: F,
    expected: &M,
) -> bool {
    forall|i: int| 0 <= i < items.len() ==> #[trigger] image_differs(items, f, expected, i)
}

/// Whether `f` accepts some item of `items`.
pub open spec fn some_item_accepted<'s, T: 's, F: Fn(&'s T) -> bool>(items: Seq<T>, f: F) -> bool {
    exists|i: int| 0 <= i < items.len() && call_ensures(f, (&(#[trigger] items[i]),), true)
}

/// Whether `f` rejected every item of `items`.
pub open spec fn every_item_rejected<'s, T: 's, F: Fn(&'s T) -> bool>(items: Seq<T>, f: F) -> bool {
    forall|i: int|
        0 <= i < items.len() ==> call_ensures(f, (&(#[trigger] items[i]),), false)
}

/// Whether `f` may be called on every item of `items`.
pub open spec fn callable_on_all<'s, T: 's, M, F: Fn(&'s T) -> M>(items: Seq<T>, f: F) -> bool {
    forall|i: int| 0 <= i < items.len() ==> call_requires(f, (&(#[trigger] items[i]),))
}

/// Assertions available once the subject is a collection of comparable
/// items.
pub trait ContainingIntoIterAssertions<'s, T: PartialEq + core::fmt::Debug>: DescriptiveSpec<
    's,
> {
    /// The items of the subject, in order.
    spec fn items_subject(&self) -> Seq<T>;

    /// Asserts that the subject contains the provided value.
    fn contains(&self, expected_value: &T) -> (r: Result<(), String>)
        ensures
            T::obeys_eq_spec() ==> (r is Ok <==> holds_item(self.items_subject(), expected_value)),
            r matches Err(m) ==> exists|e: Seq<char>, a: Seq<char>|
                m@ == rendered_failure(
                    self.render_context(),
                    "iterator to contain "@ + angled_text(e),
                    angled_text(a),
                ),
    ;

    /// Asserts that the subject holds exactly the items of the expected
    /// vector, in the same order.
    fn equals_iterator(&self, expected_iter: &Vec<T>) -> (r: Result<(), String>)
        ensures
            T::obeys_eq_spec() ==> (r is Ok <==> items_agree(
                self.items_subject(),
                expected_iter@,
            )),
            r matches Err(m) ==> exists|e: Seq<char>, a: Seq<char>|
                m@ == rendered_failure(self.render_context(), e, a) && comparison_detail_shape(e)
                    && comparison_detail_shape(a),
    ;
}

/// Assertions that run a caller-supplied function over the subject's items.
pub trait MappingIterAssertions<'s, T: core::fmt::Debug + 's>: DescriptiveSpec<'s> {
    /// The items of the subject, in order.
    spec fn mapped_subject(&self) -> Seq<T>;

    /// Asserts that the subject contains an item the provided function
    /// maps to the expected value.
    fn mapped_contains<F: Fn(&'s T) -> M, M: PartialEq + core::fmt::Debug>(
        &self,
        mapping_function: F,
        expected_value: &M,
    ) -> (r: Result<(), String>)
        requires
            callable_on_all(self.mapped_subject(), mapping_function),
        ensures
            M::obeys_eq_spec() ==> (r is Ok ==> some_image_matches(
                self.mapped_subject(),
                mapping_function,
                expected_value,
            )),
            M::obeys_eq_spec() ==> (r is Err ==> every_image_differs(
                self.mapped_subject(),
                mapping_function,
                expected_value,
            )),
            r matches Err(m) ==> exists|e: Seq<char>, a: Seq<char>|
                m@ == rendered_failure(
                    self.render_context(),
                    "iterator to contain "@ + angled_text(e),
                    angled_text(a),
                ),
    ;

    /// Asserts that the subject contains an item the provided predicate
    /// accepts.
    fn matching_contains<F: Fn(&'s T) -> bool>(&self, matcher: F) -> (r: Result<(), String>)
        requires
            callable_on_all(self.mapped_subject(), matcher),
        ensures
            r is Ok ==> some_item_accepted(self.mapped_subject(), matcher),
            r is Err ==> every_item_rejected(self.mapped_subject(), matcher),
            r matches Err(m) ==> exists|v: Seq<char>|
                m@ == crate::rendered_message(
                    self.render_context(),
                    "expectation failed for iterator with values "@ + angled_text(v),
                ),
    ;
}

/// Asserts that the listed items contain the expected value, reporting any
/// failure with the metadata of `source`.
pub fn check_iterator_contains<'s, D: DescriptiveSpec<'s>, V: PartialEq + core::fmt::Debug>(
    source: &'s D,
    actual_items: &Vec<V>,
    expected_value: &V,
) -> (r: Result<(), String>)
    ensures
        V::obeys_eq_spec() ==> (r is Ok <==> holds_item(actual_items@, expected_value)),
        r matches Err(m) ==> exists|e: Seq<char>, a: Seq<char>|
            m@ == rendered_failure(
                source.render_context(),
                "iterator to contain "@ + angled_text(e),
                angled_text(a),
            ),
{
    let length = actual_items.len();
    let mut i: usize = 0;
    while i < length
        invariant
            length == actual_items@.len(),
            0 <= i <= length,
            V::obeys_eq_spec() ==> forall|j: int|
                0 <= j < i ==> !expected_value.eq_spec(&(#[trigger] actual_items@[j])),
        decreases length - i,
    {
        if expected_value.eq(slice_index_get(actual_items.as_slice(), i)) {
            return Ok(());
        }
        i += 1;
    }
    let expected_repr = crate::debug_text(expected_value);
    let actual_repr = crate::debug_text(actual_items);
    let mut detail = String::from_str("iterator to contain ");
    let expected_angled = angled(expected_repr.as_str());
    detail.append(expected_angled.as_str());
    let message = AssertionFailure::from_spec(source)
        .with_expected(detail)
        .with_actual(angled(actual_repr.as_str()))
        .fail();
    Err(message)
}

/// Asserts that the listed items equal the expected items position by
/// position, reporting the first difference with the metadata of `source`.
pub fn compare_iterators<'s, D: DescriptiveSpec<'s>, V: PartialEq + core::fmt::Debug>(
    source: &'s D,
    actual_items: &Vec<V>,
    expected_items: &Vec<V>,
) -> (r: Result<(), String>)
    ensures
        V::obeys_eq_spec() ==> (r is Ok <==> items_agree(actual_items@, expected_items@)),
        r matches Err(m) ==> exists|e: Seq<char>, a: Seq<char>|
            m@ == rendered_failure(source.render_context(), e, a) && comparison_detail_shape(e)
                && comparison_detail_shape(a),
{
    let actual_length = actual_items.len();
    let expected_length = expected_items.len();
    let mut i: usize = 0;
    while i < actual_length && i < expected_length
        invariant
            actual_length == actual_items@.len(),
            expected_length == expected_items@.len(),
            0 <= i <= actual_length,
            0 <= i <= expected_length,
            V::obeys_eq_spec() ==> forall|j: int|
                0 <= j < i ==> (#[trigger] actual_items@[j]).eq_spec(&expected_items@[j]),
        decreases actual_length - i,
    {
        let actual = slice_index_get(actual_items.as_slice(), i);
        let expected = slice_index_get(expected_items.as_slice(), i);
        if !actual.eq(expected) {
            let expected_repr = crate::debug_text(expected);
            let actual_repr = crate::debug_text(actual);
            let read_repr = crate::debug_text_prefix(expected_items, i);
            let read_actual_repr = crate::debug_text_prefix(actual_items, i);
            let message = AssertionFailure::from_spec(source)
                .with_expected(item_detail(expected_repr.as_str(), read_repr.as_str()))
                .with_actual(item_detail(actual_repr.as_str(), read_actual_repr.as_str()))
                .fail();
            return Err(message);
        }
        i += 1;
    }
    if i < expected_length {
        let expected = slice_index_get(expected_items.as_slice(), i);
        let expected_repr = crate::debug_text(expected);
        let read_repr = crate::debug_text_prefix(expected_items, i);
        let read_actual_repr = crate::debug_text_prefix(actual_items, i);
        let mut actual_detail = String::from_str("Completed iterator (read ");
        let read_actual_angled = angled(read_actual_repr.as_str());
        actual_detail.append(read_actual_angled.as_str());
        actual_detail.append(")");
        proof {
            assert(actual_detail@ =~= completed_iterator_text(read_actual_repr@));
        }
        let message = AssertionFailure::from_spec(source)
            .with_expected(item_detail(expected_repr.as_str(), read_repr.as_str()))
            .with_actual(actual_detail)
            .fail();
        return Err(message);
    }
    if i < actual_length {
        let actual = slice_index_get(actual_items.as_slice(), i);
        let actual_repr = crate::debug_text(actual);
        let read_repr = crate::debug_text_prefix(expected_items, i);
        let read_actual_repr = crate::debug_text_prefix(actual_items, i);
        let mut expected_detail = String::from_str("Completed iterator (read ");
        let read_angled = angled(read_repr.as_str());
        expected_detail.append(read_angled.as_str());
        expected_detail.append(")");
        proof {
            assert(expected_detail@ =~= completed_iterator_text(read_repr@));
        }
        let message = AssertionFailure::from_spec(source)
            .with_expected(expected_detail)
            .with_actual(item_detail(actual_repr.as_str(), read_actual_repr.as_str()))
            .fail();
        return Err(message);
    }
    Ok(())
}

/// The failure detail naming one iterator item and the items read before
/// it.
fn item_detail(item_repr: &str, read_repr: &str) -> (r: String)
    ensures
        r@ == diverging_item_text(item_repr@, read_repr@),
{
    let mut out = String::from_str("Iterator item of ");
    let item_angled = angled(item_repr);
    out.append(item_angled.as_str());
    out.append(" (read ");
    let read_angled = angled(read_repr);
    out.append(read_angled.as_str());
    out.append(")");
    proof {
        assert(out@ =~= diverging_item_text(item_repr@, read_repr@));
    }
    out
}

impl<'s, T: PartialEq + core::fmt::Debug> ContainingIntoIterAssertions<'s, T> for Spec<
    's,
    Vec<T>,
> {
    open spec fn items_subject(&self) -> Seq<T> {
        self.subject@
    }

    fn contains(&self, expected_value: &T) -> (r: Result<(), String>) {
        check_iterator_contains(self, self.subject, expected_value)
    }

    fn equals_iterator(&self, expected_iter: &Vec<T>) -> (r: Result<(), String>) {
        compare_iterators(self, self.subject, expected_iter)
    }
}

impl<'s, T: core::fmt::Debug + 's> MappingIterAssertions<'s, T> for Spec<'s, Vec<T>> {
    open spec fn mapped_subject(&self) -> Seq<T> {
        self.subject@
    }

    fn mapped_contains<F: Fn(&'s T) -> M, M: PartialEq + core::fmt::Debug>(
        &self,
        mapping_function: F,
        expected_value: &M,
    ) -> (r: Result<(), String>) {
        let length = self.subject.len();
        let mut mapped: Vec<M> = Vec::new();
        let mut i: usize = 0;
        while i < length
            invariant
                length == self.mapped_subject().len(),
                0 <= i <= length,
                mapped@.len() == i,
                callable_on_all(self.mapped_subject(), mapping_function),
                forall|j: int|
                    0 <= j < i ==> call_ensures(
                        mapping_function,
                        (&(self.mapped_subject()[j]),),
                        #[trigger] mapped@[j],
                    ),
                M::obeys_eq_spec() ==> forall|j: int|
                    0 <= j < i ==> !(#[trigger] mapped@[j]).eq_spec(expected_value),
            decreases length - i,
        {
            let item = slice_index_get(self.subject.as_slice(), i);
            let image = mapping_function(item);
            if image.eq(expected_value) {
                proof {
                    assert(call_ensures(
                        mapping_function,
                        (&(self.mapped_subject()[i as int]),),
                        image,
                    ));
                }
                return Ok(());
            }
            mapped.push(image);
            i += 1;
        }
        proof {
            if M::obeys_eq_spec() {
                assert forall|j: int|
                    0 <= j < self.mapped_subject().len() implies #[trigger] image_differs(
                    self.mapped_subject(),
                    mapping_function,
                    expected_value,
                    j,
                ) by {
                    assert(call_ensures(
                        mapping_function,
                        (&(self.mapped_subject()[j]),),
                        mapped@[j],
                    ) && !mapped@[j].eq_spec(expected_value));
                }
            }
        }
        let expected_repr = crate::debug_text(expected_value);
        let mapped_repr = crate::debug_text(&mapped);
        let mut detail = String::from_str("iterator to contain ");
        let expected_angled = angled(expected_repr.as_str());
        detail.append(expected_angled.as_str());
        let message = AssertionFailure::from_spec(self)
            .with_expected(detail)
            .with_actual(angled(mapped_repr.as_str()))
            .fail();
        Err(message)
    }

    fn matching_contains<F: Fn(&'s T) -> bool>(&self, matcher: F) -> (r: Result<(), String>) {
        let length = self.subject.len();
        let mut i: usize = 0;
        while i < length
            invariant
                length == self.mapped_subject().len(),
                0 <= i <= length,
                callable_on_all(self.mapped_subject(), matcher),
                forall|j: int|
                    0 <= j < i ==> call_ensures(
                        matcher,
                        (&(#[trigger] self.mapped_subject()[j]),),
                        false,
                    ),
            decreases length - i,
        {
            let item = slice_index_get(self.subject.as_slice(), i);
            if matcher(item) {
                proof {
                    assert(call_ensures(matcher, (&(self.mapped_subject()[i as int]),), true));
                }
                return Ok(());
            }
            i += 1;
        }
        let values_repr = crate::debug_text(self.subject);
        let mut line = String::from_str("expectation failed for iterator with values ");
        let values_angled = angled(values_repr.as_str());
        line.append(values_angled.as_str());
        let message = AssertionFailure::from_spec(self).fail_with_message(line);
        Err(message)
    }
}

} // verus!
