//! The repositories and the errors they report.

use vstd::prelude::*;

pub mod database;
pub mod label;
pub mod todo;

verus! {

/// Why a repository did not do what it was asked.
#[derive(Debug)]
pub enum RepositoryError {
    /// No record has the id.
    NotFound(i32),
    /// The backing store failed; the text is its own account of the failure.
    Unexpected(String),
    /// A record with the id already holds the value that must be unique.
    Duplicate(i32),
}

/// A `RepositoryError` as contracts speak of it.
pub enum RepositoryErrorView {
    NotFound(i32),
    Unexpected(Seq<char>),
    Duplicate(i32),
}

impl View for RepositoryError {
    type V = RepositoryErrorView;

    open spec fn view(&self) -> RepositoryErrorView {
        match self {
            RepositoryError::NotFound(id) => RepositoryErrorView::NotFound(*id),
            RepositoryError::Unexpected(message) => RepositoryErrorView::Unexpected(message@),
            RepositoryError::Duplicate(id) => RepositoryErrorView::Duplicate(*id),
        }
    }
}

/// What a repository reports when it has given out every id and is asked
/// for one more.
pub const NO_ID_LEFT: &'static str = "no id is left for a new record";

/// The id that an in-memory repository gives to its next record: one more
/// than the number of ids it has given out. The ids are the positive numbers
/// of 32 bits, so the last one is `i32::MAX`.
pub open spec fn next_id(issued: nat) -> i32
    recommends
        issued < i32::MAX,
{
    (issued + 1) as i32
}

/// The error of a repository that has no id left.
pub(crate) fn no_id_left() -> (error: RepositoryError)
    ensures
        error@ == RepositoryErrorView::Unexpected(NO_ID_LEFT@),
{
    RepositoryError::Unexpected(NO_ID_LEFT.to_owned())
}

/// A sequence that holds the values of a map of records, as many items as the
/// map has keys, holds each record, and each once. `id_of` reads the id that a record
/// carries; every record is filed under its own.
pub(crate) proof fn lemma_values_listed_once<V>(
    store: Map<i32, V>,
    values: Seq<V>,
    id_of: spec_fn(V) -> i32,
)
    requires
        store.dom().finite(),
        forall|id: i32| #[trigger] store.contains_key(id) ==> id_of(store[id]) == id,
        values.to_set() == store.values(),
        values.len() == store.dom().len(),
    ensures
        forall|i: int|
            0 <= i < values.len() ==> store.contains_key(id_of(#[trigger] values[i]))
                && store[id_of(values[i])] == values[i],
        forall|i: int, j: int|
            0 <= i < j < values.len() ==> id_of(#[trigger] values[i]) != id_of(#[trigger] values[j]),
        forall|id: i32| #[trigger]
            store.contains_key(id) ==> exists|i: int|
                0 <= i < values.len() && #[trigger] values[i] == store[id],
{
    assert(store.is_injective());
    store.lemma_injective_values_len();
    values.lemma_no_dup_set_cardinality();
    assert forall|i: int| 0 <= i < values.len() implies store.contains_key(
        id_of(#[trigger] values[i]),
    ) && store[id_of(values[i])] == values[i] by {
        assert(values.to_set().contains(values[i]));
        assert(store.contains_value(values[i]));
    }
    assert forall|id: i32| #[trigger] store.contains_key(id) implies exists|i: int|
        0 <= i < values.len() && #[trigger] values[i] == store[id] by {
        assert(store.contains_value(store[id]));
        assert(values.to_set().contains(store[id]));
    }
}

} // verus!
