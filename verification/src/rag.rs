//! The rules of the vector tables (`Rag` backend) that do not depend on the
//! vector engine itself: where a table lives, how a record is deleted, which
//! index failures are harmless, how a batch is laid out in columns, and what
//! a search with no hits gives.

use vstd::prelude::*;
use crate::error::Error;
use crate::record::RagRecord;
use crate::text::{contains, contains_run, decimal, push_decimal};

verus! {

/// The directory, inside the database directory, that holds the table
/// `name`: `name` followed by `.lance`.
pub fn lance_dir_name(name: &str) -> (dir: String)
    ensures
        dir@ == name@ + ".lance"@,
{
    let mut dir = String::from_str(name);
    dir.append(".lance");
    dir
}

/// The filter that selects the record with id `id`: `id = ` followed by the
/// id in decimal.
pub fn delete_predicate(id: u64) -> (predicate: String)
    ensures
        predicate@ == "id = "@ + decimal(id as nat),
{
    let mut predicate = String::from_str("id = ");
    push_decimal(&mut predicate, id);
    predicate
}

/// Whether an index build failed only because the table holds too few rows
/// to train the index on: its message mentions `KMeans cannot train` or
/// `choose a smaller K`. Such a failure leaves the table as it was and is
/// no error.
pub fn is_untrainable_index_error(message: &str) -> (harmless: bool)
    ensures
        harmless == (contains_run(message@, "KMeans cannot train"@) || contains_run(
            message@,
            "choose a smaller K"@,
        )),
{
    contains(message, "KMeans cannot train") || contains(message, "choose a smaller K")
}

/// What a search gives for the records that passed its filter: `None` where
/// there are none, else all of them in the order found.
pub fn hits_or_none<T>(hits: Vec<RagRecord<T>>) -> (found: Option<Vec<RagRecord<T>>>)
    ensures
        hits@.len() == 0 ==> found is None,
        hits@.len() > 0 ==> found == Some(hits),
{
    if hits.len() == 0 {
        None
    } else {
        Some(hits)
    }
}

/// What looking up a column of a search result by name found.
pub enum ColumnLookup<A> {
    /// There is no column of that name.
    Missing,
    /// There is one, but it does not hold the array type asked for.
    WrongType,
    /// There is one of the right type.
    Found(A),
}

/// Checks the two columns a search result must have: `id`, looked up first,
/// then `data`. The first one missing or of the wrong type decides the
/// error; a missing `data` column is reported under the name `column`.
pub fn resolve_columns<A, B>(id: ColumnLookup<A>, data: ColumnLookup<B>) -> (r: Result<(A, B), Error>)
    ensures
        match (id, data) {
            (ColumnLookup::Missing, _) => r matches Err(Error::ExpectedColumn(name)) && name@ == "id"@,
            (ColumnLookup::WrongType, _) => r matches Err(Error::FailedDowncast(name, target))
                && name@ == "id"@ && target@ == "UInt64Array"@,
            (ColumnLookup::Found(_), ColumnLookup::Missing) => r matches Err(
                Error::ExpectedColumn(name),
            ) && name@ == "column"@,
            (ColumnLookup::Found(_), ColumnLookup::WrongType) => r matches Err(
                Error::FailedDowncast(name, target),
            ) && name@ == "data"@ && target@ == "StringArray"@,
            (ColumnLookup::Found(a), ColumnLookup::Found(b)) => r == Ok::<(A, B), Error>((a, b)),
        },
{
    match id {
        ColumnLookup::Missing => Err(Error::ExpectedColumn("id")),
        ColumnLookup::WrongType => Err(Error::FailedDowncast("id", "UInt64Array")),
        ColumnLookup::Found(ids) => match data {
            ColumnLookup::Missing => Err(Error::ExpectedColumn("column")),
            ColumnLookup::WrongType => Err(Error::FailedDowncast("data", "StringArray")),
            ColumnLookup::Found(payloads) => Ok((ids, payloads)),
        },
    }
}

/// The columns that one batch of records is written as: the common length of
/// the vectors, all vectors one after another, and the encoded data of each
/// record.
pub struct BatchColumns<V> {
    pub dim: usize,
    pub flat: Vec<V>,
    pub payloads: Vec<String>,
}

/// Why a batch could not be laid out in columns.
pub enum BatchError<E> {
    /// A vector's length differs from that of the first vector
    /// (`Error::InvalidBatchLength`).
    Invalid(Error),
    /// The data of a record could not be encoded.
    Encode(E),
}

/// All sequences of `parts`, one after another.
pub open spec fn flatten<V>(parts: Seq<Seq<V>>) -> Seq<V>
    decreases parts.len(),
{
    if parts.len() == 0 {
        Seq::empty()
    } else {
        flatten(parts.drop_last()) + parts.last()
    }
}

/// The vectors of a batch.
pub open spec fn batch_vectors<V, E>(items: Seq<(Vec<V>, Result<String, E>)>) -> Seq<Seq<V>> {
    items.map_values(|item: (Vec<V>, Result<String, E>)| item.0@)
}

/// Item `i` of a batch has a vector of length `dim` and encoded data.
pub open spec fn item_fits<V, E>(items: Seq<(Vec<V>, Result<String, E>)>, dim: nat, i: int) -> bool {
    items[i].0@.len() == dim && items[i].1 is Ok
}

/// Lays a batch out in columns. Each item is a record's vector with the
/// outcome of encoding its data. The items are taken in order, and the first
/// that does not fit ends the work: one whose vector's length differs from
/// that of the first vector gives `Error::InvalidBatchLength`, one whose
/// data could not be encoded gives that encoding error. An empty batch gives
/// `None`: there is nothing to write.
pub fn assemble_batch<V, E>(items: Vec<(Vec<V>, Result<String, E>)>) -> (r: Result<
    Option<BatchColumns<V>>,
    BatchError<E>,
>)
    ensures
        (items@.len() == 0) == (r matches Ok(None)),
        r matches Ok(Some(cols)) ==> {
            &&& cols.dim == items@[0].0@.len()
            &&& cols.payloads@.len() == items@.len()
            &&& forall|i: int|
                0 <= i < items@.len() ==> item_fits(items@, cols.dim as nat, i) && items@[i].1
                    == Ok::<String, E>(#[trigger] cols.payloads@[i])
            &&& cols.flat@ == flatten(batch_vectors(items@))
        },
        items@.len() > 0 && (forall|i: int|
            0 <= i < items@.len() ==> item_fits(items@, items@[0].0@.len(), i)) ==> r matches Ok(
            Some(_),
        ),
        r matches Err(BatchError::Invalid(e)) ==> {
            &&& e is InvalidBatchLength
            &&& exists|k: int|
                0 <= k < items@.len() && #[trigger] items@[k].0@.len() != items@[0].0@.len()
                    && forall|i: int| 0 <= i < k ==> item_fits(items@, items@[0].0@.len(), i)
        },
        r matches Err(BatchError::Encode(e)) ==> exists|k: int|
            0 <= k < items@.len() && items@[k].0@.len() == items@[0].0@.len()
                && #[trigger] items@[k].1 == Err::<String, E>(e) && forall|i: int|
                0 <= i < k ==> item_fits(items@, items@[0].0@.len(), i),
{
    let ghost all = items@;
    if items.len() == 0 {
        return Ok(None);
    }
    let dim: usize = items[0].0.len();
    let mut flat: Vec<V> = Vec::new();
    let mut payloads: Vec<String> = Vec::new();
    for item in it: items.into_iter()
        invariant
            all.len() > 0,
            dim == all[0].0@.len(),
            it.seq() == all,
            payloads@.len() == it.index(),
            forall|i: int| 0 <= i < it.index() ==> #[trigger] item_fits(all, dim as nat, i),
            forall|i: int|
                0 <= i < it.index() ==> all[i].1 == Ok::<String, E>(#[trigger] payloads@[i]),
            flat@ == flatten(batch_vectors(all).take(it.index() as int)),
    {
        let ghost k: int = it.index() as int;
        let (mut vector, payload) = item;
        if vector.len() != dim {
            assert(!item_fits(all, dim as nat, k));
            return Err(BatchError::Invalid(Error::InvalidBatchLength));
        }
        match payload {
            Ok(text) => {
                flat.append(&mut vector);
                payloads.push(text);
                proof {
                    assert(batch_vectors(all).take(k + 1).drop_last() =~= batch_vectors(all).take(k));
                }
            },
            Err(e) => {
                assert(!item_fits(all, dim as nat, k));
                return Err(BatchError::Encode(e));
            },
        }
    }
    assert(batch_vectors(all).take(all.len() as int) =~= batch_vectors(all));
    Ok(Some(BatchColumns { dim, flat, payloads }))
}

} // verus!
