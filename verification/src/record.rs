//! The records that vector tables give back from a search.

use vstd::prelude::*;

verus! {

/// One record of a vector table (`Rag` backend): its id and its data.
#[derive(Debug, Clone)]
pub struct RagRecord<T> {
    pub id: u64,
    pub data: T,
}

/// One record of a context table: its id and its data.
#[derive(Debug, Clone)]
pub struct Record<T> {
    pub id: u64,
    pub data: T,
}

} // verus!
