//! The library's error type and the text each error reads as.

use vstd::prelude::*;
use crate::kv::{lemma_sled_error_reads, sled_error_reads, sled_error_text};

verus! {

/// What can go wrong in the library.
#[derive(Debug)]
pub enum Error {
    /// A column that a vector table must have is missing.
    ExpectedColumn(&'static str),
    /// A column does not hold the array type it must hold.
    FailedDowncast(&'static str, &'static str),
    /// The vectors of one batch do not all have the same length.
    InvalidBatchLength,
    /// The key-value engine refused or failed an operation.
    Database(sled::Error),
}

impl Error {
    /// The text this error reads as.
    pub fn message(&self) -> (text: String)
        ensures
            match self {
                Error::ExpectedColumn(column) => text@ == "Expected '"@ + column@
                    + "' column (maybe table is broken)"@,
                Error::FailedDowncast(column, target) => text@ == "Failed to downcast '"@
                    + column@ + "' to "@ + target@,
                Error::InvalidBatchLength => text@
                    == "All vectors in a batch must have the same length"@,
                Error::Database(inner) => sled_error_reads(*inner, text@),
            },
    {
        match self {
            Error::ExpectedColumn(column) => {
                let mut text = String::from_str("Expected '");
                text.append(column);
                text.append("' column (maybe table is broken)");
                text
            },
            Error::FailedDowncast(column, target) => {
                let mut text = String::from_str("Failed to downcast '");
                text.append(column);
                text.append("' to ");
                text.append(target);
                text
            },
            Error::InvalidBatchLength => String::from_str(
                "All vectors in a batch must have the same length",
            ),
            Error::Database(inner) => {
                let text = sled_error_text(inner);
                proof {
                    lemma_sled_error_reads(inner, text);
                }
                text
            },
        }
    }
}

/// A column name alone stands for the error that the column is missing.
impl From<&'static str> for Error {
    fn from(column: &'static str) -> (e: Self) {
        Error::ExpectedColumn(column)
    }
}

impl vstd::std_specs::convert::FromSpecImpl<&'static str> for Error {
    open spec fn obeys_from_spec() -> bool {
        true
    }

    open spec fn from_spec(column: &'static str) -> Self {
        Error::ExpectedColumn(column)
    }
}

/// A sled error stands for the failure of the key-value engine.
impl From<sled::Error> for Error {
    fn from(inner: sled::Error) -> (e: Self) {
        Error::Database(inner)
    }
}

impl vstd::std_specs::convert::FromSpecImpl<sled::Error> for Error {
    open spec fn obeys_from_spec() -> bool {
        true
    }

    open spec fn from_spec(inner: sled::Error) -> Self {
        Error::Database(inner)
    }
}

} // verus!
