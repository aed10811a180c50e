//! What the three record stores share: what a caller found at a storage
//! path, and what it is to do to the file after a change.

use vstd::prelude::*;
use crate::error::StoreError;

verus! {

/// What the caller found at a storage path.
#[derive(Debug, PartialEq, Eq)]
pub enum StoredFile<T> {
    /// No file: the first run, or after a sign-out.
    Missing,
    /// A file that could not be read.
    Unreadable,
    /// A file whose contents are not a document of the record's type.
    Malformed,
    /// The record that the file holds.
    Parsed(T),
}

/// What the caller is to do to the file at a storage path.
#[derive(Debug, PartialEq, Eq)]
pub enum DiskAction<T> {
    /// Create the parent directories, write the record as the whole file
    /// and, where `owner_only` is set, restrict the file to its owner. The
    /// restriction is applied after every write, not only the first.
    Write { record: T, owner_only: bool },
    /// Delete the file if there is one.
    Remove,
}

/// The view of an optional string.
pub open spec fn text_opt_view(text: Option<String>) -> Option<Seq<char>> {
    match text {
        Some(t) => Some(t@),
        None => None,
    }
}

/// The record that a load brings, `None` where there is no file, or the
/// error that the load reports.
pub open spec fn loaded<T>(file: StoredFile<T>) -> Result<Option<T>, StoreError> {
    match file {
        StoredFile::Missing => Ok(None),
        StoredFile::Unreadable => Err(StoreError::Io),
        StoredFile::Malformed => Err(StoreError::Format),
        StoredFile::Parsed(record) => Ok(Some(record)),
    }
}

impl<T> StoredFile<T> {
    /// Reads the outcome of a load: a missing file is no error and brings
    /// no record; an unreadable file is an `Io` error, a malformed one a
    /// `Format` error.
    pub fn into_record(self) -> (record: Result<Option<T>, StoreError>)
        ensures
            record == loaded(self),
    {
        match self {
            StoredFile::Missing => Ok(None),
            StoredFile::Unreadable => Err(StoreError::Io),
            StoredFile::Malformed => Err(StoreError::Format),
            StoredFile::Parsed(record) => Ok(Some(record)),
        }
    }
}

/// A copy of an optional string.
pub fn clone_text_opt(text: &Option<String>) -> (copy: Option<String>)
    ensures
        text_opt_view(copy) == text_opt_view(*text),
{
    match text {
        Some(t) => Some(t.clone()),
        None => None,
    }
}

} // verus!
