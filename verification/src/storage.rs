//! Conflict-aware persistence decisions for a Markdown document.

use std::path::PathBuf;

use vstd::prelude::*;

use vstd::utf8::*;

use crate::text::{str_eq, utf8_to_string};

verus! {

/// Markdown bytes captured before an edit starts.
#[derive(Debug, PartialEq, Eq)]
pub struct DocumentSnapshot {
    path: PathBuf,
    original: String,
}

impl DocumentSnapshot {
    /// A snapshot of the document at `path` whose text was read as `original`.
    pub fn from_parts(path: PathBuf, original: String) -> (s: Self)
        ensures
            s.source_spec() == original@,
            s.path_spec() == path,
    {
        DocumentSnapshot { path, original }
    }

    /// The captured text.
    pub closed spec fn source_spec(&self) -> Seq<char> {
        self.original@
    }

    /// The document path.
    pub closed spec fn path_spec(&self) -> PathBuf {
        self.path
    }

    /// Returns the source captured for this transaction.
    pub fn source(&self) -> (s: &str)
        ensures
            s@ == self.source_spec(),
    {
        self.original.as_str()
    }

    /// Returns the document path (it dereferences to a `Path`).
    pub fn path(&self) -> (p: &PathBuf)
        ensures
            *p == self.path_spec(),
    {
        &self.path
    }

    /// Returns the document path buffer.
    pub fn path_buf(&self) -> (p: &PathBuf)
        ensures
            *p == self.path_spec(),
    {
        &self.path
    }
}

/// Atomic storage failure.
#[derive(Debug, PartialEq, Eq)]
pub enum StorageError {
    /// Filesystem operation failed.
    Io {
        /// Operation name.
        operation: &'static str,
        /// Affected path.
        path: PathBuf,
        /// Stable platform error category.
        kind: std::io::ErrorKind,
    },
    /// Markdown source is not valid UTF-8.
    InvalidUtf8(PathBuf),
    /// File bytes changed after the snapshot was captured.
    ExternalChange,
}

/// Records a failed filesystem operation.
pub fn io_error(operation: &'static str, path: PathBuf, error: std::io::Error) -> (e: StorageError)
    ensures
        e matches StorageError::Io { operation: op, path: p, .. } && op == operation && p == path,
{
    StorageError::Io { operation, path, kind: crate::codex::io_error_kind(&error) }
}

/// A commit may replace the document only while its text is still the
/// snapshot's.
pub open spec fn unchanged_verdict(snapshot: Seq<char>, current: Seq<char>) -> Result<(), StorageError> {
    if current == snapshot {
        Ok(())
    } else {
        Err(StorageError::ExternalChange)
    }
}

/// Decides whether a commit may replace the document: only while the bytes on
/// disk are still those of the snapshot.
pub fn check_unchanged(snapshot: &DocumentSnapshot, current: &str) -> (r: Result<(), StorageError>)
    ensures
        r == unchanged_verdict(snapshot.source_spec(), current@),
{
    if str_eq(current, snapshot.original.as_str()) {
        Ok(())
    } else {
        Err(StorageError::ExternalChange)
    }
}


/// A snapshot of the document at `path` from the bytes read there: they must
/// be UTF-8 Markdown.
pub fn snapshot_from_bytes(path: PathBuf, bytes: Vec<u8>) -> (r: Result<DocumentSnapshot, StorageError>)
    ensures
        valid_utf8(bytes@) ==> (r matches Ok(s) && s.source_spec() == decode_utf8(bytes@) && s.path_spec() == path),
        !valid_utf8(bytes@) ==> r == Err::<DocumentSnapshot, StorageError>(StorageError::InvalidUtf8(path)),
{
    match utf8_to_string(bytes) {
        Some(original) => Ok(DocumentSnapshot { path, original }),
        None => Err(StorageError::InvalidUtf8(path)),
    }
}

} // verus!
