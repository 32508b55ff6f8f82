//! The errors that the handle layer reports.

use vstd::prelude::*;
use vstd::string::StringExecFns;

verus! {

/// The operation that failed.
#[derive(Clone, Copy, Debug, PartialEq, Eq, Structural)]
pub enum ErrorKind {
    /// The database path cannot be written as a NUL-terminated string.
    InvalidPath,
    /// The directory of the database could not be provided.
    DirectoryCreationFailed,
    /// The engine refused to open the database, or returned no instance.
    EngineOpenFailed,
    /// The read options hold no descriptor.
    InvalidReadOptions,
    /// The engine failed while reading a key.
    EngineReadFailed,
    /// A direct write to the database failed.
    EngineWriteFailed,
    /// A write or delete inside a transaction failed.
    TransactionWriteFailed,
    /// The commit lost against a conflicting concurrent write.
    CommitConflict,
    /// The commit failed for another reason.
    CommitFailed,
    /// The rollback failed.
    RollbackFailed,
    /// The on-disk state of a database could not be removed.
    DestroyFailed,
}

/// An error: its kind and a message for people. Where the engine failed, the
/// message is the engine's own text.
#[derive(Clone, Debug)]
pub struct Error {
    pub kind: ErrorKind,
    pub message: String,
}

/// Message of [`ErrorKind::InvalidPath`].
pub open spec fn invalid_path_text() -> Seq<char> {
    "Failed to convert path to CString when opening DB."@
}

/// Message of [`ErrorKind::EngineOpenFailed`] where the engine reported no
/// error and still returned no instance.
pub open spec fn no_instance_text() -> Seq<char> {
    "Could not initialize database."@
}

/// Message of [`ErrorKind::InvalidReadOptions`].
pub open spec fn invalid_read_options_text() -> Seq<char> {
    "Unable to create RocksDB read options. This is a fairly trivial call, and its failure may be indicative of a mis-compiled or mis-loaded RocksDB library."@
}

/// Message of [`ErrorKind::DirectoryCreationFailed`] for the given detail.
pub open spec fn directory_text(detail: Seq<char>) -> Seq<char> {
    "Failed to create RocksDB directory: `"@ + detail + "`."@
}

impl Error {
    /// Whether this error has the given kind and message.
    pub open spec fn is(&self, kind: ErrorKind, message: Seq<char>) -> bool {
        self.kind == kind && self.message@ == message
    }

    /// An error of the given kind that carries `message` unchanged.
    pub fn new(kind: ErrorKind, message: String) -> (e: Error)
        ensures
            e.is(kind, message@),
    {
        Error { kind, message }
    }

    /// The path holds a zero byte.
    pub fn invalid_path() -> (e: Error)
        ensures
            e.is(ErrorKind::InvalidPath, invalid_path_text()),
    {
        Error {
            kind: ErrorKind::InvalidPath,
            message: String::from_str("Failed to convert path to CString when opening DB."),
        }
    }

    /// The engine reported no error and returned no instance.
    pub fn no_instance() -> (e: Error)
        ensures
            e.is(ErrorKind::EngineOpenFailed, no_instance_text()),
    {
        Error {
            kind: ErrorKind::EngineOpenFailed,
            message: String::from_str("Could not initialize database."),
        }
    }

    /// The read options hold no descriptor.
    pub fn invalid_read_options() -> (e: Error)
        ensures
            e.is(ErrorKind::InvalidReadOptions, invalid_read_options_text()),
    {
        Error {
            kind: ErrorKind::InvalidReadOptions,
            message: String::from_str(
                "Unable to create RocksDB read options. This is a fairly trivial call, and its failure may be indicative of a mis-compiled or mis-loaded RocksDB library.",
            ),
        }
    }

    /// The directory of the database was refused; `detail` says why.
    pub fn directory(detail: &str) -> (e: Error)
        ensures
            e.is(ErrorKind::DirectoryCreationFailed, directory_text(detail@)),
    {
        let head = String::from_str("Failed to create RocksDB directory: `");
        let message = head.concat(detail).concat("`.");
        Error { kind: ErrorKind::DirectoryCreationFailed, message }
    }

    /// The kind of this error.
    pub fn kind(&self) -> (k: ErrorKind)
        ensures
            k == self.kind,
    {
        self.kind
    }

    /// The message, as a string of its own.
    pub fn to_string(&self) -> (s: String)
        ensures
            s@ == self.message@,
    {
        self.message.clone()
    }
}

} // verus!
