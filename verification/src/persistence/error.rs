//! Failures of the stores.

use vstd::prelude::*;
use vstd::string::*;

use crate::foreign;

verus! {

/// Why storing or loading failed.
#[derive(Debug, Clone, PartialEq, Eq)]
#[non_exhaustive]
pub enum PersistenceError {
    /// A migration could not be found, read or applied.
    MigrationFailed(String),
    /// Reading or writing failed.
    IoError(String),
    /// A value could not be encoded or decoded.
    SerializationError(String),
    /// There is no such record.
    NotFound(String),
    /// The write contradicts what is stored.
    ConflictingWrite(String),
    /// The database is newer than the known migrations.
    SchemaVersionMismatch(String),
    /// Someone else holds the database.
    DatabaseLocked(String),
}

/// A [`PersistenceError`] as text.
pub enum PersistenceErrorView {
    MigrationFailed(Seq<char>),
    IoError(Seq<char>),
    SerializationError(Seq<char>),
    NotFound(Seq<char>),
    ConflictingWrite(Seq<char>),
    SchemaVersionMismatch(Seq<char>),
    DatabaseLocked(Seq<char>),
}

impl View for PersistenceError {
    type V = PersistenceErrorView;

    open spec fn view(&self) -> PersistenceErrorView {
        match *self {
            PersistenceError::MigrationFailed(m) => PersistenceErrorView::MigrationFailed(m@),
            PersistenceError::IoError(m) => PersistenceErrorView::IoError(m@),
            PersistenceError::SerializationError(m) => PersistenceErrorView::SerializationError(m@),
            PersistenceError::NotFound(m) => PersistenceErrorView::NotFound(m@),
            PersistenceError::ConflictingWrite(m) => PersistenceErrorView::ConflictingWrite(m@),
            PersistenceError::SchemaVersionMismatch(m) => PersistenceErrorView::SchemaVersionMismatch(m@),
            PersistenceError::DatabaseLocked(m) => PersistenceErrorView::DatabaseLocked(m@),
        }
    }
}

impl PersistenceErrorView {
    /// The message shown for the error.
    pub open spec fn message(self) -> Seq<char> {
        match self {
            PersistenceErrorView::MigrationFailed(m) => "migration failed: "@ + m,
            PersistenceErrorView::IoError(m) => "io error: "@ + m,
            PersistenceErrorView::SerializationError(m) => "serialization error: "@ + m,
            PersistenceErrorView::NotFound(m) => "not found: "@ + m,
            PersistenceErrorView::ConflictingWrite(m) => "conflicting write: "@ + m,
            PersistenceErrorView::SchemaVersionMismatch(m) => "schema version mismatch: "@ + m,
            PersistenceErrorView::DatabaseLocked(m) => "database locked: "@ + m,
        }
    }
}

impl PersistenceError {
    /// The message shown for the error.
    pub fn to_string(&self) -> (res: String)
        ensures
            res@ == self@.message(),
    {
        match self {
            PersistenceError::MigrationFailed(m) => "migration failed: ".to_owned().concat(m.as_str()),
            PersistenceError::IoError(m) => "io error: ".to_owned().concat(m.as_str()),
            PersistenceError::SerializationError(m) => "serialization error: ".to_owned().concat(m.as_str()),
            PersistenceError::NotFound(m) => "not found: ".to_owned().concat(m.as_str()),
            PersistenceError::ConflictingWrite(m) => "conflicting write: ".to_owned().concat(m.as_str()),
            PersistenceError::SchemaVersionMismatch(m) => "schema version mismatch: ".to_owned().concat(m.as_str()),
            PersistenceError::DatabaseLocked(m) => "database locked: ".to_owned().concat(m.as_str()),
        }
    }
}

impl From<std::io::Error> for PersistenceError {
    fn from(value: std::io::Error) -> (res: Self)
        ensures
            res is IoError,
            foreign::shows_io(value, res->IoError_0),
    {
        PersistenceError::IoError(foreign::io_error_text(&value))
    }
}

impl vstd::std_specs::convert::FromSpecImpl<std::io::Error> for PersistenceError {
    open spec fn obeys_from_spec() -> bool {
        false
    }

    open spec fn from_spec(value: std::io::Error) -> Self {
        arbitrary()
    }
}

impl From<serde_json::Error> for PersistenceError {
    fn from(value: serde_json::Error) -> (res: Self)
        ensures
            res is SerializationError,
            foreign::shows_json(value, res->SerializationError_0),
    {
        PersistenceError::SerializationError(foreign::json_error_text(&value))
    }
}

impl vstd::std_specs::convert::FromSpecImpl<serde_json::Error> for PersistenceError {
    open spec fn obeys_from_spec() -> bool {
        false
    }

    open spec fn from_spec(value: serde_json::Error) -> Self {
        arbitrary()
    }
}

} // verus!
