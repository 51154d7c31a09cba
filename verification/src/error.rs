//! Failures of reading and writing state outside the database.

use vstd::prelude::*;
use vstd::string::*;

use crate::foreign;

verus! {

/// Why storing or loading failed.
#[derive(Debug, Clone, PartialEq, Eq)]
#[non_exhaustive]
pub enum PersistenceError {
    /// Reading or writing failed.
    Io(String),
    /// A value could not be encoded or decoded.
    Serialization(String),
    /// There is no such thing.
    NotFound(String),
    /// Another write got in the way.
    Conflict(String),
}

/// A [`PersistenceError`] as text.
pub enum PersistenceErrorView {
    Io(Seq<char>),
    Serialization(Seq<char>),
    NotFound(Seq<char>),
    Conflict(Seq<char>),
}

impl View for PersistenceError {
    type V = PersistenceErrorView;

    open spec fn view(&self) -> PersistenceErrorView {
        match *self {
            PersistenceError::Io(m) => PersistenceErrorView::Io(m@),
            PersistenceError::Serialization(m) => PersistenceErrorView::Serialization(m@),
            PersistenceError::NotFound(m) => PersistenceErrorView::NotFound(m@),
            PersistenceError::Conflict(m) => PersistenceErrorView::Conflict(m@),
        }
    }
}

impl PersistenceErrorView {
    /// The message shown for the error.
    pub open spec fn message(self) -> Seq<char> {
        match self {
            PersistenceErrorView::Io(m) => "io error: "@ + m,
            PersistenceErrorView::Serialization(m) => "serialization error: "@ + m,
            PersistenceErrorView::NotFound(m) => "not found: "@ + m,
            PersistenceErrorView::Conflict(m) => "conflict: "@ + m,
        }
    }
}

impl PersistenceError {
    /// The message shown for the error.
    pub fn to_string(&self) -> (res: String)
        ensures
            res@ == self@.message(),
    {
        match self {
            PersistenceError::Io(m) => "io error: ".to_owned().concat(m.as_str()),
            PersistenceError::Serialization(m) => "serialization error: ".to_owned().concat(m.as_str()),
            PersistenceError::NotFound(m) => "not found: ".to_owned().concat(m.as_str()),
            PersistenceError::Conflict(m) => "conflict: ".to_owned().concat(m.as_str()),
        }
    }
}

impl From<std::io::Error> for PersistenceError {
    fn from(value: std::io::Error) -> (res: Self)
        ensures
            res is Io,
            foreign::shows_io(value, res->Io_0),
    {
        PersistenceError::Io(foreign::io_error_text(&value))
    }
}

impl vstd::std_specs::convert::FromSpecImpl<std::io::Error> for PersistenceError {
    open spec fn obeys_from_spec() -> bool {
        false
    }

    open spec fn from_spec(value: std::io::Error) -> Self {
        arbitrary()
    }
}

impl From<serde_json::Error> for PersistenceError {
    fn from(value: serde_json::Error) -> (res: Self)
        ensures
            res is Serialization,
            foreign::shows_json(value, res->Serialization_0),
    {
        PersistenceError::Serialization(foreign::json_error_text(&value))
    }
}

impl vstd::std_specs::convert::FromSpecImpl<serde_json::Error> for PersistenceError {
    open spec fn obeys_from_spec() -> bool {
        false
    }

    open spec fn from_spec(value: serde_json::Error) -> Self {
        arbitrary()
    }
}

} // verus!
