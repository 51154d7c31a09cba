//! Numbered migrations: finding them, ordering them, and deciding which of them
//! a database still needs.

pub mod discovery;
pub mod laws;
pub mod runner;

use vstd::prelude::*;

verus! {

/// One migration, ready to apply.
#[derive(Debug, Clone, PartialEq, Eq)]
pub struct Migration {
    /// The number that the file's name starts with.
    pub version: i64,
    /// The name of the file.
    pub file_name: String,
    /// The statements of the file.
    pub sql: String,
}

/// A [`Migration`] as text.
pub struct MigrationView {
    pub version: i64,
    pub file_name: Seq<char>,
    pub sql: Seq<char>,
}

impl View for Migration {
    type V = MigrationView;

    open spec fn view(&self) -> MigrationView {
        MigrationView { version: self.version, file_name: self.file_name@, sql: self.sql@ }
    }
}

/// The migrations of a list, as text.
pub open spec fn views(s: Seq<Migration>) -> Seq<MigrationView> {
    Seq::new(s.len(), |i: int| s[i]@)
}

/// Whether versions are positive and strictly ascend.
pub open spec fn ascending(s: Seq<MigrationView>) -> bool {
    &&& forall|i: int| 0 <= i < s.len() ==> (#[trigger] s[i]).version >= 1
    &&& forall|i: int, j: int|
        0 <= i < j < s.len() ==> (#[trigger] s[i]).version < (#[trigger] s[j]).version
}

} // verus!
