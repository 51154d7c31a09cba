//! What the user is told of a failure: at what it happened, and what the system said.

use std::path::PathBuf;

use vstd::prelude::*;
use vstd::string::*;

use crate::numeral;
use crate::persistence::error::PersistenceError;
use crate::persistence::types::PermissionGrant;
use crate::store::data_dirs::DataDirs;
use crate::store::database::{DatabaseOpening, MigrateFailure, OpenAction, OpenEvent};
use crate::store::migration::discovery;
use crate::store::migration::discovery::ListedEntry;
use crate::store::migration::runner::{
    ApplyFailure, MigrationAction, MigrationEvent, MigrationRunner,
};
use crate::store::migration::{Migration, MigrationView};
use crate::store::permission::PermissionGrantRow;
use crate::store::sql;
use crate::store::sql::SqlFailure;
use crate::store::turn;
use crate::store::watcher::{WatchAction, WatcherSetup};
use crate::store::workspace;
use crate::store::writer::{AtomicWrite, TargetPath};
use crate::text;
use crate::time::Timestamp;

verus! {

/// The words of an error, whatever its kind.
pub open spec fn words(e: PersistenceError) -> Seq<char> {
    match e {
        PersistenceError::MigrationFailed(m) => m@,
        PersistenceError::IoError(m) => m@,
        PersistenceError::SerializationError(m) => m@,
        PersistenceError::NotFound(m) => m@,
        PersistenceError::ConflictingWrite(m) => m@,
        PersistenceError::SchemaVersionMismatch(m) => m@,
        PersistenceError::DatabaseLocked(m) => m@,
    }
}

// ---------------------------------------------------------------------------
// Files
// ---------------------------------------------------------------------------

/// A failed opening of a database says which step failed, and why.
pub proof fn law_failed_opening_says_at_what(
    opening: &mut DatabaseOpening,
    event: OpenEvent,
    action: &OpenAction,
    res: Result<(), PersistenceError>,
    failure: SqlFailure,
    said: &str,
)
    requires
        call_ensures(DatabaseOpening::next_action, (&*old(opening),), action),
        call_ensures(DatabaseOpening::advance, (opening, event), res),
        call_ensures(SqlFailure::describe, (&failure,), said),
    ensures
        action is CreateParent ==> (event matches OpenEvent::ParentCreated(Err(err)) ==> (
        res matches Err(e) && e is IoError && words(e) == "creating database parent directory "@
            + action->CreateParent_0@ + ": "@ + err@)),
        action is Connect && event == OpenEvent::Connected(Err(failure)) ==> (res matches Err(e)
            && words(e) == "opening database"@ + ": "@ + said@),
        action is Configure && event == OpenEvent::Configured(Err(failure)) ==> (res matches Err(e)
            && words(e) == "configuring database"@ + ": "@ + said@),
        action is Migrate ==> (event matches OpenEvent::Migrated(Err(MigrateFailure::Call(err)))
            ==> (res matches Err(e) && e is MigrationFailed && words(e) == "running migrations: "@
            + err@)),
{
}

/// A failed set-up of a watch says which step failed, and why.
pub proof fn law_failed_watch_says_at_what(
    setup: &mut WatcherSetup,
    outcome: Result<(), String>,
    action: &WatchAction,
    directory: &str,
    res: Result<(), PersistenceError>,
)
    requires
        call_ensures(WatcherSetup::next_action, (&*old(setup),), action),
        call_ensures(WatcherSetup::directory, (&*old(setup),), directory),
        call_ensures(WatcherSetup::advance, (setup, outcome), res),
    ensures
        outcome matches Err(err) ==> {
            &&& action is CreateDirectory ==> (res matches Err(e) && words(e)
                == "settings watcher: cannot create parent "@ + directory@ + ": "@ + err@)
            &&& action is Build ==> (res matches Err(e) && words(e)
                == "settings watcher: build failed: "@ + err@)
            &&& action is Watch ==> (res matches Err(e) && words(e)
                == "settings watcher: cannot watch "@ + directory@ + ": "@ + err@)
            &&& action is Spawn ==> (res matches Err(e) && words(e)
                == "settings watcher: spawn failed: "@ + err@)
        },
        outcome is Ok && res is Err ==> words(res->Err_0)
            == "settings watcher: target has no file name: "@ + old(setup).file().path@,
{
}

/// A target without a directory, and a system without a place for data, are named.
pub proof fn law_missing_places_are_named(
    target: TargetPath,
    unique: &str,
    write: Result<AtomicWrite, String>,
    data_dir: Option<PathBuf>,
    dirs: Result<DataDirs, PersistenceError>,
    resolved: Result<DataDirs, PersistenceError>,
)
    requires
        call_ensures(AtomicWrite::new, (&target, unique), write),
        call_ensures(DataDirs::from_platform, (data_dir,), dirs),
        call_ensures(DataDirs::resolve, (), resolved),
    ensures
        write matches Err(m) ==> m@ == "settings target has no parent directory: "@ + target.path@,
        dirs matches Err(e) ==> words(e)
            == "could not resolve platform data directory for openspace_desktop"@,
        resolved matches Err(e) ==> words(e)
            == "could not resolve platform data directory for openspace_desktop"@,
{
}

// ---------------------------------------------------------------------------
// Migrations
// ---------------------------------------------------------------------------

/// A failed statement of a run says what it was for, and why it failed.
pub proof fn law_failed_statement_says_what_for(
    runner: &mut MigrationRunner,
    event: MigrationEvent,
    res: Result<(), PersistenceError>,
    failure: SqlFailure,
    said: &str,
)
    requires
        call_ensures(MigrationRunner::advance, (runner, event), res),
        call_ensures(SqlFailure::describe, (&failure,), said),
    ensures
        event == MigrationEvent::MetaCreated(Err(failure)) ==> (res matches Err(e) && words(e)
            == "creating _meta table"@ + ": "@ + said@),
        event == MigrationEvent::MetaCounted(Err(failure)) ==> (res matches Err(e) && words(e)
            == "reading _meta row count"@ + ": "@ + said@),
        event == MigrationEvent::MetaSeeded(Err(failure)) ==> (res matches Err(e) && words(e)
            == "seeding _meta row"@ + ": "@ + said@),
        event == MigrationEvent::VersionRead(Err(failure)) ==> (res matches Err(e) && words(e)
            == "reading schema_version"@ + ": "@ + said@),
        event == MigrationEvent::Applied(Err(ApplyFailure::Opening(failure))) ==> (
        res matches Err(e) && words(e) == "opening migration transaction"@ + ": "@ + said@),
{
}

/// A failed migration is named by its file; a table with too many rows and a database that is
/// too new are described by their numbers.
pub proof fn law_failed_migration_is_named(
    runner: &mut MigrationRunner,
    event: MigrationEvent,
    action: MigrationAction,
    at: usize,
    applied: Option<&Migration>,
    res: Result<(), PersistenceError>,
)
    requires
        call_ensures(MigrationRunner::next_action, (&*old(runner),), action),
        action == MigrationAction::Apply(at) || !(event is Applied),
        call_ensures(MigrationRunner::migration, (&*old(runner), at), applied),
        call_ensures(MigrationRunner::advance, (runner, event), res),
    ensures
        event matches MigrationEvent::Applied(Err(ApplyFailure::Statements(err))) ==> (
        res matches Err(e) && applied matches Some(m) && words(e) == m.file_name@ + ": "@ + err@),
        event matches MigrationEvent::Applied(Err(ApplyFailure::Version(err))) ==> (
        res matches Err(e) && applied matches Some(m) && words(e) == m.file_name@
            + ": updating schema_version: "@ + err@),
        event matches MigrationEvent::Applied(Err(ApplyFailure::Commit(err))) ==> (
        res matches Err(e) && applied matches Some(m) && words(e) == m.file_name@
            + ": committing migration: "@ + err@),
        event matches MigrationEvent::MetaCounted(Ok(n)) ==> (res matches Err(e) ==> words(e)
            == "_meta table is corrupt: expected 0 or 1 rows, found "@ + numeral::signed_decimal(
            n as int,
        )),
        event matches MigrationEvent::VersionRead(Ok(v)) ==> (res matches Err(e) ==> words(e)
            == "database at version "@ + numeral::signed_decimal(v as int)
            + ", highest known migration is "@ + numeral::signed_decimal(
            if old(runner).known().len() == 0 {
                0int
            } else {
                old(runner).known().last().version as int
            },
        )),
{
}

/// A file name that gives no version is quoted, with the part that should be one.
pub proof fn law_bad_version_is_quoted(
    name: &str,
    prefix: Seq<char>,
    rest: Seq<char>,
    res: Result<i64, PersistenceError>,
)
    requires
        call_ensures(discovery::parse_version_prefix, (name,), res),
        name@ == prefix + seq!['_'] + rest,
        !prefix.contains('_'),
    ensures
        prefix.len() == 0 ==> (res matches Err(e) && words(e)
            == "migration filename has no version prefix: "@ + name@),
        prefix == "0"@ ==> (res matches Err(e) && words(e) == "migration filename "@ + name@
            + " has unparseable version prefix "@ + text::debug_quoted(prefix) + ": "@
            + "not a positive integer"@),
        prefix.len() > 0 && res is Err ==> exists|why: Seq<char>|
            words(res->Err_0) == #[trigger] ("migration filename "@ + name@
                + " has unparseable version prefix "@ + text::debug_quoted(prefix) + ": "@ + why),
{
    text::lemma_split_on_prefix(prefix, '_', rest);
    assert((seq![prefix] + text::split_on(rest, '_'))[0] == prefix);
    if prefix == "0"@ {
        numeral::lemma_signed_reads_back(0);
        reveal_strlit("0");
        assert(numeral::decimal(0) =~= "0"@);
    }
    if prefix.len() > 0 && res is Err {
        let why = discovery::prefix_fault(prefix);
        assert(words(res->Err_0) == "migration filename "@ + name@
            + " has unparseable version prefix "@ + text::debug_quoted(prefix) + ": "@ + why);
    }
}

/// A directory that cannot be listed is named. So is the first entry that is at fault, where
/// the walk fails there, its name is no text or it cannot be read.
pub proof fn law_unreadable_migrations_are_named(
    dir: &str,
    listing: Result<Vec<ListedEntry>, String>,
    res: Result<Vec<Migration>, PersistenceError>,
    name: &str,
    version: Result<i64, PersistenceError>,
)
    requires
        call_ensures(discovery::discover_migrations, (dir, listing), res),
        call_ensures(discovery::parse_version_prefix, (name,), version),
    ensures
        listing matches Err(err) ==> (res matches Err(e) && words(e)
            == "reading migrations directory "@ + dir@ + ": "@ + err@),
        listing is Ok && listing->Ok_0@.len() > 0 ==> {
            let first = listing->Ok_0@[0];
            &&& first matches ListedEntry::Failed(err) ==> (res matches Err(e) && words(e)
                == "iterating migrations directory "@ + dir@ + ": "@ + err@)
            &&& first is File && discovery::is_sql_name(first->name@) && !first->is_text ==> (
            res matches Err(e) && e is MigrationFailed && words(e)
                == "migration filename is not valid utf-8: "@ + first->path@)
            &&& first is File && discovery::is_sql_name(first->name@) && first->is_text
                && first->name@ == name@ && version is Err ==> (res matches Err(e) && words(e)
                == words(version->Err_0))
            &&& first is File && discovery::is_sql_name(first->name@) && first->is_text
                && first->name@ == name@ && version is Ok && first->contents is Err ==> (
            res matches Err(e) && e is IoError && words(e) == "reading migration "@ + first->path@
                + ": "@ + first->contents->Err_0@)
        },
{
    if listing is Ok && listing->Ok_0@.len() > 0 {
        let entries = listing->Ok_0@;
        let one = entries.take(1);
        assert(one.drop_last() =~= Seq::<ListedEntry>::empty());
        assert(discovery::migrations_in(dir@, one.drop_last()) is Ok);
        assert(one.last() == entries[0]);
        if discovery::migrations_in(dir@, one) is Err {
            lemma_fault_stays(dir@, entries, 1);
        }
    }
}

proof fn lemma_fault_stays(dir: Seq<char>, entries: Seq<ListedEntry>, n: int)
    requires
        0 <= n <= entries.len(),
        discovery::migrations_in(dir, entries.take(n)) is Err,
    ensures
        discovery::migrations_in(dir, entries) == discovery::migrations_in(dir, entries.take(n)),
    decreases entries.len() - n,
{
    if n < entries.len() {
        assert(entries.take(n + 1).drop_last() =~= entries.take(n));
        lemma_fault_stays(dir, entries, n + 1);
    } else {
        assert(entries.take(n) =~= entries);
    }
}

// ---------------------------------------------------------------------------
// Rows
// ---------------------------------------------------------------------------

/// What a row holds and cannot be read is quoted.
pub proof fn law_unreadable_columns_are_quoted(
    ts: i64,
    instant: Result<Timestamp, String>,
    row: PermissionGrantRow,
    grant: Result<PermissionGrant, String>,
    highest: Option<i64>,
    place: Result<i64, String>,
    limit: Option<usize>,
    kept: Result<Option<i64>, PersistenceError>,
)
    requires
        call_ensures(sql::ts_to_datetime, (ts,), instant),
        row.granted_at == ts,
        call_ensures(PermissionGrantRow::into_grant, (row,), grant),
        call_ensures(turn::next_sequence, (highest,), place),
        call_ensures(workspace::recent_limit, (limit,), kept),
    ensures
        instant matches Err(m) ==> m@ == "invalid timestamp: "@ + numeral::signed_decimal(
            ts as int,
        ),
        instant is Err ==> grant is Err && grant->Err_0@ == instant->Err_0@,
        instant is Ok && grant is Err ==> grant->Err_0@ == "invalid permission grant: "@
            + row.network_pattern@,
        place matches Err(m) ==> m@ == "no sequence number is left"@,
        kept matches Err(e) ==> words(e) == "recent workspace limit exceeds i64"@,
{
}

/// Two files of one version are refused, and named in the order in which they were listed.
pub proof fn law_repeated_version_is_refused(
    dir: &str,
    entries: Vec<ListedEntry>,
    first: &str,
    second: &str,
    version: i64,
    is_sql: bool,
    is_too: bool,
    res: Result<Vec<Migration>, PersistenceError>,
)
    requires
        entries@.len() == 2,
        entries@[0] is File && entries@[0]->is_text && entries@[0]->contents is Ok,
        entries@[1] is File && entries@[1]->is_text && entries@[1]->contents is Ok,
        entries@[0]->name@ == first@ && entries@[1]->name@ == second@,
        call_ensures(discovery::has_sql_extension, (first,), is_sql),
        call_ensures(discovery::has_sql_extension, (second,), is_too),
        is_sql && is_too,
        call_ensures(discovery::parse_version_prefix, (first,), Ok(version)),
        call_ensures(discovery::parse_version_prefix, (second,), Ok(version)),
        call_ensures(discovery::discover_migrations, (dir, Ok(entries)), res),
    ensures
        res matches Err(e) && e is MigrationFailed && words(e) == "duplicate migration version "@
            + numeral::signed_decimal(version as int) + ": "@ + first@ + " and "@ + second@,
{
    reveal_with_fuel(discovery::migrations_in, 3);
    reveal_with_fuel(discovery::sorted, 3);
    reveal_with_fuel(discovery::first_repeat, 2);
    let s = entries@;
    assert(s.drop_last().drop_last() =~= Seq::<ListedEntry>::empty());
    assert(s.drop_last().last() == s[0] && s.last() == s[1]);
    let found = discovery::migrations_in(dir@, s)->Ok_0;
    let a = MigrationView { version, file_name: first@, sql: s[0]->contents->Ok_0@ };
    let b = MigrationView { version, file_name: second@, sql: s[1]->contents->Ok_0@ };
    assert(found =~= seq![a, b]);
    assert(found.drop_last() =~= seq![a]);
    assert(found.drop_last().drop_last() =~= Seq::<MigrationView>::empty());
    assert(discovery::sorted(Seq::<MigrationView>::empty()) =~= Seq::<MigrationView>::empty());
    assert(discovery::sorted(seq![a]) =~= seq![a]);
    assert(discovery::sorted(found) =~= seq![a, b]);
}

} // verus!
