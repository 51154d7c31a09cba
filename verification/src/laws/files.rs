//! What holds of files: how they are watched, replaced, laid out and opened.

use std::path::PathBuf;

use vstd::prelude::*;
use vstd::string::*;

use crate::path;
use crate::persistence::error::PersistenceError;
use crate::store::data_dirs::{DataDirs, DirsCreation};
use crate::store::database::{DatabaseOpening, MigrateFailure, OpenAction, OpenEvent, Pragma};
use crate::store::database;
use crate::store::sql;
use crate::store::sql::SqlFailure;
use crate::store::watcher;
use crate::store::watcher::{
    DriverAction, DriverEvent, WatchAction, WatchEvent, WatcherDriver, WatcherSetup,
};
use crate::store::writer;
use crate::store::writer::{AtomicWrite, TargetPath, WriteAction};

verus! {

// ---------------------------------------------------------------------------
// Watching
// ---------------------------------------------------------------------------

/// An event matters where it happened to a file of the target's name, byte for byte, unless
/// it is of a kind that cannot change the content.
pub proof fn law_events_of_the_target_matter(event: WatchEvent, target: Vec<u8>, res: bool)
    requires
        call_ensures(watcher::event_matches_target, (&event, &target), res),
    ensures
        event.kind is Other ==> !res,
        res ==> exists|i: int|
            0 <= i < event.file_names@.len() && (#[trigger] event.file_names@[i] matches Some(name)
                && name@ == target@),
        forall|i: int|
            0 <= i < event.file_names@.len() && (event.kind is Modify || event.kind is Create
                || event.kind is Remove) && (#[trigger] event.file_names@[i] matches Some(name)
                && name@ == target@) ==> res,
{
    if res {
        let i = choose|i: int|
            0 <= i < event.file_names@.len() && watcher::is_named(
                #[trigger] event.file_names@[i],
                target@,
            );
        assert(event.file_names@[i] matches Some(name) && name@ == target@);
    }
    assert forall|i: int|
        0 <= i < event.file_names@.len() && (event.kind is Modify || event.kind is Create
            || event.kind is Remove) && (#[trigger] event.file_names@[i] matches Some(name) && name@
            == target@) implies res by {
        assert(watcher::is_named(event.file_names@[i], target@));
    }
}

/// The settings are reloaded only when the window of a burst closes. The thread waits for
/// one event at first, then for the window, and again for an event once it has closed.
pub proof fn law_reload_comes_with_the_window(
    first: &mut WatcherDriver,
    second: &mut WatcherDriver,
    third: &mut WatcherDriver,
    a: bool,
    b: bool,
    on_first: bool,
    on_second: bool,
    on_close: bool,
    before: DriverAction,
    within: DriverAction,
    after: DriverAction,
)
    requires
        call_ensures(WatcherDriver::new, (), *old(first)),
        call_ensures(WatcherDriver::next_action, (&*old(first),), before),
        call_ensures(WatcherDriver::advance, (first, DriverEvent::Arrived(a)), on_first),
        *old(second) == *final(first),
        call_ensures(WatcherDriver::next_action, (&*old(second),), within),
        call_ensures(WatcherDriver::advance, (second, DriverEvent::Arrived(b)), on_second),
        *old(third) == *final(second),
        call_ensures(WatcherDriver::advance, (third, DriverEvent::WindowClosed), on_close),
        call_ensures(WatcherDriver::next_action, (&*final(third),), after),
    ensures
        before is AwaitEvent,
        within is AwaitWindow,
        after is AwaitEvent,
        !on_first && !on_second,
        on_close == (a || b),
{
}

/// Nothing but the end of a window makes the thread reload, and a window ends only within a
/// burst. Between bursts such an end changes nothing.
pub proof fn law_reload_ends_a_burst(
    driver: &mut WatcherDriver,
    event: DriverEvent,
    reload: bool,
    before: DriverAction,
    after: DriverAction,
)
    requires
        call_ensures(WatcherDriver::next_action, (&*old(driver),), before),
        call_ensures(WatcherDriver::advance, (driver, event), reload),
        call_ensures(WatcherDriver::next_action, (&*final(driver),), after),
    ensures
        reload ==> event is WindowClosed && before is AwaitWindow,
        before is AwaitEvent && event is WindowClosed ==> after is AwaitEvent,
        before is AwaitEvent && event is Arrived ==> after is AwaitWindow,
        before is AwaitWindow && event is Arrived ==> after is AwaitWindow,
        before is AwaitWindow && event is WindowClosed ==> after is AwaitEvent,
        event is Disconnected || before is Exit ==> after is Exit,
        after is Exit ==> event is Disconnected || before is Exit,
{
}

/// Once no event will come any more the thread ends, and nothing makes it reload.
pub proof fn law_disconnected_thread_stays_down(
    driver: &mut WatcherDriver,
    later: &mut WatcherDriver,
    event: DriverEvent,
    on_disconnect: bool,
    on_later: bool,
    action: DriverAction,
)
    requires
        call_ensures(WatcherDriver::advance, (driver, DriverEvent::Disconnected), on_disconnect),
        *old(later) == *final(driver),
        call_ensures(WatcherDriver::advance, (later, event), on_later),
        call_ensures(WatcherDriver::next_action, (&*final(later),), action),
    ensures
        !on_disconnect,
        !on_later,
        action is Exit,
{
}

/// Watching is set up in order: the directory is made, the watcher built, the directory
/// watched and the thread started. Where a step fails the set-up ends with an input or output
/// error; where the target names no file it ends so once the directory is there.
pub proof fn law_watch_is_set_up_in_order(
    setup: &mut WatcherSetup,
    outcome: Result<(), String>,
    res: Result<(), PersistenceError>,
    before: &WatchAction,
    after: &WatchAction,
)
    requires
        call_ensures(WatcherSetup::next_action, (&*old(setup),), before),
        call_ensures(WatcherSetup::advance, (setup, outcome), res),
        call_ensures(WatcherSetup::next_action, (&*final(setup),), after),
    ensures
        final(setup).file() == old(setup).file(),
        before is CreateDirectory && outcome is Ok && old(setup).file().names_file ==> after is Build,
        before is CreateDirectory && outcome is Ok && !old(setup).file().names_file ==> res is Err,
        before is Build && outcome is Ok ==> after is Watch,
        before is Watch && outcome is Ok ==> after is Spawn,
        before is Spawn && outcome is Ok ==> after is Running,
        before is Running ==> after is Running,
        !(before is Running) && !(before is Failed) && outcome is Err ==> res is Err,
        res is Err ==> after is Failed,
        res matches Err(e) ==> e is IoError,
        !(before is Failed) && after is Failed ==> res is Err,
{
}

/// The set-up starts with making the directory that the file lies in: its parent, or the
/// current directory where it has none with a name.
pub proof fn law_watched_directory_is_the_parent(
    target: TargetPath,
    setup: WatcherSetup,
    action: &WatchAction,
    directory: &str,
)
    requires
        call_ensures(WatcherSetup::new, (target,), setup),
        call_ensures(WatcherSetup::next_action, (&setup,), action),
        call_ensures(WatcherSetup::directory, (&setup,), directory),
    ensures
        action is CreateDirectory,
        match target.parent {
            Some(p) => directory@ == if p@.len() > 0 {
                p@
            } else {
                "."@
            },
            None => directory@ == "."@,
        },
{
}

// ---------------------------------------------------------------------------
// Replacing
// ---------------------------------------------------------------------------

/// New content goes to a sibling first: a hidden file in the same directory whose name holds
/// the target's and the suffix, and is not the target's. A target without a parent cannot be
/// replaced.
pub proof fn law_new_content_goes_to_a_sibling(
    target: TargetPath,
    unique: &str,
    res: Result<AtomicWrite, String>,
)
    requires
        call_ensures(AtomicWrite::new, (&target, unique), res),
    ensures
        res is Err <==> target.parent is None,
        res matches Ok(write) ==> {
            &&& write.pending_action() is WriteTemp
            &&& match target.parent {
                Some(p) => write.folder() == if p@.len() > 0 {
                    p@
                } else {
                    "."@
                },
                None => false,
            }
            &&& write.sibling().len() > unique@.len()
            &&& write.sibling()[0] == '.'
            &&& write.sibling().skip(write.sibling().len() - unique@.len()) == unique@
            &&& target.file_name matches Some(name) ==> write.sibling() != name@
                && write.sibling().subrange(1, name@.len() as int + 1) == name@
        },
{
    reveal_strlit(".");
    reveal_strlit(".tmp.");
    if let Ok(write) = res {
        let s = write.sibling();
        assert(s.skip(s.len() - unique@.len()) =~= unique@);
        if let Some(name) = target.file_name {
            assert(s.subrange(1, name@.len() as int + 1) =~= name@);
            assert(s.len() > name@.len());
        }
    }
}

/// The target is touched by the rename alone, which comes only after the new content is
/// written. A failure before it, or of it, is the result; the directory's flush and the
/// removal of the sibling cannot change it.
pub proof fn law_replacement_goes_step_by_step(
    write: &mut AtomicWrite,
    outcome: Result<(), String>,
    before: &WriteAction,
    after: &WriteAction,
)
    requires
        call_ensures(AtomicWrite::next_action, (&*old(write),), before),
        call_ensures(AtomicWrite::advance, (write, outcome), ()),
        call_ensures(AtomicWrite::next_action, (&*final(write),), after),
    ensures
        final(write).folder() == old(write).folder(),
        final(write).sibling() == old(write).sibling(),
        after is Rename <==> before is WriteTemp && outcome is Ok,
        after is SyncDirectory <==> before is Rename && outcome is Ok,
        after is RemoveTemp <==> before is Rename && outcome is Err,
        after is Written <==> before is SyncDirectory || before is Written,
        after is Failed <==> before is Failed || before is RemoveTemp || (before is WriteTemp
            && outcome is Err),
        before is WriteTemp && outcome is Err ==> *after == WriteAction::Failed(outcome->Err_0),
        before is Rename && outcome is Err ==> *after == WriteAction::RemoveTemp(outcome->Err_0),
        before matches WriteAction::RemoveTemp(err) ==> *after == WriteAction::Failed(*err),
        before is Failed ==> after == before,
{
}

/// A suffix is made of the process, the time and the counter, so two writes of one process
/// get different ones as long as the counter moves.
pub proof fn law_suffixes_differ(
    pid: u32,
    nanos: u64,
    n: u64,
    other_pid: u32,
    other_nanos: u64,
    other_n: u64,
    a: String,
    b: String,
)
    requires
        call_ensures(writer::unique_suffix, (pid, nanos, n), a),
        call_ensures(writer::unique_suffix, (other_pid, other_nanos, other_n), b),
    ensures
        a@ == b@ <==> pid == other_pid && nanos == other_nanos && n == other_n,
{
    if a@ == b@ {
        writer::law_unique_suffixes_differ(pid, nanos, n, other_pid, other_nanos, other_n);
    }
}

// ---------------------------------------------------------------------------
// The data directory
// ---------------------------------------------------------------------------

/// Three directories are made below the root: for themes, for logs and for caches. Then
/// there is none left, and the root is what it was.
pub proof fn law_three_directories_are_made(
    root: PathBuf,
    dirs: DataDirs,
    first: &mut DirsCreation,
    second: &mut DirsCreation,
    third: &mut DirsCreation,
    paths: Seq<Option<PathBuf>>,
    results: Seq<Result<(), PersistenceError>>,
    made: DataDirs,
    made_root: &PathBuf,
)
    requires
        paths.len() == 4,
        results.len() == 3,
        call_ensures(DataDirs::with_root, (root,), dirs),
        call_ensures(DirsCreation::new, (dirs,), *old(first)),
        call_ensures(DirsCreation::next_directory, (&*old(first),), paths[0]),
        call_ensures(DirsCreation::advance, (first, Ok(())), results[0]),
        *old(second) == *final(first),
        call_ensures(DirsCreation::next_directory, (&*old(second),), paths[1]),
        call_ensures(DirsCreation::advance, (second, Ok(())), results[1]),
        *old(third) == *final(second),
        call_ensures(DirsCreation::next_directory, (&*old(third),), paths[2]),
        call_ensures(DirsCreation::advance, (third, Ok(())), results[2]),
        call_ensures(DirsCreation::next_directory, (&*final(third),), paths[3]),
        call_ensures(DirsCreation::into_dirs, (*final(third),), made),
        call_ensures(DataDirs::root, (&made,), made_root),
    ensures
        paths[0] matches Some(p) && path::joins(root, "themes", p),
        paths[1] matches Some(p) && path::joins(root, "logs", p),
        paths[2] matches Some(p) && path::joins(root, "cache", p),
        paths[3] is None,
        results[0] is Ok && results[1] is Ok && results[2] is Ok,
        *made_root == root,
{
}

/// A directory that cannot be made ends the creation with an input or output error of the
/// same words.
pub proof fn law_failed_directory_is_reported(
    creation: &mut DirsCreation,
    err: String,
    res: Result<(), PersistenceError>,
    left: Option<PathBuf>,
)
    requires
        old(creation).done() < 3,
        call_ensures(DirsCreation::advance, (creation, Err(err)), res),
        call_ensures(DirsCreation::next_directory, (&*final(creation),), left),
    ensures
        res matches Err(PersistenceError::IoError(m)) && m@ == err@,
        left is None,
{
}

/// Each place is the root joined with its own name.
pub proof fn law_places_have_their_names(
    dirs: DataDirs,
    settings: PathBuf,
    database_file: PathBuf,
    themes: PathBuf,
    logs: PathBuf,
    cache: PathBuf,
)
    requires
        call_ensures(DataDirs::settings_toml, (&dirs,), settings),
        call_ensures(DataDirs::data_db, (&dirs,), database_file),
        call_ensures(DataDirs::themes_dir, (&dirs,), themes),
        call_ensures(DataDirs::logs_dir, (&dirs,), logs),
        call_ensures(DataDirs::cache_dir, (&dirs,), cache),
    ensures
        path::joins(dirs.location(), "settings.toml", settings),
        path::joins(dirs.location(), "data.db", database_file),
        path::joins(dirs.location(), "themes", themes),
        path::joins(dirs.location(), "logs", logs),
        path::joins(dirs.location(), "cache", cache),
{
}

/// The data directory of the system is the root where there is one, and an input or output
/// error where there is none.
pub proof fn law_platform_directory_is_the_root(
    data_dir: Option<PathBuf>,
    res: Result<DataDirs, PersistenceError>,
)
    requires
        call_ensures(DataDirs::from_platform, (data_dir,), res),
    ensures
        res is Ok <==> data_dir is Some,
        res matches Ok(dirs) ==> data_dir == Some(dirs.location()),
        res matches Err(e) ==> e is IoError,
{
}

// ---------------------------------------------------------------------------
// Opening a database
// ---------------------------------------------------------------------------

/// A database is opened in order: its directory is made where it has one with a name, then
/// it is connected to, configured and migrated. Each step follows the success of the one
/// before, and a failed step ends the opening. An answer to another step changes nothing.
pub proof fn law_database_is_opened_in_order(
    opening: &mut DatabaseOpening,
    event: OpenEvent,
    res: Result<(), PersistenceError>,
    before: &OpenAction,
    after: &OpenAction,
)
    requires
        call_ensures(DatabaseOpening::next_action, (&*old(opening),), before),
        call_ensures(DatabaseOpening::advance, (opening, event), res),
        call_ensures(DatabaseOpening::next_action, (&*final(opening),), after),
    ensures
        final(opening).location() == old(opening).location(),
        before is CreateParent && (event matches OpenEvent::ParentCreated(Ok(_))) ==> after is Connect,
        before is Connect && (event matches OpenEvent::Connected(Ok(_))) ==> after is Configure,
        before is Configure && (event matches OpenEvent::Configured(Ok(_))) ==> after is Migrate,
        before is Migrate && (event matches OpenEvent::Migrated(Ok(_))) ==> after is Ready,
        after is Ready ==> before is Ready || (before is Migrate && (event matches OpenEvent::Migrated(Ok(_)))),
        after is Migrate ==> before is Migrate || (before is Configure && (event matches OpenEvent::Configured(Ok(_)))),
        after is Configure ==> before is Configure || (before is Connect && (event matches OpenEvent::Connected(Ok(_)))),
        before is CreateParent && (event matches OpenEvent::ParentCreated(Err(_))) ==> res is Err,
        before is Connect && (event matches OpenEvent::Connected(Err(_))) ==> res is Err,
        before is Configure && (event matches OpenEvent::Configured(Err(_))) ==> res is Err,
        before is Migrate && (event matches OpenEvent::Migrated(Err(_))) ==> res is Err,
        res is Err ==> after is Failed,
        res is Ok && after is Failed ==> before is Failed,
        before is CreateParent && !(event is ParentCreated) ==> *after == *before,
        before is Connect && !(event is Connected) ==> *after == *before,
        before is Configure && !(event is Configured) ==> *after == *before,
        before is Migrate && !(event is Migrated) ==> *after == *before,
        before is Ready || before is Failed ==> *after == *before,
{
}

/// An opening starts with the directory where that has a name, and with the connection where
/// it has none or the database lives in memory.
pub proof fn law_opening_starts_with_the_directory(
    location: &str,
    parent: Option<String>,
    opening: DatabaseOpening,
    in_memory: DatabaseOpening,
    shown: &str,
)
    requires
        call_ensures(DatabaseOpening::new, (location, parent), opening),
        call_ensures(DatabaseOpening::in_memory, (), in_memory),
        call_ensures(DatabaseOpening::path, (&opening,), shown),
    ensures
        shown@ == location@,
        opening.pending_action() is CreateParent || opening.pending_action() is Connect,
        opening.pending_action() matches OpenAction::CreateParent(p) ==> parent == Some(p) && p@.len()
            > 0,
        opening.pending_action() is Connect ==> (parent matches Some(p) ==> p@.len() == 0),
        in_memory.pending_action() is Connect,
        in_memory.location() == ":memory:"@,
{
}

/// A connection that fails because the database is busy is reported as locked, any other as
/// an input or output error. A failed run of migrations is reported as it failed.
pub proof fn law_opening_reports_failures(
    opening: &mut DatabaseOpening,
    failure: SqlFailure,
    busy: bool,
    connecting: bool,
    res: Result<(), PersistenceError>,
    migrating: &mut DatabaseOpening,
    run_failure: PersistenceError,
    run_res: Result<(), PersistenceError>,
)
    requires
        connecting ==> old(opening).pending_action() is Connect,
        !connecting ==> old(opening).pending_action() is Configure,
        call_ensures(
            DatabaseOpening::advance,
            (
                opening,
                if connecting {
                    OpenEvent::Connected(Err(failure))
                } else {
                    OpenEvent::Configured(Err(failure))
                },
            ),
            res,
        ),
        call_ensures(sql::is_busy, (&failure,), busy),
        old(migrating).pending_action() is Migrate,
        call_ensures(
            DatabaseOpening::advance,
            (migrating, OpenEvent::Migrated(Err(MigrateFailure::Run(run_failure)))),
            run_res,
        ),
    ensures
        busy ==> (res matches Err(e) && e is DatabaseLocked),
        !busy ==> (res matches Err(e) && e is IoError),
        run_res matches Err(e) && e@ == run_failure@,
{
}

/// Every connection writes ahead, syncs at checkpoints, enforces foreign keys and waits five
/// seconds for a lock. Nothing else is set.
pub proof fn law_connections_are_configured(pragmas: Vec<Pragma>)
    requires
        call_ensures(database::pragmas, (), pragmas),
    ensures
        sets(pragmas@, "journal_mode"@, "WAL"@),
        sets(pragmas@, "synchronous"@, "NORMAL"@),
        sets(pragmas@, "foreign_keys"@, "ON"@),
        sets(pragmas@, "busy_timeout"@, "5000"@),
        pragmas@.len() == 4,
{
    assert(pragmas@[0].name@ == "journal_mode"@ && pragmas@[1].name@ == "synchronous"@);
    assert(pragmas@[2].name@ == "foreign_keys"@ && pragmas@[3].name@ == "busy_timeout"@);
}

/// Whether one of the settings has the given name and value.
pub open spec fn sets(pragmas: Seq<Pragma>, name: Seq<char>, value: Seq<char>) -> bool {
    exists|i: int|
        0 <= i < pragmas.len() && #[trigger] pragmas[i].name@ == name && pragmas[i].value@ == value
}

/// A replacement shows the directory and the temporary name that it was made with, at every
/// step.
pub proof fn law_replacement_shows_its_places(
    target: TargetPath,
    unique: &str,
    made: Result<AtomicWrite, String>,
    first_directory: &str,
    first_name: &str,
    write: &mut AtomicWrite,
    outcome: Result<(), String>,
    directory: &str,
    name: &str,
    later_directory: &str,
    later_name: &str,
)
    requires
        call_ensures(AtomicWrite::new, (&target, unique), made),
        made matches Ok(w) ==> call_ensures(AtomicWrite::directory, (&w,), first_directory)
            && call_ensures(AtomicWrite::temp_file_name, (&w,), first_name),
        call_ensures(AtomicWrite::directory, (&*old(write),), directory),
        call_ensures(AtomicWrite::temp_file_name, (&*old(write),), name),
        call_ensures(AtomicWrite::advance, (write, outcome), ()),
        call_ensures(AtomicWrite::directory, (&*final(write),), later_directory),
        call_ensures(AtomicWrite::temp_file_name, (&*final(write),), later_name),
    ensures
        made is Ok ==> {
            &&& target.parent matches Some(p) && first_directory@ == if p@.len() > 0 {
                p@
            } else {
                "."@
            }
            &&& first_name@ == "."@ + match target.file_name {
                Some(n) => n@,
                None => "settings"@,
            } + ".tmp."@ + unique@
        },
        later_directory@ == directory@,
        later_name@ == name@,
{
}

/// A target lies in its parent where it has one with a name; otherwise in the current
/// directory.
pub proof fn law_targets_lie_in_named_parents(target: TargetPath, res: bool)
    requires
        call_ensures(TargetPath::lies_in_parent, (&target,), res),
    ensures
        target.parent is None ==> !res,
        target.parent matches Some(p) ==> res == (p@.len() > 0),
{
}

/// The directory that the system names is named after the application, and a root is
/// extraordinary where its bytes begin with two separators.
pub proof fn law_root_is_named_after_the_application(
    res: Result<DataDirs, PersistenceError>,
    dirs: DataDirs,
    root: &PathBuf,
    ordinary: bool,
)
    requires
        call_ensures(DataDirs::resolve, (), res),
        call_ensures(DataDirs::root, (&dirs,), root),
        call_ensures(DataDirs::has_ordinary_root, (&dirs,), ordinary),
    ensures
        res matches Ok(found) ==> {
            let name = path::bytes_of("openspace_desktop"@);
            let parts = path::parts(found.location());
            path::is_ordinary(path::raw(found.location())) ==> parts.contains(name)
        },
        res matches Err(e) ==> e is IoError,
        ({
            let bytes = path::raw(*root);
            !ordinary <==> bytes.len() >= 2 && (bytes[0] == 0x2f || bytes[0] == 0x5c) && (bytes[1]
                == 0x2f || bytes[1] == 0x5c)
        }),
{
    if let Ok(found) = res {
        let parts = path::parts(found.location());
        if path::is_ordinary(path::raw(found.location())) {
            assert(parts.contains(parts.last()) || parts.contains(parts[parts.len() - 2]));
        }
    }
}

} // verus!
