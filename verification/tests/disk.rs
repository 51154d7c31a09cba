use std::path::{Path, PathBuf};

use openspace::keybinding::KeybindingProfileId;
use openspace::persistence::error::PersistenceError;
use openspace::settings::{PointSize, Settings, ThemeMode};
use openspace::store::data_dirs::{DataDirs, DirsCreation};
use openspace::store::database::{
    pragmas, DatabaseOpening, MigrateFailure, OpenAction, OpenEvent,
};
use openspace::store::settings_store::{DraftWrite, FileRead, SettingsStore};
use openspace::store::sql::{SqlCode, SqlFailure};
use openspace::store::watcher::{
    event_matches_target, DriverAction, DriverEvent, WatchAction, WatchEvent, WatchKind,
    WatcherDriver, WatcherSetup, DEFAULT_DEBOUNCE_MILLIS,
};
use openspace::store::writer::{unique_suffix, AtomicWrite, TargetPath, WriteAction};

fn store(read: FileRead) -> SettingsStore {
    SettingsStore::load("settings.toml", read).expect("load")
}

#[test]
fn load_absent_file_yields_default_without_creating_it() {
    let store = store(FileRead::Missing);
    assert_eq!(store.current(), Settings::default());
    assert_eq!(store.path(), "settings.toml");
}

#[test]
fn load_round_trips_fixture_from_disk() {
    let mut original = Settings::default();
    original.update_check_enabled = true;
    original.keybinding_profile = KeybindingProfileId::new("vim");
    original.default_provider = "hosted-router".to_string();
    original.theme_mode = ThemeMode::Dark;
    let store = store(FileRead::Decoded(original.clone()));
    assert_eq!(store.current(), original);
}

#[test]
fn load_invalid_toml_maps_to_serialization_error() {
    let err = SettingsStore::load("s", FileRead::Malformed("this is = not [valid toml".to_string()))
        .expect_err("load must fail on garbled toml");
    assert!(
        matches!(err, PersistenceError::SerializationError(_)),
        "expected SerializationError, got {err:?}",
    );
}

#[test]
fn unreadable_files_are_io_errors() {
    assert_eq!(
        SettingsStore::load("s", FileRead::Unreadable("denied".to_string())).map(|_| ()),
        Err(PersistenceError::IoError("denied".to_string()))
    );
    assert_eq!(
        SettingsStore::load("s", FileRead::Aborted("cancelled".to_string())).map(|_| ()),
        Err(PersistenceError::IoError(
            "settings load task panicked: cancelled".to_string()
        ))
    );
}

#[test]
fn edit_publishes_snapshot_after_disk_write() {
    let mut store = store(FileRead::Missing);
    let mut draft = store.current();
    draft.update_check_enabled = true;
    store.finish_edit(draft, DraftWrite::Written).expect("first edit");
    assert!(store.current().update_check_enabled);

    let mut draft = store.current();
    draft.theme_mode = ThemeMode::Dark;
    store.finish_edit(draft, DraftWrite::Written).expect("second edit");
    let now = store.current();
    assert!(now.update_check_enabled);
    assert_eq!(now.theme_mode, ThemeMode::Dark);
}

fn target() -> TargetPath {
    TargetPath {
        path: "conf/settings.toml".to_string(),
        parent: Some("conf".to_string()),
        names_file: true,
        file_name: Some("settings.toml".to_string()),
    }
}

/// A file system with one directory, which fails where it is told to.
struct Disk {
    target: Vec<u8>,
    temp: Option<Vec<u8>>,
    fail_at: Option<WriteAction>,
}

impl Disk {
    fn replace(&mut self, bytes: &[u8]) -> Result<(), String> {
        let mut write = AtomicWrite::new(&target(), "1.2.3").expect("has a parent");
        loop {
            let action = write.next_action().clone();
            let fails = self.fail_at.as_ref() == Some(&action);
            let outcome = if fails {
                Err("simulated kill".to_string())
            } else {
                Ok(())
            };
            match action {
                WriteAction::WriteTemp => self.temp = Some(bytes.to_vec()),
                WriteAction::Rename if !fails => {
                    self.target = self.temp.take().expect("written before");
                }
                WriteAction::Rename => {}
                WriteAction::RemoveTemp(_) => self.temp = None,
                WriteAction::SyncDirectory => {}
                WriteAction::Written => return Ok(()),
                WriteAction::Failed(err) => return Err(err),
            }
            write.advance(outcome);
        }
    }
}

#[test]
fn atomic_write_kill_before_rename_leaves_pre_edit_content_intact() {
    let mut pre_edit = Settings::default();
    pre_edit.default_provider = "pre-edit-provider".to_string();
    let mut store = store(FileRead::Decoded(pre_edit.clone()));
    assert_eq!(store.current(), pre_edit);

    let mut disk = Disk {
        target: b"pre".to_vec(),
        temp: None,
        fail_at: Some(WriteAction::Rename),
    };
    let mut draft = store.current();
    draft.default_provider = "post-edit-provider".to_string();
    let outcome = disk.replace(b"post").expect_err("rename is killed");
    let err = store
        .finish_edit(draft, DraftWrite::Unwritable(outcome))
        .expect_err("edit must fail when rename is killed");
    assert!(
        matches!(err, PersistenceError::IoError(_)),
        "expected IoError mapping, got {err:?}",
    );
    assert_eq!(store.current(), pre_edit);
    assert_eq!(disk.target, b"pre");
    assert_eq!(disk.temp, None);
}

#[test]
fn atomic_write_replaces_the_file() {
    let mut disk = Disk {
        target: b"pre".to_vec(),
        temp: None,
        fail_at: None,
    };
    assert_eq!(disk.replace(b"post"), Ok(()));
    assert_eq!(disk.target, b"post");

    disk.fail_at = Some(WriteAction::SyncDirectory);
    assert_eq!(disk.replace(b"third"), Ok(()));
    assert_eq!(disk.target, b"third");

    disk.fail_at = Some(WriteAction::WriteTemp);
    assert_eq!(disk.replace(b"lost"), Err("simulated kill".to_string()));
    assert_eq!(disk.target, b"third");
}

#[test]
fn temporary_files_are_hidden_siblings() {
    assert_eq!(unique_suffix(7, 1_000, 0), "7.1000.0");
    let write = AtomicWrite::new(&target(), &unique_suffix(7, 1_000, 0)).expect("has a parent");
    assert_eq!(write.directory(), "conf");
    assert_eq!(write.temp_file_name(), ".settings.toml.tmp.7.1000.0");

    let bare = TargetPath {
        path: "s.toml".to_string(),
        parent: Some(String::new()),
        names_file: true,
        file_name: None,
    };
    let write = AtomicWrite::new(&bare, "u").expect("has a parent");
    assert_eq!(write.directory(), ".");
    assert_eq!(write.temp_file_name(), ".settings.tmp.u");

    let root = TargetPath {
        path: "/".to_string(),
        parent: None,
        names_file: false,
        file_name: None,
    };
    assert!(target().lies_in_parent() && !bare.lies_in_parent() && !root.lies_in_parent());
    assert_eq!(
        AtomicWrite::new(&root, "u").map(|_| ()),
        Err("settings target has no parent directory: /".to_string())
    );
    assert_ne!(unique_suffix(1, 11, 1), unique_suffix(11, 1, 1));
}

#[test]
fn failed_edits_keep_the_snapshot() {
    let mut store = store(FileRead::Missing);
    let mut draft = store.current();
    draft.update_check_enabled = true;
    assert_eq!(
        store.finish_edit(draft.clone(), DraftWrite::Unencodable("e".to_string())),
        Err(PersistenceError::SerializationError("e".to_string()))
    );
    assert_eq!(
        store.finish_edit(draft, DraftWrite::Aborted("e".to_string())),
        Err(PersistenceError::IoError(
            "settings write task panicked: e".to_string()
        ))
    );
    assert_eq!(store.current(), Settings::default());
}

#[test]
fn hot_reload_malformed_toml_keeps_prior_snapshot_silently() {
    let mut pre = Settings::default();
    pre.default_provider = "pre-reload".to_string();
    let mut store = store(FileRead::Decoded(pre.clone()));
    assert_eq!(
        store.reload(FileRead::Malformed("this is = not [valid toml".to_string())),
        None
    );
    assert_eq!(store.reload(FileRead::Missing), None);
    assert_eq!(store.reload(FileRead::Unreadable("denied".to_string())), None);
    assert_eq!(store.current(), pre);
}

#[test]
fn hot_reload_same_value_does_not_emit_event() {
    let value = Settings::default();
    let mut store = store(FileRead::Decoded(value.clone()));
    assert_eq!(store.reload(FileRead::Decoded(value.clone())), None);
    assert_eq!(store.current(), value);
}

#[test]
fn hot_reload_publishes_other_settings_once() {
    let mut store = store(FileRead::Missing);
    let mut post = Settings::default();
    post.default_provider = "external-edit-provider".to_string();
    post.theme_mode = ThemeMode::Dark;
    let event = store.reload(FileRead::Decoded(post.clone())).expect("an event");
    assert_eq!(event.settings, post);
    assert_eq!(store.current(), post);
    assert_eq!(store.reload(FileRead::Decoded(post.clone())), None);
    assert_eq!(event.clone(), event);

    // A size that is no number agrees with nothing, not even with itself.
    let mut odd = post.clone();
    odd.font_settings.ui_size = PointSize { bits: f32::NAN.to_bits() };
    assert!(store.reload(FileRead::Decoded(odd.clone())).is_some());
    assert!(store.reload(FileRead::Decoded(odd)).is_some());
}

#[test]
fn only_changes_of_the_target_matter() {
    let event = |kind: WatchKind, names: Vec<Option<&str>>| WatchEvent {
        kind,
        file_names: names
            .into_iter()
            .map(|n| n.map(|n| n.as_bytes().to_vec()))
            .collect(),
    };
    let target = b"settings.toml".to_vec();
    for kind in [WatchKind::Modify, WatchKind::Create, WatchKind::Remove] {
        assert!(event_matches_target(
            &event(kind, vec![None, Some("other"), Some("settings.toml")]),
            &target
        ));
        assert!(!event_matches_target(
            &event(kind, vec![Some("other"), None]),
            &target
        ));
    }
    assert!(!event_matches_target(
        &event(WatchKind::Other, vec![Some("settings.toml")]),
        &target
    ));
    let odd = vec![0xff, 0xfe];
    assert!(event_matches_target(
        &WatchEvent {
            kind: WatchKind::Modify,
            file_names: vec![Some(odd.clone())],
        },
        &odd
    ));
}

#[test]
fn bursts_become_one_reload() {
    let mut driver = WatcherDriver::new();
    assert_eq!(driver.next_action(), DriverAction::AwaitEvent);
    assert!(!driver.advance(DriverEvent::Arrived(false)));
    assert_eq!(driver.next_action(), DriverAction::AwaitWindow);
    assert!(!driver.advance(DriverEvent::Arrived(true)));
    assert!(!driver.advance(DriverEvent::Arrived(false)));
    assert!(driver.advance(DriverEvent::WindowClosed));
    assert_eq!(driver.next_action(), DriverAction::AwaitEvent);

    assert!(!driver.advance(DriverEvent::Arrived(false)));
    assert!(!driver.advance(DriverEvent::WindowClosed));

    assert!(!driver.advance(DriverEvent::Arrived(true)));
    assert!(!driver.advance(DriverEvent::Disconnected));
    assert_eq!(driver.next_action(), DriverAction::Exit);
    assert!(!driver.advance(DriverEvent::WindowClosed));
    assert_eq!(DEFAULT_DEBOUNCE_MILLIS, 75);
}

#[test]
fn watcher_set_up_reports_its_failures() {
    let mut setup = WatcherSetup::new(target());
    assert_eq!(setup.directory(), "conf");
    for action in [
        WatchAction::CreateDirectory,
        WatchAction::Build,
        WatchAction::Watch,
        WatchAction::Spawn,
    ] {
        assert_eq!(setup.next_action(), &action);
        setup.advance(Ok(())).expect("goes on");
    }
    assert_eq!(setup.next_action(), &WatchAction::Running);

    let failing_at = |steps: usize| {
        let mut setup = WatcherSetup::new(target());
        for _ in 0..steps {
            setup.advance(Ok(())).expect("goes on");
        }
        match setup.advance(Err("e".to_string())) {
            Err(PersistenceError::IoError(message)) => message,
            other => panic!("expected IoError, got {other:?}"),
        }
    };
    assert_eq!(failing_at(0), "settings watcher: cannot create parent conf: e");
    assert_eq!(failing_at(1), "settings watcher: build failed: e");
    assert_eq!(failing_at(2), "settings watcher: cannot watch conf: e");
    assert_eq!(failing_at(3), "settings watcher: spawn failed: e");

    let mut nameless = WatcherSetup::new(TargetPath {
        path: "/".to_string(),
        parent: None,
        names_file: false,
        file_name: None,
    });
    assert_eq!(nameless.directory(), ".");
    assert_eq!(
        nameless.advance(Ok(())),
        Err(PersistenceError::IoError(
            "settings watcher: target has no file name: /".to_string()
        ))
    );
    assert_eq!(nameless.next_action(), &WatchAction::Failed);
}

#[test]
fn pragmas_take_effect_on_a_connection() {
    let conn = rusqlite::Connection::open_in_memory().expect("open");
    for pragma in pragmas() {
        conn.pragma_update(None, &pragma.name, &pragma.value).expect("apply");
    }
    let number = |name: &str| -> i64 {
        conn.query_row(&format!("PRAGMA {name}"), [], |row| row.get(0)).expect("read")
    };
    assert_eq!(number("foreign_keys"), 1);
    assert_eq!(number("busy_timeout"), 5000);
    assert_eq!(number("synchronous"), 1);
    let journal: String = conn
        .query_row("PRAGMA journal_mode", [], |row| row.get(0))
        .expect("read");
    assert_eq!(journal.to_lowercase(), "memory");
    assert_eq!(pragmas()[0].value, "WAL");
}

fn failing(code: SqlCode) -> SqlFailure {
    SqlFailure::Sqlite {
        code,
        detail: None,
        text: "t".to_string(),
    }
}

#[test]
fn databases_are_opened_in_order() {
    let mut opening = DatabaseOpening::new("dir/data.db", Some("dir".to_string()));
    assert_eq!(opening.path(), "dir/data.db");
    assert_eq!(
        opening.next_action(),
        &OpenAction::CreateParent("dir".to_string())
    );
    // An event that answers another action changes nothing.
    opening.advance(OpenEvent::Migrated(Ok(()))).expect("ignored");
    opening.advance(OpenEvent::ParentCreated(Ok(()))).expect("created");
    assert_eq!(opening.next_action(), &OpenAction::Connect);
    opening.advance(OpenEvent::Connected(Ok(()))).expect("connected");
    assert_eq!(opening.next_action(), &OpenAction::Configure);
    opening.advance(OpenEvent::Configured(Ok(()))).expect("configured");
    assert_eq!(opening.next_action(), &OpenAction::Migrate);
    opening.advance(OpenEvent::Migrated(Ok(()))).expect("migrated");
    assert_eq!(opening.next_action(), &OpenAction::Ready);
    assert_eq!(
        DatabaseOpening::new("data.db", Some(String::new())).next_action(),
        &OpenAction::Connect
    );
    assert_eq!(DatabaseOpening::in_memory().path(), ":memory:");
}

#[test]
fn failures_to_open_are_mapped() {
    let mut opening = DatabaseOpening::new("dir/data.db", Some("dir".to_string()));
    assert_eq!(
        opening.advance(OpenEvent::ParentCreated(Err("denied".to_string()))),
        Err(PersistenceError::IoError(
            "creating database parent directory dir: denied".to_string()
        ))
    );
    assert_eq!(opening.next_action(), &OpenAction::Failed);

    let mut opening = DatabaseOpening::in_memory();
    assert_eq!(
        opening.advance(OpenEvent::Connected(Err(failing(SqlCode::Busy)))),
        Err(PersistenceError::DatabaseLocked("opening database: t".to_string()))
    );
    let mut opening = DatabaseOpening::in_memory();
    assert_eq!(
        opening.advance(OpenEvent::Connected(Err(failing(SqlCode::Constraint)))),
        Err(PersistenceError::IoError("opening database: t".to_string()))
    );

    let mut opening = DatabaseOpening::in_memory();
    opening.advance(OpenEvent::Connected(Ok(()))).expect("connected");
    assert_eq!(
        opening.advance(OpenEvent::Configured(Err(failing(SqlCode::Locked)))),
        Err(PersistenceError::DatabaseLocked("configuring database: t".to_string()))
    );

    let at_migrate = || {
        let mut opening = DatabaseOpening::in_memory();
        opening.advance(OpenEvent::Connected(Ok(()))).expect("connected");
        opening.advance(OpenEvent::Configured(Ok(()))).expect("configured");
        opening
    };
    let inner = PersistenceError::SchemaVersionMismatch("m".to_string());
    assert_eq!(
        at_migrate().advance(OpenEvent::Migrated(Err(MigrateFailure::Run(inner.clone())))),
        Err(inner)
    );
    assert_eq!(
        at_migrate().advance(OpenEvent::Migrated(Err(MigrateFailure::Call("c".to_string())))),
        Err(PersistenceError::MigrationFailed("running migrations: c".to_string()))
    );
}

/// Carries out a creation on a disk that is a set of directories.
fn create(root: &Path, disk: &mut Vec<PathBuf>) -> DataDirs {
    let mut creation = DirsCreation::new(DataDirs::with_root(root.to_path_buf()));
    while let Some(dir) = creation.next_directory() {
        if !disk.contains(&dir) {
            disk.push(dir);
        }
        creation.advance(Ok(())).expect("created");
    }
    creation.into_dirs()
}

#[test]
fn with_root_creates_subdirectories_and_returns_typed_paths() {
    let root = Path::new("/tmp/openspace-data");
    let mut disk = Vec::new();
    let dirs = create(root, &mut disk);
    assert_eq!(dirs.root(), root);
    assert_eq!(dirs.settings_toml(), root.join("settings.toml"));
    assert_eq!(dirs.data_db(), root.join("data.db"));
    assert_eq!(dirs.themes_dir(), root.join("themes"));
    assert_eq!(dirs.logs_dir(), root.join("logs"));
    assert_eq!(dirs.cache_dir(), root.join("cache"));
    assert!(disk.contains(&dirs.themes_dir()));
    assert!(disk.contains(&dirs.logs_dir()));
    assert!(disk.contains(&dirs.cache_dir()));
    assert!(!disk.contains(&dirs.settings_toml()));
    assert!(!disk.contains(&dirs.data_db()));
    assert!(dirs.has_ordinary_root());
    assert!(!DataDirs::with_root(PathBuf::from("//server")).has_ordinary_root());
}

#[test]
fn places_are_joined_to_any_root_and_differ() {
    for root in ["", "/", "/r", "r/", "//server", "//server/share", "\\\\?\\C:\\r"] {
        let root = PathBuf::from(root);
        let dirs = DataDirs::with_root(root.clone());
        let places = [
            dirs.settings_toml(),
            dirs.data_db(),
            dirs.themes_dir(),
            dirs.logs_dir(),
            dirs.cache_dir(),
        ];
        let names = ["settings.toml", "data.db", "themes", "logs", "cache"];
        for i in 0..5 {
            assert_eq!(places[i], root.join(names[i]));
            for j in 0..i {
                assert_ne!(places[i], places[j]);
            }
        }
        let mut creation = DirsCreation::new(dirs);
        for name in ["themes", "logs", "cache"] {
            assert_eq!(creation.next_directory(), Some(root.join(name)));
            creation.advance(Ok(())).expect("created");
        }
        assert_eq!(creation.next_directory(), None);
    }
}

#[test]
fn with_root_is_idempotent() {
    let mut disk = Vec::new();
    let first = create(Path::new("/r"), &mut disk);
    let after_first = disk.clone();
    let second = create(Path::new("/r"), &mut disk);
    assert_eq!(first, second);
    assert_eq!(first.clone(), second);
    assert_eq!(disk, after_first);
    assert!(disk.contains(&second.themes_dir()));
    assert!(disk.contains(&second.logs_dir()));
    assert!(disk.contains(&second.cache_dir()));
}

#[test]
fn directory_that_cannot_be_created_ends_the_creation() {
    let mut creation = DirsCreation::new(DataDirs::with_root(PathBuf::from("/r")));
    creation.advance(Ok(())).expect("themes");
    assert_eq!(creation.next_directory(), Some(PathBuf::from("/r/logs")));
    assert_eq!(
        creation.advance(Err("denied".to_string())),
        Err(PersistenceError::IoError("denied".to_string()))
    );
    assert_eq!(creation.next_directory(), None);
}

#[test]
fn resolve_uses_platform_conventional_root() {
    let found = directories::ProjectDirs::from("", "", "openspace_desktop");
    match (DataDirs::resolve(), found) {
        (Ok(dirs), Some(project)) => {
            let expected = project.data_dir();
            assert_eq!(dirs.root(), expected);
            assert!(
                dirs.root().ends_with("openspace_desktop")
                    || dirs.root().ends_with("openspace_desktop/data")
            );
            assert_eq!(dirs.settings_toml(), expected.join("settings.toml"));
            assert_eq!(dirs.data_db(), expected.join("data.db"));
            assert_eq!(dirs.themes_dir(), expected.join("themes"));
            assert_eq!(dirs.logs_dir(), expected.join("logs"));
            assert_eq!(dirs.cache_dir(), expected.join("cache"));
        }
        (Err(err), None) => assert_eq!(
            err,
            PersistenceError::IoError(
                "could not resolve platform data directory for openspace_desktop".to_string()
            )
        ),
        (resolved, _) => panic!("resolved otherwise than the platform: {resolved:?}"),
    }
    assert!(DataDirs::from_platform(None).is_err());
}
