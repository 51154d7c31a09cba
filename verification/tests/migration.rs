use openspace::persistence::error::PersistenceError;
use openspace::store::migration::discovery::{
    discover_migrations, has_sql_extension, parse_version_prefix, ListedEntry,
};
use openspace::store::migration::runner::{
    ApplyFailure, MigrationAction, MigrationEvent, MigrationRunner,
};
use openspace::store::report::{applied_lines, dry_run_lines, status_lines};
use openspace::store::sql::{SqlCode, SqlFailure};
use rusqlite::Connection;

/// The files of a directory, as (name, contents).
type Files = Vec<(&'static str, &'static str)>;

fn listing(files: &Files) -> Result<Vec<ListedEntry>, String> {
    Ok(files
        .iter()
        .map(|(name, contents)| ListedEntry::File {
            name: name.to_string(),
            is_text: true,
            path: format!("migrations/{name}"),
            contents: Ok(contents.to_string()),
        })
        .collect())
}

fn runner(files: &Files) -> Result<MigrationRunner, PersistenceError> {
    MigrationRunner::new("migrations", listing(files))
}

fn failure(err: rusqlite::Error) -> SqlFailure {
    let text = err.to_string();
    match err {
        rusqlite::Error::SqliteFailure(code, detail) => SqlFailure::Sqlite {
            code: match code.code {
                rusqlite::ErrorCode::DatabaseBusy => SqlCode::Busy,
                rusqlite::ErrorCode::DatabaseLocked => SqlCode::Locked,
                rusqlite::ErrorCode::ConstraintViolation => SqlCode::Constraint,
                _ => SqlCode::Other,
            },
            detail,
            text,
        },
        rusqlite::Error::InvalidParameterName(message) => SqlFailure::Refused { message, text },
        _ => SqlFailure::Other { text },
    }
}

fn apply(conn: &mut Connection, runner: &MigrationRunner, i: usize) -> Result<(), ApplyFailure> {
    let migration = runner.migration(i).expect("a known migration");
    let tx = conn
        .transaction()
        .map_err(|err| ApplyFailure::Opening(failure(err)))?;
    tx.execute_batch(&migration.sql)
        .map_err(|err| ApplyFailure::Statements(err.to_string()))?;
    tx.execute("UPDATE _meta SET schema_version = ?1", [migration.version])
        .map_err(|err| ApplyFailure::Version(err.to_string()))?;
    tx.commit()
        .map_err(|err| ApplyFailure::Commit(err.to_string()))
}

/// Carries out what the runner asks for, and counts the migrations applied.
fn run(conn: &mut Connection, mut runner: MigrationRunner) -> Result<usize, PersistenceError> {
    let mut applied = 0;
    loop {
        let event = match runner.next_action() {
            MigrationAction::CreateMeta => MigrationEvent::MetaCreated(
                conn.execute_batch(
                    "CREATE TABLE IF NOT EXISTS _meta (schema_version INTEGER NOT NULL);",
                )
                .map_err(failure),
            ),
            MigrationAction::CountMeta => MigrationEvent::MetaCounted(
                conn.query_row("SELECT COUNT(*) FROM _meta", [], |row| row.get(0))
                    .map_err(failure),
            ),
            MigrationAction::SeedMeta => MigrationEvent::MetaSeeded(
                conn.execute("INSERT INTO _meta (schema_version) VALUES (0)", [])
                    .map(|_| ())
                    .map_err(failure),
            ),
            MigrationAction::ReadVersion => MigrationEvent::VersionRead(
                conn.query_row("SELECT schema_version FROM _meta LIMIT 1", [], |row| row.get(0))
                    .map_err(failure),
            ),
            MigrationAction::Apply(i) => {
                applied += 1;
                MigrationEvent::Applied(apply(conn, &runner, i))
            }
            MigrationAction::Finished => return Ok(applied),
        };
        runner.advance(event)?;
    }
}

fn fresh_db() -> Connection {
    Connection::open_in_memory().expect("open in-memory sqlite")
}

fn read_version(conn: &Connection) -> i64 {
    conn.query_row("SELECT schema_version FROM _meta LIMIT 1", [], |row| row.get(0))
        .expect("read schema_version")
}

fn table_names(conn: &Connection) -> Vec<String> {
    conn.prepare("SELECT name FROM sqlite_master WHERE type = 'table' ORDER BY name")
        .expect("prepare")
        .query_map([], |row| row.get::<_, String>(0))
        .expect("query")
        .map(|r| r.expect("row"))
        .collect()
}

const INITIAL: (&str, &str) = (
    "0001_initial.sql",
    "CREATE TABLE fixtures (id INTEGER PRIMARY KEY);",
);
const EXTRA: (&str, &str) = (
    "0002_extra.sql",
    "CREATE TABLE extra (id INTEGER PRIMARY KEY);",
);

#[test]
fn fresh_db_with_two_fixtures_lands_at_version_two() {
    let files = vec![INITIAL, EXTRA];
    let mut conn = fresh_db();
    run(&mut conn, runner(&files).expect("construct runner")).expect("run migrations");

    assert_eq!(read_version(&conn), 2);
    let names = table_names(&conn);
    assert!(names.contains(&"fixtures".to_string()));
    assert!(names.contains(&"extra".to_string()));
    assert!(names.contains(&"_meta".to_string()));
}

#[test]
fn rerun_on_fully_migrated_db_is_a_no_op() {
    let files = vec![INITIAL];
    let mut conn = fresh_db();
    run(&mut conn, runner(&files).expect("construct runner")).expect("first run");
    let applied = run(&mut conn, runner(&files).expect("construct runner second time"))
        .expect("second run is idempotent");
    assert_eq!(applied, 0);
    assert_eq!(read_version(&conn), 1);
}

#[test]
fn partially_migrated_db_advances_to_highest_version() {
    let mut conn = fresh_db();
    run(&mut conn, runner(&vec![INITIAL]).expect("construct runner")).expect("apply 0001");
    assert_eq!(read_version(&conn), 1);

    let applied = run(&mut conn, runner(&vec![EXTRA, INITIAL]).expect("construct runner"))
        .expect("apply 0002");
    assert_eq!(applied, 1);
    assert_eq!(read_version(&conn), 2);
}

#[test]
fn failing_migration_rolls_back_and_leaves_version_unchanged() {
    let files = vec![INITIAL, ("0002_broken.sql", "NOT VALID SQL AT ALL;")];
    let mut conn = fresh_db();
    let result = run(&mut conn, runner(&files).expect("construct runner"));

    match result {
        Err(PersistenceError::MigrationFailed(msg)) => {
            assert!(
                msg.contains("0002_broken.sql"),
                "error must identify the failing file, got: {msg}"
            );
        }
        other => panic!("expected MigrationFailed, got {other:?}"),
    }

    assert_eq!(read_version(&conn), 1);
    assert!(table_names(&conn).contains(&"fixtures".to_string()));
}

#[test]
fn mended_migration_goes_on_where_the_run_stopped() {
    let mut conn = fresh_db();
    let broken = vec![INITIAL, ("0002_extra.sql", "NOT VALID SQL AT ALL;")];
    run(&mut conn, runner(&broken).expect("construct runner")).expect_err("broken");
    let mended = vec![INITIAL, EXTRA];
    let applied = run(&mut conn, runner(&mended).expect("construct runner")).expect("mended");
    assert_eq!(applied, 1);
    assert_eq!(read_version(&conn), 2);
}

#[test]
fn negative_version_counts_as_older_than_every_migration() {
    let mut conn = fresh_db();
    conn.execute_batch(
        "CREATE TABLE _meta (schema_version INTEGER NOT NULL);
         INSERT INTO _meta (schema_version) VALUES (-3);",
    )
    .expect("seed meta");
    run(&mut conn, runner(&vec![]).expect("construct runner")).expect("nothing to do");
    assert_eq!(read_version(&conn), -3);
    run(&mut conn, runner(&vec![INITIAL]).expect("construct runner")).expect("apply");
    assert_eq!(read_version(&conn), 1);
}

#[test]
fn version_above_highest_known_returns_schema_version_mismatch() {
    let files = vec![INITIAL, EXTRA];
    let mut conn = fresh_db();
    conn.execute_batch(
        "CREATE TABLE _meta (schema_version INTEGER NOT NULL);
         INSERT INTO _meta (schema_version) VALUES (99);",
    )
    .expect("seed meta");

    let result = run(&mut conn, runner(&files).expect("construct runner"));
    match result {
        Err(PersistenceError::SchemaVersionMismatch(msg)) => {
            assert!(msg.contains("99"), "error must mention disk version: {msg}");
            assert!(msg.contains('2'), "error must mention highest known: {msg}");
            assert_eq!(msg, "database at version 99, highest known migration is 2");
        }
        other => panic!("expected SchemaVersionMismatch, got {other:?}"),
    }
    assert_eq!(read_version(&conn), 99);
}

#[test]
fn missing_migrations_directory_maps_to_io_error() {
    let result = MigrationRunner::new(
        "/this/path/does/not/exist/migrations",
        Err("No such file or directory (os error 2)".to_string()),
    );
    match result {
        Err(PersistenceError::IoError(msg)) => assert_eq!(
            msg,
            "reading migrations directory /this/path/does/not/exist/migrations: \
             No such file or directory (os error 2)"
        ),
        other => panic!("expected IoError, got {other:?}"),
    }
}

#[test]
fn duplicate_version_prefix_is_rejected_before_any_sql_runs() {
    let files = vec![
        ("0001_a.sql", "CREATE TABLE a (id INTEGER PRIMARY KEY);"),
        ("0001_b.sql", "CREATE TABLE b (id INTEGER PRIMARY KEY);"),
    ];
    let mut conn = fresh_db();
    match runner(&files).and_then(|found| run(&mut conn, found)) {
        Err(PersistenceError::MigrationFailed(msg)) => {
            assert!(msg.contains("duplicate"), "got: {msg}");
            assert!(msg.contains("0001"), "got: {msg}");
            assert_eq!(msg, "duplicate migration version 1: 0001_a.sql and 0001_b.sql");
        }
        other => panic!("expected MigrationFailed, got {other:?}"),
    }
    let meta_exists: i64 = conn
        .query_row(
            "SELECT count(*) FROM sqlite_master WHERE type='table' AND name='_meta'",
            [],
            |row| row.get(0),
        )
        .expect("query sqlite_master");
    assert_eq!(meta_exists, 0);
}

#[test]
fn unparseable_version_prefix_surfaces_as_migration_failed() {
    let files = vec![(
        "abc_not_a_number.sql",
        "CREATE TABLE x (id INTEGER PRIMARY KEY);",
    )];
    match runner(&files) {
        Err(PersistenceError::MigrationFailed(msg)) => {
            assert!(msg.contains("unparseable"), "got: {msg}");
        }
        other => panic!("expected MigrationFailed, got {other:?}"),
    }
}

#[test]
fn non_sql_files_are_ignored_by_discovery() {
    let files = vec![
        INITIAL,
        ("README.md", "# notes"),
        ("0002_draft.sql.bak", "SELECT 1;"),
    ];
    let mut conn = fresh_db();
    run(&mut conn, runner(&files).expect("construct runner")).expect("apply migrations");
    assert_eq!(read_version(&conn), 1);
}

#[test]
fn empty_migrations_directory_only_creates_meta_table() {
    let mut conn = fresh_db();
    run(&mut conn, runner(&Vec::new()).expect("construct runner")).expect("run on empty migrations");
    assert_eq!(read_version(&conn), 0);
}

#[test]
fn migration_with_multiple_statements_applies_in_one_transaction() {
    let files = vec![(
        "0001_compound.sql",
        "CREATE TABLE a (id INTEGER PRIMARY KEY);\n\
         CREATE TABLE b (id INTEGER PRIMARY KEY);\n\
         CREATE INDEX idx_a ON a(id);",
    )];
    let mut conn = fresh_db();
    run(&mut conn, runner(&files).expect("construct runner")).expect("apply compound migration");
    assert_eq!(read_version(&conn), 1);
    let names = table_names(&conn);
    assert!(names.contains(&"a".to_string()));
    assert!(names.contains(&"b".to_string()));
}

#[test]
fn migrations_come_out_in_ascending_order() {
    let files = vec![("10_c.sql", "c"), ("2_b.sql", "b"), ("+1_a.sql", "a")];
    let found = discover_migrations("m", listing(&files)).expect("discover");
    let versions: Vec<i64> = found.iter().map(|m| m.version).collect();
    assert_eq!(versions, vec![1, 2, 10]);
    assert_eq!(found[2].file_name, "10_c.sql");
    assert_eq!(found[2].sql, "c");
}

#[test]
fn earliest_duplicate_is_reported_in_listing_order() {
    let files = vec![
        ("7_x.sql", ""),
        ("3_late.sql", ""),
        ("7_y.sql", ""),
        ("03_early.sql", ""),
    ];
    assert_eq!(
        discover_migrations("m", listing(&files)),
        Err(PersistenceError::MigrationFailed(
            "duplicate migration version 3: 3_late.sql and 03_early.sql".to_string()
        ))
    );
}

#[test]
fn version_prefixes_are_positive_integers() {
    assert_eq!(parse_version_prefix("0001_initial.sql"), Ok(1));
    assert_eq!(parse_version_prefix("12_x_y.sql"), Ok(12));
    let refused = |name: &str| match parse_version_prefix(name) {
        Err(PersistenceError::MigrationFailed(msg)) => msg,
        other => panic!("expected MigrationFailed, got {other:?}"),
    };
    assert_eq!(
        refused("_x.sql"),
        "migration filename has no version prefix: _x.sql"
    );
    assert_eq!(
        refused("1a_x.sql"),
        "migration filename 1a_x.sql has unparseable version prefix \"1a\": \
         invalid digit found in string"
    );
    assert_eq!(
        refused("9223372036854775808_x.sql"),
        "migration filename 9223372036854775808_x.sql has unparseable version prefix \
         \"9223372036854775808\": number too large to fit in target type"
    );
    assert_eq!(parse_version_prefix("9223372036854775807_x.sql"), Ok(i64::MAX));
    for name in ["0_x.sql", "0000_x.sql", "-3_x.sql"] {
        assert!(refused(name).ends_with(": not a positive integer"), "{name}");
    }
    // Without an underscore the whole name is the prefix.
    assert!(refused("0001.sql").contains("\"0001.sql\""));
}

#[test]
fn extensions_are_compared_exactly() {
    assert!(has_sql_extension("a.sql"));
    assert!(has_sql_extension("..sql"));
    for name in [".sql", "sql", "a.SQL", "a.sql.bak", "a.sqlx", ""] {
        assert!(!has_sql_extension(name), "{name}");
        assert_ne!(
            std::path::Path::new(name).extension().and_then(|s| s.to_str()),
            Some("sql"),
            "{name}"
        );
    }
}

#[test]
fn faulty_entries_stop_discovery() {
    let file = |name: &str, is_text: bool, contents: Result<String, String>| ListedEntry::File {
        name: name.to_string(),
        is_text,
        path: format!("dir/{name}"),
        contents,
    };
    assert_eq!(
        discover_migrations("dir", Ok(vec![ListedEntry::Failed("gone".to_string())])),
        Err(PersistenceError::IoError(
            "iterating migrations directory dir: gone".to_string()
        ))
    );
    assert_eq!(
        discover_migrations("dir", Ok(vec![file("1_\u{fffd}.sql", false, Ok(String::new()))])),
        Err(PersistenceError::MigrationFailed(
            "migration filename is not valid utf-8: dir/1_\u{fffd}.sql".to_string()
        ))
    );
    assert_eq!(
        discover_migrations("dir", Ok(vec![file("1_a.sql", true, Err("denied".to_string()))])),
        Err(PersistenceError::IoError(
            "reading migration dir/1_a.sql: denied".to_string()
        ))
    );
    // A file that is no migration need not be readable.
    assert_eq!(
        discover_migrations("dir", Ok(vec![file("notes", false, Err("denied".to_string()))])),
        Ok(Vec::new())
    );
}

#[test]
fn corrupt_meta_is_refused() {
    let mut conn = fresh_db();
    conn.execute_batch(
        "CREATE TABLE _meta (schema_version INTEGER NOT NULL);
         INSERT INTO _meta (schema_version) VALUES (0), (0);",
    )
    .expect("seed meta");
    assert_eq!(
        run(&mut conn, runner(&vec![INITIAL]).expect("construct runner")),
        Err(PersistenceError::MigrationFailed(
            "_meta table is corrupt: expected 0 or 1 rows, found 2".to_string()
        ))
    );
}

fn busy() -> SqlFailure {
    SqlFailure::Sqlite {
        code: SqlCode::Busy,
        detail: None,
        text: "database is busy".to_string(),
    }
}

#[test]
fn setup_failures_are_mapped_by_contention() {
    let other = SqlFailure::Other {
        text: "no".to_string(),
    };
    let mut r = runner(&vec![INITIAL]).expect("construct runner");
    assert_eq!(
        r.advance(MigrationEvent::MetaCreated(Err(busy()))),
        Err(PersistenceError::DatabaseLocked(
            "creating _meta table: database is busy".to_string()
        ))
    );
    assert_eq!(r.next_action(), MigrationAction::Finished);

    let mut r = runner(&vec![INITIAL]).expect("construct runner");
    r.advance(MigrationEvent::MetaCreated(Ok(()))).expect("created");
    assert_eq!(
        r.advance(MigrationEvent::MetaCounted(Err(other.clone()))),
        Err(PersistenceError::MigrationFailed(
            "reading _meta row count: no".to_string()
        ))
    );

    let mut r = runner(&vec![INITIAL]).expect("construct runner");
    r.advance(MigrationEvent::MetaCreated(Ok(()))).expect("created");
    r.advance(MigrationEvent::MetaCounted(Ok(0))).expect("counted");
    assert_eq!(r.next_action(), MigrationAction::SeedMeta);
    assert_eq!(
        r.advance(MigrationEvent::MetaSeeded(Err(other.clone()))),
        Err(PersistenceError::MigrationFailed("seeding _meta row: no".to_string()))
    );

    let mut r = runner(&vec![INITIAL]).expect("construct runner");
    r.advance(MigrationEvent::MetaCreated(Ok(()))).expect("created");
    r.advance(MigrationEvent::MetaCounted(Ok(1))).expect("counted");
    assert_eq!(
        r.advance(MigrationEvent::VersionRead(Err(other))),
        Err(PersistenceError::MigrationFailed(
            "reading schema_version: no".to_string()
        ))
    );
}

#[test]
fn apply_failures_name_the_file() {
    let at_apply = || {
        let mut r = runner(&vec![INITIAL]).expect("construct runner");
        r.advance(MigrationEvent::MetaCreated(Ok(()))).expect("created");
        r.advance(MigrationEvent::MetaCounted(Ok(1))).expect("counted");
        r.advance(MigrationEvent::VersionRead(Ok(0))).expect("read");
        assert_eq!(r.next_action(), MigrationAction::Apply(0));
        r
    };
    let outcome = |failure: ApplyFailure| at_apply().advance(MigrationEvent::Applied(Err(failure)));
    assert_eq!(
        outcome(ApplyFailure::Opening(busy())),
        Err(PersistenceError::DatabaseLocked(
            "opening migration transaction: database is busy".to_string()
        ))
    );
    assert_eq!(
        outcome(ApplyFailure::Statements("e".to_string())),
        Err(PersistenceError::MigrationFailed("0001_initial.sql: e".to_string()))
    );
    assert_eq!(
        outcome(ApplyFailure::Version("e".to_string())),
        Err(PersistenceError::MigrationFailed(
            "0001_initial.sql: updating schema_version: e".to_string()
        ))
    );
    assert_eq!(
        outcome(ApplyFailure::Commit("e".to_string())),
        Err(PersistenceError::MigrationFailed(
            "0001_initial.sql: committing migration: e".to_string()
        ))
    );
}

#[test]
fn reports_list_pending_and_applied_migrations() {
    let r = runner(&vec![EXTRA, INITIAL]).expect("construct runner");
    let pending = r.pending_migrations(0);
    assert_eq!(
        pending,
        vec![
            (1, "0001_initial.sql".to_string()),
            (2, "0002_extra.sql".to_string())
        ]
    );
    assert_eq!(
        status_lines(0, &pending),
        vec![
            "schema_version: 0",
            "pending:",
            "  1: 0001_initial.sql",
            "  2: 0002_extra.sql"
        ]
    );
    assert_eq!(
        dry_run_lines(1, &r.pending_migrations(1)),
        vec![
            "schema_version: 1",
            "dry-run: no changes written",
            "pending:",
            "  2: 0002_extra.sql"
        ]
    );
    assert_eq!(
        status_lines(2, &r.pending_migrations(2)),
        vec!["schema_version: 2", "pending: none"]
    );
    assert_eq!(applied_lines(&Vec::new()), vec!["applied: none"]);
    assert_eq!(applied_lines(&pending)[0], "applied:");
}
