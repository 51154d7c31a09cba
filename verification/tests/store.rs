use openspace::ai::domain::{Conversation, Part, Role, Turn};
use openspace::id::{AttachmentId, ChatId, PermissionGrantId, SessionId, TurnId, WorkspaceId};
use openspace::persistence::error::PersistenceError;
use openspace::persistence::types::{
    Attachment, PermissionDecision, PermissionGrant, PermissionScope, Session, SessionMode,
};
use openspace::store::attachment::{attachment_from_parts, bytes_or_refusal, AttachmentRow};
use openspace::store::chat::{chat_from_parts, search_pattern, ChatRow, HeadTurnStep, SetHeadTurn};
use openspace::store::permission::{lookup_keys, PermissionGrantRow};
use openspace::store::session::{mode_from_str, mode_to_str, SessionRow};
use openspace::store::sql::{
    conflict, deleted, map_sql_error, not_found, read_uuid_or_nil, ts_to_datetime, RetryStep,
    SqlCode, SqlFailure, WriteRetry,
};
use openspace::store::turn::{
    next_sequence, search_hit_from_parts, search_limit, turn_from_parts, BadColumn, TurnRow,
};
use openspace::store::workspace::{
    before_delete, before_record_opened, recent_limit, workspace_from_parts,
    workspace_ref_from_parts, WorkspaceRow,
};
use openspace::time::{Duration, Timestamp};
use openspace::workspace::Workspace;

const NOW: i64 = 1_779_418_800;

fn now() -> Timestamp {
    Timestamp::from_timestamp(NOW, 0).expect("in range")
}

fn refused(message: String) -> SqlFailure {
    SqlFailure::Refused {
        text: format!("Invalid parameter name: {message}"),
        message,
    }
}

fn sqlite(code: SqlCode, detail: Option<&str>) -> SqlFailure {
    SqlFailure::Sqlite {
        code,
        detail: detail.map(str::to_string),
        text: "rendered".to_string(),
    }
}

#[test]
fn refusals_are_mapped_back() {
    assert_eq!(
        map_sql_error(refused(not_found("chat/7"))),
        PersistenceError::NotFound("chat/7".to_string())
    );
    assert_eq!(
        map_sql_error(refused(conflict("turn/7 belongs to another chat"))),
        PersistenceError::ConflictingWrite("turn/7 belongs to another chat".to_string())
    );
    // The prefix goes as often as it is there.
    assert_eq!(
        map_sql_error(refused(not_found("not found: x"))),
        PersistenceError::NotFound("x".to_string())
    );
    assert_eq!(
        map_sql_error(refused("not found:x".to_string())),
        PersistenceError::NotFound("not found:x".to_string())
    );
    assert_eq!(
        map_sql_error(refused("invalid timestamp: 9".to_string())),
        PersistenceError::IoError("Invalid parameter name: invalid timestamp: 9".to_string())
    );
}

#[test]
fn sqlite_failures_are_mapped_by_code() {
    assert_eq!(
        map_sql_error(sqlite(SqlCode::Busy, Some("d"))),
        PersistenceError::DatabaseLocked("d".to_string())
    );
    assert_eq!(
        map_sql_error(sqlite(SqlCode::Locked, None)),
        PersistenceError::DatabaseLocked("rendered".to_string())
    );
    assert_eq!(
        map_sql_error(sqlite(SqlCode::Constraint, Some("d"))),
        PersistenceError::ConflictingWrite("d".to_string())
    );
    assert_eq!(
        map_sql_error(sqlite(SqlCode::Other, Some("d"))),
        PersistenceError::IoError("d".to_string())
    );
    assert_eq!(
        map_sql_error(SqlFailure::Other {
            text: "t".to_string()
        }),
        PersistenceError::IoError("t".to_string())
    );
}

#[test]
fn contended_writes_pause_ever_longer_and_then_give_up() {
    let mut retry = WriteRetry::new();
    let mut pauses = Vec::new();
    for _ in 0..8 {
        match retry.after_failure(sqlite(SqlCode::Busy, None), Duration::from_millis(4_999)) {
            RetryStep::PauseMillis(millis) => pauses.push(millis),
            other => panic!("expected a pause, got {other:?}"),
        }
    }
    assert_eq!(pauses, vec![10, 20, 40, 80, 160, 250, 250, 250]);
    assert_eq!(
        retry.after_failure(sqlite(SqlCode::Busy, Some("held")), Duration::from_secs(5)),
        RetryStep::GiveUp(PersistenceError::DatabaseLocked("held".to_string()))
    );
    assert_eq!(
        WriteRetry::new().after_failure(sqlite(SqlCode::Constraint, None), Duration::zero()),
        RetryStep::GiveUp(PersistenceError::ConflictingWrite("rendered".to_string()))
    );
}

#[test]
fn deletions_of_nothing_are_refused() {
    assert_eq!(deleted("workspace", "7", 1), Ok(()));
    assert_eq!(
        deleted("workspace", "7", 0),
        Err("not found: workspace/7".to_string())
    );
}

#[test]
fn timestamps_are_whole_seconds() {
    assert_eq!(ts_to_datetime(NOW), Ok(now()));
    assert_eq!(
        ts_to_datetime(i64::MAX),
        Err("invalid timestamp: 9223372036854775807".to_string())
    );
    assert_eq!(
        ts_to_datetime(i64::MIN),
        Err("invalid timestamp: -9223372036854775808".to_string())
    );
}

#[test]
fn workspaces_round_trip_through_their_row() {
    let original = Workspace::new(
        WorkspaceId::new_v4(),
        std::path::PathBuf::from("/tmp/alpha"),
        "alpha".to_string(),
    );
    let row = WorkspaceRow::from_workspace(&original, NOW);
    assert_eq!(row.id, uuid::Uuid::from_u128(original.id.0).to_string());
    assert_eq!(row.trust_mode, "alpha");
    assert_eq!((row.last_opened_at, row.created_at), (NOW, NOW));
    let handle = workspace_ref_from_parts(&row.id, row.root_path.clone(), row.trust_mode.clone());
    assert_eq!(handle, original.as_ref());
    assert_eq!(
        workspace_from_parts(&row.id, row.root_path, row.trust_mode),
        original
    );
    assert_eq!(
        workspace_from_parts("no uuid", "/r".to_string(), "n".to_string()).id,
        WorkspaceId::from_uuid(0)
    );
}

#[test]
fn workspaces_are_guarded() {
    assert_eq!(before_delete("7", false), Ok(()));
    let refusal = before_delete("7", true).expect_err("owns sessions");
    assert_eq!(refusal, "conflict: workspace/7 owns sessions");
    assert_eq!(
        map_sql_error(refused(refusal)),
        PersistenceError::ConflictingWrite("workspace/7 owns sessions".to_string())
    );
    assert_eq!(before_record_opened("7", true), Ok(()));
    assert_eq!(
        map_sql_error(refused(before_record_opened("7", false).expect_err("missing"))),
        PersistenceError::NotFound("workspace/7".to_string())
    );
}

#[test]
fn limits_fit_the_database() {
    assert_eq!(recent_limit(None), Ok(None));
    assert_eq!(recent_limit(Some(0)), Ok(Some(0)));
    assert_eq!(
        recent_limit(Some(usize::MAX)),
        Err(PersistenceError::ConflictingWrite(
            "recent workspace limit exceeds i64".to_string()
        ))
    );
    assert_eq!(search_limit(10), 10);
    assert_eq!(search_limit(usize::MAX), i64::MAX);
}

#[test]
fn sessions_round_trip_through_their_row() {
    for (mode, stored) in [
        (SessionMode::Terminal, "terminal"),
        (SessionMode::Chat, "chat"),
        (SessionMode::Editor, "editor"),
    ] {
        assert_eq!(mode_to_str(mode), stored);
        assert_eq!(mode_from_str(stored), mode);
        let session = Session::new(
            SessionId::new_v4(),
            WorkspaceId::new_v4(),
            mode,
            Some("title".to_string()),
            Timestamp::from_timestamp(-86_400, 0).expect("in range"),
            now(),
        );
        let row = SessionRow::from_session(&session);
        assert_eq!(row.updated_at, NOW);
        assert_eq!(row.layout_blob, "-86400");
        assert_eq!(row.into_session(), Ok(session));
    }
    assert_eq!(mode_from_str("EDITOR"), SessionMode::Chat);
}

#[test]
fn rows_lose_fractions_and_empty_titles() {
    let half_past = Timestamp::from_timestamp(NOW, 500_000_000).expect("in range");
    let session = Session::new(
        SessionId::new_v4(),
        WorkspaceId::new_v4(),
        SessionMode::Chat,
        Some(String::new()),
        now(),
        half_past,
    );
    let back = SessionRow::from_session(&session).into_session().expect("read");
    assert_eq!(back.title, None);
    assert_eq!(back.created_at, now());
    assert_eq!(back.updated_at, now());
}

#[test]
fn storing_a_session_again_does_not_move_its_beginning() {
    let session = |made: i64| {
        Session::new(
            SessionId::from_uuid(7),
            WorkspaceId::from_uuid(8),
            SessionMode::Chat,
            None,
            Timestamp::from_timestamp(made, 0).expect("in range"),
            now(),
        )
    };
    let conn = rusqlite::Connection::open_in_memory().expect("open");
    conn.execute_batch("CREATE TABLE sessions (id TEXT PRIMARY KEY, layout_blob TEXT, updated_at INTEGER);")
        .expect("schema");
    for made in [100, 200] {
        let row = SessionRow::from_session(&session(made));
        conn.execute(
            "INSERT INTO sessions VALUES (?1, ?2, ?3)
             ON CONFLICT(id) DO UPDATE SET updated_at = excluded.updated_at",
            (&row.id, &row.layout_blob, row.updated_at),
        )
        .expect("upsert");
    }
    let stored: String = conn
        .query_row("SELECT layout_blob FROM sessions", [], |row| row.get(0))
        .expect("read");
    let mut row = SessionRow::from_session(&session(300));
    row.layout_blob = stored;
    assert_eq!(row.into_session().expect("read").created_at.timestamp(), 100);
}

#[test]
fn sessions_without_a_beginning_count_as_made_at_the_epoch() {
    for blob in ["", "{}", "9223372036854775807", "99999999999999999999"] {
        let row = SessionRow {
            id: String::new(),
            workspace_id: String::new(),
            title: String::new(),
            mode: String::new(),
            layout_blob: blob.to_string(),
            updated_at: NOW,
        };
        let session = row.into_session().expect("read");
        assert_eq!(session.created_at, Timestamp::unix_epoch(), "{blob}");
    }
}

#[test]
fn rows_with_impossible_instants_are_refused() {
    let row = SessionRow {
        id: String::new(),
        workspace_id: String::new(),
        title: String::new(),
        mode: String::new(),
        layout_blob: String::new(),
        updated_at: i64::MAX,
    };
    assert_eq!(
        row.into_session(),
        Err("invalid timestamp: 9223372036854775807".to_string())
    );
}

fn turn(id: TurnId, text: &str) -> Turn {
    Turn::new(id, Role::User, vec![Part::Text(text.to_string())], now(), None)
}

#[test]
fn chats_change_with_their_last_turn() {
    let workspace = WorkspaceId::new_v4();
    let empty = Conversation::new(ChatId::new_v4(), None, Vec::new(), Some("be kind".to_string()));
    let row = ChatRow::from_chat(workspace, &empty, 5);
    assert_eq!((row.created_at, row.updated_at), (0, 5));
    assert_eq!(row.title, "");
    let back = chat_from_parts(&row.id, row.title, row.system_prompt);
    assert_eq!(back, empty);

    let spoken = Conversation::new(
        ChatId::new_v4(),
        Some("hi".to_string()),
        vec![turn(TurnId::new_v4(), "a")],
        None,
    );
    let row = ChatRow::from_chat(workspace, &spoken, 5);
    assert_eq!(row.updated_at, NOW);
    let back = chat_from_parts(&row.id, row.title, row.system_prompt);
    assert_eq!(back.id, spoken.id);
    assert_eq!(back.title, spoken.title);
    assert!(back.turns.is_empty());
    assert_eq!(search_pattern("a%b"), "%a%b%");
}

#[test]
fn head_turns_belong_to_their_chat() {
    let request = SetHeadTurn {
        chat_id: "c".to_string(),
        turn_id: Some("t".to_string()),
    };
    let refusal = |step: HeadTurnStep| match step {
        HeadTurnStep::Refuse(message) => map_sql_error(refused(message)),
        other => panic!("expected a refusal, got {other:?}"),
    };
    assert_eq!(
        refusal(request.after_chat(false)),
        PersistenceError::NotFound("chat/c".to_string())
    );
    assert_eq!(
        request.after_chat(true),
        HeadTurnStep::LookUpOwner("t".to_string())
    );
    assert_eq!(
        request.after_owner("t", &Some("c".to_string())),
        HeadTurnStep::Update
    );
    assert_eq!(
        refusal(request.after_owner("t", &Some("d".to_string()))),
        PersistenceError::ConflictingWrite("turn/t belongs to another chat".to_string())
    );
    assert_eq!(
        refusal(request.after_owner("t", &None)),
        PersistenceError::NotFound("turn/t".to_string())
    );
    let clear = SetHeadTurn {
        chat_id: "c".to_string(),
        turn_id: None,
    };
    assert_eq!(clear.after_chat(true), HeadTurnStep::Update);
}

#[test]
fn turns_round_trip_through_their_row() {
    let chat = ChatId::new_v4();
    let parent = TurnId::new_v4();
    let original = turn(TurnId::new_v4(), "root");
    let row = TurnRow::from_turn(
        chat,
        Some(parent),
        &original,
        Ok("\"user\"".to_string()),
        Ok("{}".to_string()),
    )
    .expect("encode");
    assert_eq!(row.chat_id, uuid::Uuid::from_u128(chat.0).to_string());
    assert_eq!(
        row.parent_turn_id,
        Some(uuid::Uuid::from_u128(parent.0).to_string())
    );
    assert_eq!((row.kind.as_str(), row.payload_json.as_str()), ("\"user\"", "{}"));
    assert_eq!(
        turn_from_parts(&row.id, original.clone(), row.created_at),
        Ok(original.clone())
    );
    assert_eq!(
        TurnRow::from_turn(chat, None, &original, Err("k".to_string()), Err("p".to_string())),
        Err(PersistenceError::IoError("k".to_string()))
    );
    assert_eq!(
        TurnRow::from_turn(chat, None, &original, Ok(String::new()), Err("p".to_string())),
        Err(PersistenceError::IoError("p".to_string()))
    );
    assert!(turn_from_parts(&row.id, original, i64::MAX).is_err());
}

#[test]
fn turns_come_behind_the_highest_place() {
    assert_eq!(next_sequence(None), Ok(1));
    assert_eq!(next_sequence(Some(41)), Ok(42));
    assert_eq!(next_sequence(Some(-7)), Ok(-6));
    assert_eq!(
        next_sequence(Some(i64::MAX)),
        Err("no sequence number is left".to_string())
    );
}

#[test]
fn appended_turns_are_listed_in_order() {
    let conn = rusqlite::Connection::open_in_memory().expect("open");
    conn.execute_batch(
        "PRAGMA foreign_keys = ON;
         CREATE TABLE chats (id TEXT PRIMARY KEY);
         CREATE TABLE turns (id TEXT PRIMARY KEY, chat_id TEXT NOT NULL REFERENCES chats(id),
            parent_turn_id TEXT REFERENCES turns(id), sequence INTEGER NOT NULL);
         INSERT INTO chats VALUES ('a'), ('b');",
    )
    .expect("schema");
    let append = |id: &str, chat: &str, parent: Option<&str>| -> Result<(), rusqlite::Error> {
        let highest: Option<i64> = conn.query_row(
            "SELECT MAX(sequence) FROM turns WHERE chat_id = ?1",
            [chat],
            |row| row.get(0),
        )?;
        let sequence = next_sequence(highest).expect("a number");
        conn.execute(
            "INSERT INTO turns VALUES (?1, ?2, ?3, ?4)",
            (id, chat, parent, sequence),
        )?;
        Ok(())
    };
    let list = |chat: &str| -> Vec<String> {
        conn.prepare("SELECT id FROM turns WHERE chat_id = ?1 ORDER BY sequence ASC")
            .expect("prepare")
            .query_map([chat], |row| row.get(0))
            .expect("query")
            .map(|id| id.expect("id"))
            .collect()
    };
    append("1", "a", None).expect("root");
    append("2", "b", None).expect("other chat");
    append("3", "a", Some("1")).expect("child");
    assert_eq!(list("a"), vec!["1", "3"]);
    assert_eq!(list("b"), vec!["2"]);
    append("4", "nowhere", None).expect_err("unknown chat");
    append("5", "a", Some("nobody")).expect_err("unknown parent");
    append("3", "a", None).expect_err("known identity");
    assert_eq!(list("a"), vec!["1", "3"]);
}

#[test]
fn search_hits_need_uuids() {
    let t = uuid::Uuid::from_u128(0x67e5504410b1426f9247bb680e5fe0c8);
    let text = t.to_string();
    assert_eq!(
        search_hit_from_parts(&text, &text),
        Ok((TurnId::from_uuid(t.as_u128()), ChatId::from_uuid(t.as_u128())))
    );
    assert_eq!(search_hit_from_parts("x", "y"), Err(BadColumn::TurnId));
    assert_eq!(search_hit_from_parts(&text, "y"), Err(BadColumn::ChatId));
}

#[test]
fn attachments_round_trip_through_their_row() {
    let original = Attachment::new(
        AttachmentId::new_v4(),
        ChatId::new_v4(),
        Some(TurnId::new_v4()),
        "blob.bin".to_string(),
        "application/octet-stream".to_string(),
        3,
        "hash".to_string(),
        now(),
    );
    let row = AttachmentRow::from_attachment(&original, Ok("{}".to_string())).expect("encode");
    assert_eq!(row.mime, "application/octet-stream");
    assert_eq!(row.kind, "{}");
    assert_eq!(
        row.turn_id,
        original.turn_id.map(|t| uuid::Uuid::from_u128(t.0).to_string())
    );
    assert_eq!(
        attachment_from_parts(&row.id, original.clone(), row.created_at),
        Ok(original.clone())
    );
    assert_eq!(
        AttachmentRow::from_attachment(&original, Err("e".to_string())),
        Err(PersistenceError::IoError("e".to_string()))
    );
    assert_eq!(bytes_or_refusal("7", Some(vec![1, 2])), Ok(vec![1, 2]));
    assert_eq!(
        bytes_or_refusal("7", None),
        Err("not found: attachment/7".to_string())
    );
}

#[test]
fn workspace_grants_round_trip_through_their_row() {
    let grant = PermissionGrant::new(
        PermissionGrantId::new_v4(),
        WorkspaceId::new_v4(),
        None,
        "network.fetch".to_string(),
        PermissionScope::Workspace,
        PermissionDecision::Allow,
        None,
        now(),
    );
    let row = PermissionGrantRow::from_grant(&grant);
    assert_eq!(
        row.network_pattern,
        uuid::Uuid::from_u128(grant.id.0).to_string()
    );
    assert_eq!(row.into_grant(), Ok(grant));
    let bad = PermissionGrantRow {
        workspace_id: String::new(),
        tool_id: String::new(),
        network_pattern: String::new(),
        granted_at: i64::MIN,
    };
    assert!(bad.into_grant().is_err());
}

#[test]
fn every_grant_round_trips_through_its_row() {
    let grant = |session, scope, decision, note| {
        PermissionGrant::new(
            PermissionGrantId::from_uuid(7),
            WorkspaceId::new_v4(),
            session,
            "network.fetch".to_string(),
            scope,
            decision,
            note,
            now(),
        )
    };
    for scope in [
        PermissionScope::SingleCall,
        PermissionScope::Session,
        PermissionScope::Workspace,
    ] {
        for decision in [PermissionDecision::Allow, PermissionDecision::Deny] {
            for session in [None, Some(SessionId::new_v4())] {
                for note in [None, Some(""), Some("why; not"), Some("=;allow;")] {
                    let note = note.map(str::to_string);
                    let grant = grant(session, scope, decision, note);
                    assert_eq!(PermissionGrantRow::from_grant(&grant).into_grant(), Ok(grant));
                }
            }
        }
    }
    let refusal = grant(None, PermissionScope::Session, PermissionDecision::Deny, None);
    assert_eq!(
        PermissionGrantRow::from_grant(&refusal).network_pattern,
        "00000000-0000-0000-0000-000000000007;deny;session;;"
    );
}

#[test]
fn rows_without_terms_are_workspace_wide_permissions() {
    let row = |pattern: &str| PermissionGrantRow {
        workspace_id: String::new(),
        tool_id: "t".to_string(),
        network_pattern: pattern.to_string(),
        granted_at: NOW,
    };
    let grant = row("*.example.com").into_grant().expect("read");
    assert_eq!(grant.id, PermissionGrantId::from_uuid(0));
    assert_eq!(grant.decision, PermissionDecision::Allow);
    assert_eq!(grant.scope, PermissionScope::Workspace);
    for bad in ["x;", "x;deny", "x;deny;session;", "x;no;session;;", "x;deny;all;;", "x;deny;session;s;", "x;deny;session;;n"] {
        assert_eq!(
            row(bad).into_grant(),
            Err(format!("invalid permission grant: {bad}"))
        );
    }
}

#[test]
fn stored_refusal_takes_the_place_of_a_permission() {
    let conn = rusqlite::Connection::open_in_memory().expect("open");
    conn.execute_batch("CREATE TABLE grants (pattern TEXT PRIMARY KEY);")
        .expect("schema");
    let condition = "pattern = ?1 OR substr(pattern, 1, length(?2)) = ?2";
    let upsert = |id: u128, decision: PermissionDecision| {
        let grant = PermissionGrant::new(
            PermissionGrantId::from_uuid(id),
            WorkspaceId::from_uuid(1),
            None,
            "t".to_string(),
            PermissionScope::Workspace,
            decision,
            None,
            now(),
        );
        let (whole, beginning) = lookup_keys(grant.id);
        conn.execute(&format!("DELETE FROM grants WHERE {condition}"), [whole, beginning])
            .expect("delete");
        conn.execute(
            "INSERT INTO grants VALUES (?1)",
            [PermissionGrantRow::from_grant(&grant).network_pattern],
        )
        .expect("insert");
    };
    let found = |id: u128| -> Vec<String> {
        let (whole, beginning) = lookup_keys(PermissionGrantId::from_uuid(id));
        conn.prepare(&format!("SELECT pattern FROM grants WHERE {condition}"))
            .expect("prepare")
            .query_map([whole, beginning], |row| row.get(0))
            .expect("query")
            .map(|pattern| pattern.expect("pattern"))
            .collect()
    };
    upsert(7, PermissionDecision::Allow);
    upsert(8, PermissionDecision::Allow);
    upsert(7, PermissionDecision::Deny);
    assert_eq!(found(7), vec!["00000000-0000-0000-0000-000000000007;deny;workspace;;"]);
    assert_eq!(found(8), vec!["00000000-0000-0000-0000-000000000008"]);
}

#[test]
fn stored_uuids_are_read_as_the_uuid_crate_reads_them() {
    let t = uuid::Uuid::from_u128(0x67e5504410b1426f9247bb680e5fe0c8);
    for text in [
        t.to_string(),
        t.simple().to_string(),
        t.braced().to_string(),
        t.urn().to_string(),
        t.to_string().to_uppercase(),
    ] {
        assert_eq!(read_uuid_or_nil(&text), t.as_u128(), "{text}");
    }
    for text in ["", "67e55044", "67e5504410b1426f9247bb680e5fe0cg", "{67e55044-10b1-426f-9247-bb680e5fe0c8"] {
        assert_eq!(read_uuid_or_nil(text), 0, "{text}");
        assert!(uuid::Uuid::parse_str(text).is_err());
    }
}
