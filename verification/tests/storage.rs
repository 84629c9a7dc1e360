use std::path::PathBuf;

use remoterm::history::OutputEvent;
use remoterm::history::OutputHistory;
use remoterm::proto::SessionStatus;
use remoterm::proto::SessionSummary;
use remoterm::record::assemble_session;
use remoterm::record::decode_session;
use remoterm::record::parse_status;
use remoterm::record::parse_timestamp;
use remoterm::record::parse_uuid;
use remoterm::record::status_to_str;
use remoterm::record::upsert_with;
use remoterm::record::PersistedOutputEvent;
use remoterm::record::RowError;
use remoterm::record::RowField;
use remoterm::record::RowParts;
use remoterm::record::SessionRow;
use remoterm::record::SessionTexts;
use remoterm::record::StorageError;
use remoterm::session::SessionConfig;
use remoterm::sql::session_statement;
use remoterm::sql::SqlValue;
use remoterm::sql::Statement;
use remoterm::sql::DELETE_EVENT;
use remoterm::sql::SELECT_SESSIONS;
use remoterm::storage::add_column_if_missing;
use remoterm::storage::append_statements;
use remoterm::storage::prune_events;
use remoterm::storage::table_has_column;
use remoterm::storage::table_info;
use remoterm::storage::PruneStep;
use remoterm::storage::Storage;
use remoterm::timestamp::Timestamp;
use rusqlite::params_from_iter;
use rusqlite::types::Value;
use rusqlite::Connection;

const ID: u128 = 0x1111_2222_3333_4444_5555_6666_7777_8888;
const ID_TEXT: &str = "11112222-3333-4444-5555-666677778888";

fn at(secs: i64) -> Timestamp {
    Timestamp::new(secs, 0).unwrap()
}

fn storage() -> Storage {
    Storage::open(PathBuf::from("data/remoterm.sqlite3"))
}

fn value(v: &SqlValue) -> Value {
    match v {
        SqlValue::Null => Value::Null,
        SqlValue::Integer(n) => Value::Integer(*n),
        SqlValue::Text(s) => Value::Text(s.clone()),
        SqlValue::Blob(b) => Value::Blob(b.clone()),
    }
}

fn run(conn: &Connection, statement: &Statement) -> rusqlite::Result<usize> {
    conn.execute(statement.sql, params_from_iter(statement.params.iter().map(value)))
}

fn database() -> Connection {
    let conn = Connection::open_in_memory().unwrap();
    conn.execute_batch(storage().init()).unwrap();
    conn
}

fn columns(conn: &Connection, table: &str) -> Vec<String> {
    let mut stmt = conn.prepare(&table_info(table)).unwrap();
    let names = stmt.query_map([], |row| row.get::<_, String>(1)).unwrap();
    names.map(|name| name.unwrap()).collect()
}

fn session_rows(conn: &Connection) -> Vec<SessionRow> {
    let mut stmt = conn.prepare(SELECT_SESSIONS).unwrap();
    let rows = stmt
        .query_map([], |row| {
            Ok(SessionRow {
                id: row.get(0)?,
                name: row.get(1)?,
                cwd: row.get(2)?,
                shell: row.get(3)?,
                args_json: row.get(4)?,
                status: row.get(5)?,
                pid: row.get(6)?,
                exit_code: row.get(7)?,
                archived: row.get(8)?,
                created_at: row.get(9)?,
                updated_at: row.get(10)?,
                last_activity_at: row.get(11)?,
            })
        })
        .unwrap();
    rows.map(|row| row.unwrap()).collect()
}

fn event_rows(conn: &Connection, id: u128) -> Vec<(i64, Vec<u8>)> {
    let query = storage().select_output_history(id);
    let mut stmt = conn.prepare(query.sql).unwrap();
    let rows = stmt
        .query_map(params_from_iter(query.params.iter().map(value)), |row| {
            Ok((row.get(0)?, row.get(1)?))
        })
        .unwrap();
    rows.map(|row| row.unwrap()).collect()
}

fn append(conn: &Connection, id: u128, seq: u64, data: &[u8], max_bytes: usize) {
    let event = PersistedOutputEvent { seq, data: data.to_vec() };
    for statement in storage().append_output(id, &event, at(500 + seq as i64)).unwrap() {
        run(conn, &statement).unwrap();
    }
    let mut step = storage().prune_history(id, max_bytes);
    loop {
        step = match step {
            PruneStep::Done => return,
            PruneStep::DeleteAll(statement) => {
                run(conn, &statement).unwrap();
                return;
            }
            PruneStep::Measure(query) => {
                let total: i64 = conn
                    .query_row(query.sql, params_from_iter(query.params.iter().map(value)), |row| {
                        row.get(0)
                    })
                    .unwrap();
                storage().prune_measured(id, max_bytes, total)
            }
            PruneStep::List { query, bytes_to_remove } => {
                let mut stmt = conn.prepare(query.sql).unwrap();
                let rows: Vec<(i64, i64)> = stmt
                    .query_map(params_from_iter(query.params.iter().map(value)), |row| {
                        Ok((row.get(0)?, row.get(1)?))
                    })
                    .unwrap()
                    .map(|row| row.unwrap())
                    .collect();
                for statement in prune_events(bytes_to_remove, &rows) {
                    run(conn, &statement).unwrap();
                }
                return;
            }
        };
    }
}

fn config() -> SessionConfig {
    SessionConfig {
        name: "backend".to_string(),
        cwd: "/srv".to_string(),
        shell: "/bin/sh".to_string(),
        args: vec!["-l".to_string(), "a b".to_string()],
    }
}

fn summary() -> SessionSummary {
    SessionSummary {
        id: ID,
        name: "backend".to_string(),
        cwd: "/srv".to_string(),
        shell: "/bin/sh".to_string(),
        args: vec!["-l".to_string(), "a b".to_string()],
        status: SessionStatus::Running,
        pid: Some(4_000_000_000),
        exit_code: None,
        archived: true,
        attached_clients: 2,
        last_activity_at: at(300),
        created_at: at(100),
        updated_at: at(200),
    }
}

#[test]
fn storage_knows_its_path() {
    assert_eq!(storage().path(), &PathBuf::from("data/remoterm.sqlite3"));
}

#[test]
fn a_stored_session_reads_back() {
    let conn = database();
    run(&conn, &storage().upsert_session(&summary(), &config())).unwrap();
    let list = storage().load_sessions(session_rows(&conn)).unwrap();
    assert_eq!(list.len(), 1);
    let s = &list[0].summary;
    assert_eq!(s.id, ID);
    assert_eq!(s.name, "backend");
    assert_eq!(s.args, vec!["-l", "a b"]);
    assert_eq!(s.status, SessionStatus::Running);
    assert_eq!((s.pid, s.exit_code), (Some(4_000_000_000), None));
    assert!(s.archived);
    assert_eq!(s.attached_clients, 0);
    assert_eq!((s.created_at, s.updated_at, s.last_activity_at), (at(100), at(200), at(300)));
    assert_eq!(list[0].config.name, "backend");
    assert_eq!(list[0].config.cwd, "/srv");
    assert_eq!(list[0].config.shell, "/bin/sh");
    assert_eq!(list[0].config.args, vec!["-l", "a b"]);
}

#[test]
fn storing_again_replaces_all_but_the_creation() {
    let conn = database();
    run(&conn, &storage().upsert_session(&summary(), &config())).unwrap();
    let mut later = summary();
    let mut renamed = config();
    renamed.name = "api".to_string();
    later.status = SessionStatus::Exited;
    later.pid = None;
    later.exit_code = Some(130);
    later.archived = false;
    later.created_at = at(999);
    later.updated_at = at(400);
    run(&conn, &storage().upsert_session(&later, &renamed)).unwrap();
    let list = storage().load_sessions(session_rows(&conn)).unwrap();
    assert_eq!(list.len(), 1);
    let s = &list[0].summary;
    assert_eq!(s.name, "api");
    assert_eq!((s.status, s.pid, s.exit_code), (SessionStatus::Exited, None, Some(130)));
    assert!(!s.archived);
    assert_eq!((s.created_at, s.updated_at), (at(100), at(400)));
}

#[test]
fn the_row_of_a_session_is_written_out() {
    let statement = storage().upsert_session(&summary(), &config());
    let texts: Vec<String> = statement.params.iter().map(|p| format!("{p:?}")).collect();
    assert_eq!(
        texts,
        vec![
            format!("Text(\"{ID_TEXT}\")"),
            "Text(\"backend\")".to_string(),
            "Text(\"/srv\")".to_string(),
            "Text(\"/bin/sh\")".to_string(),
            "Text(\"[\\\"-l\\\",\\\"a b\\\"]\")".to_string(),
            "Text(\"running\")".to_string(),
            "Integer(4000000000)".to_string(),
            "Null".to_string(),
            "Integer(1)".to_string(),
            "Text(\"1970-01-01T00:01:40+00:00\")".to_string(),
            "Text(\"1970-01-01T00:03:20+00:00\")".to_string(),
            "Text(\"1970-01-01T00:05:00+00:00\")".to_string(),
        ]
    );
}

#[test]
fn sessions_are_read_oldest_first() {
    let conn = database();
    for (id, created) in [(1, 300), (2, 100), (3, 200)] {
        let mut s = summary();
        s.id = id;
        s.created_at = at(created);
        run(&conn, &storage().upsert_session(&s, &config())).unwrap();
    }
    let list = storage().load_sessions(session_rows(&conn)).unwrap();
    assert_eq!(list.iter().map(|p| p.summary.id).collect::<Vec<_>>(), vec![2, 3, 1]);
}

#[test]
fn a_deleted_session_is_gone_with_its_output() {
    let conn = database();
    run(&conn, &storage().upsert_session(&summary(), &config())).unwrap();
    append(&conn, ID, 1, b"x", 100);
    append(&conn, 5, 1, b"y", 100);
    for statement in storage().delete_session(ID) {
        run(&conn, &statement).unwrap();
    }
    assert!(session_rows(&conn).is_empty());
    assert!(event_rows(&conn, ID).is_empty());
    assert_eq!(event_rows(&conn, 5).len(), 1);
}

#[test]
fn appended_output_reads_back_and_is_activity() {
    let conn = database();
    run(&conn, &storage().upsert_session(&summary(), &config())).unwrap();
    append(&conn, ID, 2, b"two", 100);
    append(&conn, ID, 1, b"one", 100);
    let events = storage().load_output_history(event_rows(&conn, ID)).unwrap();
    let read: Vec<(u64, Vec<u8>)> = events.into_iter().map(|e| (e.seq, e.data)).collect();
    assert_eq!(read, vec![(1, b"one".to_vec()), (2, b"two".to_vec())]);
    let list = storage().load_sessions(session_rows(&conn)).unwrap();
    assert_eq!(list[0].summary.updated_at, at(501));
    assert_eq!(list[0].summary.last_activity_at, at(501));
}

#[test]
fn a_sequence_number_is_stored_once() {
    let conn = database();
    append(&conn, ID, 1, b"one", 100);
    let event = PersistedOutputEvent { seq: 1, data: b"other".to_vec() };
    let statements = storage().append_output(ID, &event, at(9)).unwrap();
    assert!(run(&conn, &statements[0]).is_err());
}

#[test]
fn stored_output_is_pruned_from_the_front() {
    let conn = database();
    append(&conn, ID, 1, b"abcd", 10);
    append(&conn, ID, 2, b"efgh", 10);
    append(&conn, 5, 1, b"0123456789", 10);
    append(&conn, ID, 3, b"ijkl", 10);
    let left: Vec<i64> = event_rows(&conn, ID).iter().map(|r| r.0).collect();
    assert_eq!(left, vec![2, 3]);
    append(&conn, ID, 4, b"123456789", 10);
    let left: Vec<i64> = event_rows(&conn, ID).iter().map(|r| r.0).collect();
    assert_eq!(left, vec![4]);
    append(&conn, ID, 5, b"larger than ten", 10);
    assert!(event_rows(&conn, ID).is_empty());
    assert_eq!(event_rows(&conn, 5).len(), 1);
}

#[test]
fn without_a_limit_nothing_is_stored() {
    let conn = database();
    append(&conn, ID, 1, b"abcd", 100);
    append(&conn, ID, 2, b"efgh", 0);
    assert!(event_rows(&conn, ID).is_empty());
}

#[test]
fn cleared_output_is_gone() {
    let conn = database();
    append(&conn, ID, 1, b"abcd", 100);
    append(&conn, 5, 1, b"abcd", 100);
    run(&conn, &storage().clear_output_history(ID)).unwrap();
    assert!(event_rows(&conn, ID).is_empty());
    assert_eq!(event_rows(&conn, 5).len(), 1);
}

#[test]
fn pruning_removes_as_few_events_as_it_can() {
    let rows = vec![(11, 4), (12, 0), (13, 4), (14, 4)];
    let ids = |bytes: i64| -> Vec<String> {
        prune_events(bytes, &rows)
            .iter()
            .map(|s| {
                assert_eq!(s.sql, DELETE_EVENT);
                format!("{:?}", s.params)
            })
            .collect()
    };
    assert_eq!(ids(1), vec!["[Integer(11)]"]);
    assert_eq!(ids(4), vec!["[Integer(11)]"]);
    assert_eq!(ids(5), vec!["[Integer(11)]", "[Integer(12)]", "[Integer(13)]"]);
    assert_eq!(ids(100).len(), 4);
    assert!(prune_events(1, &Vec::new()).is_empty());
}

#[test]
fn pruning_is_decided_by_what_is_stored() {
    assert!(matches!(storage().prune_history(ID, 0), PruneStep::DeleteAll(_)));
    assert!(matches!(storage().prune_history(ID, 1), PruneStep::Measure(_)));
    assert!(matches!(storage().prune_measured(ID, 10, 10), PruneStep::Done));
    assert!(matches!(
        storage().prune_measured(ID, 10, 13),
        PruneStep::List { bytes_to_remove: 3, .. }
    ));
    assert!(matches!(storage().prune_measured(ID, usize::MAX, 0), PruneStep::Done));
    assert!(matches!(storage().prune_measured(ID, usize::MAX, i64::MAX), PruneStep::Done));
    assert!(matches!(storage().prune_measured(ID, 1, -1), PruneStep::Done));
    assert!(matches!(
        storage().prune_measured(ID, 1, i64::MAX),
        PruneStep::List { bytes_to_remove, .. } if bytes_to_remove == i64::MAX - 1
    ));
}

#[test]
fn an_earlier_layout_gets_the_missing_column() {
    let conn = Connection::open_in_memory().unwrap();
    conn.execute_batch(
        "CREATE TABLE sessions (id TEXT PRIMARY KEY, name TEXT NOT NULL, cwd TEXT NOT NULL,
         shell TEXT NOT NULL, args_json TEXT NOT NULL, status TEXT NOT NULL, pid INTEGER,
         exit_code INTEGER, created_at TEXT NOT NULL, updated_at TEXT NOT NULL,
         last_activity_at TEXT NOT NULL);
         INSERT INTO sessions VALUES ('00000000-0000-0000-0000-000000000001', 'n', '/', 'sh',
         '[]', 'exited', NULL, 0, '2024-01-01T00:00:00Z', '2024-01-01T00:00:00Z',
         '2024-01-01T00:00:00Z');",
    )
    .unwrap();
    conn.execute_batch(storage().init()).unwrap();
    let sql = storage().upgrade(&columns(&conn, "sessions")).unwrap();
    assert_eq!(sql, "ALTER TABLE sessions ADD COLUMN archived INTEGER NOT NULL DEFAULT 0;");
    conn.execute_batch(&sql).unwrap();
    assert_eq!(storage().upgrade(&columns(&conn, "sessions")), None);
    let list = storage().load_sessions(session_rows(&conn)).unwrap();
    assert!(!list[0].summary.archived);
    assert_eq!(list[0].summary.exit_code, Some(0));
}

#[test]
fn a_fresh_layout_has_every_column() {
    let conn = database();
    assert_eq!(storage().upgrade(&columns(&conn, "sessions")), None);
    assert_eq!(
        columns(&conn, "session_events"),
        vec!["id", "session_id", "seq", "kind", "payload", "created_at"]
    );
    assert_eq!(storage().upgrade_events(&columns(&conn, "session_events")), None);
    conn.execute_batch(storage().init()).unwrap();
}

#[test]
fn earlier_events_get_the_missing_column() {
    let conn = Connection::open_in_memory().unwrap();
    conn.execute_batch(
        "CREATE TABLE session_events (id INTEGER PRIMARY KEY AUTOINCREMENT,
         session_id TEXT NOT NULL, seq INTEGER NOT NULL, payload BLOB NOT NULL,
         created_at TEXT NOT NULL);",
    )
    .unwrap();
    conn.execute_batch(storage().init()).unwrap();
    let sql = storage().upgrade_events(&columns(&conn, "session_events")).unwrap();
    assert_eq!(sql, "ALTER TABLE session_events ADD COLUMN kind TEXT;");
    conn.execute_batch(&sql).unwrap();
    assert_eq!(storage().upgrade_events(&columns(&conn, "session_events")), None);
    append(&conn, ID, 1, b"x", 100);
    assert_eq!(event_rows(&conn, ID), vec![(1, b"x".to_vec())]);
}

#[test]
fn stored_events_have_a_kind() {
    let conn = database();
    append(&conn, ID, 1, b"x", 100);
    let kind: String =
        conn.query_row("SELECT kind FROM session_events", [], |row| row.get(0)).unwrap();
    assert_eq!(kind, "output");
}

#[test]
fn the_store_agrees_with_the_history() {
    let conn = database();
    let mut history = OutputHistory::new(10);
    for seq in 1..=20 {
        let data = vec![seq as u8; (seq % 7) as usize + 1];
        append(&conn, ID, seq, &data, 10);
        history.push(OutputEvent { seq, data });
        let stored = storage().load_output_history(event_rows(&conn, ID)).unwrap();
        let stored: Vec<(u64, Vec<u8>)> = stored.into_iter().map(|e| (e.seq, e.data)).collect();
        let held: Vec<(u64, Vec<u8>)> =
            history.snapshot_since(None).1.into_iter().map(|e| (e.seq, e.data)).collect();
        assert_eq!(stored, held);
    }
}

#[test]
fn columns_are_added_when_missing() {
    let columns = vec!["id".to_string(), "name".to_string()];
    assert!(table_has_column(&columns, "name"));
    assert!(!table_has_column(&columns, "nam"));
    assert!(!table_has_column(&Vec::new(), "id"));
    assert_eq!(add_column_if_missing(&columns, "t", "id", "TEXT"), None);
    assert_eq!(
        add_column_if_missing(&columns, "t", "size", "INTEGER"),
        Some("ALTER TABLE t ADD COLUMN size INTEGER;".to_string())
    );
    assert_eq!(table_info("t"), "PRAGMA table_info(t)");
}

#[test]
fn statuses_are_words() {
    let table = [
        (SessionStatus::Running, "running"),
        (SessionStatus::Exited, "exited"),
        (SessionStatus::Starting, "starting"),
        (SessionStatus::Stopped, "stopped"),
    ];
    for (status, word) in table {
        assert_eq!(status_to_str(&status), word);
        assert_eq!(parse_status(word).unwrap(), status);
    }
    let e = parse_status("Running").unwrap_err();
    assert_eq!(e.message(), "unsupported session status Running");
}

#[test]
fn stored_texts_are_parsed() {
    assert_eq!(parse_uuid(ID_TEXT.to_string()).unwrap(), ID);
    assert_eq!(parse_uuid("x".to_string()).unwrap_err().message(), "invalid uuid x");
    assert_eq!(parse_timestamp("1970-01-01T00:01:40Z").unwrap(), at(100));
    assert_eq!(
        parse_timestamp("soon").unwrap_err().message(),
        "invalid rfc3339 timestamp soon"
    );
    assert!(parse_uuid("x".to_string()).unwrap_err().reason().is_some());
    assert!(parse_timestamp("soon").unwrap_err().reason().is_some());
    assert_eq!(parse_status("idle").unwrap_err().reason(), None);
}

fn row() -> SessionRow {
    SessionRow {
        id: ID_TEXT.to_string(),
        name: "n".to_string(),
        cwd: "/".to_string(),
        shell: "sh".to_string(),
        args_json: "[\"-l\"]".to_string(),
        status: "stopped".to_string(),
        pid: None,
        exit_code: None,
        archived: 2,
        created_at: "1970-01-01T00:00:01Z".to_string(),
        updated_at: "1970-01-01T00:00:02Z".to_string(),
        last_activity_at: "1970-01-01T00:00:03Z".to_string(),
    }
}

fn complaint(row: SessionRow) -> (String, String) {
    let e = decode_session(row).unwrap_err();
    (e.message(), e.cause())
}

#[test]
fn a_row_is_decoded() {
    let p = decode_session(row()).unwrap();
    assert_eq!(p.summary.id, ID);
    assert!(p.summary.archived);
    assert_eq!(p.summary.status, SessionStatus::Stopped);
    assert_eq!(p.summary.args, vec!["-l"]);
    assert_eq!(p.summary.created_at, at(1));
    assert_eq!(p.summary.updated_at, at(2));
    assert_eq!(p.summary.last_activity_at, at(3));
    let mut unarchived = row();
    unarchived.archived = 0;
    assert!(!decode_session(unarchived).unwrap().summary.archived);
}

#[test]
fn a_row_with_a_bad_column_is_refused() {
    let mut bad = row();
    bad.id = "me".to_string();
    assert_eq!(
        complaint(bad),
        ("invalid session id".to_string(), "invalid uuid me".to_string())
    );
    let mut bad = row();
    bad.args_json = "nope".to_string();
    assert_eq!(
        complaint(bad),
        (
            format!("invalid args_json for session {ID_TEXT}"),
            "expected ident at line 1 column 2".to_string()
        )
    );
    let mut bad = row();
    bad.status = "idle".to_string();
    assert_eq!(
        complaint(bad),
        (
            format!("invalid status for session {ID_TEXT}"),
            "unsupported session status idle".to_string()
        )
    );
    let mut bad = row();
    bad.created_at = "a".to_string();
    assert_eq!(
        complaint(bad),
        (
            format!("invalid created_at for session {ID_TEXT}"),
            "invalid rfc3339 timestamp a".to_string()
        )
    );
    let mut bad = row();
    bad.updated_at = "b".to_string();
    assert_eq!(complaint(bad).0, format!("invalid updated_at for session {ID_TEXT}"));
    let mut bad = row();
    bad.last_activity_at = "c".to_string();
    assert_eq!(complaint(bad).0, format!("invalid last_activity_at for session {ID_TEXT}"));
}

#[test]
fn the_first_bad_column_is_named() {
    let mut bad = row();
    bad.args_json = "nope".to_string();
    bad.status = "idle".to_string();
    bad.created_at = "a".to_string();
    assert!(matches!(
        decode_session(bad),
        Err(RowError::Field { field: RowField::Args, session: ID, .. })
    ));
    let mut bad = row();
    bad.status = "idle".to_string();
    bad.updated_at = "a".to_string();
    assert!(matches!(
        decode_session(bad),
        Err(RowError::Field { field: RowField::Status, .. })
    ));
}

#[test]
fn the_first_bad_row_stops_the_loading() {
    let mut second = row();
    second.status = "idle".to_string();
    let mut third = row();
    third.id = "me".to_string();
    let e = storage().load_sessions(vec![row(), second, third]).unwrap_err();
    assert!(matches!(e, RowError::Field { field: RowField::Status, .. }));
    assert!(storage().load_sessions(Vec::new()).unwrap().is_empty());
}

#[test]
fn sequence_numbers_out_of_range_are_refused() {
    let rows = vec![(1, Vec::new()), (-1, Vec::new())];
    let e = storage().load_output_history(rows).unwrap_err();
    assert!(matches!(e, StorageError::Sequence { .. }));
    assert_eq!(e.message(), "Integer -1 out of range at index 0");
    let rows = vec![(i64::MIN, Vec::new()), (-7, Vec::new())];
    let e = storage().load_output_history(rows).unwrap_err();
    assert_eq!(e.message(), "Integer -9223372036854775808 out of range at index 0");
    assert_eq!(e.reason(), None);
    let event = PersistedOutputEvent { seq: i64::MAX as u64 + 1, data: Vec::new() };
    let e = storage().append_output(ID, &event, at(1)).unwrap_err();
    let conn = Connection::open_in_memory().unwrap();
    let refused = conn.query_row("SELECT ?1", [event.seq], |row| row.get::<_, i64>(0));
    assert_eq!(e.message(), refused.unwrap_err().to_string());
    let event = PersistedOutputEvent { seq: i64::MAX as u64, data: Vec::new() };
    assert_eq!(storage().append_output(ID, &event, at(1)).unwrap().len(), 2);
}

fn bad_time() -> StorageError {
    StorageError::Timestamp { value: "soon".to_string(), reason: "too vague".to_string() }
}

fn parts() -> RowParts {
    RowParts {
        id: Ok(ID),
        args: Ok(vec!["-l".to_string()]),
        created_at: Ok(at(1)),
        updated_at: Ok(at(2)),
        last_activity_at: Ok(at(3)),
    }
}

#[test]
fn a_row_is_put_together_from_its_parts() {
    let p = assemble_session(row(), parts()).unwrap();
    assert_eq!((p.summary.id, p.summary.args), (ID, vec!["-l".to_string()]));
    assert_eq!(p.config.args, vec!["-l"]);
    assert_eq!(p.config.shell, "sh");
    assert_eq!(p.summary.last_activity_at, at(3));
    assert_eq!(p.summary.attached_clients, 0);
    let mut missing = parts();
    missing.id = Err(bad_time());
    assert!(matches!(assemble_session(row(), missing), Err(RowError::Id { .. })));
    let mut missing = parts();
    missing.args = Err("no list".to_string());
    missing.updated_at = Err(bad_time());
    let e = assemble_session(row(), missing).unwrap_err();
    assert!(matches!(e, RowError::Field { field: RowField::Args, session: ID, .. }));
    assert_eq!((e.cause(), e.reason()), ("no list".to_string(), None));
    let mut missing = parts();
    missing.updated_at = Err(bad_time());
    missing.last_activity_at = Err(bad_time());
    let e = assemble_session(row(), missing).unwrap_err();
    assert!(matches!(e, RowError::Field { field: RowField::UpdatedAt, .. }));
    assert_eq!(e.cause(), "invalid rfc3339 timestamp soon");
    assert_eq!(e.reason(), Some("too vague".to_string()));
}

#[test]
fn a_session_is_stored_under_given_texts() {
    let words = SessionTexts {
        id: "i".to_string(),
        args_json: "j".to_string(),
        created_at: "c".to_string(),
        updated_at: "u".to_string(),
        last_activity_at: "l".to_string(),
    };
    let statement = upsert_with(&summary(), &config(), words);
    let texts: Vec<String> = statement.params.iter().map(|p| format!("{p:?}")).collect();
    assert_eq!(texts[0], "Text(\"i\")");
    assert_eq!(texts[4], "Text(\"j\")");
    assert_eq!(texts[5], "Text(\"running\")");
    assert_eq!(texts[9..], ["Text(\"c\")", "Text(\"u\")", "Text(\"l\")"]);
}

#[test]
fn an_event_is_stored_under_given_texts() {
    let event = PersistedOutputEvent { seq: 8, data: vec![1, 2] };
    let list = append_statements("i".to_string(), &event, "t".to_string());
    let texts: Vec<String> = list.iter().map(|s| format!("{:?}", s.params)).collect();
    assert_eq!(
        texts,
        vec![
            "[Text(\"i\"), Integer(8), Blob([1, 2]), Text(\"t\")]",
            "[Text(\"i\"), Text(\"t\")]",
        ]
    );
}

#[test]
fn a_statement_about_a_session_names_it() {
    let statement = session_statement(SELECT_SESSIONS, ID);
    assert_eq!(statement.sql, SELECT_SESSIONS);
    assert_eq!(format!("{:?}", statement.params), format!("[Text(\"{ID_TEXT}\")]"));
}

#[test]
fn what_the_database_says_of_a_bad_number_is_what_is_reported() {
    let conn = database();
    conn.execute(
        "INSERT INTO session_events (session_id, seq, payload, created_at)
         VALUES (?1, -42, x'00', 't')",
        [ID_TEXT],
    )
    .unwrap();
    let read = conn.query_row("SELECT seq FROM session_events", [], |row| row.get::<_, u64>(0));
    let e = storage().load_output_history(event_rows(&conn, ID)).unwrap_err();
    assert_eq!(e.message(), read.unwrap_err().to_string());
}
