//! The statements that are run on the database.

use vstd::prelude::*;

use crate::session_id::id_text;
use crate::session_id::lemma_id_texts_differ;

verus! {

/// A value that is bound to a placeholder of a statement.
#[derive(Debug)]
pub enum SqlValue {
    Null,
    Integer(i64),
    Text(String),
    Blob(Vec<u8>),
}

/// What a bound value holds.
#[verifier::ext_equal]
pub enum SqlView {
    Null,
    Integer(i64),
    Text(Seq<char>),
    Blob(Seq<u8>),
}

impl View for SqlValue {
    type V = SqlView;

    open spec fn view(&self) -> SqlView {
        match *self {
            SqlValue::Null => SqlView::Null,
            SqlValue::Integer(n) => SqlView::Integer(n),
            SqlValue::Text(s) => SqlView::Text(s@),
            SqlValue::Blob(b) => SqlView::Blob(b@),
        }
    }
}

/// A statement with the values of its placeholders, the first of them `?1`.
#[derive(Debug)]
pub struct Statement {
    pub sql: &'static str,
    pub params: Vec<SqlValue>,
}

/// What a statement holds.
#[verifier::ext_equal]
pub struct StatementView {
    pub sql: Seq<char>,
    pub params: Seq<SqlView>,
}

impl View for Statement {
    type V = StatementView;

    open spec fn view(&self) -> StatementView {
        StatementView { sql: self.sql@, params: self.params@.map_values(|v: SqlValue| v@) }
    }
}

/// What a list of statements holds.
pub open spec fn statements_view(list: Seq<Statement>) -> Seq<StatementView> {
    list.map_values(|s: Statement| s@)
}

/// Lays the tables out where they are missing.
pub const SCHEMA: &'static str = "PRAGMA journal_mode = WAL; \
    PRAGMA foreign_keys = ON; \
    CREATE TABLE IF NOT EXISTS sessions ( \
    id TEXT PRIMARY KEY, \
    name TEXT NOT NULL, \
    cwd TEXT NOT NULL, \
    shell TEXT NOT NULL, \
    args_json TEXT NOT NULL, \
    status TEXT NOT NULL, \
    pid INTEGER, \
    exit_code INTEGER, \
    archived INTEGER NOT NULL DEFAULT 0, \
    created_at TEXT NOT NULL, \
    updated_at TEXT NOT NULL, \
    last_activity_at TEXT NOT NULL \
    ); \
    CREATE TABLE IF NOT EXISTS session_events ( \
    id INTEGER PRIMARY KEY AUTOINCREMENT, \
    session_id TEXT NOT NULL, \
    seq INTEGER NOT NULL, \
    kind TEXT, \
    payload BLOB NOT NULL, \
    created_at TEXT NOT NULL \
    ); \
    CREATE UNIQUE INDEX IF NOT EXISTS idx_session_events_session_seq \
    ON session_events(session_id, seq);";

/// Reads every session, the oldest first; the columns are those of [`SessionRow`].
pub const SELECT_SESSIONS: &'static str =
    "SELECT id, name, cwd, shell, args_json, status, pid, exit_code, archived, \
    created_at, updated_at, last_activity_at \
    FROM sessions \
    ORDER BY created_at ASC";

/// Stores a session, over the earlier state of the same session if there is one.
pub const UPSERT_SESSION: &'static str = "INSERT INTO sessions ( \
    id, name, cwd, shell, args_json, status, pid, exit_code, archived, \
    created_at, updated_at, last_activity_at \
    ) VALUES (?1, ?2, ?3, ?4, ?5, ?6, ?7, ?8, ?9, ?10, ?11, ?12) \
    ON CONFLICT(id) DO UPDATE SET \
    name = excluded.name, \
    cwd = excluded.cwd, \
    shell = excluded.shell, \
    args_json = excluded.args_json, \
    status = excluded.status, \
    pid = excluded.pid, \
    exit_code = excluded.exit_code, \
    archived = excluded.archived, \
    updated_at = excluded.updated_at, \
    last_activity_at = excluded.last_activity_at";

/// Removes a session.
pub const DELETE_SESSION: &'static str = "DELETE FROM sessions WHERE id = ?1";

/// Removes the output of a session.
pub const DELETE_EVENTS: &'static str = "DELETE FROM session_events WHERE session_id = ?1";

/// Reads the output of a session, the oldest event first.
pub const SELECT_EVENTS: &'static str =
    "SELECT seq, payload FROM session_events WHERE session_id = ?1 ORDER BY seq ASC";

/// Stores an event of the kind `output`.
pub const INSERT_EVENT: &'static str =
    "INSERT INTO session_events (session_id, seq, kind, payload, created_at) \
    VALUES (?1, ?2, 'output', ?3, ?4)";

/// Notes when a session was last active.
pub const TOUCH_SESSION: &'static str =
    "UPDATE sessions SET updated_at = ?2, last_activity_at = ?2 WHERE id = ?1";

/// Counts the payload bytes stored for a session.
pub const SUM_EVENTS: &'static str =
    "SELECT COALESCE(SUM(length(payload)), 0) FROM session_events WHERE session_id = ?1";

/// Reads the row number and the payload length of the events of a session, the
/// oldest event first.
pub const LIST_EVENTS: &'static str =
    "SELECT id, length(payload) FROM session_events WHERE session_id = ?1 ORDER BY seq ASC";

/// Removes one event.
pub const DELETE_EVENT: &'static str = "DELETE FROM session_events WHERE id = ?1";

/// A statement about one session.
pub open spec fn about_session(sql: Seq<char>, id: u128) -> StatementView {
    StatementView { sql, params: seq![SqlView::Text(id_text(id))] }
}

pub fn session_statement(sql: &'static str, id: u128) -> (r: Statement)
    ensures
        r@ == about_session(sql@, id),
{
    let params = vec![SqlValue::Text(crate::session_id::session_id_text(id))];
    let r = Statement { sql, params };
    assert(r@.params =~= seq![SqlView::Text(id_text(id))]);
    r
}

/// Law: a statement about one session is about no other.
pub proof fn lemma_about_one_session(sql: Seq<char>, a: u128, b: u128)
    requires
        about_session(sql, a) == about_session(sql, b),
    ensures
        a == b,
{
    assert(about_session(sql, a).params[0] == SqlView::Text(id_text(a)));
    assert(about_session(sql, b).params[0] == SqlView::Text(id_text(b)));
    lemma_id_texts_differ(a, b);
}

/// Law: storing a session replaces every column but its identifier and its creation;
/// what is removed, read, counted and noted for a session is told by its identifier, and
/// its output is read and listed by rising sequence numbers.
pub proof fn lemma_statement_texts()
    ensures
        UPSERT_SESSION@
            == "INSERT INTO sessions ( id, name, cwd, shell, args_json, status, pid, exit_code, \
            archived, created_at, updated_at, last_activity_at ) VALUES (?1, ?2, ?3, ?4, ?5, ?6, \
            ?7, ?8, ?9, ?10, ?11, ?12) ON CONFLICT(id) DO UPDATE SET name = excluded.name, \
            cwd = excluded.cwd, shell = excluded.shell, args_json = excluded.args_json, \
            status = excluded.status, pid = excluded.pid, exit_code = excluded.exit_code, \
            archived = excluded.archived, updated_at = excluded.updated_at, \
            last_activity_at = excluded.last_activity_at"@,
        SELECT_SESSIONS@
            == "SELECT id, name, cwd, shell, args_json, status, pid, exit_code, archived, \
            created_at, updated_at, last_activity_at FROM sessions ORDER BY created_at ASC"@,
        DELETE_SESSION@ == "DELETE FROM sessions WHERE id = ?1"@,
        DELETE_EVENTS@ == "DELETE FROM session_events WHERE session_id = ?1"@,
        SELECT_EVENTS@
            == "SELECT seq, payload FROM session_events WHERE session_id = ?1 ORDER BY seq ASC"@,
        INSERT_EVENT@
            == "INSERT INTO session_events (session_id, seq, kind, payload, created_at) \
            VALUES (?1, ?2, 'output', ?3, ?4)"@,
        TOUCH_SESSION@
            == "UPDATE sessions SET updated_at = ?2, last_activity_at = ?2 WHERE id = ?1"@,
        SUM_EVENTS@
            == "SELECT COALESCE(SUM(length(payload)), 0) FROM session_events \
            WHERE session_id = ?1"@,
        LIST_EVENTS@
            == "SELECT id, length(payload) FROM session_events WHERE session_id = ?1 \
            ORDER BY seq ASC"@,
        DELETE_EVENT@ == "DELETE FROM session_events WHERE id = ?1"@,
{
}

} // verus!
