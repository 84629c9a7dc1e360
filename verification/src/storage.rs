//! The database of sessions: where it lies, what each operation runs on it, and what
//! comes of the rows that are read.

use std::path::PathBuf;

use vstd::prelude::*;
use vstd::string::StringExecFns;

use crate::column::bind_number;
use crate::column::out_of_range;
use crate::column::read_number;
use crate::column::unbindable;
use crate::history::ascending;
use crate::history::bytes_held;
use crate::history::evict;
use crate::history::excess;
use crate::history::EventView;
use crate::history::HistoryView;
use crate::proto::SessionSummary;
use crate::proto::SummaryView;
use crate::record::all_decoded;
use crate::record::decode_session;
use crate::record::decoded;
use crate::record::encoded;
use crate::record::first_error;
use crate::record::instant_text;
use crate::record::lemma_status_reads_back;
use crate::record::row_columns;
use crate::record::session_texts;
use crate::record::stored_view;
use crate::record::upsert_with;
use crate::record::PersistedOutputEvent;
use crate::record::PersistedSession;
use crate::record::PersistedView;
use crate::record::RowError;
use crate::record::RowErrorView;
use crate::record::SessionRow;
use crate::record::SessionTexts;
use crate::record::StorageError;
use crate::record::StorageErrorView;
use crate::session::ConfigView;
use crate::session::SessionConfig;
use crate::session_id::id_text;
use crate::session_id::session_id_text;
use crate::sql::about_session;
use crate::sql::session_statement;
use crate::sql::statements_view;
use crate::sql::SqlValue;
use crate::sql::SqlView;
use crate::sql::Statement;
use crate::sql::StatementView;
use crate::sql::DELETE_EVENT;
use crate::sql::DELETE_EVENTS;
use crate::sql::DELETE_SESSION;
use crate::sql::INSERT_EVENT;
use crate::sql::LIST_EVENTS;
use crate::sql::SCHEMA;
use crate::sql::SELECT_EVENTS;
use crate::sql::SUM_EVENTS;
use crate::sql::TOUCH_SESSION;
use crate::sql::UPSERT_SESSION;
use crate::text::texts;
use crate::timestamp::Timestamp;

verus! {

/// The path type of std, which is carried and never looked into.
#[verifier::external_type_specification]
#[verifier::external_body]
pub struct ExPathBuf(std::path::PathBuf);

/// What a session's row says once it is read back: the settings and the summary,
/// with nobody attached.
pub open spec fn as_stored(summary: SummaryView, config: ConfigView) -> PersistedView {
    PersistedView { config, summary: SummaryView { attached_clients: 0, ..summary } }
}

/// Whether the settings and the summary name the same things.
pub open spec fn agree(summary: SummaryView, config: ConfigView) -> bool {
    &&& summary.name == config.name
    &&& summary.cwd == config.cwd
    &&& summary.shell == config.shell
    &&& summary.args == config.args
}

/// The statements that store an output event, for which these texts stand, and note
/// the session's activity.
pub open spec fn append_statements_view(
    id: Seq<char>,
    event: EventView,
    at: Seq<char>,
) -> Seq<StatementView> {
    seq![
        StatementView {
            sql: INSERT_EVENT@,
            params: seq![
                SqlView::Text(id),
                SqlView::Integer(event.seq as i64),
                SqlView::Blob(event.data),
                SqlView::Text(at),
            ],
        },
        StatementView { sql: TOUCH_SESSION@, params: seq![SqlView::Text(id), SqlView::Text(at)] },
    ]
}

/// The statements that store an output event, for which these texts stand, and note
/// the session's activity. A column holds no number above the largest `i64`.
pub fn append_statements(id: String, event: &PersistedOutputEvent, at: String) -> (r: Vec<
    Statement,
>)
    requires
        event.seq <= i64::MAX,
    ensures
        statements_view(r@) == append_statements_view(id@, event@, at@),
{
    let insert = Statement {
        sql: INSERT_EVENT,
        params: vec![
            SqlValue::Text(id.clone()),
            SqlValue::Integer(event.seq as i64),
            SqlValue::Blob(event.data.clone()),
            SqlValue::Text(at.clone()),
        ],
    };
    let touch = Statement {
        sql: TOUCH_SESSION,
        params: vec![SqlValue::Text(id), SqlValue::Text(at)],
    };
    let ghost want = append_statements_view(id@, event@, at@);
    assert(insert@.params =~= want[0].params);
    assert(touch@.params =~= want[1].params);
    let list = vec![insert, touch];
    assert(statements_view(list@) =~= want);
    list
}

/// The event of a row that holds a sequence number and a payload.
pub open spec fn read_event(row: (i64, Vec<u8>)) -> EventView {
    EventView { seq: row.0 as u64, data: row.1@ }
}

/// The events of rows that hold sequence numbers and payloads.
pub open spec fn read_events(rows: Seq<(i64, Vec<u8>)>) -> Seq<EventView> {
    rows.map_values(|row: (i64, Vec<u8>)| read_event(row))
}

/// Whether the `k`-th row is the first with a sequence number below zero, and `e` says so.
pub open spec fn first_below_zero(
    rows: Seq<(i64, Vec<u8>)>,
    k: int,
    e: StorageErrorView,
) -> bool {
    &&& 0 <= k < rows.len()
    &&& rows[k].0 < 0
    &&& forall|j: int| 0 <= j < k ==> (#[trigger] rows[j]).0 >= 0
    &&& e == (StorageErrorView::Sequence { reason: out_of_range(0, rows[k].0) })
}

/// What is done next to bring a session's stored output within its limit.
#[derive(Debug)]
pub enum PruneStep {
    /// Nothing is to be removed.
    Done,
    /// Run the statement, and be done.
    DeleteAll(Statement),
    /// Run the query for the bytes stored, and go on with what it says.
    Measure(Statement),
    /// Run the query for the events, and go on with its rows: so many bytes are to go.
    List { query: Statement, bytes_to_remove: i64 },
}

/// What a step of pruning holds.
#[verifier::ext_equal]
pub enum PruneView {
    Done,
    DeleteAll(StatementView),
    Measure(StatementView),
    List { query: StatementView, bytes_to_remove: i64 },
}

impl View for PruneStep {
    type V = PruneView;

    open spec fn view(&self) -> PruneView {
        match *self {
            PruneStep::Done => PruneView::Done,
            PruneStep::DeleteAll(s) => PruneView::DeleteAll(s@),
            PruneStep::Measure(s) => PruneView::Measure(s@),
            PruneStep::List { query, bytes_to_remove } => {
                PruneView::List { query: query@, bytes_to_remove }
            },
        }
    }
}

/// The number of events, the oldest first and with these payload lengths, that go
/// until `bytes_to_remove` bytes are gone: at least one, if there is one.
pub open spec fn doomed(lens: Seq<int>, bytes_to_remove: int) -> nat
    decreases lens.len(),
{
    if lens.len() == 0 {
        0
    } else if bytes_to_remove <= lens[0] {
        1
    } else {
        1 + doomed(lens.drop_first(), bytes_to_remove - lens[0])
    }
}

/// The payload lengths in rows of row numbers and lengths.
pub open spec fn row_lens(rows: Seq<(i64, i64)>) -> Seq<int> {
    rows.map_values(|row: (i64, i64)| row.1 as int)
}

/// The statement that removes one event.
pub open spec fn delete_event(row_id: i64) -> StatementView {
    StatementView { sql: DELETE_EVENT@, params: seq![SqlView::Integer(row_id)] }
}

/// The statements that remove the oldest events of the rows, as few as bring
/// `bytes_to_remove` bytes down.
pub fn prune_events(bytes_to_remove: i64, rows: &Vec<(i64, i64)>) -> (r: Vec<Statement>)
    requires
        bytes_to_remove > 0,
        forall|i: int| 0 <= i < rows@.len() ==> (#[trigger] rows@[i]).1 >= 0,
    ensures
        statements_view(r@) == Seq::new(
            doomed(row_lens(rows@), bytes_to_remove as int),
            |i: int| delete_event(rows@[i].0),
        ),
{
    let ghost lens = row_lens(rows@);
    let ghost count = doomed(lens, bytes_to_remove as int);
    let mut list: Vec<Statement> = Vec::new();
    let mut left: i64 = bytes_to_remove;
    let mut i: usize = 0;
    assert(lens.skip(0) =~= lens);
    while i < rows.len() && left > 0
        invariant
            i <= rows.len(),
            lens == row_lens(rows@),
            forall|j: int| 0 <= j < rows@.len() ==> (#[trigger] rows@[j]).1 >= 0,
            statements_view(list@) == Seq::new(i as nat, |j: int| delete_event(rows@[j].0)),
            left <= bytes_to_remove,
            left > 0 ==> count == i + doomed(lens.skip(i as int), left as int),
            left <= 0 ==> count == i,
            left >= -i64::MAX,
        decreases rows.len() - i,
    {
        let (row_id, len) = rows[i];
        let removal = Statement { sql: DELETE_EVENT, params: vec![SqlValue::Integer(row_id)] };
        assert(removal@.params =~= seq![SqlView::Integer(row_id)]);
        let ghost before = list@;
        list.push(removal);
        assert(statements_view(list@) =~= statements_view(before).push(removal@));
        assert(lens.skip(i as int).drop_first() =~= lens.skip(i + 1));
        assert(lens.skip(i as int)[0] == len);
        left = left - len;
        i = i + 1;
        assert(statements_view(list@) =~= Seq::new(i as nat, |j: int| delete_event(rows@[j].0)));
    }
    list
}

/// Where the database of sessions lies, and what is run on it.
#[derive(Debug)]
pub struct Storage {
    path: PathBuf,
}

impl Storage {
    /// The path of the database.
    pub closed spec fn location(self) -> PathBuf {
        self.path
    }

    /// The database at this path.
    pub fn open(path: PathBuf) -> (r: Storage)
        ensures
            r.location() == path,
    {
        Storage { path }
    }

    /// The path of the database.
    pub fn path(&self) -> (r: &PathBuf)
        ensures
            *r == self.location(),
    {
        &self.path
    }

    /// What is run when the database is opened.
    pub fn init(&self) -> (r: &'static str)
        ensures
            r@ == SCHEMA@,
    {
        SCHEMA
    }

    /// What is run when the database was laid out before sessions could be archived:
    /// `columns` names the columns that the table of sessions has.
    pub fn upgrade(&self, columns: &Vec<String>) -> (r: Option<String>)
        ensures
            addition(
                texts(columns@),
                "sessions"@,
                "archived"@,
                "INTEGER NOT NULL DEFAULT 0"@,
            ) == match r {
                Some(sql) => Some(sql@),
                None => None,
            },
    {
        add_column_if_missing(columns, "sessions", "archived", "INTEGER NOT NULL DEFAULT 0")
    }

    /// What is run when the database was laid out before events had a kind: `columns`
    /// names the columns that the table of events has.
    pub fn upgrade_events(&self, columns: &Vec<String>) -> (r: Option<String>)
        ensures
            addition(texts(columns@), "session_events"@, "kind"@, "TEXT"@) == match r {
                Some(sql) => Some(sql@),
                None => None,
            },
    {
        add_column_if_missing(columns, "session_events", "kind", "TEXT")
    }

    /// The sessions of the rows that [`crate::sql::SELECT_SESSIONS`] reads, or the
    /// error of the first row that cannot be read.
    pub fn load_sessions(&self, rows: Vec<SessionRow>) -> (r: Result<
        Vec<PersistedSession>,
        RowError,
    >)
        ensures
            match r {
                Ok(list) => all_decoded(rows@, list@) && forall|i: int|
                    0 <= i < list@.len() ==> (#[trigger] list@[i])@.summary.times_valid(),
                Err(e) => first_error(rows@, e@),
            },
    {
        let ghost all = rows@;
        let mut rest = rows;
        let mut list: Vec<PersistedSession> = Vec::new();
        while rest.len() > 0
            invariant
                all == rows@,
                rest@ == all.skip(list@.len() as int),
                list@.len() <= all.len(),
                all_decoded(all.take(list@.len() as int), list@),
                forall|i: int|
                    0 <= i < list@.len() ==> (#[trigger] list@[i])@.summary.times_valid(),
            decreases rest.len(),
        {
            let ghost k = list@.len() as int;
            let ghost before = list@;
            let row = rest.remove(0);
            assert(row == all[k]);
            match decode_session(row) {
                Ok(session) => {
                    list.push(session);
                    assert(rest@ =~= all.skip(k + 1));
                    assert forall|i: int| 0 <= i < k + 1 implies decoded(
                        all.take(k + 1)[i]@,
                    ) == Ok::<_, RowErrorView>((#[trigger] list@[i])@) by {
                        if i < k {
                            assert(list@[i] == before[i]);
                            assert(all.take(k)[i] == all[i]);
                        }
                    }
                },
                Err(e) => {
                    assert forall|j: int| 0 <= j < k implies decoded((#[trigger] all[j])@) is Ok by {
                        assert(all.take(k)[j] == all[j]);
                        assert(decoded(all.take(k)[j]@) == Ok::<_, RowErrorView>(list@[j]@));
                    }
                    assert(decoded(all[k]@) == Err::<PersistedView, _>(e@));
                    return Err(e);
                },
            }
        }
        assert(all.take(all.len() as int) =~= all);
        Ok(list)
    }

    /// The statement that stores a session. If the settings and the summary agree and
    /// the instants lie in the years 0 to 9999, the row that it stores reads back as
    /// the session.
    pub fn upsert_session(&self, summary: &SessionSummary, config: &SessionConfig) -> (r: Statement)
        requires
            summary@.times_valid(),
        ensures
            r@ == (StatementView {
                sql: UPSERT_SESSION@,
                params: row_columns(
                    encoded(summary@, config@, session_texts(summary@, config@)),
                ),
            }),
            agree(summary@, config@) && summary@.times_writable() ==> decoded(
                encoded(summary@, config@, session_texts(summary@, config@)),
            ) == Ok::<_, RowErrorView>(as_stored(summary@, config@)),
    {
        let words = SessionTexts {
            id: session_id_text(summary.id),
            args_json: crate::args::encode_args(&config.args),
            created_at: summary.created_at.to_rfc3339(),
            updated_at: summary.updated_at.to_rfc3339(),
            last_activity_at: summary.last_activity_at.to_rfc3339(),
        };
        assert(words@ =~= session_texts(summary@, config@));
        proof {
            lemma_status_reads_back(summary.status);
        }
        upsert_with(summary, config, words)
    }

    /// The statements that remove a session with its output, in one transaction.
    pub fn delete_session(&self, id: u128) -> (r: Vec<Statement>)
        ensures
            statements_view(r@) == seq![
                about_session(DELETE_EVENTS@, id),
                about_session(DELETE_SESSION@, id),
            ],
    {
        let r = vec![session_statement(DELETE_EVENTS, id), session_statement(DELETE_SESSION, id)];
        assert(statements_view(r@) =~= seq![
            about_session(DELETE_EVENTS@, id),
            about_session(DELETE_SESSION@, id),
        ]);
        r
    }

    /// The query for the output of a session.
    pub fn select_output_history(&self, session_id: u128) -> (r: Statement)
        ensures
            r@ == about_session(SELECT_EVENTS@, session_id),
    {
        session_statement(SELECT_EVENTS, session_id)
    }

    /// The events of the rows that [`crate::sql::SELECT_EVENTS`] reads, or the error of
    /// the first whose sequence number is below zero.
    pub fn load_output_history(&self, rows: Vec<(i64, Vec<u8>)>) -> (r: Result<
        Vec<PersistedOutputEvent>,
        StorageError,
    >)
        ensures
            match r {
                Ok(events) => stored_view(events@) == read_events(rows@) && forall|i: int|
                    0 <= i < rows@.len() ==> (#[trigger] rows@[i]).0 >= 0,
                Err(e) => exists|k: int| first_below_zero(rows@, k, e@),
            },
    {
        let mut events: Vec<PersistedOutputEvent> = Vec::new();
        let mut i: usize = 0;
        assert(stored_view(events@) =~= read_events(rows@.take(0)));
        while i < rows.len()
            invariant
                i <= rows.len(),
                stored_view(events@) == read_events(rows@.take(i as int)),
                forall|j: int| 0 <= j < i ==> (#[trigger] rows@[j]).0 >= 0,
            decreases rows.len() - i,
        {
            let ghost before = events@;
            let seq: u64 = match read_number(0, rows[i].0) {
                Ok(seq) => seq,
                Err(reason) => {
                    let e = StorageError::Sequence { reason };
                    assert(first_below_zero(rows@, i as int, e@));
                    return Err(e);
                },
            };
            let event = PersistedOutputEvent { seq, data: rows[i].1.clone() };
            assert(event@ =~= read_event(rows@[i as int]));
            events.push(event);
            assert(stored_view(events@) =~= stored_view(before).push(event@));
            assert(read_events(rows@.take(i + 1)) =~= read_events(rows@.take(i as int)).push(
                event@,
            ));
            i = i + 1;
        }
        assert(rows@.take(rows@.len() as int) =~= rows@);
        Ok(events)
    }

    /// The statements that store an output event and note the session's activity, to
    /// be run in one transaction with the pruning that follows.
    pub fn append_output(
        &self,
        session_id: u128,
        event: &PersistedOutputEvent,
        activity_at: Timestamp,
    ) -> (r: Result<Vec<Statement>, StorageError>)
        requires
            activity_at.valid(),
        ensures
            match r {
                Ok(list) => event.seq <= i64::MAX && statements_view(list@)
                    == append_statements_view(
                    id_text(session_id),
                    event@,
                    instant_text(activity_at),
                ),
                Err(e) => event.seq > i64::MAX && e@ == (StorageErrorView::Sequence {
                    reason: unbindable(event.seq),
                }),
            },
    {
        match bind_number(event.seq) {
            Ok(_) => Ok(
                append_statements(session_id_text(session_id), event, activity_at.to_rfc3339()),
            ),
            Err(reason) => Err(StorageError::Sequence { reason }),
        }
    }

    /// The statement that removes the output of a session.
    pub fn clear_output_history(&self, session_id: u128) -> (r: Statement)
        ensures
            r@ == about_session(DELETE_EVENTS@, session_id),
    {
        session_statement(DELETE_EVENTS, session_id)
    }

    /// How the pruning of a session's output begins.
    pub fn prune_history(&self, session_id: u128, max_bytes: usize) -> (r: PruneStep)
        ensures
            r@ == if max_bytes == 0 {
                PruneView::DeleteAll(about_session(DELETE_EVENTS@, session_id))
            } else {
                PruneView::Measure(about_session(SUM_EVENTS@, session_id))
            },
    {
        if max_bytes == 0 {
            PruneStep::DeleteAll(session_statement(DELETE_EVENTS, session_id))
        } else {
            PruneStep::Measure(session_statement(SUM_EVENTS, session_id))
        }
    }

    /// How the pruning goes on once the stored bytes are counted.
    pub fn prune_measured(&self, session_id: u128, max_bytes: usize, total_bytes: i64) -> (r:
        PruneStep)
        ensures
            r@ == if total_bytes <= max_bytes {
                PruneView::Done
            } else {
                PruneView::List {
                    query: about_session(LIST_EVENTS@, session_id),
                    bytes_to_remove: (total_bytes - max_bytes) as i64,
                }
            },
    {
        if total_bytes <= 0 || total_bytes as u64 <= max_bytes as u64 {
            return PruneStep::Done;
        }
        PruneStep::List {
            query: session_statement(LIST_EVENTS, session_id),
            bytes_to_remove: total_bytes - max_bytes as i64,
        }
    }
}

/// Whether a table with these columns has this one.
pub fn table_has_column(columns: &Vec<String>, column: &str) -> (r: bool)
    ensures
        r == texts(columns@).contains(column@),
{
    let mut i: usize = 0;
    while i < columns.len()
        invariant
            i <= columns.len(),
            forall|j: int| 0 <= j < i ==> (#[trigger] texts(columns@)[j]) != column@,
        decreases columns.len() - i,
    {
        if crate::text::same_text(columns[i].as_str(), column) {
            assert(texts(columns@)[i as int] == column@);
            return true;
        }
        i = i + 1;
    }
    false
}

/// The statement that adds a column to a table.
pub open spec fn alteration(table: Seq<char>, column: Seq<char>, definition: Seq<char>) -> Seq<
    char,
> {
    "ALTER TABLE "@ + table + " ADD COLUMN "@ + column + " "@ + definition + ";"@
}

/// What is run to give a table with these columns this one, if it lacks it.
pub open spec fn addition(
    columns: Seq<Seq<char>>,
    table: Seq<char>,
    column: Seq<char>,
    definition: Seq<char>,
) -> Option<Seq<char>> {
    if columns.contains(column) {
        None
    } else {
        Some(alteration(table, column, definition))
    }
}

/// The statement that adds a column to a table with these columns, unless it has it.
pub fn add_column_if_missing(
    columns: &Vec<String>,
    table: &str,
    column: &str,
    definition: &str,
) -> (r: Option<String>)
    ensures
        addition(texts(columns@), table@, column@, definition@) == match r {
            Some(sql) => Some(sql@),
            None => None,
        },
{
    if table_has_column(columns, column) {
        return None;
    }
    let sql = "ALTER TABLE ".to_owned().concat(table).concat(" ADD COLUMN ").concat(column).concat(
        " ",
    ).concat(definition).concat(";");
    Some(sql)
}

/// The query for the columns of a table; each row names one in its second column.
pub fn table_info(table: &str) -> (r: String)
    ensures
        r@ == "PRAGMA table_info("@ + table@ + ")"@,
{
    "PRAGMA table_info(".to_owned().concat(table).concat(")")
}

/// The events stored for a session once another is stored and the output is pruned to
/// `max` bytes.
pub open spec fn stored_after(events: Seq<EventView>, event: EventView, max: nat) -> Seq<
    EventView,
> {
    if max == 0 {
        Seq::empty()
    } else {
        evict(events.push(event), max)
    }
}

/// The payload lengths of events.
pub open spec fn event_lens(events: Seq<EventView>) -> Seq<int> {
    events.map_values(|e: EventView| e.data.len() as int)
}

/// Law: of stored output beyond its limit, the events that are removed are the oldest,
/// and as few as bring the rest within the limit.
pub proof fn lemma_pruning_evicts(events: Seq<EventView>, max: nat)
    requires
        bytes_held(events) > max,
    ensures
        doomed(event_lens(events), bytes_held(events) - max) == excess(events, max),
    decreases events.len(),
{
    let lens = event_lens(events);
    let rest = events.drop_first();
    assert(events.len() > 0);
    assert(lens.drop_first() =~= event_lens(rest));
    crate::history::lemma_evict(rest, max);
    if bytes_held(rest) > max {
        lemma_pruning_evicts(rest, max);
    }
}

/// Law: a row that holds what an output event was stored with reads back as the event.
pub proof fn lemma_event_reads_back(
    id: Seq<char>,
    event: EventView,
    at: Seq<char>,
    row: (i64, Vec<u8>),
)
    requires
        event.seq <= i64::MAX,
        append_statements_view(id, event, at)[0].params[1] == SqlView::Integer(row.0),
        append_statements_view(id, event, at)[0].params[2] == SqlView::Blob(row.1@),
    ensures
        row.0 >= 0,
        read_event(row) == event,
{
}

/// Law: as long as no single event is larger than a limit above zero, what is stored of
/// a session's output is what its history retains, so that a restart loses none of it.
pub proof fn lemma_stored_is_retained(h: HistoryView, event: EventView)
    requires
        h.bounded(),
        event.data.len() <= h.max_bytes || h.max_bytes == 0,
    ensures
        stored_after(h.chunks, event, h.max_bytes) == h.pushed(event).chunks,
        HistoryView::empty(h.max_bytes).pushed_all(stored_after(h.chunks, event, h.max_bytes))
            == h.pushed(event),
{
    crate::history::lemma_push_keeps_latest(h, event);
    crate::history::lemma_reload(h.pushed(event));
}

/// The events stored for a session that had none once these are stored, the first of
/// them first, and the output is pruned to `max` bytes after each.
pub open spec fn stored_run(events: Seq<EventView>, max: nat) -> Seq<EventView>
    decreases events.len(),
{
    if events.len() == 0 {
        Seq::empty()
    } else {
        stored_after(stored_run(events.drop_last(), max), events.last(), max)
    }
}

/// Law: the stored output and the retained output agree. Whatever events are stored for
/// a session one after another, none of them larger than a limit above zero, the rows
/// that are left read as the history that took the same events in, and a history that
/// is reloaded from them is that history. If the sequence numbers of the events rise,
/// those of the rows do.
pub proof fn lemma_store_agrees_with_history(
    events: Seq<EventView>,
    max: nat,
    rows: Seq<(i64, Vec<u8>)>,
)
    requires
        max == 0 || forall|i: int| 0 <= i < events.len() ==> (#[trigger] events[i]).data.len() <= max,
        read_events(rows) == stored_run(events, max),
    ensures
        read_events(rows) == HistoryView::empty(max).pushed_all(events).chunks,
        HistoryView::empty(max).pushed_all(read_events(rows)) == HistoryView::empty(
            max,
        ).pushed_all(events),
        ascending(events) ==> ascending(read_events(rows)),
{
    lemma_run_is_retained(events, max);
    crate::history::lemma_reload(HistoryView::empty(max).pushed_all(events));
}

proof fn lemma_run_is_retained(events: Seq<EventView>, max: nat)
    requires
        max == 0 || forall|i: int| 0 <= i < events.len() ==> (#[trigger] events[i]).data.len() <= max,
    ensures
        ({
            let h = HistoryView::empty(max).pushed_all(events);
            &&& h.bounded()
            &&& h.max_bytes == max
            &&& stored_run(events, max) == h.chunks
            &&& ascending(events) ==> {
                &&& ascending(h.chunks)
                &&& forall|i: int|
                    0 <= i < h.chunks.len() ==> (#[trigger] h.chunks[i]).seq <= events.last().seq
            }
        }),
    decreases events.len(),
{
    if events.len() > 0 {
        let rest = events.drop_last();
        let n = events.len() - 1;
        assert(forall|i: int| 0 <= i < rest.len() ==> #[trigger] rest[i] == events[i]);
        lemma_run_is_retained(rest, max);
        let h = HistoryView::empty(max).pushed_all(rest);
        assert(max == 0 || events[n].data.len() <= max);
        lemma_stored_is_retained(h, events.last());
        crate::history::lemma_push_keeps_latest(h, events.last());
        if ascending(events) {
            assert(ascending(rest));
            if rest.len() > 0 {
                assert(events[n - 1].seq < events[n].seq);
            }
            crate::history::lemma_push_ascending(h, events.last());
        }
    }
}

/// Law: an event larger than the limit is not stored, nor is what came before it,
/// though the history retains its end.
pub proof fn lemma_larger_is_not_stored(events: Seq<EventView>, event: EventView, max: nat)
    requires
        event.data.len() > max,
    ensures
        stored_after(events, event, max).len() == 0,
{
    let all = events.push(event);
    crate::history::lemma_evict(all, max);
    let k = excess(all, max) as int;
    if max > 0 && k < all.len() {
        let kept = all.skip(k);
        crate::history::lemma_held_push(kept.drop_last(), event);
        assert(kept.drop_last().push(event) =~= kept);
    }
}

/// Law: once a missing column has been added, nothing is left to add.
pub proof fn lemma_upgrade_settles(
    columns: Seq<Seq<char>>,
    table: Seq<char>,
    column: Seq<char>,
    definition: Seq<char>,
)
    ensures
        addition(columns.push(column), table, column, definition) is None,
{
    assert(columns.push(column)[columns.len() as int] == column);
}

} // verus!
