//! Laws of what is written down and read: the columns of a stored session, the meaning of
//! a row, the statements about output, the replies to requests, and their order in a list.

use vstd::prelude::*;

use crate::api::bad_request_view;
use crate::api::creation_fault;
use crate::api::internal_view;
use crate::api::listed;
use crate::api::not_found_view;
use crate::api::of_rank;
use crate::api::ranks_before;
use crate::api::rename_fault;
use crate::api::same_by_rank;
use crate::api::summaries_view;
use crate::api::ApiError;
use crate::args::json_of_texts;
use crate::args::texts_of_json;
use crate::column::out_of_range;
use crate::history::EventView;
use crate::payload::encodable;
use crate::process::command_view;
use crate::process::PtyCommand;
use crate::proto::CreateSessionRequest;
use crate::proto::PatchSessionRequest;
use crate::proto::SessionStatus;
use crate::proto::SessionSummary;
use crate::proto::SummaryView;
use crate::record::all_decoded;
use crate::record::assembled;
use crate::record::decoded;
use crate::record::encoded;
use crate::record::first_error;
use crate::record::lemma_status_reads_back;
use crate::record::named_status;
use crate::record::number_column;
use crate::record::parsed_id;
use crate::record::parsed_instant;
use crate::record::row_columns;
use crate::record::session_texts;
use crate::record::status_word;
use crate::record::stored_view;
use crate::record::PartsView;
use crate::record::PersistedOutputEvent;
use crate::record::PersistedSession;
use crate::record::PersistedView;
use crate::record::RowError;
use crate::record::RowErrorView;
use crate::record::RowField;
use crate::record::RowParts;
use crate::record::RowView;
use crate::record::SessionRow;
use crate::record::SessionTexts;
use crate::record::SessionTextsView;
use crate::record::StorageError;
use crate::record::StorageErrorView;
use crate::session::ConfigView;
use crate::session::SessionConfig;
use crate::session::SessionView;
use crate::session_id::id_text;
use crate::session_id::named_id;
use crate::sql::about_session;
use crate::sql::statements_view;
use crate::sql::DELETE_EVENT;
use crate::sql::INSERT_EVENT;
use crate::sql::SqlValue;
use crate::sql::SqlView;
use crate::sql::Statement;
use crate::sql::StatementView;
use crate::sql::TOUCH_SESSION;
use crate::sql::UPSERT_SESSION;
use crate::storage::addition;
use crate::storage::agree;
use crate::storage::append_statements_view;
use crate::storage::as_stored;
use crate::storage::delete_event;
use crate::storage::doomed;
use crate::storage::first_below_zero;
use crate::storage::read_event;
use crate::storage::read_events;
use crate::storage::row_lens;
use crate::storage::PruneStep;
use crate::storage::PruneView;
use crate::text::blank;
use crate::text::texts;
use crate::text::white_space;
use crate::timestamp::named_instant;
use crate::timestamp::rfc3339_instant;
use crate::timestamp::rfc3339_text;
use crate::timestamp::valid_instant;
use crate::timestamp::Timestamp;

verus! {

/// The word of a status.
pub open spec fn word_of(status: SessionStatus) -> Seq<char> {
    match status {
        SessionStatus::Running => "running"@,
        SessionStatus::Exited => "exited"@,
        SessionStatus::Starting => "starting"@,
        SessionStatus::Stopped => "stopped"@,
    }
}

/// Whether the value is this number, or null where there is none.
pub open spec fn is_number(value: SqlView, n: Option<u32>) -> bool {
    match n {
        Some(k) => value == SqlView::Integer(k as i64),
        None => value == SqlView::Null,
    }
}

/// Whether the statement stores all that a database holds of this session, each column
/// in its place.
pub open spec fn stores_all(statement: StatementView, s: SummaryView, c: ConfigView) -> bool {
    let p = statement.params;
    &&& statement.sql == UPSERT_SESSION@
    &&& p.len() == 12
    &&& p[0] == SqlView::Text(id_text(s.id))
    &&& p[1] == SqlView::Text(c.name)
    &&& p[2] == SqlView::Text(c.cwd)
    &&& p[3] == SqlView::Text(c.shell)
    &&& p[4] == SqlView::Text(json_of_texts(c.args))
    &&& p[5] == SqlView::Text(word_of(s.status))
    &&& is_number(p[6], s.pid)
    &&& is_number(p[7], s.exit_code)
    &&& p[8] == SqlView::Integer(if s.archived {
        1
    } else {
        0
    })
    &&& p[9] == SqlView::Text(rfc3339_text(s.created_at.secs, s.created_at.nanos))
    &&& p[10] == SqlView::Text(rfc3339_text(s.updated_at.secs, s.updated_at.nanos))
    &&& p[11] == SqlView::Text(rfc3339_text(s.last_activity_at.secs, s.last_activity_at.nanos))
}

/// Law: a stored session is stored with all that it holds, each column in its place.
pub proof fn lemma_all_is_stored(s: SessionView)
    ensures
        stores_all(s.storing(), s.summary, s.config),
        stores_all(
            StatementView {
                sql: UPSERT_SESSION@,
                params: row_columns(
                    encoded(
                        s.summary,
                        s.config,
                        session_texts(s.summary, s.config),
                    ),
                ),
            },
            s.summary,
            s.config,
        ),
{
}

/// Law: the words of the statuses differ, and no other word stands for a status.
pub proof fn lemma_words(status: SessionStatus, word: Seq<char>)
    ensures
        status_word(status) == word_of(status),
        named_status(word_of(status)) == Some(status),
        named_status(word) == Some(status) ==> word == word_of(status),
        named_status(word) is None ==> word != word_of(status),
{
    lemma_status_reads_back(status);
}

/// Law: a row is read if and only if its identifier, its arguments, its status and its
/// instants mean something, and it is then the session that its columns say, each in
/// its place.
pub proof fn lemma_row_means_its_columns(row: RowView, parts: PartsView)
    ensures
        ({
            let readable = parts.id is Ok && parts.args is Ok && named_status(row.status) is Some
                && parts.created_at is Ok && parts.updated_at is Ok && parts.last_activity_at is Ok;
            let r = assembled(row, parts);
            &&& r is Ok <==> readable
            &&& readable ==> {
                let c = r->Ok_0.config;
                let s = r->Ok_0.summary;
                &&& c.name == row.name && s.name == row.name
                &&& c.cwd == row.cwd && s.cwd == row.cwd
                &&& c.shell == row.shell && s.shell == row.shell
                &&& c.args == parts.args->Ok_0 && s.args == parts.args->Ok_0
                &&& s.id == parts.id->Ok_0
                &&& named_status(row.status) == Some(s.status)
                &&& s.pid == row.pid && s.exit_code == row.exit_code
                &&& s.archived == (row.archived != 0)
                &&& s.attached_clients == 0
                &&& s.created_at == parts.created_at->Ok_0
                &&& s.updated_at == parts.updated_at->Ok_0
                &&& s.last_activity_at == parts.last_activity_at->Ok_0
            }
        }),
{
}

/// Law: of a row that cannot be read, the first column that means nothing is named, with
/// the session, once that is known, and with what is wrong.
pub proof fn lemma_row_error_names_the_first(row: RowView, parts: PartsView)
    ensures
        ({
            let r = assembled(row, parts);
            let id = parts.id->Ok_0;
            let named = |field: RowField, cause: StorageErrorView| r == Err::<
                PersistedView,
                _,
            >(RowErrorView::Field { field, session: id, cause });
            if parts.id is Err {
                r == Err::<PersistedView, _>(
                    RowErrorView::Id { cause: parts.id->Err_0 },
                )
            } else if parts.args is Err {
                named(RowField::Args, StorageErrorView::Args { reason: parts.args->Err_0 })
            } else if named_status(row.status) is None {
                named(RowField::Status, StorageErrorView::Status { value: row.status })
            } else if parts.created_at is Err {
                named(RowField::CreatedAt, parts.created_at->Err_0)
            } else if parts.updated_at is Err {
                named(RowField::UpdatedAt, parts.updated_at->Err_0)
            } else if parts.last_activity_at is Err {
                named(RowField::LastActivityAt, parts.last_activity_at->Err_0)
            } else {
                r is Ok
            }
        }),
{
}

/// Law: what the texts of a row mean is what the parsers read from them, column by
/// column, and a text that cannot be read is reported with what the parser said.
pub proof fn lemma_texts_are_parsed(row: RowView, value: Seq<char>)
    ensures
        decoded(row) == assembled(row, row.parts()),
        row.parts().id == parsed_id(row.id),
        row.parts().args == texts_of_json(row.args_json),
        row.parts().created_at == parsed_instant(row.created_at),
        row.parts().updated_at == parsed_instant(row.updated_at),
        row.parts().last_activity_at == parsed_instant(row.last_activity_at),
        match named_id(value) {
            Ok(id) => parsed_id(value) == Ok::<_, StorageErrorView>(id),
            Err(reason) => parsed_id(value) == Err::<u128, _>(
                StorageErrorView::Uuid { value, reason },
            ),
        },
        match rfc3339_instant(value) {
            Ok((secs, nanos)) => parsed_instant(value) == Ok::<_, StorageErrorView>(
                Timestamp { secs, nanos },
            ) && named_instant(value) == Ok::<_, Seq<char>>(Timestamp { secs, nanos }),
            Err(reason) => parsed_instant(value) == Err::<Timestamp, _>(
                StorageErrorView::Timestamp { value, reason },
            ) && named_instant(value) == Err::<Timestamp, _>(reason),
        },
{
}

/// Law: the words of an error say what is wrong with which text.
pub proof fn lemma_error_words(value: Seq<char>, reason: Seq<char>, session: u128, field: RowField)
    ensures
        (StorageErrorView::Uuid { value, reason }).text() == "invalid uuid "@ + value,
        (StorageErrorView::Timestamp { value, reason }).text() == "invalid rfc3339 timestamp "@
            + value,
        (StorageErrorView::Status { value }).text() == "unsupported session status "@ + value,
        (StorageErrorView::Args { reason }).text() == reason,
        (StorageErrorView::Sequence { reason }).text() == reason,
        (StorageErrorView::Uuid { value, reason }).detail() == Some(reason),
        (StorageErrorView::Timestamp { value, reason }).detail() == Some(reason),
        (StorageErrorView::Status { value }).detail() is None,
        (StorageErrorView::Args { reason }).detail() is None,
        (StorageErrorView::Sequence { reason }).detail() is None,
        forall|cause: StorageErrorView|
            (#[trigger] (RowErrorView::Id { cause }).text()) == "invalid session id"@,
        forall|cause: StorageErrorView| (#[trigger] (RowErrorView::Field {
            field,
            session,
            cause,
        }).text()) == (match field {
            RowField::Args => "invalid args_json for session "@,
            RowField::Status => "invalid status for session "@,
            RowField::CreatedAt => "invalid created_at for session "@,
            RowField::UpdatedAt => "invalid updated_at for session "@,
            RowField::LastActivityAt => "invalid last_activity_at for session "@,
        }) + id_text(session),
{
}

/// Whether the row was read as this session.
pub open spec fn read_as(row: SessionRow, session: PersistedSession) -> bool {
    match decoded(row@) {
        Ok(p) => p == session@,
        Err(_) => false,
    }
}

/// Law: rows that could all be read give a session each, in their order; of others the
/// first that could not be read is reported.
pub proof fn lemma_rows_in_order(
    rows: Seq<SessionRow>,
    list: Seq<PersistedSession>,
    e: RowErrorView,
)
    ensures
        all_decoded(rows, list) ==> list.len() == rows.len(),
        all_decoded(rows, list) ==> forall|i: int|
            0 <= i < rows.len() ==> read_as(rows[i], #[trigger] list[i]),
        first_error(rows, e) ==> exists|k: int|
            0 <= k < rows.len() && decoded((#[trigger] rows[k])@) is Err && decoded(
                rows[k]@,
            )->Err_0 == e && forall|j: int| 0 <= j < k ==> decoded((#[trigger] rows[j])@) is Ok,
{
    if all_decoded(rows, list) {
        assert forall|i: int| 0 <= i < rows.len() implies read_as(rows[i], #[trigger] list[i]) by {
            assert(decoded(rows[i]@) == Ok::<_, RowErrorView>(list[i]@));
        }
    }
}

/// Law: a session is stored with its settings and its summary, but for its clients.
pub proof fn lemma_stored_but_for_clients(s: SummaryView, c: ConfigView)
    ensures
        ({
            let p = as_stored(s, c);
            &&& p.config == c
            &&& p.summary.id == s.id && p.summary.name == s.name && p.summary.cwd == s.cwd
            &&& p.summary.shell == s.shell && p.summary.args == s.args
            &&& p.summary.status == s.status && p.summary.pid == s.pid
            &&& p.summary.exit_code == s.exit_code && p.summary.archived == s.archived
            &&& p.summary.attached_clients == 0
            &&& p.summary.last_activity_at == s.last_activity_at
            &&& p.summary.created_at == s.created_at && p.summary.updated_at == s.updated_at
        }),
        agree(s, c) <==> s.name == c.name && s.cwd == c.cwd && s.shell == c.shell && s.args
            == c.args,
        forall|n: Option<u32>| is_number(#[trigger] number_column(n), n),
{
}

/// Law: an output event is stored under its session and its number, with its bytes and
/// the instant, which is also noted as the session's latest.
pub proof fn lemma_output_is_stored(id: Seq<char>, event: EventView, at: Seq<char>)
    requires
        event.seq <= i64::MAX,
    ensures
        ({
            let list = append_statements_view(id, event, at);
            &&& list.len() == 2
            &&& list[0].sql == INSERT_EVENT@
            &&& list[0].params.len() == 4
            &&& list[0].params[0] == SqlView::Text(id)
            &&& list[0].params[1] == SqlView::Integer(event.seq as i64)
            &&& list[0].params[2] == SqlView::Blob(event.data)
            &&& list[0].params[3] == SqlView::Text(at)
            &&& list[1].sql == TOUCH_SESSION@
            &&& list[1].params.len() == 2
            &&& list[1].params[0] == SqlView::Text(id)
            &&& list[1].params[1] == SqlView::Text(at)
        }),
{
}

/// Law: a row of output is the event with its number and its bytes, each row its own.
pub proof fn lemma_output_is_read(rows: Seq<(i64, Vec<u8>)>, events: Seq<PersistedOutputEvent>)
    ensures
        read_events(rows).len() == rows.len(),
        forall|i: int|
            0 <= i < rows.len() && rows[i].0 >= 0 ==> (#[trigger] read_events(rows)[i]).seq
                == rows[i].0 && read_events(rows)[i].data == rows[i].1@,
        forall|i: int|
            0 <= i < rows.len() && rows[i].0 >= 0 ==> (#[trigger] read_event(rows[i])).seq
                == rows[i].0 && read_event(rows[i]).data == rows[i].1@,
        stored_view(events).len() == events.len(),
        forall|i: int|
            0 <= i < events.len() ==> (#[trigger] stored_view(events)[i]).seq == events[i].seq
                && stored_view(events)[i].data == events[i].data@,
{
}

/// The sum of the first `n` lengths.
pub open spec fn sum(lens: Seq<int>, n: nat) -> int
    decreases n,
{
    if n == 0 {
        0
    } else {
        sum(lens, (n - 1) as nat) + lens[n - 1]
    }
}

proof fn lemma_sum_first(lens: Seq<int>, n: nat)
    requires
        0 < n <= lens.len(),
    ensures
        sum(lens, n) == lens[0] + sum(lens.drop_first(), (n - 1) as nat),
    decreases n,
{
    reveal_with_fuel(sum, 2);
    if n > 1 {
        lemma_sum_first(lens, (n - 1) as nat);
        assert(lens.drop_first()[n - 2] == lens[n - 1]);
    }
}

/// Law: pruning removes the oldest events, so many that the bytes that are to go are
/// gone, or all of them, and not one more than that takes.
pub proof fn lemma_pruning(lens: Seq<int>, bytes_to_remove: int)
    requires
        bytes_to_remove > 0,
    ensures
        ({
            let n = doomed(lens, bytes_to_remove);
            &&& n <= lens.len()
            &&& n < lens.len() ==> sum(lens, n) >= bytes_to_remove
            &&& n > 0 ==> sum(lens, (n - 1) as nat) < bytes_to_remove
            &&& lens.len() > 0 ==> n > 0
        }),
    decreases lens.len(),
{
    reveal_with_fuel(sum, 2);
    if lens.len() > 0 && bytes_to_remove > lens[0] {
        let rest = lens.drop_first();
        lemma_pruning(rest, bytes_to_remove - lens[0]);
        let n = doomed(rest, bytes_to_remove - lens[0]);
        lemma_sum_first(lens, n + 1);
        if n > 0 {
            lemma_sum_first(lens, n);
        }
    }
}

/// Law: the lengths and the removal of an event are those of its own row, and a
/// statement about a session names that session.
pub proof fn lemma_rows_named(rows: Seq<(i64, i64)>, row_id: i64, sql: Seq<char>, id: u128)
    ensures
        row_lens(rows).len() == rows.len(),
        forall|i: int| 0 <= i < rows.len() ==> #[trigger] row_lens(rows)[i] == rows[i].1,
        delete_event(row_id).sql == DELETE_EVENT@,
        delete_event(row_id).params.len() == 1,
        delete_event(row_id).params[0] == SqlView::Integer(row_id),
        about_session(sql, id).sql == sql,
        about_session(sql, id).params.len() == 1,
        about_session(sql, id).params[0] == SqlView::Text(id_text(id)),
{
}

/// Law: a column is added if and only if the table lacks it.
pub proof fn lemma_column_is_added(
    columns: Seq<Seq<char>>,
    table: Seq<char>,
    column: Seq<char>,
    definition: Seq<char>,
)
    ensures
        match addition(columns, table, column, definition) {
            None => exists|i: int| 0 <= i < columns.len() && #[trigger] columns[i] == column,
            Some(sql) => {
                &&& forall|i: int| 0 <= i < columns.len() ==> #[trigger] columns[i] != column
                &&& sql == "ALTER TABLE "@ + table + " ADD COLUMN "@ + column + " "@ + definition
                    + ";"@
            },
        },
{
}

/// Law: a text is blank if it has no character but white space: none at all, or a blank
/// text and one such character more.
pub proof fn lemma_blank(s: Seq<char>, c: char)
    ensures
        blank(Seq::<char>::empty()),
        blank(s.push(c)) <==> blank(s) && white_space(c),
{
    if blank(s.push(c)) {
        assert forall|i: int| 0 <= i < s.len() implies white_space(#[trigger] s[i]) by {
            assert(s.push(c)[i] == s[i]);
        }
        assert(s.push(c)[s.len() as int] == c);
    }
}

/// Law: a session is refused if and only if its name, its directory or its shell is
/// blank, and the first that is blank is named; a name is refused if and only if it is
/// blank. Refusals carry the codes 400, 404 and 500.
pub proof fn lemma_refusals(
    req: CreateSessionRequest,
    patch: PatchSessionRequest,
    message: Seq<char>,
)
    ensures
        creation_fault(req) is None <==> !blank(req.name@) && !blank(req.cwd@) && !blank(
            req.shell@,
        ),
        creation_fault(req) is Some ==> {
            let e = creation_fault(req)->0;
            &&& e.code == 400
            &&& blank(req.name@) ==> e.message == "name must not be empty"@
            &&& !blank(req.name@) && blank(req.cwd@) ==> e.message == "cwd must not be empty"@
            &&& !blank(req.name@) && !blank(req.cwd@) ==> e.message == "shell must not be empty"@
        },
        rename_fault(patch) is None <==> !blank(patch.name@),
        rename_fault(patch) is Some ==> rename_fault(patch)->0.code == 400 && rename_fault(
            patch,
        )->0.message == "name must not be empty"@,
        bad_request_view(message).code == 400,
        bad_request_view(message).message == message,
        internal_view(message).code == 500,
        internal_view(message).message == message,
        not_found_view().code == 404,
        not_found_view().message == "session not found"@,
{
}

/// Whether the one instant lies before the other.
pub open spec fn earlier(a: Timestamp, b: Timestamp) -> bool {
    a.secs < b.secs || (a.secs == b.secs && a.nanos < b.nanos)
}

/// Law: in a list no archived session stands before one that is not, and of two that are
/// both archived, or both not, none created later stands before one created earlier.
pub proof fn lemma_list_order(list: Seq<SummaryView>, a: SummaryView, b: SummaryView)
    ensures
        ranks_before(a, b) <==> (!a.archived && b.archived) || (a.archived == b.archived
            && earlier(a.created_at, b.created_at)),
        a.created_at.before(b.created_at) <==> earlier(a.created_at, b.created_at),
        listed(list) ==> forall|i: int, j: int|
            0 <= i < j < list.len() ==> ((#[trigger] list[i]).archived ==> (
            #[trigger] list[j]).archived) && (list[i].archived == list[j].archived ==> !earlier(
                list[j].created_at,
                list[i].created_at,
            )),
{
    if listed(list) {
        assert forall|i: int, j: int| 0 <= i < j < list.len() implies ((
        #[trigger] list[i]).archived ==> (#[trigger] list[j]).archived) && (list[i].archived
            == list[j].archived ==> !earlier(list[j].created_at, list[i].created_at)) by {
            assert(!ranks_before(list[j], list[i]));
        }
    }
}

/// Law: the sessions of a rank are those of the list that are archived, or not, and were
/// created then, in the order of the list; lists that agree by rank agree in each.
pub proof fn lemma_list_ranks(
    list: Seq<SummaryView>,
    other: Seq<SummaryView>,
    s: SummaryView,
    archived: bool,
    created_at: Timestamp,
)
    ensures
        of_rank(Seq::<SummaryView>::empty(), archived, created_at).len() == 0,
        s.archived == archived && s.created_at == created_at ==> of_rank(
            list.push(s),
            archived,
            created_at,
        ) == of_rank(list, archived, created_at).push(s),
        !(s.archived == archived && s.created_at == created_at) ==> of_rank(
            list.push(s),
            archived,
            created_at,
        ) == of_rank(list, archived, created_at),
        same_by_rank(list, other) ==> of_rank(list, archived, created_at) == of_rank(
            other,
            archived,
            created_at,
        ),
{
    reveal(Seq::filter);
    assert(list.push(s).drop_last() =~= list);
}

/// Law: a session's process is its shell, with all its arguments in order, in its
/// directory, in a terminal of the size that is given.
pub proof fn lemma_command(config: ConfigView, cols: u16, rows: u16)
    ensures
        command_view(config, cols, rows).program == config.shell,
        command_view(config, cols, rows).args == config.args,
        command_view(config, cols, rows).cwd == config.cwd,
        command_view(config, cols, rows).term == "xterm-256color"@,
        command_view(config, cols, rows).cols == cols,
        command_view(config, cols, rows).rows == rows,
{
}

/// Law: so many bytes can be put into a frame as a text of four characters for each
/// three of them can hold.
pub proof fn lemma_encodable(len: nat)
    ensures
        encodable(len) <==> len <= isize::MAX / 4 * 3,
{
}

/// Law: the views of what is listed, stored, run and replied show what they hold.
pub proof fn lemma_shown(
    summary: SessionSummary,
    config: SessionConfig,
    row: SessionRow,
    command: PtyCommand,
    error: ApiError,
    list: Seq<String>,
    summaries: Seq<SessionSummary>,
)
    ensures
        texts(list).len() == list.len(),
        forall|i: int| 0 <= i < list.len() ==> #[trigger] texts(list)[i] == list[i]@,
        summaries_view(summaries).len() == summaries.len(),
        forall|i: int|
            0 <= i < summaries.len() ==> #[trigger] summaries_view(summaries)[i] == summaries[i]@,
        ({
            let v = summary@;
            &&& v.id == summary.id && v.name == summary.name@ && v.cwd == summary.cwd@
            &&& v.shell == summary.shell@ && v.args == texts(summary.args@)
            &&& v.status == summary.status && v.pid == summary.pid
            &&& v.exit_code == summary.exit_code && v.archived == summary.archived
            &&& v.attached_clients == summary.attached_clients
            &&& v.last_activity_at == summary.last_activity_at
            &&& v.created_at == summary.created_at && v.updated_at == summary.updated_at
        }),
        config@.name == config.name@,
        config@.cwd == config.cwd@,
        config@.shell == config.shell@,
        config@.args == texts(config.args@),
        ({
            let v = row@;
            &&& v.id == row.id@ && v.name == row.name@ && v.cwd == row.cwd@
            &&& v.shell == row.shell@ && v.args_json == row.args_json@
            &&& v.status == row.status@ && v.pid == row.pid && v.exit_code == row.exit_code
            &&& v.archived == row.archived && v.created_at == row.created_at@
            &&& v.updated_at == row.updated_at@ && v.last_activity_at == row.last_activity_at@
        }),
        command@.program == command.program@,
        command@.args == texts(command.args@),
        command@.cwd == command.cwd@,
        command@.term == command.term@,
        command@.cols == command.cols,
        command@.rows == command.rows,
        error@.code == error.code,
        error@.message == error.message@,
{
}

/// Law: the views of statements and of their values show what they hold.
pub proof fn lemma_statements_shown(statement: Statement, value: SqlValue, list: Seq<Statement>)
    ensures
        statement@.sql == statement.sql@,
        statement@.params.len() == statement.params@.len(),
        forall|i: int|
            0 <= i < statement.params@.len() ==> #[trigger] statement@.params[i]
                == statement.params@[i]@,
        match value {
            SqlValue::Null => value@ == SqlView::Null,
            SqlValue::Integer(n) => value@ == SqlView::Integer(n),
            SqlValue::Text(s) => value@ == SqlView::Text(s@),
            SqlValue::Blob(b) => value@ == SqlView::Blob(b@),
        },
        statements_view(list).len() == list.len(),
        forall|i: int| 0 <= i < list.len() ==> #[trigger] statements_view(list)[i] == list[i]@,
{
}

/// Law: a session is stored under the texts that are given for it, each in its place.
pub proof fn lemma_stored_under_texts(s: SummaryView, c: ConfigView, words: SessionTextsView)
    ensures
        ({
            let p = row_columns(encoded(s, c, words));
            &&& p.len() == 12
            &&& p[0] == SqlView::Text(words.id)
            &&& p[1] == SqlView::Text(c.name)
            &&& p[2] == SqlView::Text(c.cwd)
            &&& p[3] == SqlView::Text(c.shell)
            &&& p[4] == SqlView::Text(words.args_json)
            &&& p[5] == SqlView::Text(word_of(s.status))
            &&& is_number(p[6], s.pid)
            &&& is_number(p[7], s.exit_code)
            &&& p[8] == SqlView::Integer(if s.archived {
                1
            } else {
                0
            })
            &&& p[9] == SqlView::Text(words.created_at)
            &&& p[10] == SqlView::Text(words.updated_at)
            &&& p[11] == SqlView::Text(words.last_activity_at)
        }),
{
}

/// Law: of rows with sequence numbers below zero the first is reported, with its own
/// number.
pub proof fn lemma_first_below_zero(rows: Seq<(i64, Vec<u8>)>, k: int, e: StorageErrorView)
    requires
        first_below_zero(rows, k, e),
    ensures
        0 <= k < rows.len(),
        rows[k].0 < 0,
        forall|j: int| 0 <= j < k ==> (#[trigger] rows[j]).0 >= 0,
        e == (StorageErrorView::Sequence { reason: out_of_range(0, rows[k].0) }),
{
}

/// Law: an instant is valid in the years that can be held, with less than a second of
/// nanoseconds, or with less than two at the end of a minute; its text can be read back
/// if its year has four digits.
pub proof fn lemma_instants(t: Timestamp)
    ensures
        t.valid() <==> -8334601228800 <= t.secs < 8210266876800 && (t.nanos < 1_000_000_000 || (
        t.nanos < 2_000_000_000 && t.secs as int % 60 == 59)),
        t.writable() <==> t.valid() && -62167219200 <= t.secs < 253402300800,
        valid_instant(t.secs, t.nanos) <==> t.valid(),
{
}

/// Law: the views of errors, of the parts and the texts of a row, and of the steps of
/// pruning show what they hold.
pub proof fn lemma_errors_shown(
    error: StorageError,
    row_error: RowError,
    parts: RowParts,
    words: SessionTexts,
    step: PruneStep,
    persisted: PersistedSession,
)
    ensures
        match error {
            StorageError::Uuid { value, reason } => error@ == (StorageErrorView::Uuid {
                value: value@,
                reason: reason@,
            }),
            StorageError::Timestamp { value, reason } => error@ == (StorageErrorView::Timestamp {
                value: value@,
                reason: reason@,
            }),
            StorageError::Status { value } => error@ == (StorageErrorView::Status {
                value: value@,
            }),
            StorageError::Args { reason } => error@ == (StorageErrorView::Args {
                reason: reason@,
            }),
            StorageError::Sequence { reason } => error@ == (StorageErrorView::Sequence {
                reason: reason@,
            }),
        },
        match row_error {
            RowError::Id { cause } => row_error@ == (RowErrorView::Id { cause: cause@ }),
            RowError::Field { field, session, cause } => row_error@ == (RowErrorView::Field {
                field,
                session,
                cause: cause@,
            }),
        },
        match parts.id {
            Ok(id) => parts@.id == Ok::<_, StorageErrorView>(id),
            Err(e) => parts@.id == Err::<u128, _>(e@),
        },
        match parts.args {
            Ok(list) => parts@.args == Ok::<_, Seq<char>>(texts(list@)),
            Err(reason) => parts@.args == Err::<Seq<Seq<char>>, _>(reason@),
        },
        match parts.created_at {
            Ok(t) => parts@.created_at == Ok::<_, StorageErrorView>(t),
            Err(e) => parts@.created_at == Err::<Timestamp, _>(e@),
        },
        match parts.updated_at {
            Ok(t) => parts@.updated_at == Ok::<_, StorageErrorView>(t),
            Err(e) => parts@.updated_at == Err::<Timestamp, _>(e@),
        },
        match parts.last_activity_at {
            Ok(t) => parts@.last_activity_at == Ok::<_, StorageErrorView>(t),
            Err(e) => parts@.last_activity_at == Err::<Timestamp, _>(e@),
        },
        words@.id == words.id@,
        words@.args_json == words.args_json@,
        words@.created_at == words.created_at@,
        words@.updated_at == words.updated_at@,
        words@.last_activity_at == words.last_activity_at@,
        match step {
            PruneStep::Done => step@ == PruneView::Done,
            PruneStep::DeleteAll(statement) => step@ == PruneView::DeleteAll(statement@),
            PruneStep::Measure(statement) => step@ == PruneView::Measure(statement@),
            PruneStep::List { query, bytes_to_remove } => step@ == (PruneView::List {
                query: query@,
                bytes_to_remove,
            }),
        },
        persisted@.config == persisted.config@,
        persisted@.summary == persisted.summary@,
{
}

} // verus!
