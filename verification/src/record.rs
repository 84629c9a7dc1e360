//! Stored sessions and events: what the rows of the database mean, and the rows under
//! which a session is stored.

use vstd::prelude::*;
use vstd::string::StringExecFns;

use crate::args::json_of_texts;
use crate::args::texts_of_json;
use crate::history::EventView;
use crate::proto::SessionStatus;
use crate::proto::SessionSummary;
use crate::proto::SummaryView;
use crate::session::ConfigView;
use crate::session::SessionConfig;
use crate::session_id::id_text;
use crate::session_id::named_id;
use crate::sql::SqlValue;
use crate::sql::SqlView;
use crate::sql::Statement;
use crate::sql::StatementView;
use crate::sql::UPSERT_SESSION;
use crate::text::texts;
use crate::timestamp::named_instant;
use crate::timestamp::rfc3339_text;
use crate::timestamp::Timestamp;

verus! {

/// A session as the database holds it.
#[derive(Debug)]
pub struct PersistedSession {
    pub config: SessionConfig,
    pub summary: SessionSummary,
}

/// What a stored session holds.
#[verifier::ext_equal]
pub struct PersistedView {
    pub config: ConfigView,
    pub summary: SummaryView,
}

impl View for PersistedSession {
    type V = PersistedView;

    open spec fn view(&self) -> PersistedView {
        PersistedView { config: self.config@, summary: self.summary@ }
    }
}

impl PersistedSession {
    /// Whether the session is started again when the server comes up: one that was
    /// at work, unless it is archived.
    pub fn should_recover(&self) -> (r: bool)
        ensures
            r == self@.summary.recovers(),
    {
        !self.summary.archived && self.summary.is_active()
    }
}

/// An output event as it is stored.
#[derive(Debug)]
pub struct PersistedOutputEvent {
    pub seq: u64,
    pub data: Vec<u8>,
}

impl View for PersistedOutputEvent {
    type V = EventView;

    open spec fn view(&self) -> EventView {
        EventView { seq: self.seq, data: self.data@ }
    }
}

/// What a list of stored events holds.
pub open spec fn stored_view(events: Seq<PersistedOutputEvent>) -> Seq<EventView> {
    events.map_values(|e: PersistedOutputEvent| e@)
}

/// The word under which a status is stored.
pub open spec fn status_word(status: SessionStatus) -> Seq<char> {
    match status {
        SessionStatus::Running => "running"@,
        SessionStatus::Exited => "exited"@,
        SessionStatus::Starting => "starting"@,
        SessionStatus::Stopped => "stopped"@,
    }
}

/// The status that a word stands for, if it stands for one.
pub open spec fn named_status(word: Seq<char>) -> Option<SessionStatus> {
    if word == status_word(SessionStatus::Running) {
        Some(SessionStatus::Running)
    } else if word == status_word(SessionStatus::Exited) {
        Some(SessionStatus::Exited)
    } else if word == status_word(SessionStatus::Starting) {
        Some(SessionStatus::Starting)
    } else if word == status_word(SessionStatus::Stopped) {
        Some(SessionStatus::Stopped)
    } else {
        None
    }
}

/// Law: the word under which a status is stored stands for that status.
pub proof fn lemma_status_reads_back(status: SessionStatus)
    ensures
        named_status(status_word(status)) == Some(status),
{
    reveal_strlit("running");
    reveal_strlit("exited");
    reveal_strlit("starting");
    reveal_strlit("stopped");
    assert("running"@[0] == 'r');
    assert("exited"@[0] == 'e');
    assert("starting"@.len() == 8);
    assert("stopped"@.len() == 7 && "stopped"@[0] == 's');
}

/// The word under which a status is stored.
pub fn status_to_str(status: &SessionStatus) -> (r: &'static str)
    ensures
        r@ == status_word(*status),
        named_status(r@) == Some(*status),
{
    proof {
        lemma_status_reads_back(*status);
    }
    match status {
        SessionStatus::Running => "running",
        SessionStatus::Exited => "exited",
        SessionStatus::Starting => "starting",
        SessionStatus::Stopped => "stopped",
    }
}

/// Why something stored cannot be read, or something cannot be stored.
#[derive(Debug)]
pub enum StorageError {
    /// The text is not a UUID, for this reason.
    Uuid { value: String, reason: String },
    /// The text is not an RFC 3339 timestamp, for this reason.
    Timestamp { value: String, reason: String },
    /// The word stands for no status.
    Status { value: String },
    /// The text is not a JSON list of strings, for this reason.
    Args { reason: String },
    /// The sequence number does not fit where it is to go, for this reason.
    Sequence { reason: String },
}

/// What a storage error holds.
#[verifier::ext_equal]
pub enum StorageErrorView {
    Uuid { value: Seq<char>, reason: Seq<char> },
    Timestamp { value: Seq<char>, reason: Seq<char> },
    Status { value: Seq<char> },
    Args { reason: Seq<char> },
    Sequence { reason: Seq<char> },
}

impl View for StorageError {
    type V = StorageErrorView;

    open spec fn view(&self) -> StorageErrorView {
        match *self {
            StorageError::Uuid { value, reason } => {
                StorageErrorView::Uuid { value: value@, reason: reason@ }
            },
            StorageError::Timestamp { value, reason } => {
                StorageErrorView::Timestamp { value: value@, reason: reason@ }
            },
            StorageError::Status { value } => StorageErrorView::Status { value: value@ },
            StorageError::Args { reason } => StorageErrorView::Args { reason: reason@ },
            StorageError::Sequence { reason } => StorageErrorView::Sequence { reason: reason@ },
        }
    }
}

impl StorageErrorView {
    pub open spec fn text(self) -> Seq<char> {
        match self {
            StorageErrorView::Uuid { value, reason } => "invalid uuid "@ + value,
            StorageErrorView::Timestamp { value, reason } => "invalid rfc3339 timestamp "@ + value,
            StorageErrorView::Status { value } => "unsupported session status "@ + value,
            StorageErrorView::Args { reason } => reason,
            StorageErrorView::Sequence { reason } => reason,
        }
    }

    /// What the parser said of the text, where the words of the error do not say it.
    pub open spec fn detail(self) -> Option<Seq<char>> {
        match self {
            StorageErrorView::Uuid { value, reason } => Some(reason),
            StorageErrorView::Timestamp { value, reason } => Some(reason),
            _ => None,
        }
    }
}

impl StorageError {
    /// The error in words.
    pub fn message(&self) -> (r: String)
        ensures
            r@ == self@.text(),
    {
        match self {
            StorageError::Uuid { value, reason } => {
                "invalid uuid ".to_owned().concat(value.as_str())
            },
            StorageError::Timestamp { value, reason } => {
                "invalid rfc3339 timestamp ".to_owned().concat(value.as_str())
            },
            StorageError::Status { value } => {
                "unsupported session status ".to_owned().concat(value.as_str())
            },
            StorageError::Args { reason } => reason.clone(),
            StorageError::Sequence { reason } => reason.clone(),
        }
    }

    /// What the parser said of the text, where the words of the error do not say it.
    pub fn reason(&self) -> (r: Option<String>)
        ensures
            self@.detail() == match r {
                Some(reason) => Some(reason@),
                None => None,
            },
    {
        match self {
            StorageError::Uuid { value, reason } => Some(reason.clone()),
            StorageError::Timestamp { value, reason } => Some(reason.clone()),
            _ => None,
        }
    }
}

/// The UUID that a stored text names, or the error that it names none.
pub open spec fn parsed_id(value: Seq<char>) -> Result<u128, StorageErrorView> {
    match named_id(value) {
        Ok(id) => Ok(id),
        Err(reason) => Err(StorageErrorView::Uuid { value, reason }),
    }
}

/// The UUID that a stored text names.
pub fn parse_uuid(value: String) -> (r: Result<u128, StorageError>)
    ensures
        match r {
            Ok(id) => parsed_id(value@) == Ok::<_, StorageErrorView>(id),
            Err(e) => parsed_id(value@) == Err::<u128, _>(e@),
        },
{
    match crate::session_id::session_id_from(value.as_str()) {
        Ok(id) => Ok(id),
        Err(reason) => Err(StorageError::Uuid { value, reason }),
    }
}

/// The instant that a stored text names, or the error that it names none.
pub open spec fn parsed_instant(value: Seq<char>) -> Result<Timestamp, StorageErrorView> {
    match named_instant(value) {
        Ok(t) => Ok(t),
        Err(reason) => Err(StorageErrorView::Timestamp { value, reason }),
    }
}

/// The instant that a stored text names.
pub fn parse_timestamp(value: &str) -> (r: Result<Timestamp, StorageError>)
    ensures
        match r {
            Ok(t) => parsed_instant(value@) == Ok::<_, StorageErrorView>(t) && t.valid(),
            Err(e) => parsed_instant(value@) == Err::<Timestamp, _>(e@),
        },
{
    match Timestamp::from_rfc3339(value) {
        Ok(t) => Ok(t),
        Err(reason) => Err(StorageError::Timestamp { value: value.to_owned(), reason }),
    }
}

/// The status that a stored word stands for.
pub fn parse_status(value: &str) -> (r: Result<SessionStatus, StorageError>)
    ensures
        match r {
            Ok(status) => named_status(value@) == Some(status),
            Err(e) => named_status(value@) is None && e@ == (StorageErrorView::Status {
                value: value@,
            }),
        },
{
    if crate::text::same_text(value, "running") {
        Ok(SessionStatus::Running)
    } else if crate::text::same_text(value, "exited") {
        Ok(SessionStatus::Exited)
    } else if crate::text::same_text(value, "starting") {
        Ok(SessionStatus::Starting)
    } else if crate::text::same_text(value, "stopped") {
        Ok(SessionStatus::Stopped)
    } else {
        Err(StorageError::Status { value: value.to_owned() })
    }
}

/// A row of the table of sessions, as it is read.
#[derive(Debug)]
pub struct SessionRow {
    pub id: String,
    pub name: String,
    pub cwd: String,
    pub shell: String,
    pub args_json: String,
    pub status: String,
    pub pid: Option<u32>,
    pub exit_code: Option<u32>,
    pub archived: i64,
    pub created_at: String,
    pub updated_at: String,
    pub last_activity_at: String,
}

/// What a row of the table of sessions holds.
#[verifier::ext_equal]
pub struct RowView {
    pub id: Seq<char>,
    pub name: Seq<char>,
    pub cwd: Seq<char>,
    pub shell: Seq<char>,
    pub args_json: Seq<char>,
    pub status: Seq<char>,
    pub pid: Option<u32>,
    pub exit_code: Option<u32>,
    pub archived: i64,
    pub created_at: Seq<char>,
    pub updated_at: Seq<char>,
    pub last_activity_at: Seq<char>,
}

impl View for SessionRow {
    type V = RowView;

    open spec fn view(&self) -> RowView {
        RowView {
            id: self.id@,
            name: self.name@,
            cwd: self.cwd@,
            shell: self.shell@,
            args_json: self.args_json@,
            status: self.status@,
            pid: self.pid,
            exit_code: self.exit_code,
            archived: self.archived,
            created_at: self.created_at@,
            updated_at: self.updated_at@,
            last_activity_at: self.last_activity_at@,
        }
    }
}

/// A column of a session's row that may not be readable.
#[derive(Clone, Copy, Debug, PartialEq, Eq, Structural)]
pub enum RowField {
    Args,
    Status,
    CreatedAt,
    UpdatedAt,
    LastActivityAt,
}

/// Why a row cannot be read: the identifier is none, or another column of the session
/// with this identifier is not what it should be.
#[derive(Debug)]
pub enum RowError {
    Id { cause: StorageError },
    Field { field: RowField, session: u128, cause: StorageError },
}

/// What a row error holds.
#[verifier::ext_equal]
pub enum RowErrorView {
    Id { cause: StorageErrorView },
    Field { field: RowField, session: u128, cause: StorageErrorView },
}

impl View for RowError {
    type V = RowErrorView;

    open spec fn view(&self) -> RowErrorView {
        match *self {
            RowError::Id { cause } => RowErrorView::Id { cause: cause@ },
            RowError::Field { field, session, cause } => {
                RowErrorView::Field { field, session, cause: cause@ }
            },
        }
    }
}

impl RowErrorView {
    pub open spec fn text(self) -> Seq<char> {
        match self {
            RowErrorView::Id { cause } => "invalid session id"@,
            RowErrorView::Field { field, session, cause } => (match field {
                RowField::Args => "invalid args_json for session "@,
                RowField::Status => "invalid status for session "@,
                RowField::CreatedAt => "invalid created_at for session "@,
                RowField::UpdatedAt => "invalid updated_at for session "@,
                RowField::LastActivityAt => "invalid last_activity_at for session "@,
            }) + id_text(session),
        }
    }
}

impl RowError {
    /// The error in words.
    pub fn message(&self) -> (r: String)
        ensures
            r@ == self@.text(),
    {
        match self {
            RowError::Id { cause } => "invalid session id".to_owned(),
            RowError::Field { field, session, cause } => {
                let what: &str = match field {
                    RowField::Args => "invalid args_json for session ",
                    RowField::Status => "invalid status for session ",
                    RowField::CreatedAt => "invalid created_at for session ",
                    RowField::UpdatedAt => "invalid updated_at for session ",
                    RowField::LastActivityAt => "invalid last_activity_at for session ",
                };
                what.to_owned().concat(crate::session_id::session_id_text(*session).as_str())
            },
        }
    }

    /// What is wrong with the value, in words.
    pub fn cause(&self) -> (r: String)
        ensures
            r@ == match self@ {
                RowErrorView::Id { cause } => cause.text(),
                RowErrorView::Field { field, session, cause } => cause.text(),
            },
    {
        match self {
            RowError::Id { cause } => cause.message(),
            RowError::Field { field, session, cause } => cause.message(),
        }
    }

    /// What the parser said of the value, where [`RowError::cause`] does not say it.
    pub fn reason(&self) -> (r: Option<String>)
        ensures
            (match self@ {
                RowErrorView::Id { cause } => cause.detail(),
                RowErrorView::Field { field, session, cause } => cause.detail(),
            }) == match r {
                Some(reason) => Some(reason@),
                None => None,
            },
    {
        match self {
            RowError::Id { cause } => cause.reason(),
            RowError::Field { field, session, cause } => cause.reason(),
        }
    }
}

/// What the texts of a row mean, or why they mean nothing.
#[derive(Debug)]
pub struct RowParts {
    pub id: Result<u128, StorageError>,
    pub args: Result<Vec<String>, String>,
    pub created_at: Result<Timestamp, StorageError>,
    pub updated_at: Result<Timestamp, StorageError>,
    pub last_activity_at: Result<Timestamp, StorageError>,
}

/// What the parts of a row hold.
#[verifier::ext_equal]
pub struct PartsView {
    pub id: Result<u128, StorageErrorView>,
    pub args: Result<Seq<Seq<char>>, Seq<char>>,
    pub created_at: Result<Timestamp, StorageErrorView>,
    pub updated_at: Result<Timestamp, StorageErrorView>,
    pub last_activity_at: Result<Timestamp, StorageErrorView>,
}

/// What a part that holds an instant holds.
pub open spec fn instant_part(part: Result<Timestamp, StorageError>) -> Result<
    Timestamp,
    StorageErrorView,
> {
    match part {
        Ok(t) => Ok(t),
        Err(e) => Err(e@),
    }
}

impl View for RowParts {
    type V = PartsView;

    open spec fn view(&self) -> PartsView {
        PartsView {
            id: match self.id {
                Ok(id) => Ok(id),
                Err(e) => Err(e@),
            },
            args: match self.args {
                Ok(list) => Ok(texts(list@)),
                Err(reason) => Err(reason@),
            },
            created_at: instant_part(self.created_at),
            updated_at: instant_part(self.updated_at),
            last_activity_at: instant_part(self.last_activity_at),
        }
    }
}

impl RowView {
    /// What the texts of the row mean.
    pub open spec fn parts(self) -> PartsView {
        PartsView {
            id: parsed_id(self.id),
            args: texts_of_json(self.args_json),
            created_at: parsed_instant(self.created_at),
            updated_at: parsed_instant(self.updated_at),
            last_activity_at: parsed_instant(self.last_activity_at),
        }
    }
}

/// The session that a row holds whose texts mean `parts`. The columns are read in the
/// order of the row, and the first that means nothing decides.
pub open spec fn assembled(row: RowView, parts: PartsView) -> Result<PersistedView, RowErrorView> {
    if parts.id is Err {
        Err(RowErrorView::Id { cause: parts.id->Err_0 })
    } else {
        let id = parts.id->Ok_0;
        if parts.args is Err {
            Err(
                RowErrorView::Field {
                    field: RowField::Args,
                    session: id,
                    cause: StorageErrorView::Args { reason: parts.args->Err_0 },
                },
            )
        } else if named_status(row.status) is None {
            Err(
                RowErrorView::Field {
                    field: RowField::Status,
                    session: id,
                    cause: StorageErrorView::Status { value: row.status },
                },
            )
        } else if parts.created_at is Err {
            Err(
                RowErrorView::Field {
                    field: RowField::CreatedAt,
                    session: id,
                    cause: parts.created_at->Err_0,
                },
            )
        } else if parts.updated_at is Err {
            Err(
                RowErrorView::Field {
                    field: RowField::UpdatedAt,
                    session: id,
                    cause: parts.updated_at->Err_0,
                },
            )
        } else if parts.last_activity_at is Err {
            Err(
                RowErrorView::Field {
                    field: RowField::LastActivityAt,
                    session: id,
                    cause: parts.last_activity_at->Err_0,
                },
            )
        } else {
            Ok(
                PersistedView {
                    config: ConfigView {
                        name: row.name,
                        cwd: row.cwd,
                        shell: row.shell,
                        args: parts.args->Ok_0,
                    },
                    summary: SummaryView {
                        id,
                        name: row.name,
                        cwd: row.cwd,
                        shell: row.shell,
                        args: parts.args->Ok_0,
                        status: named_status(row.status)->0,
                        pid: row.pid,
                        exit_code: row.exit_code,
                        archived: row.archived != 0,
                        attached_clients: 0,
                        last_activity_at: parts.last_activity_at->Ok_0,
                        created_at: parts.created_at->Ok_0,
                        updated_at: parts.updated_at->Ok_0,
                    },
                },
            )
        }
    }
}

/// The session that a row holds.
pub open spec fn decoded(row: RowView) -> Result<PersistedView, RowErrorView> {
    assembled(row, row.parts())
}

/// The session that a row holds whose texts mean `parts`.
pub fn assemble_session(row: SessionRow, parts: RowParts) -> (r: Result<
    PersistedSession,
    RowError,
>)
    ensures
        match r {
            Ok(persisted) => assembled(row@, parts@) == Ok::<_, RowErrorView>(persisted@),
            Err(e) => assembled(row@, parts@) == Err::<PersistedView, _>(e@),
        },
{
    let session: u128 = match parts.id {
        Ok(id) => id,
        Err(cause) => return Err(RowError::Id { cause }),
    };
    let args: Vec<String> = match parts.args {
        Ok(args) => args,
        Err(reason) => return Err(
            RowError::Field {
                field: RowField::Args,
                session,
                cause: StorageError::Args { reason },
            },
        ),
    };
    let status: SessionStatus = match parse_status(row.status.as_str()) {
        Ok(status) => status,
        Err(cause) => return Err(RowError::Field { field: RowField::Status, session, cause }),
    };
    let created_at: Timestamp = match parts.created_at {
        Ok(t) => t,
        Err(cause) => return Err(RowError::Field { field: RowField::CreatedAt, session, cause }),
    };
    let updated_at: Timestamp = match parts.updated_at {
        Ok(t) => t,
        Err(cause) => return Err(RowError::Field { field: RowField::UpdatedAt, session, cause }),
    };
    let last_activity_at: Timestamp = match parts.last_activity_at {
        Ok(t) => t,
        Err(cause) => return Err(RowError::Field { field: RowField::LastActivityAt, session, cause }),
    };
    let config = SessionConfig {
        name: row.name.clone(),
        cwd: row.cwd.clone(),
        shell: row.shell.clone(),
        args: crate::text::copy_texts(&args),
    };
    let summary = SessionSummary {
        id: session,
        name: row.name,
        cwd: row.cwd,
        shell: row.shell,
        args,
        status,
        pid: row.pid,
        exit_code: row.exit_code,
        archived: row.archived != 0,
        attached_clients: 0,
        last_activity_at,
        created_at,
        updated_at,
    };
    Ok(PersistedSession { config, summary })
}

/// The session that a row holds.
pub fn decode_session(row: SessionRow) -> (r: Result<PersistedSession, RowError>)
    ensures
        match r {
            Ok(persisted) => decoded(row@) == Ok::<_, RowErrorView>(persisted@)
                && persisted@.summary.times_valid(),
            Err(e) => decoded(row@) == Err::<PersistedView, _>(e@),
        },
{
    let parts = RowParts {
        id: parse_uuid(row.id.clone()),
        args: crate::args::decode_args(row.args_json.as_str()),
        created_at: parse_timestamp(row.created_at.as_str()),
        updated_at: parse_timestamp(row.updated_at.as_str()),
        last_activity_at: parse_timestamp(row.last_activity_at.as_str()),
    };
    assert(parts@ =~= row@.parts());
    assemble_session(row, parts)
}

/// Whether `list` holds the sessions of the rows, in their order.
pub open spec fn all_decoded(rows: Seq<SessionRow>, list: Seq<PersistedSession>) -> bool {
    &&& list.len() == rows.len()
    &&& forall|i: int|
        0 <= i < rows.len() ==> decoded(rows[i]@) == Ok::<_, RowErrorView>((#[trigger] list[i])@)
}

/// Whether `e` is the error of the first row that cannot be read.
pub open spec fn first_error(rows: Seq<SessionRow>, e: RowErrorView) -> bool {
    exists|k: int|
        0 <= k < rows.len() && decoded((#[trigger] rows[k])@) == Err::<PersistedView, _>(e)
            && forall|j: int| 0 <= j < k ==> decoded((#[trigger] rows[j])@) is Ok
}

/// The texts that stand for a session's identifier, arguments and instants.
#[derive(Debug)]
pub struct SessionTexts {
    pub id: String,
    pub args_json: String,
    pub created_at: String,
    pub updated_at: String,
    pub last_activity_at: String,
}

/// What the texts of a session hold.
#[verifier::ext_equal]
pub struct SessionTextsView {
    pub id: Seq<char>,
    pub args_json: Seq<char>,
    pub created_at: Seq<char>,
    pub updated_at: Seq<char>,
    pub last_activity_at: Seq<char>,
}

impl View for SessionTexts {
    type V = SessionTextsView;

    open spec fn view(&self) -> SessionTextsView {
        SessionTextsView {
            id: self.id@,
            args_json: self.args_json@,
            created_at: self.created_at@,
            updated_at: self.updated_at@,
            last_activity_at: self.last_activity_at@,
        }
    }
}

/// The text of an instant.
pub open spec fn instant_text(t: Timestamp) -> Seq<char> {
    rfc3339_text(t.secs, t.nanos)
}

/// The texts that stand for this session.
pub open spec fn session_texts(summary: SummaryView, config: ConfigView) -> SessionTextsView {
    SessionTextsView {
        id: id_text(summary.id),
        args_json: json_of_texts(config.args),
        created_at: instant_text(summary.created_at),
        updated_at: instant_text(summary.updated_at),
        last_activity_at: instant_text(summary.last_activity_at),
    }
}

/// The row under which a session is stored: the settings, and of the summary what
/// the settings do not say.
pub open spec fn encoded(
    summary: SummaryView,
    config: ConfigView,
    words: SessionTextsView,
) -> RowView {
    RowView {
        id: words.id,
        name: config.name,
        cwd: config.cwd,
        shell: config.shell,
        args_json: words.args_json,
        status: status_word(summary.status),
        pid: summary.pid,
        exit_code: summary.exit_code,
        archived: if summary.archived {
            1
        } else {
            0
        },
        created_at: words.created_at,
        updated_at: words.updated_at,
        last_activity_at: words.last_activity_at,
    }
}

/// A number that may be missing, as a column.
pub open spec fn number_column(n: Option<u32>) -> SqlView {
    match n {
        Some(n) => SqlView::Integer(n as i64),
        None => SqlView::Null,
    }
}

/// A row as the values of the columns, in their order.
pub open spec fn row_columns(row: RowView) -> Seq<SqlView> {
    seq![
        SqlView::Text(row.id),
        SqlView::Text(row.name),
        SqlView::Text(row.cwd),
        SqlView::Text(row.shell),
        SqlView::Text(row.args_json),
        SqlView::Text(row.status),
        number_column(row.pid),
        number_column(row.exit_code),
        SqlView::Integer(row.archived),
        SqlView::Text(row.created_at),
        SqlView::Text(row.updated_at),
        SqlView::Text(row.last_activity_at),
    ]
}

fn number_value(n: Option<u32>) -> (r: SqlValue)
    ensures
        r@ == number_column(n),
{
    match n {
        Some(n) => SqlValue::Integer(n as i64),
        None => SqlValue::Null,
    }
}

/// The statement that stores a session for which these texts stand.
pub fn upsert_with(summary: &SessionSummary, config: &SessionConfig, words: SessionTexts) -> (r:
    Statement)
    ensures
        r@ == (StatementView {
            sql: UPSERT_SESSION@,
            params: row_columns(encoded(summary@, config@, words@)),
        }),
{
    let params = vec![
        SqlValue::Text(words.id),
        SqlValue::Text(config.name.clone()),
        SqlValue::Text(config.cwd.clone()),
        SqlValue::Text(config.shell.clone()),
        SqlValue::Text(words.args_json),
        SqlValue::Text(status_to_str(&summary.status).to_owned()),
        number_value(summary.pid),
        number_value(summary.exit_code),
        SqlValue::Integer(if summary.archived { 1 } else { 0 }),
        SqlValue::Text(words.created_at),
        SqlValue::Text(words.updated_at),
        SqlValue::Text(words.last_activity_at),
    ];
    let r = Statement { sql: UPSERT_SESSION, params };
    assert(r@.params =~= row_columns(encoded(summary@, config@, words@)));
    r
}

} // verus!
