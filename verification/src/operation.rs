//! The operations on sessions: each is a sequence of effects, with decisions between
//! them.
//!
//! An operation is begun, which says what is to be done first, and then resumed with
//! what came of it, until it says what to reply. In between, the task says where the
//! operation stands.

use vstd::prelude::*;

use crate::api::internal_error;
use crate::api::internal_view;
use crate::api::bad_request;
use crate::api::bad_request_view;
use crate::api::creation_fault;
use crate::api::not_found_view;
use crate::api::rename_fault;
use crate::api::session_not_found;
use crate::api::validate_new_session;
use crate::api::validate_rename;
use crate::api::ApiError;
use crate::api::ApiErrorView;
use crate::process::command_view;
use crate::process::session_command;
use crate::process::CommandView;
use crate::process::PtyCommand;
use crate::proto::CreateSessionRequest;
use crate::proto::PatchSessionRequest;
use crate::proto::SessionStatus;
use crate::proto::SessionSummary;
use crate::proto::SummaryView;
use crate::session::ConfigView;
use crate::session::Session;
use crate::session::SessionConfig;
use crate::session::SessionView;
use crate::session_id::new_session_id;
use crate::session_id::random_id;
use crate::sql::about_session;
use crate::sql::statements_view;
use crate::sql::Statement;
use crate::sql::StatementView;
use crate::sql::DELETE_EVENTS;
use crate::sql::DELETE_SESSION;
use crate::storage::Storage;
use crate::text::texts;
use crate::timestamp::Timestamp;

verus! {

pub const OK: u16 = 200;

pub const CREATED: u16 = 201;

pub const NO_CONTENT: u16 = 204;

/// What the server is set to.
#[derive(Clone, Copy, Debug, PartialEq, Eq, Structural)]
pub struct Settings {
    /// The limit on the payload bytes that a session retains.
    pub history_bytes: usize,
    /// The size of a terminal that no client has sized yet.
    pub default_cols: u16,
    pub default_rows: u16,
}

/// A request that concerns a session.
#[derive(Debug)]
pub enum Request {
    Get,
    Rename(PatchSessionRequest),
    Delete,
    Restart,
    Stop,
    Archive,
    Restore,
}

/// What a process is started for.
#[derive(Clone, Copy, Debug, PartialEq, Eq, Structural)]
pub enum Purpose {
    /// The session was just created.
    Create,
    /// The session is restarted.
    Restart,
    /// The server has come up, and the session was at work before.
    Recover,
}

/// Something that an operation has done outside of the session.
#[derive(Debug)]
pub enum Effect {
    /// Store the session.
    Store(Statement),
    /// Remove the session from the database, in one transaction.
    Remove(Vec<Statement>),
    /// Remove the session's stored output.
    ClearOutput(Statement),
    /// Make the session known under its identifier.
    Register,
    /// Make the session unknown.
    Unregister,
    /// Kill the process that the session has let go of.
    Kill,
    /// Start a process in a terminal.
    Start(PtyCommand),
    /// Read what the process of this generation writes, and wait for its end.
    Watch { generation: u64 },
}

/// What an effect holds.
#[verifier::ext_equal]
pub enum EffectView {
    Store(StatementView),
    Remove(Seq<StatementView>),
    ClearOutput(StatementView),
    Register,
    Unregister,
    Kill,
    Start(CommandView),
    Watch { generation: u64 },
}

impl View for Effect {
    type V = EffectView;

    open spec fn view(&self) -> EffectView {
        match *self {
            Effect::Store(s) => EffectView::Store(s@),
            Effect::Remove(list) => EffectView::Remove(statements_view(list@)),
            Effect::ClearOutput(s) => EffectView::ClearOutput(s@),
            Effect::Register => EffectView::Register,
            Effect::Unregister => EffectView::Unregister,
            Effect::Kill => EffectView::Kill,
            Effect::Start(command) => EffectView::Start(command@),
            Effect::Watch { generation } => EffectView::Watch { generation },
        }
    }
}

/// What came of an effect.
#[derive(Debug)]
pub enum Outcome {
    Done,
    /// A process was started, with this number where it is known.
    Started { pid: Option<u32> },
    /// It failed, for this reason.
    Failed(String),
}

/// Where an operation stands: which effect it waits for.
#[derive(Debug)]
pub enum Task {
    CreateStored,
    CreateRegistered,
    CreateUnregistered { message: String },
    CreateRemoved { message: String },
    StartingStored { purpose: Purpose, generation: u64, clear_history: bool },
    ProcessStarted { purpose: Purpose, generation: u64, clear_history: bool },
    OutputCleared { purpose: Purpose, generation: u64, pid: Option<u32> },
    RunningStored { purpose: Purpose, generation: u64 },
    Watched { purpose: Purpose },
    RecoveryStopped,
    DeleteRemoved,
    DeleteUnregistered,
    DeleteKilled,
    RestartKilled,
    StopKilled,
    StopStored,
    ArchiveKilled,
    ArchiveStopped,
    SummaryStored { summary: SessionSummary },
}

/// What a task holds.
#[verifier::ext_equal]
pub enum TaskView {
    CreateStored,
    CreateRegistered,
    CreateUnregistered { message: Seq<char> },
    CreateRemoved { message: Seq<char> },
    StartingStored { purpose: Purpose, generation: u64, clear_history: bool },
    ProcessStarted { purpose: Purpose, generation: u64, clear_history: bool },
    OutputCleared { purpose: Purpose, generation: u64, pid: Option<u32> },
    RunningStored { purpose: Purpose, generation: u64 },
    Watched { purpose: Purpose },
    RecoveryStopped,
    DeleteRemoved,
    DeleteUnregistered,
    DeleteKilled,
    RestartKilled,
    StopKilled,
    StopStored,
    ArchiveKilled,
    ArchiveStopped,
    SummaryStored { summary: SummaryView },
}

impl View for Task {
    type V = TaskView;

    open spec fn view(&self) -> TaskView {
        match *self {
            Task::CreateStored => TaskView::CreateStored,
            Task::CreateRegistered => TaskView::CreateRegistered,
            Task::CreateUnregistered { message } => {
                TaskView::CreateUnregistered { message: message@ }
            },
            Task::CreateRemoved { message } => TaskView::CreateRemoved { message: message@ },
            Task::StartingStored { purpose, generation, clear_history } => {
                TaskView::StartingStored { purpose, generation, clear_history }
            },
            Task::ProcessStarted { purpose, generation, clear_history } => {
                TaskView::ProcessStarted { purpose, generation, clear_history }
            },
            Task::OutputCleared { purpose, generation, pid } => {
                TaskView::OutputCleared { purpose, generation, pid }
            },
            Task::RunningStored { purpose, generation } => {
                TaskView::RunningStored { purpose, generation }
            },
            Task::Watched { purpose } => TaskView::Watched { purpose },
            Task::RecoveryStopped => TaskView::RecoveryStopped,
            Task::DeleteRemoved => TaskView::DeleteRemoved,
            Task::DeleteUnregistered => TaskView::DeleteUnregistered,
            Task::DeleteKilled => TaskView::DeleteKilled,
            Task::RestartKilled => TaskView::RestartKilled,
            Task::StopKilled => TaskView::StopKilled,
            Task::StopStored => TaskView::StopStored,
            Task::ArchiveKilled => TaskView::ArchiveKilled,
            Task::ArchiveStopped => TaskView::ArchiveStopped,
            Task::SummaryStored { summary } => TaskView::SummaryStored { summary: summary@ },
        }
    }
}

/// What is replied to a request.
#[derive(Debug)]
pub enum Reply {
    /// The session, with an HTTP status code.
    Session { code: u16, summary: SessionSummary },
    /// Nothing but an HTTP status code.
    Empty { code: u16 },
    Refused(ApiError),
    /// Nobody asked, so nobody is told.
    Silence,
}

/// What a reply holds.
#[verifier::ext_equal]
pub enum ReplyView {
    Session { code: u16, summary: SummaryView },
    Empty { code: u16 },
    Refused(ApiErrorView),
    Silence,
}

impl View for Reply {
    type V = ReplyView;

    open spec fn view(&self) -> ReplyView {
        match *self {
            Reply::Session { code, summary } => ReplyView::Session { code, summary: summary@ },
            Reply::Empty { code } => ReplyView::Empty { code },
            Reply::Refused(e) => ReplyView::Refused(e@),
            Reply::Silence => ReplyView::Silence,
        }
    }
}

/// What an operation does next.
#[derive(Debug)]
pub enum Step {
    Do(Effect, Task),
    End(Reply),
}

/// What a step of an operation holds.
#[verifier::ext_equal]
pub enum StepView {
    Do(EffectView, TaskView),
    End(ReplyView),
}

impl View for Step {
    type V = StepView;

    open spec fn view(&self) -> StepView {
        match *self {
            Step::Do(effect, task) => StepView::Do(effect@, task@),
            Step::End(reply) => StepView::End(reply@),
        }
    }
}

/// The session after a part of an operation, and what comes next.
#[verifier::ext_equal]
pub struct FlowView {
    pub session: SessionView,
    pub step: StepView,
}

/// The operation asks for an effect.
pub open spec fn asks(s: SessionView, effect: EffectView, task: TaskView) -> FlowView {
    FlowView { session: s, step: StepView::Do(effect, task) }
}

/// The operation asks for the session to be stored as it is.
pub open spec fn stores(s: SessionView, task: TaskView) -> FlowView {
    asks(s, EffectView::Store(s.storing()), task)
}

/// The operation is over.
pub open spec fn replies(s: SessionView, reply: ReplyView) -> FlowView {
    FlowView { session: s, step: StepView::End(reply) }
}

/// The operation is over, for this reason.
pub open spec fn fails(s: SessionView, message: Seq<char>) -> FlowView {
    replies(s, ReplyView::Refused(internal_view(message)))
}

/// The statements that remove a session from the database.
pub open spec fn removal(id: u128) -> Seq<StatementView> {
    seq![about_session(DELETE_EVENTS@, id), about_session(DELETE_SESSION@, id)]
}

/// Another process is begun.
pub open spec fn begins_process(
    s: SessionView,
    purpose: Purpose,
    clear_history: bool,
    now: Timestamp,
) -> FlowView {
    let advanced = s.advanced();
    let generation = advanced.generation;
    stores(
        advanced.starting(generation, now),
        TaskView::StartingStored { purpose, generation, clear_history },
    )
}

/// The process could not be started: a session that was to be created is given up, one
/// that was to be recovered is stopped.
pub open spec fn process_fails(
    s: SessionView,
    purpose: Purpose,
    message: Seq<char>,
    now: Timestamp,
) -> FlowView {
    match purpose {
        Purpose::Create => {
            asks(s, EffectView::Unregister, TaskView::CreateUnregistered { message })
        },
        Purpose::Restart => fails(s, message),
        Purpose::Recover => stores(s.stopped(now), TaskView::RecoveryStopped),
    }
}

/// The process is watched.
pub open spec fn watches(s: SessionView, purpose: Purpose, generation: u64) -> FlowView {
    asks(s, EffectView::Watch { generation }, TaskView::Watched { purpose })
}

/// The process runs, unless a later one has been begun meanwhile.
pub open spec fn process_runs(
    s: SessionView,
    purpose: Purpose,
    generation: u64,
    pid: Option<u32>,
    now: Timestamp,
) -> FlowView {
    if generation == s.generation {
        stores(
            s.running(generation, pid, now),
            TaskView::RunningStored { purpose, generation },
        )
    } else {
        watches(s, purpose, generation)
    }
}

/// The process was started.
pub open spec fn process_started(
    s: SessionView,
    purpose: Purpose,
    generation: u64,
    clear_history: bool,
    pid: Option<u32>,
    now: Timestamp,
) -> FlowView {
    if clear_history {
        asks(
            s.with_runtime().without_output(),
            EffectView::ClearOutput(about_session(DELETE_EVENTS@, s.summary.id)),
            TaskView::OutputCleared { purpose, generation, pid },
        )
    } else {
        process_runs(s.with_runtime(), purpose, generation, pid, now)
    }
}

/// The process is watched, and the request for it answered.
pub open spec fn process_watched(s: SessionView, purpose: Purpose) -> FlowView {
    replies(
        s,
        match purpose {
            Purpose::Create => ReplyView::Session { code: CREATED, summary: s.summary },
            Purpose::Restart => ReplyView::Session { code: OK, summary: s.summary },
            Purpose::Recover => ReplyView::Silence,
        },
    )
}

/// The session is stopped.
pub open spec fn stops(s: SessionView, task: TaskView, now: Timestamp) -> FlowView {
    stores(s.stopped(now), task)
}

/// The session changes, and its summary is the reply once it is stored.
pub open spec fn replies_when_stored(s: SessionView) -> FlowView {
    stores(s, TaskView::SummaryStored { summary: s.summary })
}

/// The reply to a request for a session that there is not: an empty name is found out
/// before the session is looked for.
pub open spec fn missing(request: Request) -> ApiErrorView {
    match request {
        Request::Rename(req) => match rename_fault(req) {
            Some(e) => e,
            None => not_found_view(),
        },
        _ => not_found_view(),
    }
}

/// How an operation on a session begins.
pub open spec fn begins(s: SessionView, request: Request, now: Timestamp) -> FlowView {
    match request {
        Request::Get => replies(s, ReplyView::Session { code: OK, summary: s.summary }),
        Request::Rename(req) => match rename_fault(req) {
            Some(e) => replies(s, ReplyView::Refused(e)),
            None => replies_when_stored(s.renamed(req.name@, now)),
        },
        Request::Delete => {
            asks(s, EffectView::Remove(removal(s.summary.id)), TaskView::DeleteRemoved)
        },
        Request::Restart => if s.summary.archived {
            replies(
                s,
                ReplyView::Refused(bad_request_view("cannot restart an archived session"@)),
            )
        } else if s.has_runtime {
            asks(s.released(), EffectView::Kill, TaskView::RestartKilled)
        } else {
            begins_process(s.released(), Purpose::Restart, true, now)
        },
        Request::Stop => if s.has_runtime {
            asks(s.released(), EffectView::Kill, TaskView::StopKilled)
        } else {
            stops(s.released(), TaskView::StopStored, now)
        },
        Request::Archive => if !s.summary.active() {
            replies_when_stored(s.with_archived(true, now))
        } else if s.has_runtime {
            asks(s.released(), EffectView::Kill, TaskView::ArchiveKilled)
        } else {
            stops(s.released(), TaskView::ArchiveStopped, now)
        },
        Request::Restore => replies_when_stored(s.with_archived(false, now)),
    }
}

/// Why an effect failed, if it did.
pub open spec fn failure(outcome: Outcome) -> Option<Seq<char>> {
    match outcome {
        Outcome::Failed(message) => Some(message@),
        _ => None,
    }
}

/// The number of the process that was started, where it is known.
pub open spec fn started_pid(outcome: Outcome) -> Option<u32> {
    match outcome {
        Outcome::Started { pid } => pid,
        _ => None,
    }
}

/// How an operation goes on.
pub open spec fn resumes(
    s: SessionView,
    settings: Settings,
    task: TaskView,
    outcome: Outcome,
    now: Timestamp,
) -> FlowView {
    let failure = failure(outcome);
    match task {
        TaskView::CreateStored => match failure {
            Some(message) => fails(s, message),
            None => asks(s, EffectView::Register, TaskView::CreateRegistered),
        },
        TaskView::CreateRegistered => begins_process(s, Purpose::Create, false, now),
        TaskView::CreateUnregistered { message } => {
            asks(
                s,
                EffectView::Remove(removal(s.summary.id)),
                TaskView::CreateRemoved { message },
            )
        },
        TaskView::CreateRemoved { message } => fails(s, message),
        TaskView::StartingStored { purpose, generation, clear_history } => match failure {
            Some(message) => process_fails(s, purpose, message, now),
            None => asks(
                s,
                EffectView::Start(
                    command_view(s.config, settings.default_cols, settings.default_rows),
                ),
                TaskView::ProcessStarted { purpose, generation, clear_history },
            ),
        },
        TaskView::ProcessStarted { purpose, generation, clear_history } => match failure {
            Some(message) => process_fails(s, purpose, message, now),
            None => process_started(
                s,
                purpose,
                generation,
                clear_history,
                started_pid(outcome),
                now,
            ),
        },
        TaskView::OutputCleared { purpose, generation, pid } => match failure {
            Some(_) => watches(s, purpose, generation),
            None => process_runs(s, purpose, generation, pid, now),
        },
        TaskView::RunningStored { purpose, generation } => watches(s, purpose, generation),
        TaskView::Watched { purpose } => process_watched(s, purpose),
        TaskView::RecoveryStopped => replies(s, ReplyView::Silence),
        TaskView::DeleteRemoved => match failure {
            Some(message) => fails(s, message),
            None => asks(s, EffectView::Unregister, TaskView::DeleteUnregistered),
        },
        TaskView::DeleteUnregistered => if s.has_runtime {
            asks(s.released(), EffectView::Kill, TaskView::DeleteKilled)
        } else {
            replies(s.released(), ReplyView::Empty { code: NO_CONTENT })
        },
        TaskView::DeleteKilled => replies(s, ReplyView::Empty { code: NO_CONTENT }),
        TaskView::RestartKilled => begins_process(s, Purpose::Restart, true, now),
        TaskView::StopKilled => stops(s, TaskView::StopStored, now),
        TaskView::StopStored => match failure {
            Some(message) => fails(s, message),
            None => replies(s, ReplyView::Session { code: OK, summary: s.summary }),
        },
        TaskView::ArchiveKilled => stops(s, TaskView::ArchiveStopped, now),
        TaskView::ArchiveStopped => match failure {
            Some(message) => fails(s, message),
            None => replies_when_stored(s.with_archived(true, now)),
        },
        TaskView::SummaryStored { summary } => match failure {
            Some(message) => fails(s, message),
            None => replies(s, ReplyView::Session { code: OK, summary }),
        },
    }
}

/// Whether the request begins a process at once, so that there must be a number for its
/// generation.
pub open spec fn numbers_at_once(s: SessionView, request: Request) -> bool {
    request is Restart && !s.summary.archived && !s.has_runtime
}

/// Whether a process is begun when the operation goes on from here, so that there must
/// be a number for its generation.
pub open spec fn numbers_next(task: TaskView) -> bool {
    task is CreateRegistered || task is RestartKilled
}

/// Whether there is a number for the process that the request begins at once, if it
/// begins one.
pub fn can_begin(session: &Session, request: &Request) -> (r: bool)
    ensures
        r == (numbers_at_once(session@, *request) ==> session@.released().generation < u64::MAX),
{
    match request {
        Request::Restart => session.summary().archived || session.has_runtime()
            || session.generation() != u64::MAX - 1,
        _ => true,
    }
}

/// Whether there is a number for the process that is begun when the operation goes on,
/// if one is.
pub fn can_resume(session: &Session, task: &Task) -> (r: bool)
    ensures
        r == (numbers_next(task@) ==> session@.generation < u64::MAX),
{
    match task {
        Task::CreateRegistered => session.generation() < u64::MAX,
        Task::RestartKilled => session.generation() < u64::MAX,
        _ => true,
    }
}

/// The reply to a request for a session that there is not.
pub fn refuse_missing(request: &Request) -> (r: ApiError)
    ensures
        r@ == missing(*request),
{
    match request {
        Request::Rename(req) => match validate_rename(req) {
            Ok(_) => session_not_found(),
            Err(e) => e,
        },
        _ => session_not_found(),
    }
}

fn store(session: &Session, storage: &Storage, task: Task) -> (r: Step)
    requires
        session.wf(),
    ensures
        (FlowView { session: session@, step: r@ }) == stores(session@, task@),
{
    Step::Do(Effect::Store(session.persist_snapshot(storage)), task)
}

fn fail(message: String) -> (r: Step)
    ensures
        r@ == StepView::End(ReplyView::Refused(internal_view(message@))),
{
    Step::End(Reply::Refused(internal_error(message)))
}

fn remove(session: &Session, storage: &Storage, task: Task) -> (r: Step)
    ensures
        r@ == StepView::Do(EffectView::Remove(removal(session@.summary.id)), task@),
{
    Step::Do(Effect::Remove(storage.delete_session(session.id())), task)
}

fn begin_process(
    session: &mut Session,
    storage: &Storage,
    purpose: Purpose,
    clear_history: bool,
    now: Timestamp,
) -> (r: Step)
    requires
        old(session).wf(),
        now.valid(),
        old(session)@.generation < u64::MAX,
    ensures
        final(session).wf(),
        (FlowView { session: final(session)@, step: r@ }) == begins_process(
            old(session)@,
            purpose,
            clear_history,
            now,
        ),
{
    let generation: u64 = session.advance_generation();
    let _ = session.mark_starting_at(generation, now);
    store(session, storage, Task::StartingStored { purpose, generation, clear_history })
}

fn process_failed(
    session: &mut Session,
    storage: &Storage,
    purpose: Purpose,
    message: String,
    now: Timestamp,
) -> (r: Step)
    requires
        old(session).wf(),
        now.valid(),
    ensures
        final(session).wf(),
        (FlowView { session: final(session)@, step: r@ }) == process_fails(
            old(session)@,
            purpose,
            message@,
            now,
        ),
{
    match purpose {
        Purpose::Create => Step::Do(Effect::Unregister, Task::CreateUnregistered { message }),
        Purpose::Restart => fail(message),
        Purpose::Recover => {
            session.mark_stopped_at(now);
            store(session, storage, Task::RecoveryStopped)
        },
    }
}

fn process_running(
    session: &mut Session,
    storage: &Storage,
    purpose: Purpose,
    generation: u64,
    pid: Option<u32>,
    now: Timestamp,
) -> (r: Step)
    requires
        old(session).wf(),
        now.valid(),
    ensures
        final(session).wf(),
        (FlowView { session: final(session)@, step: r@ }) == process_runs(
            old(session)@,
            purpose,
            generation,
            pid,
            now,
        ),
{
    if session.mark_running_at(generation, pid, now) {
        store(session, storage, Task::RunningStored { purpose, generation })
    } else {
        Step::Do(Effect::Watch { generation }, Task::Watched { purpose })
    }
}

fn stop(session: &mut Session, storage: &Storage, task: Task, now: Timestamp) -> (r: Step)
    requires
        old(session).wf(),
        now.valid(),
    ensures
        final(session).wf(),
        (FlowView { session: final(session)@, step: r@ }) == stops(old(session)@, task@, now),
{
    session.mark_stopped_at(now);
    store(session, storage, task)
}

fn archive(session: &mut Session, storage: &Storage, archived: bool, now: Timestamp) -> (r: Step)
    requires
        old(session).wf(),
        now.valid(),
    ensures
        final(session).wf(),
        (FlowView { session: final(session)@, step: r@ }) == replies_when_stored(
            old(session)@.with_archived(archived, now),
        ),
{
    let summary = session.set_archived_at(archived, now);
    store(session, storage, Task::SummaryStored { summary })
}

/// Begins an operation on a session at the instant `now`.
pub fn begin_at(session: &mut Session, storage: &Storage, request: Request, now: Timestamp) -> (r:
    Step)
    requires
        old(session).wf(),
        now.valid(),
        numbers_at_once(old(session)@, request) ==> old(session)@.released().generation < u64::MAX,
    ensures
        final(session).wf(),
        (FlowView { session: final(session)@, step: r@ }) == begins(old(session)@, request, now),
{
    match request {
        Request::Get => Step::End(Reply::Session { code: OK, summary: session.summary() }),
        Request::Rename(req) => match validate_rename(&req) {
            Err(e) => Step::End(Reply::Refused(e)),
            Ok(_) => {
                let summary = session.set_name_at(req.name, now);
                store(session, storage, Task::SummaryStored { summary })
            },
        },
        Request::Delete => remove(session, storage, Task::DeleteRemoved),
        Request::Restart => {
            if session.summary().archived {
                return Step::End(
                    Reply::Refused(bad_request("cannot restart an archived session")),
                );
            }
            if session.take_runtime_and_advance_generation() {
                Step::Do(Effect::Kill, Task::RestartKilled)
            } else {
                begin_process(session, storage, Purpose::Restart, true, now)
            }
        },
        Request::Stop => {
            if session.take_runtime_and_advance_generation() {
                Step::Do(Effect::Kill, Task::StopKilled)
            } else {
                stop(session, storage, Task::StopStored, now)
            }
        },
        Request::Archive => {
            if !session.summary().is_active() {
                return archive(session, storage, true, now);
            }
            if session.take_runtime_and_advance_generation() {
                Step::Do(Effect::Kill, Task::ArchiveKilled)
            } else {
                stop(session, storage, Task::ArchiveStopped, now)
            }
        },
        Request::Restore => archive(session, storage, false, now),
    }
}

/// Begins an operation on a session.
pub fn begin(session: &mut Session, storage: &Storage, request: Request) -> (r: Step)
    requires
        old(session).wf(),
        numbers_at_once(old(session)@, request) ==> old(session)@.released().generation < u64::MAX,
    ensures
        final(session).wf(),
        exists|now: Timestamp|
            now.valid() && (FlowView { session: final(session)@, step: r@ }) == #[trigger] begins(
                old(session)@,
                request,
                now,
            ),
{
    begin_at(session, storage, request, Timestamp::now())
}

/// Begins the recovery of a session that was at work when the server went down.
pub fn recover_session_at(session: &mut Session, storage: &Storage, now: Timestamp) -> (r: Step)
    requires
        old(session).wf(),
        now.valid(),
        old(session)@.generation < u64::MAX,
    ensures
        final(session).wf(),
        (FlowView { session: final(session)@, step: r@ }) == begins_process(
            old(session)@,
            Purpose::Recover,
            false,
            now,
        ),
{
    begin_process(session, storage, Purpose::Recover, false, now)
}

/// Begins the recovery of a session that was at work when the server went down.
pub fn recover_session(session: &mut Session, storage: &Storage) -> (r: Step)
    requires
        old(session).wf(),
        old(session)@.generation < u64::MAX,
    ensures
        final(session).wf(),
        exists|now: Timestamp|
            now.valid() && (FlowView { session: final(session)@, step: r@ })
                == #[trigger] begins_process(old(session)@, Purpose::Recover, false, now),
{
    recover_session_at(session, storage, Timestamp::now())
}

/// What a session that is asked for is to run.
pub open spec fn requested(req: CreateSessionRequest) -> ConfigView {
    ConfigView {
        name: req.name@,
        cwd: req.cwd@,
        shell: req.shell@,
        args: texts(req.args@),
    }
}

/// Whether the session is a new one with the name, the directory, the shell and the
/// arguments that were asked for.
pub open spec fn as_requested(s: SessionView, req: CreateSessionRequest, settings: Settings) -> bool {
    &&& s.config.name == req.name@
    &&& s.config.cwd == req.cwd@
    &&& s.config.shell == req.shell@
    &&& s.config.args.len() == req.args@.len()
    &&& forall|i: int| 0 <= i < req.args@.len() ==> #[trigger] s.config.args[i] == req.args@[i]@
    &&& s.summary.name == req.name@
    &&& s.summary.cwd == req.cwd@
    &&& s.summary.shell == req.shell@
    &&& s.summary.args == s.config.args
    &&& s.summary.status == SessionStatus::Starting
    &&& s.summary.pid is None
    &&& s.summary.exit_code is None
    &&& !s.summary.archived
    &&& s.summary.attached_clients == 0
    &&& s.summary.updated_at == s.summary.created_at
    &&& s.summary.last_activity_at == s.summary.created_at
    &&& !s.has_runtime
    &&& s.history.chunks.len() == 0
    &&& s.history.max_bytes == settings.history_bytes
    &&& s.next_seq == 0
    &&& s.generation == 0
}

/// Begins the creation of a session with this identifier at the instant `now`, unless
/// the request makes no sense.
pub fn create_session_at(
    storage: &Storage,
    req: CreateSessionRequest,
    id: u128,
    settings: Settings,
    now: Timestamp,
) -> (r: Result<(Session, Step), ApiError>)
    requires
        now.valid(),
    ensures
        match r {
            Ok((session, step)) => {
                &&& creation_fault(req) is None
                &&& session.wf()
                &&& (FlowView { session: session@, step: step@ }) == stores(
                    SessionView::created(id, requested(req), settings.history_bytes as nat, now),
                    TaskView::CreateStored,
                )
                &&& session@.summary.id == id
                &&& as_requested(session@, req, settings)
            },
            Err(e) => creation_fault(req) == Some(e@),
        },
{
    match validate_new_session(&req) {
        Err(e) => Err(e),
        Ok(_) => {
            let config = SessionConfig {
                name: req.name,
                cwd: req.cwd,
                shell: req.shell,
                args: req.args,
            };
            let session = Session::new_at(id, config, settings.history_bytes, now);
            let step = store(&session, storage, Task::CreateStored);
            Ok((session, step))
        },
    }
}

/// Begins the creation of a session, unless the request makes no sense.
pub fn create_session(storage: &Storage, req: CreateSessionRequest, settings: Settings) -> (r:
    Result<(Session, Step), ApiError>)
    ensures
        match r {
            Ok((session, step)) => {
                &&& creation_fault(req) is None
                &&& session.wf()
                &&& random_id(session@.summary.id)
                &&& exists|id: u128, now: Timestamp|
                    now.valid() && session@ == #[trigger] SessionView::created(
                        id,
                        requested(req),
                        settings.history_bytes as nat,
                        now,
                    )
                &&& (FlowView { session: session@, step: step@ }) == stores(
                    session@,
                    TaskView::CreateStored,
                )
                &&& as_requested(session@, req, settings)
            },
            Err(e) => creation_fault(req) == Some(e@),
        },
{
    create_session_at(storage, req, new_session_id(), settings, Timestamp::now())
}

fn resume_process(
    session: &mut Session,
    storage: &Storage,
    settings: Settings,
    task: Task,
    outcome: Outcome,
    now: Timestamp,
) -> (r: Step)
    requires
        old(session).wf(),
        now.valid(),
        task is StartingStored || task is ProcessStarted || task is OutputCleared
            || task is RunningStored || task is Watched || task is RecoveryStopped,
    ensures
        final(session).wf(),
        (FlowView { session: final(session)@, step: r@ }) == resumes(
            old(session)@,
            settings,
            task@,
            outcome,
            now,
        ),
{
    match task {
        Task::StartingStored { purpose, generation, clear_history } => match outcome {
            Outcome::Failed(message) => process_failed(session, storage, purpose, message, now),
            _ => {
                let command = session_command(
                    &session.config(),
                    settings.default_cols,
                    settings.default_rows,
                );
                Step::Do(
                    Effect::Start(command),
                    Task::ProcessStarted { purpose, generation, clear_history },
                )
            },
        },
        Task::ProcessStarted { purpose, generation, clear_history } => {
            let pid: Option<u32> = match outcome {
                Outcome::Failed(message) => {
                    return process_failed(session, storage, purpose, message, now);
                },
                Outcome::Started { pid } => pid,
                Outcome::Done => None,
            };
            session.install_runtime();
            if clear_history {
                session.forget_output();
                Step::Do(
                    Effect::ClearOutput(storage.clear_output_history(session.id())),
                    Task::OutputCleared { purpose, generation, pid },
                )
            } else {
                process_running(session, storage, purpose, generation, pid, now)
            }
        },
        Task::OutputCleared { purpose, generation, pid } => match outcome {
            Outcome::Failed(_) => Step::Do(Effect::Watch { generation }, Task::Watched { purpose }),
            _ => process_running(session, storage, purpose, generation, pid, now),
        },
        Task::RunningStored { purpose, generation } => {
            Step::Do(Effect::Watch { generation }, Task::Watched { purpose })
        },
        Task::Watched { purpose } => match purpose {
            Purpose::Create => {
                Step::End(Reply::Session { code: CREATED, summary: session.summary() })
            },
            Purpose::Restart => Step::End(Reply::Session { code: OK, summary: session.summary() }),
            Purpose::Recover => Step::End(Reply::Silence),
        },
        _ => Step::End(Reply::Silence),
    }
}

/// Resumes an operation at the instant `now` with what came of its effect.
pub fn resume_at(
    session: &mut Session,
    storage: &Storage,
    settings: Settings,
    task: Task,
    outcome: Outcome,
    now: Timestamp,
) -> (r: Step)
    requires
        old(session).wf(),
        now.valid(),
        numbers_next(task@) ==> old(session)@.generation < u64::MAX,
    ensures
        final(session).wf(),
        (FlowView { session: final(session)@, step: r@ }) == resumes(
            old(session)@,
            settings,
            task@,
            outcome,
            now,
        ),
{
    match task {
        Task::CreateStored => match outcome {
            Outcome::Failed(message) => fail(message),
            _ => Step::Do(Effect::Register, Task::CreateRegistered),
        },
        Task::CreateRegistered => begin_process(session, storage, Purpose::Create, false, now),
        Task::CreateUnregistered { message } => {
            remove(session, storage, Task::CreateRemoved { message })
        },
        Task::CreateRemoved { message } => fail(message),
        Task::DeleteRemoved => match outcome {
            Outcome::Failed(message) => fail(message),
            _ => Step::Do(Effect::Unregister, Task::DeleteUnregistered),
        },
        Task::DeleteUnregistered => {
            if session.take_runtime_and_advance_generation() {
                Step::Do(Effect::Kill, Task::DeleteKilled)
            } else {
                Step::End(Reply::Empty { code: NO_CONTENT })
            }
        },
        Task::DeleteKilled => Step::End(Reply::Empty { code: NO_CONTENT }),
        Task::RestartKilled => begin_process(session, storage, Purpose::Restart, true, now),
        Task::StopKilled => stop(session, storage, Task::StopStored, now),
        Task::StopStored => match outcome {
            Outcome::Failed(message) => fail(message),
            _ => Step::End(Reply::Session { code: OK, summary: session.summary() }),
        },
        Task::ArchiveKilled => stop(session, storage, Task::ArchiveStopped, now),
        Task::ArchiveStopped => match outcome {
            Outcome::Failed(message) => fail(message),
            _ => archive(session, storage, true, now),
        },
        Task::SummaryStored { summary } => match outcome {
            Outcome::Failed(message) => fail(message),
            _ => Step::End(Reply::Session { code: OK, summary }),
        },
        task => resume_process(session, storage, settings, task, outcome, now),
    }
}

/// Resumes an operation with what came of its effect.
pub fn resume(
    session: &mut Session,
    storage: &Storage,
    settings: Settings,
    task: Task,
    outcome: Outcome,
) -> (r: Step)
    requires
        old(session).wf(),
        numbers_next(task@) ==> old(session)@.generation < u64::MAX,
    ensures
        final(session).wf(),
        exists|now: Timestamp|
            now.valid() && (FlowView { session: final(session)@, step: r@ }) == #[trigger] resumes(
                old(session)@,
                settings,
                task@,
                outcome,
                now,
            ),
{
    resume_at(session, storage, settings, task, outcome, Timestamp::now())
}

} // verus!
