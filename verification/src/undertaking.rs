//! Laws of what the operations do to a session and ask for, step by step: what is stored,
//! what is started and what is replied.

use vstd::prelude::*;

use crate::bookkeeping::lemma_all_is_stored;
use crate::bookkeeping::stores_all;
use crate::keeping::active_at;
use crate::keeping::same_command;
use crate::keeping::same_name;
use crate::keeping::same_output;
use crate::keeping::same_place;
use crate::keeping::same_process;
use crate::keeping::same_status;
use crate::keeping::same_times;
use crate::operation::as_requested;
use crate::operation::begins;
use crate::operation::begins_process;
use crate::operation::failure;
use crate::operation::missing;
use crate::operation::numbers_at_once;
use crate::operation::numbers_next;
use crate::operation::removal;
use crate::operation::requested;
use crate::operation::resumes;
use crate::operation::started_pid;
use crate::operation::stores;
use crate::operation::Effect;
use crate::operation::EffectView;
use crate::operation::FlowView;
use crate::operation::Outcome;
use crate::operation::Purpose;
use crate::operation::Reply;
use crate::operation::ReplyView;
use crate::operation::Request;
use crate::operation::Settings;
use crate::operation::Step;
use crate::operation::StepView;
use crate::operation::Task;
use crate::operation::TaskView;
use crate::process::CommandView;
use crate::proto::CreateSessionRequest;
use crate::proto::PatchSessionRequest;
use crate::proto::SessionStatus;
use crate::proto::SummaryView;
use crate::session::ConfigView;
use crate::session::SessionView;
use crate::session_id::id_text;
use crate::sql::SqlView;
use crate::sql::StatementView;
use crate::sql::DELETE_EVENTS;
use crate::sql::DELETE_SESSION;
use crate::text::blank;
use crate::timestamp::Timestamp;

verus! {

/// Whether the session is to be stored with all that it then holds.
pub open spec fn is_storing(flow: FlowView, task: TaskView) -> bool {
    match flow.step {
        StepView::Do(EffectView::Store(statement), next) => next == task && stores_all(
            statement,
            flow.session.summary,
            flow.session.config,
        ),
        _ => false,
    }
}

/// Whether this is asked for, with the session untouched.
pub open spec fn is_asking(
    s: SessionView,
    flow: FlowView,
    effect: EffectView,
    task: TaskView,
) -> bool {
    flow.session == s && flow.step == StepView::Do(effect, task)
}

/// Whether the operation is over with this reply, with the session untouched.
pub open spec fn is_replying(s: SessionView, flow: FlowView, reply: ReplyView) -> bool {
    flow.session == s && flow.step == StepView::End(reply)
}

/// Whether the operation is over with a refusal, with the session untouched.
pub open spec fn is_refusing(
    s: SessionView,
    flow: FlowView,
    code: u16,
    message: Seq<char>,
) -> bool {
    &&& flow.session == s
    &&& match flow.step {
        StepView::End(ReplyView::Refused(e)) => e.code == code && e.message == message,
        _ => false,
    }
}

/// Whether the statement removes the session's output.
pub open spec fn removes_output(statement: StatementView, id: u128) -> bool {
    &&& statement.sql == DELETE_EVENTS@
    &&& statement.params.len() == 1
    &&& statement.params[0] == SqlView::Text(id_text(id))
}

/// Whether the statements remove the session, its output first.
pub open spec fn removes_session(list: Seq<StatementView>, id: u128) -> bool {
    &&& list.len() == 2
    &&& removes_output(list[0], id)
    &&& list[1].sql == DELETE_SESSION@
    &&& list[1].params.len() == 1
    &&& list[1].params[0] == SqlView::Text(id_text(id))
}

/// Whether the session let go of its process, and nothing else happened to it.
pub open spec fn let_go(s: SessionView, t: SessionView) -> bool {
    &&& !t.has_runtime
    &&& t.generation == if s.generation == u64::MAX {
        0
    } else {
        s.generation + 1
    }
    &&& same_command(s, t) && same_name(s, t) && same_status(s, t)
    &&& same_output(s, t) && same_place(s, t) && same_times(s, t)
}

/// Whether the session was stopped, and its settings, its output and its place kept.
pub open spec fn is_stopped(s: SessionView, t: SessionView, now: Timestamp) -> bool {
    &&& t.summary.status == SessionStatus::Stopped
    &&& t.summary.pid is None && t.summary.exit_code is None
    &&& !t.has_runtime && active_at(t, now)
    &&& same_command(s, t) && same_name(s, t) && same_output(s, t) && same_place(s, t)
}

/// Whether the session was put into the archive, or taken from it, and all else kept.
pub open spec fn is_moved(s: SessionView, t: SessionView, archived: bool, now: Timestamp) -> bool {
    &&& t.summary.archived == archived
    &&& t.summary.updated_at == now
    &&& t.summary.last_activity_at == if archived {
        now
    } else {
        s.summary.last_activity_at
    }
    &&& t.summary.attached_clients == s.summary.attached_clients
    &&& same_command(s, t) && same_name(s, t) && same_status(s, t)
    &&& same_process(s, t) && same_output(s, t)
}

/// Whether another process was begun for the session, and all else kept.
pub open spec fn is_begun(s: SessionView, t: SessionView, now: Timestamp) -> bool {
    &&& t.summary.status == SessionStatus::Starting
    &&& t.summary.pid is None && t.summary.exit_code is None
    &&& t.has_runtime == s.has_runtime
    &&& t.generation == if s.generation == u64::MAX {
        0
    } else {
        s.generation + 1
    }
    &&& active_at(t, now)
    &&& same_command(s, t) && same_name(s, t) && same_output(s, t) && same_place(s, t)
}

/// Whether a process is begun: the session is stored as starting, and the operation
/// goes on with that generation.
pub open spec fn is_beginning(
    s: SessionView,
    flow: FlowView,
    purpose: Purpose,
    clear_history: bool,
    now: Timestamp,
) -> bool {
    &&& is_begun(s, flow.session, now)
    &&& is_storing(
        flow,
        TaskView::StartingStored { purpose, generation: flow.session.generation, clear_history },
    )
}

/// Whether the process runs, or is watched as one that was overtaken.
pub open spec fn is_running(
    s: SessionView,
    flow: FlowView,
    purpose: Purpose,
    generation: u64,
    pid: Option<u32>,
    now: Timestamp,
) -> bool {
    let t = flow.session;
    if generation == s.generation {
        &&& t.summary.status == SessionStatus::Running
        &&& t.summary.pid == pid
        &&& t.summary.exit_code is None
        &&& active_at(t, now)
        &&& same_command(s, t) && same_name(s, t) && same_process(s, t)
        &&& same_output(s, t) && same_place(s, t)
        &&& is_storing(flow, TaskView::RunningStored { purpose, generation })
    } else {
        is_asking(s, flow, EffectView::Watch { generation }, TaskView::Watched { purpose })
    }
}

/// Whether the process is the session's own shell, with all its arguments in order, in
/// its directory and in a terminal of the default size.
pub open spec fn is_own_command(
    command: CommandView,
    config: ConfigView,
    settings: Settings,
) -> bool {
    &&& command.program == config.shell
    &&& command.args.len() == config.args.len()
    &&& forall|i: int| 0 <= i < config.args.len() ==> #[trigger] command.args[i] == config.args[i]
    &&& command.cwd == config.cwd
    &&& command.term == "xterm-256color"@
    &&& command.cols == settings.default_cols
    &&& command.rows == settings.default_rows
}

/// Law: an outcome is a failure if and only if it says so, and tells the number of a
/// process that was started.
pub proof fn lemma_outcome(outcome: Outcome)
    ensures
        match outcome {
            Outcome::Done => failure(outcome) is None && started_pid(outcome) is None,
            Outcome::Started { pid } => failure(outcome) is None && started_pid(outcome) == pid,
            Outcome::Failed(message) => failure(outcome) == Some(message@) && started_pid(
                outcome,
            ) is None,
        },
{
}

/// Law: whatever a process is started for, it is begun in the same way, of a generation
/// of its own.
pub proof fn lemma_process_is_begun(
    s: SessionView,
    purpose: Purpose,
    clear_history: bool,
    now: Timestamp,
)
    ensures
        is_beginning(s, begins_process(s, purpose, clear_history, now), purpose, clear_history, now),
{
    lemma_all_is_stored(begins_process(s, purpose, clear_history, now).session);
}

/// Law: whatever a process is started for, creation, restart or recovery, it is the
/// session's own shell, with all of the session's arguments, in the session's directory,
/// in a terminal of the default size.
pub proof fn lemma_own_command_is_started(
    s: SessionView,
    settings: Settings,
    purpose: Purpose,
    generation: u64,
    clear_history: bool,
    outcome: Outcome,
    now: Timestamp,
)
    requires
        !(outcome is Failed),
    ensures
        ({
            let task = TaskView::StartingStored { purpose, generation, clear_history };
            let flow = resumes(s, settings, task, outcome, now);
            &&& flow.session == s
            &&& match flow.step {
                StepView::Do(EffectView::Start(command), next) => {
                    &&& is_own_command(command, s.config, settings)
                    &&& next == (TaskView::ProcessStarted { purpose, generation, clear_history })
                },
                _ => false,
            }
        }),
{
}

/// Law: a process that was started is taken over. Where the output starts afresh, what
/// is retained is forgotten and what is stored is removed; the session is otherwise
/// kept.
pub proof fn lemma_process_is_taken_over(
    s: SessionView,
    settings: Settings,
    purpose: Purpose,
    generation: u64,
    outcome: Outcome,
    now: Timestamp,
)
    requires
        !(outcome is Failed),
    ensures
        ({
            let pid = match outcome {
                Outcome::Started { pid } => pid,
                _ => None,
            };
            let task = TaskView::ProcessStarted { purpose, generation, clear_history: true };
            let flow = resumes(s, settings, task, outcome, now);
            let t = flow.session;
            &&& t.has_runtime && t.generation == s.generation
            &&& t.history.chunks.len() == 0 && t.history.max_bytes == s.history.max_bytes
            &&& t.next_seq == 0
            &&& same_command(s, t) && same_name(s, t) && same_status(s, t)
            &&& same_place(s, t) && same_times(s, t)
            &&& match flow.step {
                StepView::Do(EffectView::ClearOutput(statement), next) => removes_output(
                    statement,
                    s.summary.id,
                ) && next == (TaskView::OutputCleared { purpose, generation, pid }),
                _ => false,
            }
        }),
        ({
            let pid = match outcome {
                Outcome::Started { pid } => pid,
                _ => None,
            };
            let task = TaskView::ProcessStarted { purpose, generation, clear_history: false };
            let flow = resumes(s, settings, task, outcome, now);
            let ready = SessionView { has_runtime: true, ..s };
            is_running(ready, flow, purpose, generation, pid, now)
        }),
{
    let task = TaskView::ProcessStarted { purpose, generation, clear_history: false };
    lemma_all_is_stored(resumes(s, settings, task, outcome, now).session);
}

/// Law: a process whose earlier output was removed runs, and is stored so; one whose
/// output could not be removed is watched all the same.
pub proof fn lemma_process_runs(
    s: SessionView,
    settings: Settings,
    purpose: Purpose,
    generation: u64,
    pid: Option<u32>,
    outcome: Outcome,
    now: Timestamp,
)
    ensures
        ({
            let task = TaskView::OutputCleared { purpose, generation, pid };
            let flow = resumes(s, settings, task, outcome, now);
            if outcome is Failed {
                is_asking(s, flow, EffectView::Watch { generation }, TaskView::Watched { purpose })
            } else {
                is_running(s, flow, purpose, generation, pid, now)
            }
        }),
        is_asking(
            s,
            resumes(s, settings, TaskView::RunningStored { purpose, generation }, outcome, now),
            EffectView::Watch { generation },
            TaskView::Watched { purpose },
        ),
{
    let task = TaskView::OutputCleared { purpose, generation, pid };
    lemma_all_is_stored(resumes(s, settings, task, outcome, now).session);
}

/// Law: once a process is watched, a creation is answered with 201 and a restart with
/// 200, each with the session as it then is; a recovery is answered to nobody.
pub proof fn lemma_watched_is_answered(
    s: SessionView,
    settings: Settings,
    purpose: Purpose,
    outcome: Outcome,
    now: Timestamp,
)
    ensures
        is_replying(
            s,
            resumes(s, settings, TaskView::Watched { purpose }, outcome, now),
            match purpose {
                Purpose::Create => ReplyView::Session { code: 201, summary: s.summary },
                Purpose::Restart => ReplyView::Session { code: 200, summary: s.summary },
                Purpose::Recover => ReplyView::Silence,
            },
        ),
        is_replying(
            s,
            resumes(s, settings, TaskView::RecoveryStopped, outcome, now),
            ReplyView::Silence,
        ),
{
}

/// Law: a process that could not be started is given up: a new session is made unknown
/// and removed, and the reason replied; a restart replies the reason; a session that was
/// to be recovered is stopped, and stored so.
pub proof fn lemma_start_is_given_up(
    s: SessionView,
    settings: Settings,
    purpose: Purpose,
    generation: u64,
    clear_history: bool,
    started: bool,
    message: String,
    outcome: Outcome,
    now: Timestamp,
)
    ensures
        ({
            let task = if started {
                TaskView::ProcessStarted { purpose, generation, clear_history }
            } else {
                TaskView::StartingStored { purpose, generation, clear_history }
            };
            let flow = resumes(s, settings, task, Outcome::Failed(message), now);
            match purpose {
                Purpose::Create => is_asking(
                    s,
                    flow,
                    EffectView::Unregister,
                    TaskView::CreateUnregistered { message: message@ },
                ),
                Purpose::Restart => is_refusing(s, flow, 500, message@),
                Purpose::Recover => is_stopped(s, flow.session, now) && flow.session.generation
                    == s.generation && is_storing(flow, TaskView::RecoveryStopped),
            }
        }),
        ({
            let task = TaskView::CreateUnregistered { message: message@ };
            let flow = resumes(s, settings, task, outcome, now);
            &&& flow.session == s
            &&& match flow.step {
                StepView::Do(EffectView::Remove(list), next) => removes_session(list, s.summary.id)
                    && next == (TaskView::CreateRemoved { message: message@ }),
                _ => false,
            }
        }),
        is_refusing(
            s,
            resumes(s, settings, TaskView::CreateRemoved { message: message@ }, outcome, now),
            500,
            message@,
        ),
{
    lemma_all_is_stored(s.stopped(now));
}

/// Law: a session that is asked for has, in its settings and in its summary, the name,
/// the directory, the shell and the arguments of the request, and is stored so.
pub proof fn lemma_created_as_requested(
    req: CreateSessionRequest,
    id: u128,
    settings: Settings,
    now: Timestamp,
)
    ensures
        ({
            let s = SessionView::created(id, requested(req), settings.history_bytes as nat, now);
            let flow = stores(s, TaskView::CreateStored);
            &&& s.summary.id == id
            &&& s.summary.created_at == now
            &&& as_requested(s, req, settings)
            &&& s.config.name == req.name@ && s.summary.name == req.name@
            &&& s.config.cwd == req.cwd@ && s.summary.cwd == req.cwd@
            &&& s.config.shell == req.shell@ && s.summary.shell == req.shell@
            &&& s.config.args.len() == req.args@.len()
            &&& forall|i: int|
                0 <= i < req.args@.len() ==> #[trigger] s.config.args[i] == req.args@[i]@
            &&& s.summary.args == s.config.args
            &&& flow.session == s
            &&& is_storing(flow, TaskView::CreateStored)
        }),
{
    lemma_all_is_stored(
        SessionView::created(id, requested(req), settings.history_bytes as nat, now),
    );
}

/// Law: a session that was stored is made known, and then its process is begun; one that
/// could not be stored is not created.
pub proof fn lemma_creation_goes_on(
    s: SessionView,
    settings: Settings,
    outcome: Outcome,
    now: Timestamp,
)
    ensures
        ({
            let flow = resumes(s, settings, TaskView::CreateStored, outcome, now);
            match outcome {
                Outcome::Failed(message) => is_refusing(s, flow, 500, message@),
                _ => is_asking(s, flow, EffectView::Register, TaskView::CreateRegistered),
            }
        }),
        is_beginning(
            s,
            resumes(s, settings, TaskView::CreateRegistered, outcome, now),
            Purpose::Create,
            false,
            now,
        ),
{
    lemma_process_is_begun(s, Purpose::Create, false, now);
}

/// Law: the process that a creation starts is the one that was asked for: the request's
/// shell, with the request's arguments, in the request's directory.
pub proof fn lemma_created_process(
    req: CreateSessionRequest,
    id: u128,
    settings: Settings,
    stored: Outcome,
    now: Timestamp,
    later: Timestamp,
)
    requires
        !(stored is Failed),
    ensures
        ({
            let s = SessionView::created(id, requested(req), settings.history_bytes as nat, now);
            let begun = resumes(s, settings, TaskView::CreateRegistered, stored, now);
            let t = begun.session;
            let task = TaskView::StartingStored {
                purpose: Purpose::Create,
                generation: t.generation,
                clear_history: false,
            };
            match resumes(t, settings, task, stored, later).step {
                StepView::Do(EffectView::Start(command), _) => {
                    &&& command.program == req.shell@
                    &&& command.cwd == req.cwd@
                    &&& command.args.len() == req.args@.len()
                    &&& forall|i: int|
                        0 <= i < req.args@.len() ==> #[trigger] command.args[i] == req.args@[i]@
                    &&& command.cols == settings.default_cols
                    &&& command.rows == settings.default_rows
                },
                _ => false,
            }
        }),
{
}

/// Law: a session that is looked at is shown as it is.
pub proof fn lemma_get(s: SessionView, now: Timestamp)
    ensures
        is_replying(
            s,
            begins(s, Request::Get, now),
            ReplyView::Session { code: 200, summary: s.summary },
        ),
{
}

/// Law: a session that was changed and stored is replied as it was stored, and if it
/// could not be stored the reason is replied.
pub proof fn lemma_stored_is_replied(
    s: SessionView,
    settings: Settings,
    summary: SummaryView,
    outcome: Outcome,
    now: Timestamp,
)
    ensures
        ({
            let flow = resumes(s, settings, TaskView::SummaryStored { summary }, outcome, now);
            match outcome {
                Outcome::Failed(message) => is_refusing(s, flow, 500, message@),
                _ => is_replying(s, flow, ReplyView::Session { code: 200, summary }),
            }
        }),
{
}

/// Law: a session that is renamed has the new name in both places, is stored so, and is
/// replied so; all else of it stays. A blank name changes nothing.
pub proof fn lemma_rename(s: SessionView, req: PatchSessionRequest, now: Timestamp)
    ensures
        ({
            let flow = begins(s, Request::Rename(req), now);
            let t = flow.session;
            if blank(req.name@) {
                is_refusing(s, flow, 400, "name must not be empty"@)
            } else {
                &&& t.config.name == req.name@ && t.summary.name == req.name@
                &&& t.summary.updated_at == now
                &&& t.summary.last_activity_at == s.summary.last_activity_at
                &&& same_command(s, t) && same_status(s, t) && same_process(s, t)
                &&& same_output(s, t) && same_place(s, t)
                &&& is_storing(flow, TaskView::SummaryStored { summary: t.summary })
            }
        }),
{
    lemma_all_is_stored(s.renamed(req.name@, now));
}

/// Law: whatever its status, a session that is restored, and could be stored, is not
/// archived any more: in the session, in what is stored and in the reply; its status,
/// its exit code and its process are as before.
pub proof fn lemma_restore(
    s: SessionView,
    settings: Settings,
    outcome: Outcome,
    now: Timestamp,
    later: Timestamp,
)
    requires
        !(outcome is Failed),
    ensures
        ({
            let flow = begins(s, Request::Restore, now);
            let t = flow.session;
            &&& !t.summary.archived
            &&& is_moved(s, t, false, now)
            &&& is_storing(flow, TaskView::SummaryStored { summary: t.summary })
            &&& match flow.step {
                StepView::Do(EffectView::Store(statement), task) => {
                    &&& statement.params[8] == SqlView::Integer(0)
                    &&& is_replying(
                        t,
                        resumes(t, settings, task, outcome, later),
                        ReplyView::Session { code: 200, summary: t.summary },
                    )
                },
                _ => false,
            }
        }),
{
    lemma_all_is_stored(s.with_archived(false, now));
}

/// Law: a session that is archived is stopped before, if it is at work: its process is
/// let go of and killed, if it has one, and it is stored as stopped; then, and whatever
/// its status otherwise, it is archived and stored so, with all else kept.
pub proof fn lemma_archiving_goes_on(
    s: SessionView,
    settings: Settings,
    outcome: Outcome,
    now: Timestamp,
)
    ensures
        ({
            let flow = begins(s, Request::Archive, now);
            let t = flow.session;
            let at_work = s.summary.status == SessionStatus::Running || s.summary.status
                == SessionStatus::Starting;
            if !at_work {
                &&& is_moved(s, t, true, now)
                &&& is_storing(flow, TaskView::SummaryStored { summary: t.summary })
            } else if s.has_runtime {
                &&& let_go(s, t)
                &&& flow.step == StepView::Do(EffectView::Kill, TaskView::ArchiveKilled)
            } else {
                &&& is_stopped(s, t, now)
                &&& is_storing(flow, TaskView::ArchiveStopped)
            }
        }),
        ({
            let flow = resumes(s, settings, TaskView::ArchiveKilled, outcome, now);
            &&& is_stopped(s, flow.session, now)
            &&& flow.session.generation == s.generation
            &&& is_storing(flow, TaskView::ArchiveStopped)
        }),
        ({
            let flow = resumes(s, settings, TaskView::ArchiveStopped, outcome, now);
            match outcome {
                Outcome::Failed(message) => is_refusing(s, flow, 500, message@),
                _ => is_moved(s, flow.session, true, now) && is_storing(
                    flow,
                    TaskView::SummaryStored { summary: flow.session.summary },
                ),
            }
        }),
{
    lemma_all_is_stored(s.with_archived(true, now));
    lemma_all_is_stored(s.stopped(now));
    lemma_all_is_stored(s.released().stopped(now));
}

/// Law: a session that is to stop lets go of its process, which is killed if it has one,
/// is stored as stopped, whether or not the process could be killed, and is replied so.
pub proof fn lemma_stopping_goes_on(
    s: SessionView,
    settings: Settings,
    outcome: Outcome,
    now: Timestamp,
)
    ensures
        ({
            let flow = begins(s, Request::Stop, now);
            let t = flow.session;
            if s.has_runtime {
                &&& let_go(s, t)
                &&& flow.step == StepView::Do(EffectView::Kill, TaskView::StopKilled)
            } else {
                &&& is_stopped(s, t, now)
                &&& t.generation != s.generation
                &&& is_storing(flow, TaskView::StopStored)
            }
        }),
        ({
            let flow = resumes(s, settings, TaskView::StopKilled, outcome, now);
            &&& is_stopped(s, flow.session, now)
            &&& flow.session.generation == s.generation
            &&& is_storing(flow, TaskView::StopStored)
        }),
        ({
            let flow = resumes(s, settings, TaskView::StopStored, outcome, now);
            match outcome {
                Outcome::Failed(message) => is_refusing(s, flow, 500, message@),
                _ => is_replying(
                    s,
                    flow,
                    ReplyView::Session { code: 200, summary: s.summary },
                ),
            }
        }),
{
    lemma_all_is_stored(s.stopped(now));
    lemma_all_is_stored(s.released().stopped(now));
}

/// Law: a session that is to restart lets go of its process, which is killed if it has
/// one, and another is begun, whether or not that one could be killed, with output that
/// starts afresh. An archived session is not restarted.
pub proof fn lemma_restarting_goes_on(
    s: SessionView,
    settings: Settings,
    outcome: Outcome,
    now: Timestamp,
)
    ensures
        ({
            let flow = begins(s, Request::Restart, now);
            let t = flow.session;
            if s.summary.archived {
                is_refusing(s, flow, 400, "cannot restart an archived session"@)
            } else if s.has_runtime {
                &&& let_go(s, t)
                &&& flow.step == StepView::Do(EffectView::Kill, TaskView::RestartKilled)
            } else {
                let gone = SessionView {
                    generation: if s.generation == u64::MAX {
                        0
                    } else {
                        (s.generation + 1) as u64
                    },
                    ..s
                };
                is_beginning(gone, flow, Purpose::Restart, true, now)
            }
        }),
        is_beginning(
            s,
            resumes(s, settings, TaskView::RestartKilled, outcome, now),
            Purpose::Restart,
            true,
            now,
        ),
{
    lemma_process_is_begun(s, Purpose::Restart, true, now);
    lemma_process_is_begun(s.released(), Purpose::Restart, true, now);
}

/// Law: a session is deleted by removing it from the database, with its output, making
/// it unknown and killing its process, in this order; a removal that fails leaves it as
/// it is, and nothing after it makes the deletion fail.
pub proof fn lemma_deleting_goes_on(
    s: SessionView,
    settings: Settings,
    outcome: Outcome,
    now: Timestamp,
)
    ensures
        ({
            let flow = begins(s, Request::Delete, now);
            &&& flow.session == s
            &&& match flow.step {
                StepView::Do(EffectView::Remove(list), task) => removes_session(list, s.summary.id)
                    && task == TaskView::DeleteRemoved,
                _ => false,
            }
        }),
        ({
            let flow = resumes(s, settings, TaskView::DeleteRemoved, outcome, now);
            match outcome {
                Outcome::Failed(message) => is_refusing(s, flow, 500, message@),
                _ => is_asking(s, flow, EffectView::Unregister, TaskView::DeleteUnregistered),
            }
        }),
        ({
            let flow = resumes(s, settings, TaskView::DeleteUnregistered, outcome, now);
            &&& let_go(s, flow.session)
            &&& flow.step == if s.has_runtime {
                StepView::Do(EffectView::Kill, TaskView::DeleteKilled)
            } else {
                StepView::End(ReplyView::Empty { code: 204 })
            }
        }),
        is_replying(
            s,
            resumes(s, settings, TaskView::DeleteKilled, outcome, now),
            ReplyView::Empty { code: 204 },
        ),
        removes_session(removal(s.summary.id), s.summary.id),
{
}

/// Law: a request for a session that there is not is answered with 404, whatever is
/// asked, but for a blank name, which is answered with 400.
pub proof fn lemma_missing(request: Request)
    ensures
        ({
            let e = missing(request);
            let unnamed = match request {
                Request::Rename(req) => blank(req.name@),
                _ => false,
            };
            &&& unnamed ==> e.code == 400 && e.message == "name must not be empty"@
            &&& !unnamed ==> e.code == 404 && e.message == "session not found"@
        }),
{
}

/// Law: a number for a process is needed where one is begun, and nowhere else.
pub proof fn lemma_numbers(s: SessionView, request: Request, task: TaskView)
    ensures
        numbers_at_once(s, request) <==> request is Restart && !s.summary.archived
            && !s.has_runtime,
        numbers_next(task) <==> task is CreateRegistered || task is RestartKilled,
{
}

/// Law: the views of effects, replies, steps and tasks show what they hold.
pub proof fn lemma_steps_shown(effect: Effect, reply: Reply, step: Step, task: Task)
    ensures
        match effect {
            Effect::Store(statement) => effect@ == EffectView::Store(statement@),
            Effect::Remove(list) => match effect@ {
                EffectView::Remove(shown) => shown.len() == list@.len() && forall|i: int|
                    0 <= i < shown.len() ==> #[trigger] shown[i] == list@[i]@,
                _ => false,
            },
            Effect::ClearOutput(statement) => effect@ == EffectView::ClearOutput(statement@),
            Effect::Register => effect@ == EffectView::Register,
            Effect::Unregister => effect@ == EffectView::Unregister,
            Effect::Kill => effect@ == EffectView::Kill,
            Effect::Start(command) => effect@ == EffectView::Start(command@),
            Effect::Watch { generation } => effect@ == (EffectView::Watch { generation }),
        },
        match reply {
            Reply::Session { code, summary } => reply@ == (ReplyView::Session {
                code,
                summary: summary@,
            }),
            Reply::Empty { code } => reply@ == (ReplyView::Empty { code }),
            Reply::Refused(e) => reply@ == ReplyView::Refused(e@),
            Reply::Silence => reply@ == ReplyView::Silence,
        },
        match step {
            Step::Do(e, t) => step@ == StepView::Do(e@, t@),
            Step::End(r) => step@ == StepView::End(r@),
        },
        match task {
            Task::CreateStored => task@ == TaskView::CreateStored,
            Task::CreateRegistered => task@ == TaskView::CreateRegistered,
            Task::CreateUnregistered { message } => task@ == (TaskView::CreateUnregistered {
                message: message@,
            }),
            Task::CreateRemoved { message } => task@ == (TaskView::CreateRemoved {
                message: message@,
            }),
            Task::StartingStored { purpose, generation, clear_history } => task@ == (
            TaskView::StartingStored { purpose, generation, clear_history }),
            Task::ProcessStarted { purpose, generation, clear_history } => task@ == (
            TaskView::ProcessStarted { purpose, generation, clear_history }),
            Task::OutputCleared { purpose, generation, pid } => task@ == (TaskView::OutputCleared {
                purpose,
                generation,
                pid,
            }),
            Task::RunningStored { purpose, generation } => task@ == (TaskView::RunningStored {
                purpose,
                generation,
            }),
            Task::Watched { purpose } => task@ == (TaskView::Watched { purpose }),
            Task::RecoveryStopped => task@ == TaskView::RecoveryStopped,
            Task::DeleteRemoved => task@ == TaskView::DeleteRemoved,
            Task::DeleteUnregistered => task@ == TaskView::DeleteUnregistered,
            Task::DeleteKilled => task@ == TaskView::DeleteKilled,
            Task::RestartKilled => task@ == TaskView::RestartKilled,
            Task::StopKilled => task@ == TaskView::StopKilled,
            Task::StopStored => task@ == TaskView::StopStored,
            Task::ArchiveKilled => task@ == TaskView::ArchiveKilled,
            Task::ArchiveStopped => task@ == TaskView::ArchiveStopped,
            Task::SummaryStored { summary } => task@ == (TaskView::SummaryStored {
                summary: summary@,
            }),
        },
{
}

} // verus!
