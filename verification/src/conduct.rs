//! Laws of the operations: how they end, what they leave behind, and what they do not
//! touch.

use vstd::prelude::*;

use crate::api::bad_request_view;
use crate::api::internal_view;
use crate::api::not_found_view;
use crate::api::rename_fault;
use crate::lifecycle::lemma_survives_restart;
use crate::operation::asks;
use crate::operation::begins;
use crate::operation::begins_process;
use crate::operation::failure;
use crate::operation::missing;
use crate::operation::process_runs;
use crate::operation::process_started;
use crate::operation::process_watched;
use crate::operation::removal;
use crate::operation::replies;
use crate::operation::replies_when_stored;
use crate::operation::resumes;
use crate::operation::started_pid;
use crate::operation::stores;
use crate::operation::watches;
use crate::operation::EffectView;
use crate::operation::FlowView;
use crate::operation::Outcome;
use crate::operation::Purpose;
use crate::operation::ReplyView;
use crate::operation::Request;
use crate::operation::Settings;
use crate::operation::StepView;
use crate::operation::TaskView;
use crate::operation::CREATED;
use crate::operation::NO_CONTENT;
use crate::operation::OK;
use crate::process::command_view;
use crate::proto::SessionStatus;
use crate::session::following;
use crate::session::SessionView;
use crate::storage::as_stored;
use crate::timestamp::Timestamp;

verus! {

/// What came of an effect, and when.
pub struct Report {
    pub outcome: Outcome,
    pub now: Timestamp,
}

/// An operation that is resumed with each of the reports in turn, as long as it asks
/// for something.
#[verifier::opaque]
pub open spec fn follows(flow: FlowView, settings: Settings, reports: Seq<Report>) -> FlowView
    decreases reports.len(),
{
    if reports.len() == 0 {
        flow
    } else {
        match flow.step {
            StepView::End(_) => flow,
            StepView::Do(_, task) => follows(
                resumes(flow.session, settings, task, reports[0].outcome, reports[0].now),
                settings,
                reports.drop_first(),
            ),
        }
    }
}

/// Whether the effect did not fail.
pub open spec fn done(report: Report) -> bool {
    failure(report.outcome) is None
}

/// Whether nothing failed that a process needs to run: the session was stored as
/// starting, the process was started and, where the output starts afresh, the earlier
/// output was removed. What is reported later is only noted.
pub open spec fn all_started(reports: Seq<Report>, clear_history: bool) -> bool {
    &&& done(reports[0])
    &&& done(reports[1])
    &&& clear_history ==> done(reports[2])
}

/// How many effects an operation that stands here asks for at most before it ends,
/// the one that it waits for among them.
pub open spec fn remaining(task: TaskView) -> nat {
    match task {
        TaskView::CreateStored => 6,
        TaskView::CreateRegistered => 5,
        TaskView::CreateUnregistered { message } => 2,
        TaskView::CreateRemoved { message } => 1,
        TaskView::StartingStored { purpose, generation, clear_history } => if clear_history {
            5
        } else {
            4
        },
        TaskView::ProcessStarted { purpose, generation, clear_history } => if clear_history {
            4
        } else {
            3
        },
        TaskView::OutputCleared { purpose, generation, pid } => 3,
        TaskView::RunningStored { purpose, generation } => 2,
        TaskView::Watched { purpose } => 1,
        TaskView::RecoveryStopped => 1,
        TaskView::DeleteRemoved => 3,
        TaskView::DeleteUnregistered => 2,
        TaskView::DeleteKilled => 1,
        TaskView::RestartKilled => 6,
        TaskView::StopKilled => 2,
        TaskView::StopStored => 1,
        TaskView::ArchiveKilled => 3,
        TaskView::ArchiveStopped => 2,
        TaskView::SummaryStored { summary } => 1,
    }
}

/// How many effects are asked for at most from here on.
pub open spec fn ahead(flow: FlowView) -> nat {
    match flow.step {
        StepView::Do(_, task) => remaining(task),
        StepView::End(_) => 0,
    }
}

proof fn lemma_progress(flow: FlowView, settings: Settings, report: Report)
    ensures
        flow.step matches StepView::Do(_, task) ==> ahead(
            resumes(flow.session, settings, task, report.outcome, report.now),
        ) < ahead(flow),
{
}

/// One report: the operation is resumed with it.
proof fn lemma_follow(flow: FlowView, settings: Settings, reports: Seq<Report>)
    requires
        reports.len() > 0,
        flow.step is Do,
    ensures
        follows(flow, settings, reports) == follows(
            resumes(
                flow.session,
                settings,
                flow.step->Do_1,
                reports[0].outcome,
                reports[0].now,
            ),
            settings,
            reports.drop_first(),
        ),
{
    reveal_with_fuel(follows, 1);
}

/// An operation that is over takes no more reports.
proof fn lemma_over(flow: FlowView, settings: Settings, reports: Seq<Report>)
    requires
        flow.step is End,
    ensures
        follows(flow, settings, reports) == flow,
{
    reveal_with_fuel(follows, 1);
}

/// A process that was started runs in the end.
proof fn lemma_running(
    s: SessionView,
    settings: Settings,
    purpose: Purpose,
    pid: Option<u32>,
    now: Timestamp,
    reports: Seq<Report>,
)
    requires
        reports.len() >= 2,
    ensures
        follows(process_runs(s, purpose, s.generation, pid, now), settings, reports)
            == process_watched(s.running(s.generation, pid, now), purpose),
{
    let t = s.running(s.generation, pid, now);
    let rest = reports.drop_first();
    lemma_follow(process_runs(s, purpose, s.generation, pid, now), settings, reports);
    lemma_follow(watches(t, purpose, s.generation), settings, rest);
    lemma_over(process_watched(t, purpose), settings, rest.drop_first());
}

/// A process that is begun, if it starts, runs in the end.
proof fn lemma_process(
    s: SessionView,
    settings: Settings,
    purpose: Purpose,
    clear_history: bool,
    reports: Seq<Report>,
)
    requires
        reports.len() >= 5 || (reports.len() >= 4 && !clear_history),
        all_started(reports, clear_history),
    ensures
        ({
            let task = TaskView::StartingStored {
                purpose,
                generation: s.generation,
                clear_history,
            };
            let end = follows(stores(s, task), settings, reports);
            &&& end.session.summary.status == SessionStatus::Running
            &&& end.session.has_runtime
            &&& end.session.config == s.config
            &&& end.session.generation == s.generation
            &&& end.session.history == if clear_history {
                s.history.cleared()
            } else {
                s.history
            }
            &&& end.session.next_seq == if clear_history {
                0
            } else {
                s.next_seq
            }
            &&& end.step == process_watched(end.session, purpose).step
        }),
{
    let generation = s.generation;
    let r1 = reports.drop_first();
    let r2 = r1.drop_first();
    let r3 = r2.drop_first();
    lemma_follow(
        stores(s, TaskView::StartingStored { purpose, generation, clear_history }),
        settings,
        reports,
    );
    let command = command_view(s.config, settings.default_cols, settings.default_rows);
    let started = TaskView::ProcessStarted { purpose, generation, clear_history };
    lemma_follow(asks(s, EffectView::Start(command), started), settings, r1);
    let pid = started_pid(r1[0].outcome);
    let ready = s.with_runtime();
    if clear_history {
        let emptied = ready.without_output();
        let clears = process_started(s, purpose, generation, true, pid, r1[0].now);
        lemma_follow(clears, settings, r2);
        lemma_running(emptied, settings, purpose, pid, r2[0].now, r3);
    } else {
        lemma_running(ready, settings, purpose, pid, r1[0].now, r2);
    }
}

/// Law: an operation that is told what came of each effect ends, whatever came of
/// them, after at most six effects.
pub proof fn lemma_operations_end(flow: FlowView, settings: Settings, reports: Seq<Report>)
    requires
        reports.len() >= ahead(flow),
    ensures
        follows(flow, settings, reports).step is End,
        forall|s: SessionView, request: Request, now: Timestamp|
            ahead(#[trigger] begins(s, request, now)) <= 6,
        forall|s: SessionView| ahead(#[trigger] stores(s, TaskView::CreateStored)) <= 6,
        forall|s: SessionView, now: Timestamp|
            ahead(#[trigger] begins_process(s, Purpose::Recover, false, now)) <= 6,
    decreases reports.len(),
{
    reveal_with_fuel(follows, 1);
    if reports.len() > 0 {
        match flow.step {
            StepView::Do(_, task) => {
                lemma_progress(flow, settings, reports[0]);
                lemma_operations_end(
                    resumes(flow.session, settings, task, reports[0].outcome, reports[0].now),
                    settings,
                    reports.drop_first(),
                );
            },
            StepView::End(_) => {},
        }
    }
}

/// Law: a request for a session that there is not is answered with 404, except that an
/// empty name is answered with 400.
pub proof fn lemma_missing_session(request: Request)
    ensures
        missing(request) == match request {
            Request::Rename(req) if rename_fault(req) is Some => {
                bad_request_view("name must not be empty"@)
            },
            _ => not_found_view(),
        },
{
}

/// Law: a request that is refused at once changes nothing; that happens to an empty
/// name and to the restart of an archived session, and to nothing else.
pub proof fn lemma_refused_changes_nothing(s: SessionView, request: Request, now: Timestamp)
    ensures
        ({
            let flow = begins(s, request, now);
            let refused = match request {
                Request::Rename(req) => rename_fault(req) is Some,
                Request::Restart => s.summary.archived,
                _ => false,
            };
            let is_refusal = match flow.step {
                StepView::End(ReplyView::Refused(e)) => true,
                _ => false,
            };
            &&& refused <==> is_refusal
            &&& refused ==> flow.session == s
        }),
{
}

/// Law: whenever an operation has the session stored, it is stored as it then is.
pub proof fn lemma_stored_as_it_is(
    s: SessionView,
    settings: Settings,
    request: Request,
    task: TaskView,
    outcome: Outcome,
    now: Timestamp,
)
    ensures
        ({
            let flow = begins(s, request, now);
            flow.step matches StepView::Do(EffectView::Store(statement), _) ==> statement
                == flow.session.storing()
        }),
        ({
            let flow = resumes(s, settings, task, outcome, now);
            flow.step matches StepView::Do(EffectView::Store(statement), _) ==> statement
                == flow.session.storing()
        }),
{
}

/// What no operation changes: which session it is, what it runs, how much output it
/// may retain, and how many clients are attached.
pub open spec fn same_session(s: SessionView, t: SessionView) -> bool {
    &&& t.summary.id == s.summary.id
    &&& t.summary.created_at == s.summary.created_at
    &&& t.summary.attached_clients == s.summary.attached_clients
    &&& t.config.cwd == s.config.cwd
    &&& t.config.shell == s.config.shell
    &&& t.config.args == s.config.args
    &&& t.history.max_bytes == s.history.max_bytes
    &&& s.consistent() ==> t.consistent()
}

/// Law: an operation never turns a session into another, and touches its output only
/// to start it afresh: the output stays but where a restart has begun a new process.
pub proof fn lemma_operations_keep(
    s: SessionView,
    settings: Settings,
    request: Request,
    task: TaskView,
    outcome: Outcome,
    now: Timestamp,
)
    ensures
        ({
            let t = begins(s, request, now).session;
            &&& same_session(s, t)
            &&& t.history == s.history
            &&& t.next_seq == s.next_seq
        }),
        ({
            let t = resumes(s, settings, task, outcome, now).session;
            let afresh = match task {
                TaskView::ProcessStarted { purpose, generation, clear_history } => clear_history
                    && failure(outcome) is None,
                _ => false,
            };
            &&& same_session(s, t)
            &&& if afresh {
                t.history == s.history.cleared() && t.next_seq == 0
            } else {
                t.history == s.history && t.next_seq == s.next_seq
            }
        }),
{
}

/// Law: a session that was asked to stop has no process and is stopped, whatever
/// fails; what the process still reports comes from an earlier generation. The reply is
/// the session, or why it could not be stored.
pub proof fn lemma_stop(s: SessionView, now: Timestamp, settings: Settings, reports: Seq<Report>)
    requires
        reports.len() >= 2,
    ensures
        ({
            let end = follows(begins(s, Request::Stop, now), settings, reports);
            &&& end.session.summary.status == SessionStatus::Stopped
            &&& !end.session.has_runtime
            &&& end.session.generation == following(s.generation)
            &&& end.session.generation != s.generation
            &&& end.step == StepView::End(
                match failure(reports[if s.has_runtime {
                    1
                } else {
                    0int
                }].outcome) {
                    Some(message) => ReplyView::Refused(internal_view(message)),
                    None => ReplyView::Session { code: OK, summary: end.session.summary },
                },
            )
        }),
{
    let flow = begins(s, Request::Stop, now);
    lemma_follow(flow, settings, reports);
    let next = resumes(
        flow.session,
        settings,
        flow.step->Do_1,
        reports[0].outcome,
        reports[0].now,
    );
    let rest = reports.drop_first();
    if s.has_runtime {
        lemma_follow(next, settings, rest);
        let end = resumes(
            next.session,
            settings,
            TaskView::StopStored,
            rest[0].outcome,
            rest[0].now,
        );
        lemma_over(end, settings, rest.drop_first());
    } else {
        lemma_over(next, settings, rest);
    }
}

/// A session that is archived, if it is stored, is the reply.
proof fn lemma_archived(s: SessionView, settings: Settings, now: Timestamp, reports: Seq<Report>)
    requires
        reports.len() >= 1,
        done(reports[0]),
    ensures
        ({
            let t = s.with_archived(true, now);
            let reply = ReplyView::Session { code: OK, summary: t.summary };
            follows(replies_when_stored(t), settings, reports) == replies(t, reply)
        }),
{
    let t = s.with_archived(true, now);
    lemma_follow(replies_when_stored(t), settings, reports);
    let reply = ReplyView::Session { code: OK, summary: t.summary };
    lemma_over(replies(t, reply), settings, reports.drop_first());
}

proof fn lemma_stopped_to_archive(s: SessionView, settings: Settings, reports: Seq<Report>)
    requires
        reports.len() >= 2,
        done(reports[0]),
        done(reports[1]),
    ensures
        ({
            let t = s.with_archived(true, reports[0].now);
            let reply = ReplyView::Session { code: OK, summary: t.summary };
            follows(stores(s, TaskView::ArchiveStopped), settings, reports) == replies(t, reply)
        }),
{
    lemma_follow(stores(s, TaskView::ArchiveStopped), settings, reports);
    assert(reports.drop_first()[0] == reports[1]);
    lemma_archived(s, settings, reports[0].now, reports.drop_first());
}

/// Law: a session that was archived, and could be stored, is in the archive and no
/// process is at work for it, and that is the reply; it does not matter whether its
/// process could be killed.
pub proof fn lemma_archive(
    s: SessionView,
    now: Timestamp,
    settings: Settings,
    reports: Seq<Report>,
)
    requires
        reports.len() >= 3,
        !s.summary.active() ==> done(reports[0]),
        s.summary.active() && !s.has_runtime ==> done(reports[0]) && done(reports[1]),
        s.summary.active() && s.has_runtime ==> done(reports[1]) && done(reports[2]),
    ensures
        ({
            let end = follows(begins(s, Request::Archive, now), settings, reports);
            &&& end.session.summary.archived
            &&& !end.session.summary.active()
            &&& s.summary.active() ==> !end.session.has_runtime
            &&& end.step == StepView::End(
                ReplyView::Session { code: OK, summary: end.session.summary },
            )
        }),
{
    let flow = begins(s, Request::Archive, now);
    if !s.summary.active() {
        lemma_archived(s, settings, now, reports);
    } else if s.has_runtime {
        lemma_follow(flow, settings, reports);
        let stopped = s.released().stopped(reports[0].now);
        assert(reports.drop_first()[0] == reports[1]);
        assert(reports.drop_first()[1] == reports[2]);
        lemma_stopped_to_archive(stopped, settings, reports.drop_first());
    } else {
        lemma_stopped_to_archive(flow.session, settings, reports);
    }
}

/// Law: a restart whose process starts leaves it running, of a later generation and
/// with output that starts afresh; it does not matter whether the earlier process could
/// be killed.
pub proof fn lemma_restart(
    s: SessionView,
    now: Timestamp,
    settings: Settings,
    reports: Seq<Report>,
)
    requires
        !s.summary.archived,
        s.generation < u64::MAX - 1,
        reports.len() >= 6,
        all_started(
            if s.has_runtime {
                reports.drop_first()
            } else {
                reports
            },
            true,
        ),
    ensures
        ({
            let end = follows(begins(s, Request::Restart, now), settings, reports);
            &&& end.session.summary.status == SessionStatus::Running
            &&& end.session.has_runtime
            &&& end.session.generation == s.generation + 2
            &&& end.session.history.chunks.len() == 0
            &&& end.session.next_seq == 0
            &&& end.step == StepView::End(
                ReplyView::Session { code: OK, summary: end.session.summary },
            )
        }),
{
    let flow = begins(s, Request::Restart, now);
    if s.has_runtime {
        lemma_follow(flow, settings, reports);
        let begun = begins_process(s.released(), Purpose::Restart, true, reports[0].now);
        lemma_process(begun.session, settings, Purpose::Restart, true, reports.drop_first());
    } else {
        lemma_process(flow.session, settings, Purpose::Restart, true, reports);
    }
}

/// Law: a session that was created, stored and whose process starts runs, and is the
/// reply.
pub proof fn lemma_create(s: SessionView, settings: Settings, reports: Seq<Report>)
    requires
        reports.len() >= 6,
        done(reports[0]),
        all_started(reports.skip(2), false),
    ensures
        ({
            let end = follows(stores(s, TaskView::CreateStored), settings, reports);
            &&& end.session.summary.status == SessionStatus::Running
            &&& end.session.has_runtime
            &&& end.session.history == s.history
            &&& end.step == StepView::End(
                ReplyView::Session { code: CREATED, summary: end.session.summary },
            )
        }),
{
    let flow = stores(s, TaskView::CreateStored);
    lemma_follow(flow, settings, reports);
    let r1 = reports.drop_first();
    let registers = resumes(
        s,
        settings,
        TaskView::CreateStored,
        reports[0].outcome,
        reports[0].now,
    );
    lemma_follow(registers, settings, r1);
    let begun = begins_process(s, Purpose::Create, false, r1[0].now);
    assert(r1.drop_first() =~= reports.skip(2));
    lemma_process(begun.session, settings, Purpose::Create, false, r1.drop_first());
}

/// Law: a creation whose process could not be started leaves nothing behind: the
/// session is made unknown, then removed from the database, and the reply gives the
/// reason why the process could not be started.
pub proof fn lemma_failed_creation(
    s: SessionView,
    settings: Settings,
    task: TaskView,
    failed: Report,
    unregistered: Report,
    removed: Report,
)
    requires
        failure(failed.outcome) is Some,
        match task {
            TaskView::StartingStored { purpose, generation, clear_history } => purpose
                == Purpose::Create,
            TaskView::ProcessStarted { purpose, generation, clear_history } => purpose
                == Purpose::Create,
            _ => false,
        },
    ensures
        ({
            let message = failure(failed.outcome)->0;
            let first = resumes(s, settings, task, failed.outcome, failed.now);
            let given_up = TaskView::CreateUnregistered { message };
            let second = resumes(s, settings, given_up, unregistered.outcome, unregistered.now);
            let cleaned = TaskView::CreateRemoved { message };
            let third = resumes(s, settings, cleaned, removed.outcome, removed.now);
            &&& first.session == s
            &&& first.step == StepView::Do(EffectView::Unregister, given_up)
            &&& second.session == s
            &&& second.step == StepView::Do(EffectView::Remove(removal(s.summary.id)), cleaned)
            &&& third.step == StepView::End(ReplyView::Refused(internal_view(message)))
        }),
{
}

/// Law: a session that cannot be removed from the database stays as it is, with its
/// process; otherwise it is made unknown, and only then its process is killed. Nothing
/// that happens after the removal makes the deletion fail.
pub proof fn lemma_delete(
    s: SessionView,
    now: Timestamp,
    settings: Settings,
    removed: Report,
    reports: Seq<Report>,
)
    requires
        reports.len() >= 2,
    ensures
        ({
            let flow = begins(s, Request::Delete, now);
            let next = resumes(
                s,
                settings,
                TaskView::DeleteRemoved,
                removed.outcome,
                removed.now,
            );
            &&& flow.session == s
            &&& flow.step == StepView::Do(
                EffectView::Remove(removal(s.summary.id)),
                TaskView::DeleteRemoved,
            )
            &&& next.session == s
            &&& match failure(removed.outcome) {
                Some(message) => next.step == StepView::End(
                    ReplyView::Refused(internal_view(message)),
                ),
                None => {
                    let end = follows(next, settings, reports);
                    &&& next.step == StepView::Do(
                        EffectView::Unregister,
                        TaskView::DeleteUnregistered,
                    )
                    &&& !end.session.has_runtime
                    &&& end.step == StepView::End(ReplyView::Empty { code: NO_CONTENT })
                },
            }
        }),
{
    let next = resumes(s, settings, TaskView::DeleteRemoved, removed.outcome, removed.now);
    if next.step is Do {
        lemma_follow(next, settings, reports);
        let rest = reports.drop_first();
        let then = resumes(
            s,
            settings,
            TaskView::DeleteUnregistered,
            reports[0].outcome,
            reports[0].now,
        );
        if s.has_runtime {
            lemma_follow(then, settings, rest);
            let end = replies(s.released(), ReplyView::Empty { code: NO_CONTENT });
            lemma_over(end, settings, rest.drop_first());
        } else {
            lemma_over(then, settings, rest);
        }
    }
}

/// Whether the session is stopped, and stored so, with the output that `s` had.
pub open spec fn gives_up(s: SessionView, flow: FlowView) -> bool {
    &&& flow.session.summary.status == SessionStatus::Stopped
    &&& !flow.session.has_runtime
    &&& flow.session.history == s.history
    &&& flow.session.next_seq == s.next_seq
    &&& flow.step == StepView::Do(
        EffectView::Store(flow.session.storing()),
        TaskView::RecoveryStopped,
    )
}

/// Law: a session that was at work when the server went down, and whose row and output
/// were stored, is set to work again when the server comes up: it runs, with the output
/// that it had, and goes on numbering its output where it left off. If no process can
/// be started for it, it is stopped.
pub proof fn lemma_recovery(
    s: SessionView,
    now: Timestamp,
    settings: Settings,
    reports: Seq<Report>,
    failed: Report,
)
    requires
        s.history.bounded(),
        s.gapless(),
        s.history.chunks.len() > 0 || s.next_seq == 0,
        s.summary.recovers(),
        reports.len() >= 4,
        all_started(reports, false),
        failure(failed.outcome) is Some,
    ensures
        ({
            let stored = as_stored(s.summary, s.config);
            let back = SessionView::restored(stored, s.history.max_bytes, s.history.chunks);
            let flow = begins_process(back, Purpose::Recover, false, now);
            let end = follows(flow, settings, reports);
            let first = flow.step->Do_1;
            let begun = resumes(
                flow.session,
                settings,
                first,
                reports[0].outcome,
                reports[0].now,
            );
            let second = begun.step->Do_1;
            &&& stored.summary.recovers()
            &&& end.session.summary.status == SessionStatus::Running
            &&& end.session.has_runtime
            &&& end.session.config == s.config
            &&& end.session.history == s.history
            &&& end.session.next_seq == s.next_seq
            &&& end.step == StepView::End(ReplyView::Silence)
            &&& begun.step is Do
            &&& gives_up(
                s,
                resumes(flow.session, settings, first, failed.outcome, failed.now),
            )
            &&& gives_up(
                s,
                resumes(begun.session, settings, second, failed.outcome, failed.now),
            )
        }),
{
    lemma_survives_restart(s);
    let flow = begins_process(s.after_restart(), Purpose::Recover, false, now);
    lemma_process(flow.session, settings, Purpose::Recover, false, reports);
}

} // verus!
