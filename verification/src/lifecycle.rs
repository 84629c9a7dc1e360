//! Laws of a session's life: what each change keeps, what an earlier process can no
//! longer touch, and what a client that comes back is shown.

use vstd::prelude::*;

use crate::history::clip;
use crate::history::lemma_evict;
use crate::history::lemma_push_gapless;
use crate::history::lemma_push_keeps_latest;
use crate::history::lemma_reload;
use crate::history::lemma_replay_resumes;
use crate::history::EventView;
use crate::history::HistoryView;
use crate::proto::SessionStatus;
use crate::session::SessionView;
use crate::storage::as_stored;
use crate::record::PersistedView;
use crate::timestamp::Timestamp;

verus! {

/// A change of a session, with what it is made from.
pub enum Change {
    Rename { name: Seq<char>, now: Timestamp },
    Archive { archived: bool, now: Timestamp },
    Attach { now: Timestamp },
    Detach { now: Timestamp },
    Touch { now: Timestamp },
    Release,
    Advance,
    InstallRuntime,
    ForgetOutput,
    Starting { generation: u64, now: Timestamp },
    Running { generation: u64, pid: Option<u32>, now: Timestamp },
    Exited { generation: u64, exit_code: u32, now: Timestamp },
    Stopped { now: Timestamp },
    Output { generation: u64, data: Seq<u8>, now: Timestamp },
}

/// The session once the change is made.
pub open spec fn changed(s: SessionView, change: Change) -> SessionView {
    match change {
        Change::Rename { name, now } => s.renamed(name, now),
        Change::Archive { archived, now } => s.with_archived(archived, now),
        Change::Attach { now } => s.attached(now),
        Change::Detach { now } => s.detached(now),
        Change::Touch { now } => s.touched(now),
        Change::Release => s.released(),
        Change::Advance => s.advanced(),
        Change::InstallRuntime => s.with_runtime(),
        Change::ForgetOutput => s.without_output(),
        Change::Starting { generation, now } => s.starting(generation, now),
        Change::Running { generation, pid, now } => s.running(generation, pid, now),
        Change::Exited { generation, exit_code, now } => s.exited(generation, exit_code, now),
        Change::Stopped { now } => s.stopped(now),
        Change::Output { generation, data, now } => s.with_output(generation, data, now),
    }
}

/// Whether the change is possible: there is a sequence number for the output.
pub open spec fn possible(s: SessionView, change: Change) -> bool {
    match change {
        Change::Output { generation, data, now } => s.next_seq < u64::MAX,
        _ => true,
    }
}

/// Law: nothing changes which session it is, when it was created, what it runs or
/// how much output it may retain; its settings and its summary keep agreeing.
pub proof fn lemma_identity_kept(s: SessionView, change: Change)
    ensures
        changed(s, change).summary.id == s.summary.id,
        changed(s, change).summary.created_at == s.summary.created_at,
        changed(s, change).config.cwd == s.config.cwd,
        changed(s, change).config.shell == s.config.shell,
        changed(s, change).config.args == s.config.args,
        changed(s, change).history.max_bytes == s.history.max_bytes,
        s.consistent() ==> changed(s, change).consistent(),
{
}

/// Law: the retained output never exceeds its limit.
pub proof fn lemma_history_stays_bounded(s: SessionView, change: Change)
    requires
        s.history.bounded(),
    ensures
        changed(s, change).history.bounded(),
{
    match change {
        Change::Output { generation, data, now } => {
            lemma_push_keeps_latest(s.history, s.next_event(data));
        },
        _ => {},
    }
}

/// Law: the retained output always ends with the latest event and never has a gap.
pub proof fn lemma_history_stays_gapless(s: SessionView, change: Change)
    requires
        s.gapless(),
        s.history.bounded(),
        possible(s, change),
    ensures
        changed(s, change).gapless(),
{
    match change {
        Change::Output { generation, data, now } => {
            if s.takes_output(generation, data) {
                let event = s.next_event(data);
                lemma_push_gapless(s.history, event, s.next_seq);
                if s.history.max_bytes > 0 {
                    let all = s.history.chunks.push(clip(event, s.history.max_bytes));
                    lemma_evict(all, s.history.max_bytes);
                }
            }
        },
        _ => {},
    }
}

/// Law: sequence numbers only rise, until the output is forgotten; each output that
/// is taken in gets the next one.
pub proof fn lemma_sequence_rises(s: SessionView, change: Change)
    requires
        possible(s, change),
    ensures
        change is ForgetOutput || changed(s, change).next_seq >= s.next_seq,
        change matches Change::Output { generation, data, now } ==> (if s.takes_output(
            generation,
            data,
        ) {
            changed(s, change).next_seq == s.next_seq + 1
        } else {
            changed(s, change) == s
        }),
{
}

/// Law: what a process of another generation reports changes nothing.
pub proof fn lemma_stale_reports_ignored(s: SessionView, change: Change, other: u64)
    requires
        other != s.generation,
        match change {
            Change::Starting { generation, now } => generation == other,
            Change::Running { generation, pid, now } => generation == other,
            Change::Exited { generation, exit_code, now } => generation == other,
            Change::Output { generation, data, now } => generation == other,
            _ => false,
        },
    ensures
        changed(s, change) == s,
{
}

/// Law: once a session has let go of its process, or begun another, the earlier
/// process belongs to another generation.
pub proof fn lemma_release_outdates(s: SessionView)
    ensures
        s.released().generation != s.generation,
        s.advanced().generation != s.generation,
        !s.released().has_runtime,
{
}

/// Law: clients that come and go change nothing but their number and the time of
/// the last update: the process, the status and the output stay.
pub proof fn lemma_clients_come_and_go(s: SessionView, came: Timestamp, left: Timestamp)
    ensures
        s.attached(came).has_runtime == s.has_runtime,
        s.attached(came).generation == s.generation,
        s.attached(came).history == s.history,
        s.attached(came).next_seq == s.next_seq,
        s.attached(came).summary.status == s.summary.status,
        s.detached(left).has_runtime == s.has_runtime,
        s.detached(left).generation == s.generation,
        s.detached(left).history == s.history,
        s.detached(left).next_seq == s.next_seq,
        s.detached(left).summary.status == s.summary.status,
        s.summary.attached_clients < u32::MAX ==> {
            let after = s.attached(came).detached(left);
            &&& after.summary.attached_clients == s.summary.attached_clients
            &&& after.summary.updated_at == left
            &&& after.touched(left) == s.touched(left)
        },
{
}

/// Law: taking a session back from the archive undoes archiving it, but for the
/// times of the last update and the last activity.
pub proof fn lemma_restore_undoes_archive(s: SessionView, archived: Timestamp, restored: Timestamp)
    requires
        !s.summary.archived,
    ensures
        s.with_archived(true, archived).summary.archived,
        s.with_archived(true, archived).with_archived(false, restored).touched(restored)
            == s.touched(restored),
{
}

/// Law: a session whose process ended reports the exit code and no process; a stopped
/// session reports neither.
pub proof fn lemma_status_reports(s: SessionView, exit_code: u32, now: Timestamp)
    ensures
        s.exited(s.generation, exit_code, now).summary.status == SessionStatus::Exited,
        s.exited(s.generation, exit_code, now).summary.exit_code == Some(exit_code),
        s.exited(s.generation, exit_code, now).summary.pid is None,
        !s.exited(s.generation, exit_code, now).has_runtime,
        s.stopped(now).summary.pid is None,
        s.stopped(now).summary.exit_code is None,
        !s.stopped(now).has_runtime,
{
}

/// Bytes that a process writes, and when.
pub struct Written {
    pub data: Seq<u8>,
    pub now: Timestamp,
}

/// The session once its process has written each of the outputs in turn.
pub open spec fn after_outputs(s: SessionView, outputs: Seq<Written>) -> SessionView
    decreases outputs.len(),
{
    if outputs.len() == 0 {
        s
    } else {
        after_outputs(s, outputs.drop_last()).with_output(
            s.generation,
            outputs.last().data,
            outputs.last().now,
        )
    }
}

/// The events that the outputs become, clipped to the limit of the history.
pub open spec fn output_events(s: SessionView, outputs: Seq<Written>) -> Seq<EventView> {
    Seq::new(
        outputs.len(),
        |i: int|
            clip(
                EventView { seq: (s.next_seq + 1 + i) as u64, data: outputs[i].data },
                s.history.max_bytes,
            ),
    )
}

/// Whether each output has something in it and there is a sequence number for it.
pub open spec fn all_taken(s: SessionView, outputs: Seq<Written>) -> bool {
    &&& s.next_seq + outputs.len() <= u64::MAX
    &&& forall|i: int| 0 <= i < outputs.len() ==> (#[trigger] outputs[i]).data.len() > 0
}

/// The retained output after some outputs: the latest of what was retained before
/// and of the outputs' own events.
proof fn lemma_outputs_retained(s: SessionView, outputs: Seq<Written>)
    requires
        s.gapless(),
        s.history.bounded(),
        all_taken(s, outputs),
    ensures
        ({
            let t = after_outputs(s, outputs);
            let all = s.history.chunks + output_events(s, outputs);
            let kept = t.history.chunks.len();
            &&& t.generation == s.generation
            &&& t.next_seq == s.next_seq + outputs.len()
            &&& t.history.max_bytes == s.history.max_bytes
            &&& t.history.bounded()
            &&& t.gapless()
            &&& kept <= all.len()
            &&& t.history.chunks == all.skip(all.len() - kept)
        }),
    decreases outputs.len(),
{
    let all = s.history.chunks + output_events(s, outputs);
    if outputs.len() == 0 {
        assert(all.skip(0) =~= s.history.chunks);
    } else {
        let before = outputs.drop_last();
        let m = after_outputs(s, before);
        assert(all_taken(s, before)) by {
            assert forall|i: int| 0 <= i < before.len() implies (#[trigger] before[i]).data.len()
                > 0 by {
                assert(before[i] == outputs[i]);
            }
        }
        lemma_outputs_retained(s, before);
        let n = (outputs.len() - 1) as int;
        let data = outputs.last().data;
        let now = outputs.last().now;
        assert(outputs[n].data.len() > 0);
        let event = m.next_event(data);
        let change = Change::Output { generation: s.generation, data, now };
        let t = after_outputs(s, outputs);
        assert(t == changed(m, change));
        lemma_history_stays_gapless(m, change);
        lemma_push_keeps_latest(m.history, event);
        let earlier = s.history.chunks + output_events(s, before);
        assert(all =~= earlier.push(clip(event, s.history.max_bytes)));
        let kept = t.history.chunks.len() as int;
        if s.history.max_bytes > 0 {
            assert(t.history.chunks =~= t.history.chunks.drop_last().push(t.history.chunks.last()));
            assert(t.history.chunks =~= all.skip(all.len() - kept));
        } else {
            assert(t.history.chunks =~= all.skip(all.len() - 0));
        }
    }
}

/// Law: a client that goes away having seen everything, and comes back after the
/// process has written more, is replayed what was written meanwhile, in order and
/// each piece once; where the history could not retain all of it, the latest part.
pub proof fn lemma_picks_up_where_it_left_off(s: SessionView, outputs: Seq<Written>)
    requires
        s.gapless(),
        s.history.bounded(),
        all_taken(s, outputs),
    ensures
        ({
            let t = after_outputs(s, outputs);
            let missed = output_events(s, outputs);
            let replayed = t.history.replay(Some(s.next_seq)).1;
            let kept = t.history.chunks.len();
            &&& replayed.len() == if kept < missed.len() {
                kept
            } else {
                missed.len()
            }
            &&& replayed == missed.skip(missed.len() - replayed.len())
        }),
{
    lemma_outputs_retained(s, outputs);
    let t = after_outputs(s, outputs);
    let missed = output_events(s, outputs);
    let all = s.history.chunks + missed;
    let kept = t.history.chunks.len() as int;
    if kept >= missed.len() {
        lemma_replay_resumes(t.history, t.next_seq, s.next_seq);
        assert(t.history.chunks.skip(kept - missed.len()) =~= missed);
        assert(missed.skip(0) =~= missed);
    } else {
        let k = crate::history::lemma_newer(t.history.chunks, s.next_seq);
        if k > 0 {
            assert(t.history.chunks[0].seq == t.next_seq - (kept - 1));
        }
        assert(t.history.chunks.skip(0) =~= t.history.chunks);
        assert(t.history.chunks =~= missed.skip(missed.len() - kept));
    }
}

/// Law: a session comes back from the database with nobody attached and no process,
/// and is otherwise as it was stored; if the stored output has no gap, neither has
/// the retained output.
pub proof fn lemma_restored(persisted: PersistedView, history_bytes: nat, events: Seq<EventView>)
    requires
        events.len() > 0 ==> crate::history::gapless(events, events.last().seq),
        events.len() > 0 ==> events.len() <= events.last().seq,
    ensures
        ({
            let s = SessionView::restored(persisted, history_bytes, events);
            &&& s.history.bounded()
            &&& s.gapless()
            &&& s.summary.attached_clients == 0
            &&& s.summary.active() ==> s.summary.pid is None
            &&& s.summary.status == persisted.summary.status
            &&& s.summary.archived == persisted.summary.archived
            &&& s.summary.exit_code == persisted.summary.exit_code
            &&& s.summary.id == persisted.summary.id
            &&& !s.has_runtime
        }),
{
    let last = if events.len() > 0 {
        events.last().seq
    } else {
        0
    };
    lemma_reloaded_gapless(history_bytes, events, last);
}

/// Law: a session whose row and whose retained output were stored comes back after a
/// restart with the same settings, status and output, and goes on numbering its output
/// where it left off. (A session that retains no output starts over at 1.)
pub proof fn lemma_survives_restart(s: SessionView)
    requires
        s.history.bounded(),
        s.gapless(),
        s.history.chunks.len() > 0 || s.next_seq == 0,
    ensures
        SessionView::restored(
            as_stored(s.summary, s.config),
            s.history.max_bytes,
            s.history.chunks,
        ) == s.after_restart(),
        s.after_restart().gapless(),
{
    lemma_reload(s.history);
    if s.history.chunks.len() > 0 {
        let n = s.history.chunks.len() as int;
        assert(s.history.chunks[n - 1].seq == s.next_seq);
    }
}

proof fn lemma_reloaded_gapless(history_bytes: nat, events: Seq<EventView>, last: u64)
    requires
        crate::history::gapless(events, last),
        events.len() <= last,
    ensures
        ({
            let h = HistoryView::empty(history_bytes).pushed_all(events);
            &&& h.bounded()
            &&& h.max_bytes == history_bytes
            &&& crate::history::gapless(h.chunks, last)
            &&& h.chunks.len() <= events.len()
        }),
    decreases events.len(),
{
    let empty = HistoryView::empty(history_bytes);
    if events.len() > 0 {
        let rest = events.drop_last();
        let n = events.len();
        assert(events[n - 1].seq == last);
        assert(crate::history::gapless(rest, (last - 1) as u64)) by {
            assert forall|i: int| 0 <= i < rest.len() implies (#[trigger] rest[i]).seq == (last - 1)
                - (rest.len() - 1 - i) by {
                assert(rest[i] == events[i]);
            }
        }
        lemma_reloaded_gapless(history_bytes, rest, (last - 1) as u64);
        let h = empty.pushed_all(rest);
        lemma_push_gapless(h, events.last(), (last - 1) as u64);
        lemma_push_keeps_latest(h, events.last());
        if h.max_bytes > 0 {
            lemma_evict(h.chunks.push(clip(events.last(), h.max_bytes)), h.max_bytes);
        }
    } else {
        assert(empty.chunks.len() == 0);
    }
}

} // verus!
