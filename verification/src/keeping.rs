//! Laws of each change of a session, field by field: what it sets, and that it keeps the
//! rest.

use vstd::prelude::*;

use crate::history::bytes_held;
use crate::history::clip;
use crate::history::events_view;
use crate::history::evict;
use crate::history::excess;
use crate::history::lemma_evict;
use crate::history::newer;
use crate::history::EventView;
use crate::history::HistoryView;
use crate::history::OutputEvent;
use crate::proto::SessionStatus;
use crate::proto::SummaryView;
use crate::record::PersistedView;
use crate::session::following;
use crate::session::ConfigView;
use crate::session::SessionFault;
use crate::session::SessionView;
use crate::timestamp::Timestamp;

verus! {

/// Whether the sessions have the same settings, but perhaps for the name.
pub open spec fn same_command(s: SessionView, t: SessionView) -> bool {
    &&& t.summary.id == s.summary.id
    &&& t.summary.created_at == s.summary.created_at
    &&& t.config.cwd == s.config.cwd
    &&& t.config.shell == s.config.shell
    &&& t.config.args == s.config.args
    &&& t.summary.cwd == s.summary.cwd
    &&& t.summary.shell == s.summary.shell
    &&& t.summary.args == s.summary.args
}

/// Whether the sessions have the same name.
pub open spec fn same_name(s: SessionView, t: SessionView) -> bool {
    t.config.name == s.config.name && t.summary.name == s.summary.name
}

/// Whether the sessions report the same of their process.
pub open spec fn same_status(s: SessionView, t: SessionView) -> bool {
    &&& t.summary.status == s.summary.status
    &&& t.summary.pid == s.summary.pid
    &&& t.summary.exit_code == s.summary.exit_code
}

/// Whether the sessions have the same process.
pub open spec fn same_process(s: SessionView, t: SessionView) -> bool {
    t.has_runtime == s.has_runtime && t.generation == s.generation
}

/// Whether the sessions have the same output.
pub open spec fn same_output(s: SessionView, t: SessionView) -> bool {
    &&& t.history.chunks == s.history.chunks
    &&& t.history.max_bytes == s.history.max_bytes
    &&& t.next_seq == s.next_seq
}

/// Whether the sessions are both archived, or both not, and have as many clients.
pub open spec fn same_place(s: SessionView, t: SessionView) -> bool {
    t.summary.archived == s.summary.archived && t.summary.attached_clients
        == s.summary.attached_clients
}

/// Whether the sessions were updated last, and active last, at the same instants.
pub open spec fn same_times(s: SessionView, t: SessionView) -> bool {
    t.summary.updated_at == s.summary.updated_at && t.summary.last_activity_at
        == s.summary.last_activity_at
}

/// Whether the session was updated last, and active last, at this instant.
pub open spec fn active_at(t: SessionView, now: Timestamp) -> bool {
    t.summary.updated_at == now && t.summary.last_activity_at == now
}

/// Law: sessions that agree in all of this are the same.
pub proof fn lemma_same(s: SessionView, t: SessionView)
    requires
        same_command(s, t),
        same_name(s, t),
        same_status(s, t),
        same_process(s, t),
        same_output(s, t),
        same_place(s, t),
        same_times(s, t),
    ensures
        s == t,
{
    assert(t.config =~= s.config);
    assert(t.summary =~= s.summary);
    assert(t.history =~= s.history);
}

/// Law: a session has the new name, and the old rest.
pub proof fn lemma_renaming(s: SessionView, name: Seq<char>, now: Timestamp)
    ensures
        ({
            let t = s.renamed(name, now);
            &&& t.config.name == name
            &&& t.summary.name == name
            &&& t.summary.updated_at == now
            &&& t.summary.last_activity_at == s.summary.last_activity_at
            &&& same_command(s, t) && same_status(s, t) && same_process(s, t)
            &&& same_output(s, t) && same_place(s, t)
        }),
{
}

/// Law: whatever its status, a session is in the archive if and only if it was put
/// there last; only putting it there is activity.
pub proof fn lemma_archiving(s: SessionView, archived: bool, now: Timestamp)
    ensures
        ({
            let t = s.with_archived(archived, now);
            &&& t.summary.archived == archived
            &&& t.summary.updated_at == now
            &&& archived ==> t.summary.last_activity_at == now
            &&& !archived ==> t.summary.last_activity_at == s.summary.last_activity_at
            &&& t.summary.attached_clients == s.summary.attached_clients
            &&& same_command(s, t) && same_name(s, t) && same_status(s, t)
            &&& same_process(s, t) && same_output(s, t)
        }),
{
}

/// Law: a client more is counted when one comes, up to the largest number, and a client
/// less when one goes, down to none; nothing else of the session changes.
pub proof fn lemma_counting(s: SessionView, now: Timestamp)
    ensures
        ({
            let t = s.attached(now);
            let n = s.summary.attached_clients;
            &&& n < u32::MAX ==> t.summary.attached_clients == n + 1
            &&& n == u32::MAX ==> t.summary.attached_clients == n
            &&& t.summary.updated_at == now
            &&& t.summary.last_activity_at == s.summary.last_activity_at
            &&& t.summary.archived == s.summary.archived
            &&& same_command(s, t) && same_name(s, t) && same_status(s, t)
            &&& same_process(s, t) && same_output(s, t)
        }),
        ({
            let t = s.detached(now);
            let n = s.summary.attached_clients;
            &&& n > 0 ==> t.summary.attached_clients == n - 1
            &&& n == 0 ==> t.summary.attached_clients == 0
            &&& t.summary.updated_at == now
            &&& t.summary.last_activity_at == s.summary.last_activity_at
            &&& t.summary.archived == s.summary.archived
            &&& same_command(s, t) && same_name(s, t) && same_status(s, t)
            &&& same_process(s, t) && same_output(s, t)
        }),
{
}

/// Law: activity is noted, and nothing else.
pub proof fn lemma_noting(s: SessionView, now: Timestamp)
    ensures
        ({
            let t = s.touched(now);
            &&& active_at(t, now)
            &&& same_command(s, t) && same_name(s, t) && same_status(s, t)
            &&& same_process(s, t) && same_output(s, t) && same_place(s, t)
        }),
{
}

/// Law: a session that lets go of its process, begins another, takes one over or
/// forgets its output changes in that alone.
pub proof fn lemma_handling(s: SessionView)
    ensures
        ({
            let t = s.released();
            &&& !t.has_runtime
            &&& s.generation < u64::MAX ==> t.generation == s.generation + 1
            &&& s.generation == u64::MAX ==> t.generation == 0
            &&& same_command(s, t) && same_name(s, t) && same_status(s, t)
            &&& same_output(s, t) && same_place(s, t) && same_times(s, t)
        }),
        ({
            let t = s.advanced();
            &&& t.has_runtime == s.has_runtime
            &&& s.generation < u64::MAX ==> t.generation == s.generation + 1
            &&& s.generation == u64::MAX ==> t.generation == 0
            &&& same_command(s, t) && same_name(s, t) && same_status(s, t)
            &&& same_output(s, t) && same_place(s, t) && same_times(s, t)
        }),
        ({
            let t = s.with_runtime();
            &&& t.has_runtime
            &&& t.generation == s.generation
            &&& same_command(s, t) && same_name(s, t) && same_status(s, t)
            &&& same_output(s, t) && same_place(s, t) && same_times(s, t)
        }),
        ({
            let t = s.without_output();
            &&& t.history.chunks.len() == 0
            &&& t.history.max_bytes == s.history.max_bytes
            &&& t.next_seq == 0
            &&& same_command(s, t) && same_name(s, t) && same_status(s, t)
            &&& same_process(s, t) && same_place(s, t) && same_times(s, t)
        }),
        forall|n: u64| n < u64::MAX ==> #[trigger] following(n) == n + 1,
        following(u64::MAX) == 0,
{
}

/// Law: what the session's own process reports shows in its status and in nothing else;
/// what another reports does not show at all.
pub proof fn lemma_reporting(
    s: SessionView,
    generation: u64,
    pid: Option<u32>,
    exit_code: u32,
    now: Timestamp,
)
    ensures
        ({
            let t = s.starting(generation, now);
            if generation == s.generation {
                &&& t.summary.status == SessionStatus::Starting
                &&& t.summary.pid is None
                &&& t.summary.exit_code is None
                &&& active_at(t, now)
                &&& same_command(s, t) && same_name(s, t) && same_process(s, t)
                &&& same_output(s, t) && same_place(s, t)
            } else {
                t == s
            }
        }),
        ({
            let t = s.running(generation, pid, now);
            if generation == s.generation {
                &&& t.summary.status == SessionStatus::Running
                &&& t.summary.pid == pid
                &&& t.summary.exit_code is None
                &&& active_at(t, now)
                &&& same_command(s, t) && same_name(s, t) && same_process(s, t)
                &&& same_output(s, t) && same_place(s, t)
            } else {
                t == s
            }
        }),
        ({
            let t = s.exited(generation, exit_code, now);
            if generation == s.generation {
                &&& t.summary.status == SessionStatus::Exited
                &&& t.summary.pid is None
                &&& t.summary.exit_code == Some(exit_code)
                &&& t.summary.updated_at == now
                &&& t.summary.last_activity_at == s.summary.last_activity_at
                &&& !t.has_runtime
                &&& t.generation == s.generation
                &&& same_command(s, t) && same_name(s, t)
                &&& same_output(s, t) && same_place(s, t)
            } else {
                t == s
            }
        }),
{
}

/// Law: a session that is stopped has no process and reports none.
pub proof fn lemma_stopping(s: SessionView, now: Timestamp)
    ensures
        ({
            let t = s.stopped(now);
            &&& t.summary.status == SessionStatus::Stopped
            &&& t.summary.pid is None
            &&& t.summary.exit_code is None
            &&& !t.has_runtime
            &&& t.generation == s.generation
            &&& active_at(t, now)
            &&& same_command(s, t) && same_name(s, t)
            &&& same_output(s, t) && same_place(s, t)
        }),
{
}

/// Law: bytes that the session's process writes become one event, with the next number
/// and exactly those bytes, and are taken in at the end of the history; bytes of another
/// process, and no bytes at all, are not taken in.
pub proof fn lemma_writing(s: SessionView, generation: u64, data: Seq<u8>, now: Timestamp)
    requires
        s.next_seq < u64::MAX,
    ensures
        s.takes_output(generation, data) <==> generation == s.generation && data.len() > 0,
        s.next_event(data).seq == s.next_seq + 1,
        s.next_event(data).data == data,
        ({
            let t = s.with_output(generation, data, now);
            if generation == s.generation && data.len() > 0 {
                &&& t.next_seq == s.next_seq + 1
                &&& t.history == s.history.pushed(
                    EventView { seq: (s.next_seq + 1) as u64, data },
                )
                &&& active_at(t, now)
                &&& same_command(s, t) && same_name(s, t) && same_status(s, t)
                &&& same_process(s, t) && same_place(s, t)
            } else {
                t == s
            }
        }),
{
}

/// Law: input is refused if and only if there is no process, and a size if and only if
/// it has no cells or there is no process, whatever else holds of the session.
pub proof fn lemma_faults(s: SessionView, cols: u16, rows: u16)
    ensures
        s.has_runtime ==> s.input_fault() is None,
        !s.has_runtime ==> s.input_fault() == Some(SessionFault::RuntimeUnavailable),
        cols == 0 || rows == 0 ==> s.resize_fault(cols, rows) == Some(SessionFault::InvalidSize),
        cols > 0 && rows > 0 && !s.has_runtime ==> s.resize_fault(cols, rows) == Some(
            SessionFault::RuntimeUnavailable,
        ),
        cols > 0 && rows > 0 && s.has_runtime ==> s.resize_fault(cols, rows) is None,
        SessionFault::RuntimeUnavailable.text() == "session runtime is not available"@,
        SessionFault::InvalidSize.text() == "invalid terminal size"@,
{
}

/// Law: a session that is asked for has the settings that were given, in both places,
/// and nothing has happened to it yet.
pub proof fn lemma_creating(id: u128, config: ConfigView, history_bytes: nat, now: Timestamp)
    ensures
        ({
            let t = SessionView::created(id, config, history_bytes, now);
            &&& t.summary.id == id
            &&& t.config.name == config.name && t.summary.name == config.name
            &&& t.config.cwd == config.cwd && t.summary.cwd == config.cwd
            &&& t.config.shell == config.shell && t.summary.shell == config.shell
            &&& t.config.args == config.args && t.summary.args == config.args
            &&& t.summary.status == SessionStatus::Starting
            &&& t.summary.pid is None && t.summary.exit_code is None
            &&& !t.summary.archived && t.summary.attached_clients == 0
            &&& t.summary.created_at == now && active_at(t, now)
            &&& !t.has_runtime && t.generation == 0 && t.next_seq == 0
            &&& t.history.chunks.len() == 0 && t.history.max_bytes == history_bytes
        }),
{
}

/// Law: a session comes back as it was stored, without clients and without a process,
/// and without the number of a process that it was at work with; it goes on numbering
/// after the last stored event.
pub proof fn lemma_restoring(persisted: PersistedView, history_bytes: nat, events: Seq<EventView>)
    ensures
        ({
            let t = SessionView::restored(persisted, history_bytes, events);
            let p = persisted.summary;
            let at_work = p.status == SessionStatus::Running || p.status == SessionStatus::Starting;
            &&& t.config == persisted.config
            &&& t.summary.id == p.id && t.summary.created_at == p.created_at
            &&& t.summary.name == p.name && t.summary.cwd == p.cwd
            &&& t.summary.shell == p.shell && t.summary.args == p.args
            &&& t.summary.status == p.status && t.summary.exit_code == p.exit_code
            &&& at_work ==> t.summary.pid is None
            &&& !at_work ==> t.summary.pid == p.pid
            &&& t.summary.archived == p.archived && t.summary.attached_clients == 0
            &&& t.summary.updated_at == p.updated_at
            &&& t.summary.last_activity_at == p.last_activity_at
            &&& !t.has_runtime && t.generation == 0
            &&& t.history == HistoryView::empty(history_bytes).pushed_all(events)
            &&& events.len() > 0 ==> t.next_seq == events[events.len() - 1].seq
            &&& events.len() == 0 ==> t.next_seq == 0
        }),
{
}

/// Law: a session is at work if it runs or starts, and is set to work again if it was at
/// work and is not archived.
pub proof fn lemma_at_work(s: SummaryView)
    ensures
        s.active() <==> s.status == SessionStatus::Running || s.status == SessionStatus::Starting,
        s.recovers() <==> !s.archived && (s.status == SessionStatus::Running || s.status
            == SessionStatus::Starting),
{
}

/// Law: an event that does not fit is cut down to its last bytes, and keeps its number;
/// one that fits is kept whole.
pub proof fn lemma_clipping(event: EventView, max: nat)
    ensures
        clip(event, max).seq == event.seq,
        event.data.len() <= max ==> clip(event, max).data == event.data,
        event.data.len() > max ==> {
            &&& clip(event, max).data.len() == max
            &&& forall|i: int|
                0 <= i < max ==> #[trigger] clip(event, max).data[i] == event.data[event.data.len()
                    - max + i]
        },
{
}

/// Law: the bytes of no event are none, and each event adds its own; a history within
/// its limit holds no more bytes than that.
pub proof fn lemma_bytes(chunks: Seq<EventView>, event: EventView)
    ensures
        forall|h: HistoryView| #[trigger]
            h.bounded() ==> bytes_held(h.chunks) <= h.max_bytes,
        bytes_held(Seq::<EventView>::empty()) == 0,
        bytes_held(chunks.push(event)) == bytes_held(chunks) + event.data.len(),
{
    crate::history::lemma_held_push(chunks, event);
}

/// Law: a history with room takes an event in at its end, cut down to the limit, and
/// gives up events from its front, none that could have stayed; one without room takes
/// nothing in.
pub proof fn lemma_pushing(h: HistoryView, event: EventView)
    requires
        h.bounded(),
    ensures
        ({
            let t = h.pushed(event).chunks;
            let gone = h.chunks.len() + 1 - t.len();
            &&& h.pushed(event).max_bytes == h.max_bytes
            &&& h.max_bytes == 0 ==> t.len() == 0
            &&& h.max_bytes > 0 ==> {
                &&& 0 < t.len() <= h.chunks.len() + 1
                &&& t[t.len() - 1] == clip(event, h.max_bytes)
                &&& forall|i: int| 0 <= i < t.len() - 1 ==> #[trigger] t[i] == h.chunks[gone + i]
                &&& bytes_held(t) <= h.max_bytes
                &&& gone > 0 ==> bytes_held(
                    h.chunks.skip(gone - 1).push(clip(event, h.max_bytes)),
                ) > h.max_bytes
            }
        }),
{
    crate::history::lemma_push_keeps_latest(h, event);
    if h.max_bytes > 0 {
        let all = h.chunks.push(clip(event, h.max_bytes));
        lemma_evict(all, h.max_bytes);
        let k = excess(all, h.max_bytes) as int;
        assert(h.pushed(event).chunks == evict(all, h.max_bytes));
        if k > 0 {
            assert(all.skip(k - 1) =~= h.chunks.skip(k - 1).push(clip(event, h.max_bytes)));
        }
        let t = h.pushed(event).chunks;
        assert forall|i: int| 0 <= i < t.len() - 1 implies #[trigger] t[i] == h.chunks[k + i] by {
            assert(t[i] == all[k + i]);
        }
    }
}

/// Law: events are taken in one after another.
pub proof fn lemma_pushing_all(h: HistoryView, events: Seq<EventView>, event: EventView)
    ensures
        h.pushed_all(Seq::<EventView>::empty()) == h,
        h.pushed_all(events.push(event)) == h.pushed_all(events).pushed(event),
        HistoryView::empty(h.max_bytes).chunks.len() == 0,
        HistoryView::empty(h.max_bytes).max_bytes == h.max_bytes,
        h.cleared().chunks.len() == 0,
        h.cleared().max_bytes == h.max_bytes,
{
    assert(events.push(event).drop_last() =~= events);
}

/// Law: an event is replayed if and only if it is retained and newer than what the
/// client has seen, in the order in which it came; the replay is said to begin with its
/// first event, or with what would come next.
pub proof fn lemma_replaying(h: HistoryView, event: EventView, resume_from_seq: Option<u64>)
    ensures
        ({
            let seen = match resume_from_seq {
                Some(seq) => seq,
                None => 0,
            };
            let (first, events) = h.replay(resume_from_seq);
            let more = HistoryView { chunks: h.chunks.push(event), ..h };
            &&& HistoryView::empty(h.max_bytes).replay(resume_from_seq).1.len() == 0
            &&& event.seq > seen ==> more.replay(resume_from_seq).1 == events.push(event)
            &&& event.seq <= seen ==> more.replay(resume_from_seq).1 == events
            &&& events.len() > 0 ==> first == events[0].seq
            &&& events.len() == 0 && seen < u64::MAX ==> first == seen + 1
            &&& events.len() == 0 && seen == u64::MAX ==> first == u64::MAX
        }),
        HistoryView::resume_point(None) == 0,
        forall|n: u64| #[trigger] HistoryView::resume_point(Some(n)) == n,
{
    reveal(Seq::filter);
    assert(h.chunks.push(event).drop_last() =~= h.chunks);
    let seen = HistoryView::resume_point(resume_from_seq);
    assert(newer(Seq::<EventView>::empty(), seen).len() == 0);
}

/// Law: the view of a list of events shows each of them.
pub proof fn lemma_events_shown(events: Seq<OutputEvent>)
    ensures
        events_view(events).len() == events.len(),
        forall|i: int|
            0 <= i < events.len() ==> (#[trigger] events_view(events)[i]).seq == events[i].seq
                && events_view(events)[i].data == events[i].data@,
{
}

} // verus!
