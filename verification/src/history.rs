//! The bounded output history of a session, from which a client that comes back
//! is sent what it missed.

use std::collections::VecDeque;

use vstd::prelude::*;

use crate::record::PersistedOutputEvent;

verus! {

/// One piece of terminal output with its sequence number.
#[derive(Debug)]
pub struct OutputEvent {
    pub seq: u64,
    pub data: Vec<u8>,
}

/// What an output event holds.
#[verifier::ext_equal]
pub struct EventView {
    pub seq: u64,
    pub data: Seq<u8>,
}

impl View for OutputEvent {
    type V = EventView;

    open spec fn view(&self) -> EventView {
        EventView { seq: self.seq, data: self.data@ }
    }
}

impl Clone for OutputEvent {
    fn clone(&self) -> (r: OutputEvent)
        ensures
            r@ == self@,
    {
        OutputEvent { seq: self.seq, data: self.data.clone() }
    }
}

/// What a list of output events holds.
pub open spec fn events_view(events: Seq<OutputEvent>) -> Seq<EventView> {
    events.map_values(|e: OutputEvent| e@)
}

/// The number of payload bytes in a run of events.
pub open spec fn bytes_held(chunks: Seq<EventView>) -> nat
    decreases chunks.len(),
{
    if chunks.len() == 0 {
        0
    } else {
        chunks[0].data.len() + bytes_held(chunks.drop_first())
    }
}

/// The run without its oldest events, as few of them as bring it down to `max`
/// bytes.
pub open spec fn evict(chunks: Seq<EventView>, max: nat) -> Seq<EventView>
    decreases chunks.len(),
{
    if chunks.len() == 0 || bytes_held(chunks) <= max {
        chunks
    } else {
        evict(chunks.drop_first(), max)
    }
}

/// The event with at most the last `max` bytes of its payload.
pub open spec fn clip(event: EventView, max: nat) -> EventView {
    if event.data.len() > max {
        EventView { data: event.data.skip(event.data.len() - max), ..event }
    } else {
        event
    }
}

/// Whether the sequence numbers of the run rise from each event to the next.
pub open spec fn ascending(chunks: Seq<EventView>) -> bool {
    forall|i: int, j: int|
        0 <= i < j < chunks.len() ==> (#[trigger] chunks[i]).seq < (#[trigger] chunks[j]).seq
}

/// Whether the sequence numbers of the run follow one another without a gap, up to
/// `last`.
pub open spec fn gapless(chunks: Seq<EventView>, last: u64) -> bool {
    forall|i: int|
        0 <= i < chunks.len() ==> (#[trigger] chunks[i]).seq == last - (chunks.len() - 1 - i)
}

/// The events of the run that are newer than `from`.
pub open spec fn newer(chunks: Seq<EventView>, from: u64) -> Seq<EventView> {
    chunks.filter(|e: EventView| e.seq > from)
}

/// What an output history holds: the retained events, the oldest first, and the
/// limit on their payload bytes.
#[verifier::ext_equal]
pub struct HistoryView {
    pub chunks: Seq<EventView>,
    pub max_bytes: nat,
}

impl HistoryView {
    /// The history of this limit that holds nothing.
    pub open spec fn empty(max_bytes: nat) -> HistoryView {
        HistoryView { chunks: Seq::empty(), max_bytes }
    }

    /// Whether the payload bytes stay within the limit; where it is zero no event is
    /// held at all.
    pub open spec fn bounded(self) -> bool {
        &&& bytes_held(self.chunks) <= self.max_bytes
        &&& self.max_bytes == 0 ==> self.chunks.len() == 0
    }

    /// The history once an event has come in: the event is clipped to the limit
    /// and the oldest events make room for it. Where the limit is zero nothing is
    /// ever held.
    pub open spec fn pushed(self, event: EventView) -> HistoryView {
        if self.max_bytes == 0 {
            self
        } else {
            HistoryView {
                chunks: evict(self.chunks.push(clip(event, self.max_bytes)), self.max_bytes),
                ..self
            }
        }
    }

    /// The history once the events have come in, the first of them first.
    pub open spec fn pushed_all(self, events: Seq<EventView>) -> HistoryView
        decreases events.len(),
    {
        if events.len() == 0 {
            self
        } else {
            self.pushed_all(events.drop_last()).pushed(events.last())
        }
    }

    /// The history with the same limit and nothing in it.
    pub open spec fn cleared(self) -> HistoryView {
        HistoryView::empty(self.max_bytes)
    }

    /// The sequence number after which a client that names `resume_from_seq` wants
    /// the output; one that names none wants all of it.
    pub open spec fn resume_point(resume_from_seq: Option<u64>) -> u64 {
        match resume_from_seq {
            Some(seq) => seq,
            None => 0,
        }
    }

    /// What is replayed to a client that has seen the output up to
    /// `resume_from_seq`: the retained newer events, and the sequence number with
    /// which the replay begins, or would begin if there were one.
    pub open spec fn replay(self, resume_from_seq: Option<u64>) -> (u64, Seq<EventView>) {
        let from = Self::resume_point(resume_from_seq);
        let chunks = newer(self.chunks, from);
        let first = if chunks.len() > 0 {
            chunks[0].seq
        } else if from == u64::MAX {
            from
        } else {
            (from + 1) as u64
        };
        (first, chunks)
    }
}

/// The output history of a session: the latest events, the oldest first, with at
/// most `max_bytes` bytes of payload in all.
#[derive(Debug)]
pub struct OutputHistory {
    chunks: VecDeque<OutputEvent>,
    total_bytes: usize,
    max_bytes: usize,
}

impl View for OutputHistory {
    type V = HistoryView;

    closed spec fn view(&self) -> HistoryView {
        HistoryView { chunks: events_view(self.chunks@), max_bytes: self.max_bytes as nat }
    }
}

impl OutputHistory {
    /// The byte count is that of the events held, and within the limit.
    pub closed spec fn wf(self) -> bool {
        &&& self.total_bytes == bytes_held(self@.chunks)
        &&& self@.bounded()
    }

    /// A well-formed history is within its limit, which is a machine number.
    pub proof fn lemma_wf(self)
        requires
            self.wf(),
        ensures
            self@.bounded(),
            self@.max_bytes <= usize::MAX,
    {
    }

    /// An empty history of this limit.
    pub fn new(max_bytes: usize) -> (r: OutputHistory)
        ensures
            r.wf(),
            r@ == HistoryView::empty(max_bytes as nat),
    {
        let r = OutputHistory { chunks: VecDeque::new(), total_bytes: 0, max_bytes };
        assert(r@.chunks =~= Seq::<EventView>::empty());
        r
    }

    /// The history that comes of stored events, the oldest of them first.
    pub fn from_persisted(max_bytes: usize, events: Vec<PersistedOutputEvent>) -> (r: OutputHistory)
        ensures
            r.wf(),
            r@ == HistoryView::empty(max_bytes as nat).pushed_all(
                crate::record::stored_view(events@),
            ),
    {
        let mut history = OutputHistory::new(max_bytes);
        let ghost all = crate::record::stored_view(events@);
        let mut i: usize = 0;
        assert(all.take(0) =~= Seq::<EventView>::empty());
        while i < events.len()
            invariant
                i <= events.len(),
                all == crate::record::stored_view(events@),
                history.wf(),
                history@ == HistoryView::empty(max_bytes as nat).pushed_all(all.take(i as int)),
            decreases events.len() - i,
        {
            let event = OutputEvent { seq: events[i].seq, data: events[i].data.clone() };
            assert(all.take(i + 1).drop_last() =~= all.take(i as int));
            assert(event@ =~= all[i as int]);
            history.push(event);
            i = i + 1;
        }
        assert(all.take(all.len() as int) =~= all);
        history
    }

    /// Forgets every event.
    pub fn clear(&mut self)
        ensures
            final(self).wf(),
            final(self)@ == old(self)@.cleared(),
    {
        self.chunks = VecDeque::new();
        self.total_bytes = 0;
        assert(self@.chunks =~= Seq::<EventView>::empty());
    }

    /// Takes an event in.
    pub fn push(&mut self, event: OutputEvent)
        requires
            old(self).wf(),
        ensures
            final(self).wf(),
            final(self)@ == old(self)@.pushed(event@),
    {
        if self.max_bytes == 0 {
            return ;
        }
        let max: usize = self.max_bytes;
        let mut event = event;
        let ghost given = event@;
        if event.data.len() > max {
            let keep_from: usize = event.data.len() - max;
            event.data = event.data.split_off(keep_from);
        }
        assert(event@ =~= clip(given, max as nat));
        let ghost clipped = event@;
        let room: usize = max - event.data.len();
        let ghost target = evict(self@.chunks.push(clipped), max as nat);
        proof {
            lemma_held_push(self@.chunks, clipped);
        }
        while self.total_bytes > room
            invariant
                self.total_bytes == bytes_held(self@.chunks),
                self.max_bytes == max,
                self.total_bytes <= max,
                room == max - clipped.data.len(),
                clipped.data.len() <= max,
                evict(self@.chunks.push(clipped), max as nat) == target,
            decreases self.chunks.len(),
        {
            let ghost before = self@.chunks;
            proof {
                lemma_held_push(before, clipped);
                assert(before.len() > 0);
                assert(before.push(clipped).drop_first() =~= before.drop_first().push(clipped));
            }
            if let Some(front) = self.chunks.pop_front() {
                assert(self@.chunks =~= before.drop_first());
                assert(front@ == before[0]);
                self.total_bytes = self.total_bytes - front.data.len();
            } else {
                assert(false);
            }
        }
        let ghost kept = self@.chunks;
        proof {
            lemma_held_push(kept, clipped);
        }
        self.total_bytes = self.total_bytes + event.data.len();
        self.chunks.push_back(event);
        assert(self@.chunks =~= kept.push(clipped));
    }

    /// The replay for a client that has seen the output up to `resume_from_seq`.
    pub fn snapshot_since(&self, resume_from_seq: Option<u64>) -> (r: (u64, Vec<OutputEvent>))
        ensures
            (r.0, events_view(r.1@)) == self@.replay(resume_from_seq),
    {
        let from: u64 = match resume_from_seq {
            Some(seq) => seq,
            None => 0,
        };
        let ghost all = self@.chunks;
        let mut chunks: Vec<OutputEvent> = Vec::new();
        let mut i: usize = 0;
        assert(events_view(chunks@) =~= newer(all.take(0), from));
        while i < self.chunks.len()
            invariant
                i <= self.chunks.len(),
                all == self@.chunks,
                events_view(chunks@) == newer(all.take(i as int), from),
            decreases self.chunks.len() - i,
        {
            proof {
                assert(all.take(i + 1).drop_last() =~= all.take(i as int));
                assert(all.take(i + 1).last() == all[i as int]);
                reveal(Seq::filter);
            }
            let ghost before = chunks@;
            if self.chunks[i].seq > from {
                chunks.push(self.chunks[i].clone());
                assert(events_view(chunks@) =~= events_view(before).push(all[i as int]));
            }
            i = i + 1;
        }
        assert(all.take(all.len() as int) =~= all);
        let first: u64 = if chunks.len() > 0 {
            assert(events_view(chunks@)[0] == chunks@[0]@);
            chunks[0].seq
        } else {
            from.saturating_add(1)
        };
        (first, chunks)
    }

    /// The limit on payload bytes.
    pub fn max_bytes(&self) -> (r: usize)
        ensures
            r == self@.max_bytes,
    {
        self.max_bytes
    }
}

/// The bytes of a run with one more event at its end.
pub proof fn lemma_held_push(chunks: Seq<EventView>, event: EventView)
    ensures
        bytes_held(chunks.push(event)) == bytes_held(chunks) + event.data.len(),
    decreases chunks.len(),
{
    reveal_with_fuel(bytes_held, 2);
    if chunks.len() == 0 {
        assert(chunks.push(event).drop_first() =~= Seq::<EventView>::empty());
    } else {
        assert(chunks.push(event).drop_first() =~= chunks.drop_first().push(event));
        lemma_held_push(chunks.drop_first(), event);
    }
}

/// A run holds no more bytes without its oldest events, and no more without its
/// newest.
pub proof fn lemma_held_part(chunks: Seq<EventView>, k: int)
    requires
        0 <= k <= chunks.len(),
    ensures
        bytes_held(chunks.take(k)) <= bytes_held(chunks),
        bytes_held(chunks.skip(k)) <= bytes_held(chunks),
    decreases chunks.len(),
{
    if k == chunks.len() {
        assert(chunks.take(k) =~= chunks);
        assert(chunks.skip(k) =~= Seq::<EventView>::empty());
    } else {
        let rest = chunks.drop_last();
        assert(rest.push(chunks.last()) =~= chunks);
        lemma_held_push(rest, chunks.last());
        lemma_held_part(rest, k);
        assert(rest.take(k) =~= chunks.take(k));
        assert(rest.skip(k).push(chunks.last()) =~= chunks.skip(k));
        lemma_held_push(rest.skip(k), chunks.last());
    }
}

/// The number of events that are given up to bring a run down to `max` bytes.
pub open spec fn excess(chunks: Seq<EventView>, max: nat) -> nat {
    (chunks.len() - evict(chunks, max).len()) as nat
}

/// Law: eviction gives up the oldest events and no others, brings the run within
/// the limit, and gives up no event that could have stayed.
pub proof fn lemma_evict(chunks: Seq<EventView>, max: nat)
    ensures
        excess(chunks, max) <= chunks.len(),
        evict(chunks, max) == chunks.skip(excess(chunks, max) as int),
        bytes_held(evict(chunks, max)) <= max,
        excess(chunks, max) > 0 ==> bytes_held(chunks.skip(excess(chunks, max) - 1)) > max,
    decreases chunks.len(),
{
    if chunks.len() == 0 || bytes_held(chunks) <= max {
        assert(chunks.skip(0) =~= chunks);
    } else {
        let rest = chunks.drop_first();
        lemma_evict(rest, max);
        let k = excess(rest, max) as int;
        assert(excess(chunks, max) == k + 1);
        assert(chunks.skip(k + 1) =~= rest.skip(k));
        if k > 0 {
            assert(chunks.skip(k) =~= rest.skip(k - 1));
        } else {
            assert(chunks.skip(0) =~= chunks);
        }
    }
}

/// Law: a history stays within its limit whatever comes in. One with a limit above
/// zero always ends with the event that came last, clipped to the limit, and
/// before it keeps the latest of the events it held.
pub proof fn lemma_push_keeps_latest(h: HistoryView, event: EventView)
    requires
        h.bounded(),
    ensures
        h.pushed(event).bounded(),
        h.pushed(event).max_bytes == h.max_bytes,
        h.max_bytes > 0 ==> {
            let after = h.pushed(event).chunks;
            &&& 0 < after.len() <= h.chunks.len() + 1
            &&& after.last() == clip(event, h.max_bytes)
            &&& after.drop_last() == h.chunks.skip(h.chunks.len() - (after.len() - 1))
        },
{
    if h.max_bytes > 0 {
        let all = h.chunks.push(clip(event, h.max_bytes));
        let max = h.max_bytes;
        lemma_evict(all, max);
        let k = excess(all, max) as int;
        let after = h.pushed(event).chunks;
        if k == all.len() {
            assert(all.skip(k - 1) =~= seq![clip(event, max)]);
            reveal_with_fuel(bytes_held, 2);
            assert(seq![clip(event, max)].drop_first() =~= Seq::<EventView>::empty());
            assert(false);
        }
        assert(after.drop_last() =~= h.chunks.skip(k));
    }
}

/// Law: sequence numbers that rise keep rising when a newer event comes in.
pub proof fn lemma_push_ascending(h: HistoryView, event: EventView)
    requires
        ascending(h.chunks),
        forall|i: int| 0 <= i < h.chunks.len() ==> (#[trigger] h.chunks[i]).seq < event.seq,
    ensures
        ascending(h.pushed(event).chunks),
        forall|i: int|
            0 <= i < h.pushed(event).chunks.len() ==> (#[trigger] h.pushed(event).chunks[i]).seq
                <= event.seq,
{
    if h.max_bytes > 0 {
        let all = h.chunks.push(clip(event, h.max_bytes));
        lemma_evict(all, h.max_bytes);
        assert(ascending(all));
    }
}

/// Law: sequence numbers that follow one another without a gap still do when the
/// event with the next number comes in.
pub proof fn lemma_push_gapless(h: HistoryView, event: EventView, last: u64)
    requires
        gapless(h.chunks, last),
        event.seq == last + 1,
    ensures
        h.max_bytes > 0 ==> gapless(h.pushed(event).chunks, event.seq),
{
    if h.max_bytes > 0 {
        let all = h.chunks.push(clip(event, h.max_bytes));
        lemma_evict(all, h.max_bytes);
        assert(gapless(all, event.seq));
    }
}

/// Law: a history that was stored event by event comes back as it was.
pub proof fn lemma_reload(h: HistoryView)
    requires
        h.bounded(),
    ensures
        HistoryView::empty(h.max_bytes).pushed_all(h.chunks) == h,
{
    lemma_reload_prefix(h, h.chunks.len() as int);
    assert(h.chunks.take(h.chunks.len() as int) =~= h.chunks);
}

proof fn lemma_reload_prefix(h: HistoryView, n: int)
    requires
        h.bounded(),
        0 <= n <= h.chunks.len(),
    ensures
        HistoryView::empty(h.max_bytes).pushed_all(h.chunks.take(n)) == (HistoryView {
            chunks: h.chunks.take(n),
            max_bytes: h.max_bytes,
        }),
    decreases n,
{
    let part = h.chunks.take(n);
    if n == 0 {
        assert(part =~= Seq::<EventView>::empty());
    } else {
        lemma_reload_prefix(h, n - 1);
        assert(part.drop_last() =~= h.chunks.take(n - 1));
        assert(h.chunks.take(n - 1).push(part.last()) =~= part);
        lemma_held_part(h.chunks, n);
        lemma_held_push(h.chunks.take(n - 1), part.last());
    }
}

/// Law: of a run with rising sequence numbers, the events newer than `from` are the
/// run without its first `k` events, for some `k`, so nothing newer is skipped and
/// nothing older is repeated.
pub proof fn lemma_newer(chunks: Seq<EventView>, from: u64) -> (k: int)
    requires
        ascending(chunks),
    ensures
        0 <= k <= chunks.len(),
        newer(chunks, from) == chunks.skip(k),
        forall|i: int| 0 <= i < k ==> (#[trigger] chunks[i]).seq <= from,
        forall|i: int| k <= i < chunks.len() ==> (#[trigger] chunks[i]).seq > from,
    decreases chunks.len(),
{
    reveal(Seq::filter);
    if chunks.len() == 0 {
        assert(chunks.skip(0) =~= newer(chunks, from));
        0
    } else {
        let rest = chunks.drop_last();
        let k = lemma_newer(rest, from);
        assert(forall|i: int| 0 <= i < rest.len() ==> #[trigger] chunks[i] == rest[i]);
        if chunks.last().seq > from {
            assert(newer(chunks, from) == newer(rest, from).push(chunks.last()));
            assert(chunks.skip(k) =~= rest.skip(k).push(chunks.last()));
            k
        } else {
            assert(newer(chunks, from) == newer(rest, from));
            if k < rest.len() {
                assert(rest[k].seq > from);
                assert(chunks[k].seq < chunks[chunks.len() - 1].seq);
            }
            assert(rest.skip(k) =~= Seq::<EventView>::empty());
            assert(chunks.skip(chunks.len() as int) =~= Seq::<EventView>::empty());
            chunks.len() as int
        }
    }
}

/// Law: a client that has seen the output up to `seen`, and finds everything since
/// then still retained, is replayed exactly the events `seen + 1` to `last`, in
/// order, each once.
pub proof fn lemma_replay_resumes(h: HistoryView, last: u64, seen: u64)
    requires
        gapless(h.chunks, last),
        last - h.chunks.len() <= seen <= last,
    ensures
        ({
            let (first, chunks) = h.replay(Some(seen));
            &&& chunks.len() == last - seen
            &&& chunks == h.chunks.skip(h.chunks.len() - (last - seen))
            &&& forall|i: int| 0 <= i < chunks.len() ==> (#[trigger] chunks[i]).seq == seen + 1 + i
            &&& seen < u64::MAX ==> first == seen + 1
        }),
{
    assert(ascending(h.chunks));
    let k = lemma_newer(h.chunks, seen);
    let n = h.chunks.len();
    if k < n {
        assert(h.chunks[k].seq == last - (n - 1 - k));
    }
    if k > 0 {
        assert(h.chunks[k - 1].seq == last - (n - k));
    }
    assert(k == n - (last - seen));
}

} // verus!
