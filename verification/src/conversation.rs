//! Laws of a conversation with a client: what each message, each output and each outcome
//! leads to.

use vstd::prelude::*;

use crate::connection::missed_events;
use crate::connection::next;
use crate::connection::sends_output;
use crate::connection::shows_event;
use crate::connection::shows_missed;
use crate::connection::takes_input;
use crate::connection::writes;
use crate::connection::Action;
use crate::connection::ActionView;
use crate::connection::Event;
use crate::connection::Incoming;
use crate::connection::Phase;
use crate::connection::StepView;
use crate::history::newer;
use crate::history::EventView;
use crate::history::OutputEvent;
use crate::keeping::active_at;
use crate::keeping::same_command;
use crate::keeping::same_name;
use crate::keeping::same_output;
use crate::keeping::same_place;
use crate::keeping::same_process;
use crate::keeping::same_status;
use crate::keyboard::key_bytes;
use crate::payload::base64_bytes;
use crate::payload::base64_text;
use crate::proto::ClientCapabilities;
use crate::proto::ClientFrame;
use crate::proto::KeyboardAction;
use crate::proto::ServerFrame;
use crate::proto::ServerFrameView;
use crate::proto::SessionStatus;
use crate::session::SessionView;
use crate::timestamp::Timestamp;

verus! {

/// Whether the connection goes on in this phase with this action, and the session is
/// untouched.
pub open spec fn leads_to(s: SessionView, t: StepView, phase: Phase, action: ActionView) -> bool {
    t.session == s && t.phase == phase && t.action == action
}

/// Whether the client is told what is wrong, with nothing done to the session.
pub open spec fn is_told(s: SessionView, t: StepView, message: Seq<char>) -> bool {
    &&& t.session == s
    &&& t.phase == Phase::Refuse
    &&& t.action == ActionView::Send(
        ServerFrameView::Error { code: "bad_request"@, message },
    )
}

/// Whether the connection is over: a client less is counted, and the session is
/// otherwise as it was.
pub open spec fn is_over(s: SessionView, t: StepView, now: Timestamp) -> bool {
    let n = s.summary.attached_clients;
    let u = t.session;
    &&& t.phase == Phase::Closed
    &&& t.action == ActionView::Close
    &&& n > 0 ==> u.summary.attached_clients == n - 1
    &&& n == 0 ==> u.summary.attached_clients == 0
    &&& u.summary.updated_at == now
    &&& u.summary.last_activity_at == s.summary.last_activity_at
    &&& u.summary.archived == s.summary.archived
    &&& same_command(s, u) && same_name(s, u) && same_status(s, u)
    &&& same_process(s, u) && same_output(s, u)
}

/// Whether activity is noted in the session, and nothing else.
pub open spec fn is_noted(s: SessionView, u: SessionView, now: Timestamp) -> bool {
    &&& active_at(u, now)
    &&& same_command(s, u) && same_name(s, u) && same_status(s, u)
    &&& same_process(s, u) && same_output(s, u) && same_place(s, u)
}

/// A frame of the client.
pub open spec fn sent(frame: ClientFrame) -> Event {
    Event::Message(Incoming::Text(Ok(frame)))
}

/// Law: input that decodes to some bytes leads to exactly those bytes being written, if
/// the session has a process, whatever else holds of it; it is refused only if there is
/// none, and input that decodes to nothing always is.
pub proof fn lemma_input_is_written(s: SessionView, data_b64: String, now: Timestamp)
    ensures
        ({
            let t = next(s, Phase::Stream, sent(ClientFrame::Input { data_b64 }), now);
            match base64_bytes(data_b64@) {
                Some(bytes) => if s.has_runtime {
                    leads_to(s, t, Phase::Effect, ActionView::Write(bytes))
                } else {
                    is_told(s, t, "session runtime is not available"@)
                },
                None => is_told(s, t, "invalid base64 input"@),
            }
        }),
        forall|bytes: Seq<u8>|
            {
                let t = #[trigger] takes_input(s, Some(bytes));
                &&& s.has_runtime ==> leads_to(s, t, Phase::Effect, ActionView::Write(bytes))
                &&& !s.has_runtime ==> is_told(s, t, "session runtime is not available"@)
            },
        is_told(s, takes_input(s, None), "invalid base64 input"@),
        forall|bytes: Seq<u8>|
            {
                let t = #[trigger] writes(s, bytes);
                &&& s.has_runtime ==> leads_to(s, t, Phase::Effect, ActionView::Write(bytes))
                &&& !s.has_runtime ==> is_told(s, t, "session runtime is not available"@)
            },
{
}

/// Law: a key that sends bytes leads to exactly those bytes being written, if the
/// session has a process, and is refused only if there is none; a key that sends none
/// leads to nothing.
pub proof fn lemma_key_is_written(s: SessionView, action: KeyboardAction, now: Timestamp)
    ensures
        ({
            let t = next(s, Phase::Stream, sent(ClientFrame::Keyboard { action }), now);
            match key_bytes(action) {
                Some(bytes) => if s.has_runtime {
                    leads_to(s, t, Phase::Effect, ActionView::Write(bytes))
                } else {
                    is_told(s, t, "session runtime is not available"@)
                },
                None => leads_to(s, t, Phase::Stream, ActionView::Select),
            }
        }),
{
}

/// Law: a size is given to the terminal, if it has cells and there is a process, and is
/// refused otherwise.
pub proof fn lemma_size_is_taken(s: SessionView, cols: u16, rows: u16, now: Timestamp)
    ensures
        ({
            let t = next(s, Phase::Stream, sent(ClientFrame::Resize { cols, rows }), now);
            if cols == 0 || rows == 0 {
                is_told(s, t, "invalid terminal size"@)
            } else if s.has_runtime {
                leads_to(s, t, Phase::Effect, ActionView::Resize { cols, rows })
            } else {
                is_told(s, t, "session runtime is not available"@)
            }
        }),
{
}

/// Law: a heartbeat is answered with what it carries.
pub proof fn lemma_heartbeat_is_answered(
    s: SessionView,
    ts_ms: u64,
    payload: Vec<u8>,
    now: Timestamp,
)
    ensures
        leads_to(
            s,
            next(s, Phase::Stream, sent(ClientFrame::Ping { ts_ms }), now),
            Phase::Reply,
            ActionView::Send(ServerFrameView::Pong { ts_ms }),
        ),
        leads_to(
            s,
            next(s, Phase::Stream, Event::Message(Incoming::Ping(payload)), now),
            Phase::Reply,
            ActionView::SendPong(payload@),
        ),
        leads_to(
            s,
            next(s, Phase::Hello, Event::Message(Incoming::Ping(payload)), now),
            Phase::HelloPong,
            ActionView::SendPong(payload@),
        ),
{
}

/// Law: output goes to the client under its own number and as the text of its own
/// bytes.
pub proof fn lemma_output_is_sent(s: SessionView, output: OutputEvent, now: Timestamp)
    ensures
        leads_to(
            s,
            next(s, Phase::Stream, Event::Output(output), now),
            Phase::Output,
            ActionView::Send(
                ServerFrameView::Output { seq: output.seq, data_b64: base64_text(output.data@) },
            ),
        ),
{
}

/// Law: a text that is no frame, and a second greeting, are refused; the client is told
/// why.
pub proof fn lemma_wrong_frames_are_refused(
    s: SessionView,
    message: String,
    cols: u16,
    rows: u16,
    resume_from_seq: Option<u64>,
    capabilities: ClientCapabilities,
    now: Timestamp,
)
    ensures
        is_told(
            s,
            next(s, Phase::Stream, Event::Message(Incoming::Text(Err(message))), now),
            message@,
        ),
        is_told(
            s,
            next(
                s,
                Phase::Stream,
                sent(ClientFrame::Hello { cols, rows, resume_from_seq, capabilities }),
                now,
            ),
            "hello can only be sent once"@,
        ),
{
}

/// Law: noise, and output that was dropped, change nothing; the end of either side is
/// the end of the connection.
pub proof fn lemma_noise_and_ends(s: SessionView, reason: String, now: Timestamp)
    ensures
        ({
            let on = |event: Event| leads_to(
                s,
                next(s, Phase::Stream, event, now),
                Phase::Stream,
                ActionView::Select,
            );
            &&& on(Event::Lagged)
            &&& on(Event::Message(Incoming::Pong))
            &&& on(Event::Message(Incoming::Binary))
        }),
        ({
            let over = |event: Event| is_over(s, next(s, Phase::Stream, event, now), now);
            &&& over(Event::OutputClosed)
            &&& over(Event::Message(Incoming::Close))
            &&& over(Event::Message(Incoming::Ended))
            &&& over(Event::Message(Incoming::Broken))
            &&& over(Event::Done)
            &&& over(Event::Failed(reason))
        }),
{
}

/// Law: what a client hears before its greeting: noise changes nothing; anything else
/// than a ping ends the connection.
pub proof fn lemma_before_the_greeting(s: SessionView, event: Event, now: Timestamp)
    ensures
        ({
            let t = next(s, Phase::Hello, event, now);
            match event {
                Event::Message(Incoming::Text(Ok(ClientFrame::Hello { .. }))) => true,
                Event::Message(Incoming::Ping(payload)) => true,
                Event::Message(Incoming::Pong) => leads_to(
                    s,
                    t,
                    Phase::Hello,
                    ActionView::Listen,
                ),
                Event::Message(Incoming::Binary) => leads_to(
                    s,
                    t,
                    Phase::Hello,
                    ActionView::Listen,
                ),
                _ => is_over(s, t, now),
            }
        }),
{
}

/// Whether the greeting is answered: with the version, the session and the number of
/// its latest output.
pub open spec fn is_answered(s: SessionView, t: StepView, resume_from_seq: Option<u64>) -> bool {
    &&& t.phase == Phase::Ack { resume_from_seq }
    &&& t.action == ActionView::Send(
        ServerFrameView::HelloAck {
            protocol_version: 1,
            session_id: s.summary.id,
            next_seq: s.next_seq,
        },
    )
}

/// Law: a greeting first gives its size to the terminal, if the size has cells and there
/// is a process, and is then answered, whether or not the terminal took the size; taking
/// it is activity.
pub proof fn lemma_greeting_is_answered(
    s: SessionView,
    cols: u16,
    rows: u16,
    resume_from_seq: Option<u64>,
    capabilities: ClientCapabilities,
    reason: String,
    now: Timestamp,
)
    ensures
        ({
            let hello = sent(ClientFrame::Hello { cols, rows, resume_from_seq, capabilities });
            let t = next(s, Phase::Hello, hello, now);
            if cols > 0 && rows > 0 && s.has_runtime {
                leads_to(
                    s,
                    t,
                    Phase::HelloResize { resume_from_seq },
                    ActionView::Resize { cols, rows },
                )
            } else {
                t.session == s && is_answered(s, t, resume_from_seq)
            }
        }),
        ({
            let t = next(s, Phase::HelloResize { resume_from_seq }, Event::Done, now);
            is_noted(s, t.session, now) && is_answered(s, t, resume_from_seq)
        }),
        ({
            let t = next(s, Phase::HelloResize { resume_from_seq }, Event::Failed(reason), now);
            t.session == s && is_answered(s, t, resume_from_seq)
        }),
{
}

/// Law: after the answer comes the replay: one chunk for each retained event that the
/// client has not seen, in order, each under its own number and as the text of its own
/// bytes; then the status, with what the session reports; then the traffic.
pub proof fn lemma_replay_follows_the_answer(
    s: SessionView,
    resume_from_seq: Option<u64>,
    now: Timestamp,
)
    ensures
        ({
            let t = next(s, Phase::Ack { resume_from_seq }, Event::Done, now);
            let missed = missed_events(s.history.chunks, resume_from_seq);
            &&& t.session == s
            &&& t.phase == Phase::Snapshot
            &&& match t.action {
                ActionView::Send(ServerFrameView::Snapshot { from_seq, chunks }) => {
                    &&& chunks.len() == missed.len()
                    &&& forall|i: int|
                        0 <= i < chunks.len() ==> (#[trigger] chunks[i]).seq == missed[i].seq
                            && chunks[i].data_b64 == base64_text(missed[i].data)
                    &&& missed.len() > 0 ==> from_seq == missed[0].seq
                },
                _ => false,
            }
        }),
        leads_to(
            s,
            next(s, Phase::Snapshot, Event::Done, now),
            Phase::Status,
            ActionView::Send(
                ServerFrameView::Status {
                    running: s.summary.status == SessionStatus::Running,
                    pid: s.summary.pid,
                    attached_clients: s.summary.attached_clients,
                },
            ),
        ),
        leads_to(s, next(s, Phase::Status, Event::Done, now), Phase::Stream, ActionView::Select),
{
    let seen: u64 = match resume_from_seq {
        Some(seq) => seq,
        None => 0,
    };
    assert(newer(s.history.chunks, seen) == missed_events(s.history.chunks, resume_from_seq));
}

/// Law: an event is among the missed ones if and only if it is retained and newer than
/// what the client has seen, or the client has seen nothing.
pub proof fn lemma_missed(
    retained: Seq<EventView>,
    event: EventView,
    resume_from_seq: Option<u64>,
)
    ensures
        ({
            let missed = missed_events(retained, resume_from_seq);
            let more = missed_events(retained.push(event), resume_from_seq);
            let seen = match resume_from_seq {
                Some(seq) => event.seq <= seq,
                None => event.seq == 0,
            };
            &&& missed_events(Seq::<EventView>::empty(), resume_from_seq).len() == 0
            &&& seen ==> more == missed
            &&& !seen ==> more == missed.push(event)
        }),
{
    reveal(Seq::filter);
    assert(retained.push(event).drop_last() =~= retained);
}

/// Law: what follows what was asked for. Input that was written, and a size that was
/// taken, are activity; what could not be written or taken, and a reply that could not
/// be sent, are told to the client; a frame of output or of the greeting that could not
/// be sent is the end.
pub proof fn lemma_outcomes(s: SessionView, phase: Phase, reason: String, now: Timestamp)
    ensures
        ({
            let t = next(s, phase, Event::Done, now);
            match phase {
                Phase::Opening => leads_to(s, t, Phase::Hello, ActionView::Listen),
                Phase::HelloPong => leads_to(s, t, Phase::Hello, ActionView::Listen),
                Phase::Effect => t.phase == Phase::Stream && t.action == ActionView::Select
                    && is_noted(s, t.session, now),
                Phase::Reply => leads_to(s, t, Phase::Stream, ActionView::Select),
                Phase::Output => leads_to(s, t, Phase::Stream, ActionView::Select),
                Phase::Refuse => is_over(s, t, now),
                Phase::Closed => leads_to(s, t, Phase::Closed, ActionView::Close),
                _ => true,
            }
        }),
        ({
            let t = next(s, phase, Event::Failed(reason), now);
            match phase {
                Phase::Effect => is_told(s, t, reason@),
                Phase::Reply => is_told(s, t, reason@),
                Phase::HelloResize { resume_from_seq } => true,
                Phase::Closed => leads_to(s, t, Phase::Closed, ActionView::Close),
                _ => is_over(s, t, now),
            }
        }),
{
}

/// Law: what a connection does not wait for ends it; one that is over stays over.
pub proof fn lemma_unexpected(s: SessionView, phase: Phase, event: Event, now: Timestamp)
    requires
        !(event is Done),
        !(event is Failed),
        phase != Phase::Hello,
        phase != Phase::Stream,
    ensures
        ({
            let t = next(s, phase, event, now);
            if phase == Phase::Closed {
                leads_to(s, t, Phase::Closed, ActionView::Close)
            } else {
                is_over(s, t, now)
            }
        }),
{
}

/// Law: the views of an action and of a frame show what they hold.
pub proof fn lemma_actions_shown(action: Action, frame: ServerFrame)
    ensures
        match action {
            Action::Subscribe => action@ == ActionView::Subscribe,
            Action::Listen => action@ == ActionView::Listen,
            Action::Select => action@ == ActionView::Select,
            Action::Send(f) => action@ == ActionView::Send(f@),
            Action::SendPong(payload) => action@ == ActionView::SendPong(payload@),
            Action::Resize { cols, rows } => action@ == (ActionView::Resize { cols, rows }),
            Action::Write(bytes) => action@ == ActionView::Write(bytes@),
            Action::Close => action@ == ActionView::Close,
        },
        match frame {
            ServerFrame::HelloAck { protocol_version, session_id, next_seq } => frame@ == (
            ServerFrameView::HelloAck { protocol_version, session_id, next_seq }),
            ServerFrame::Snapshot { from_seq, chunks } => match frame@ {
                ServerFrameView::Snapshot { from_seq: first, chunks: list } => first == from_seq
                    && list.len() == chunks@.len() && forall|i: int|
                    0 <= i < list.len() ==> (#[trigger] list[i]).seq == chunks@[i].seq
                        && list[i].data_b64 == chunks@[i].data_b64@,
                _ => false,
            },
            ServerFrame::Output { seq, data_b64 } => frame@ == (ServerFrameView::Output {
                seq,
                data_b64: data_b64@,
            }),
            ServerFrame::Status { running, pid, attached_clients } => frame@ == (
            ServerFrameView::Status { running, pid, attached_clients }),
            ServerFrame::SessionUpdated { session } => frame@ == (ServerFrameView::SessionUpdated {
                session: session@,
            }),
            ServerFrame::Pong { ts_ms } => frame@ == (ServerFrameView::Pong { ts_ms }),
            ServerFrame::Error { code, message } => frame@ == (ServerFrameView::Error {
                code: code@,
                message: message@,
            }),
        },
{
}

/// Law: a frame that shows what was missed is a snapshot with one chunk for each missed
/// event, in order, each with that event's number and a text that decodes to that
/// event's own bytes.
pub proof fn lemma_shows_missed(
    frame: ServerFrameView,
    retained: Seq<EventView>,
    resume_from_seq: Option<u64>,
)
    requires
        shows_missed(frame, retained, resume_from_seq),
    ensures
        match frame {
            ServerFrameView::Snapshot { from_seq, chunks } => {
                let missed = missed_events(retained, resume_from_seq);
                let next_one = match resume_from_seq {
                    Some(seen) => if seen == u64::MAX {
                        seen as int
                    } else {
                        seen + 1
                    },
                    None => 1,
                };
                &&& chunks.len() == missed.len()
                &&& forall|i: int|
                    0 <= i < chunks.len() ==> (#[trigger] chunks[i]).seq == missed[i].seq
                        && base64_bytes(chunks[i].data_b64) == Some(missed[i].data)
                &&& missed.len() > 0 ==> from_seq == missed[0].seq
                &&& missed.len() == 0 ==> from_seq == next_one
            },
            _ => false,
        },
{
    match frame {
        ServerFrameView::Snapshot { from_seq, chunks } => {
            let missed = missed_events(retained, resume_from_seq);
            assert forall|i: int| 0 <= i < chunks.len() implies (#[trigger] chunks[i]).seq
                == missed[i].seq && base64_bytes(chunks[i].data_b64) == Some(missed[i].data) by {
                assert(shows_event(chunks[i], missed[i]));
            }
        },
        _ => {},
    }
}

/// Law: what a step must send of the output: after the answer to a greeting a frame that
/// shows what was missed, and for each live output a frame with its number and a text
/// that decodes to its bytes.
pub proof fn lemma_sends_output(
    resume_from_seq: Option<u64>,
    output: OutputEvent,
    retained: Seq<EventView>,
    action: ActionView,
)
    ensures
        sends_output(Phase::Ack { resume_from_seq }, Event::Done, retained, action) ==> match action {
            ActionView::Send(frame) => shows_missed(frame, retained, resume_from_seq),
            _ => false,
        },
        sends_output(Phase::Stream, Event::Output(output), retained, action) ==> match action {
            ActionView::Send(ServerFrameView::Output { seq, data_b64 }) => seq == output.seq
                && base64_bytes(data_b64) == Some(output.data@),
            _ => false,
        },
{
}

} // verus!
