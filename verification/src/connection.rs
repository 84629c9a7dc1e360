//! A client's connection to a session: the greeting, the replay of what the client
//! missed, and the traffic that follows.
//!
//! A connection is driven step by step. Each step takes the phase the connection is in
//! and what has happened, and says what is to be done and in what phase that leaves
//! the connection.

use vstd::prelude::*;

use crate::history::ascending;
use crate::history::events_view;
use crate::history::lemma_newer;
use crate::history::EventView;
use crate::history::HistoryView;
use crate::history::OutputEvent;
use crate::keyboard::key_bytes;
use crate::keyboard::keyboard_action_to_bytes;
use crate::payload::base64_bytes;
use crate::payload::base64_text;
use crate::payload::decode_payload;
use crate::payload::encodable;
use crate::payload::encode_payload;
use crate::proto::chunks_view;
use crate::proto::ChunkView;
use crate::proto::ClientCapabilities;
use crate::proto::ClientFrame;
use crate::proto::OutputChunk;
use crate::proto::ServerFrame;
use crate::proto::ServerFrameView;
use crate::proto::SessionStatus;
use crate::proto::PROTOCOL_VERSION;
use crate::session::all_encodable;
use crate::session::Session;
use crate::session::SessionView;
use crate::timestamp::Timestamp;

verus! {

/// What comes in from the client.
#[derive(Debug)]
pub enum Incoming {
    /// A text message: the frame it holds, or why it holds none.
    Text(Result<ClientFrame, String>),
    Ping(Vec<u8>),
    Pong,
    Binary,
    Close,
    /// The stream of messages is at its end.
    Ended,
    /// The stream of messages is broken.
    Broken,
}

/// What has happened on a connection.
#[derive(Debug)]
pub enum Event {
    Message(Incoming),
    /// The session has put out something.
    Output(OutputEvent),
    /// The client was too slow, and output has been dropped for it.
    Lagged,
    /// The session puts out nothing any more.
    OutputClosed,
    /// What was asked for is done.
    Done,
    /// What was asked for has failed, for this reason.
    Failed(String),
}

/// The phase of a connection: what it waits for.
#[derive(Clone, Copy, Debug, PartialEq, Eq, Structural)]
pub enum Phase {
    /// The session's output to be listened to.
    Opening,
    /// The client's greeting.
    Hello,
    /// A pong to be sent, before the greeting.
    HelloPong,
    /// The terminal to take the size that the client has greeted with.
    HelloResize { resume_from_seq: Option<u64> },
    /// The answer to the greeting to be sent.
    Ack { resume_from_seq: Option<u64> },
    /// The replay to be sent.
    Snapshot,
    /// The status to be sent.
    Status,
    /// A message of the client or output of the session.
    Stream,
    /// A reply to be sent.
    Reply,
    /// Input to be written, or the terminal to take another size.
    Effect,
    /// Output to be sent.
    Output,
    /// The last frame to be sent.
    Refuse,
    /// Nothing: the connection is over.
    Closed,
}

/// What is to be done on a connection.
#[derive(Debug)]
pub enum Action {
    /// From now on, keep what the session puts out until it is waited for.
    Subscribe,
    /// Wait for a message of the client.
    Listen,
    /// Wait for a message of the client or for output of the session.
    Select,
    Send(ServerFrame),
    SendPong(Vec<u8>),
    Resize { cols: u16, rows: u16 },
    Write(Vec<u8>),
    Close,
}

/// What an action holds.
#[verifier::ext_equal]
pub enum ActionView {
    Subscribe,
    Listen,
    Select,
    Send(ServerFrameView),
    SendPong(Seq<u8>),
    Resize { cols: u16, rows: u16 },
    Write(Seq<u8>),
    Close,
}

impl View for Action {
    type V = ActionView;

    open spec fn view(&self) -> ActionView {
        match *self {
            Action::Subscribe => ActionView::Subscribe,
            Action::Listen => ActionView::Listen,
            Action::Select => ActionView::Select,
            Action::Send(frame) => ActionView::Send(frame@),
            Action::SendPong(payload) => ActionView::SendPong(payload@),
            Action::Resize { cols, rows } => ActionView::Resize { cols, rows },
            Action::Write(bytes) => ActionView::Write(bytes@),
            Action::Close => ActionView::Close,
        }
    }
}

/// What a step leaves: the session, the phase and the action to take.
#[verifier::ext_equal]
pub struct StepView {
    pub session: SessionView,
    pub phase: Phase,
    pub action: ActionView,
}

/// The connection goes on, with the session as it is.
pub open spec fn goes_on(s: SessionView, phase: Phase, action: ActionView) -> StepView {
    StepView { session: s, phase, action }
}

/// The connection ends, and the session counts a client less.
pub open spec fn ends(s: SessionView, now: Timestamp) -> StepView {
    StepView { session: s.detached(now), phase: Phase::Closed, action: ActionView::Close }
}

/// The client is told what is wrong, and the connection ends after that.
pub open spec fn refuses(s: SessionView, message: Seq<char>) -> StepView {
    goes_on(
        s,
        Phase::Refuse,
        ActionView::Send(ServerFrameView::Error { code: "bad_request"@, message }),
    )
}

/// Bytes are to be written to the session's process.
pub open spec fn writes(s: SessionView, bytes: Seq<u8>) -> StepView {
    match s.input_fault() {
        Some(fault) => refuses(s, fault.text()),
        None => goes_on(s, Phase::Effect, ActionView::Write(bytes)),
    }
}

/// The client has sent input, which decodes to these bytes, if it does.
pub open spec fn takes_input(s: SessionView, decoded: Option<Seq<u8>>) -> StepView {
    match decoded {
        Some(bytes) => writes(s, bytes),
        None => refuses(s, "invalid base64 input"@),
    }
}

/// The session's terminal is to take another size.
pub open spec fn resizes(s: SessionView, cols: u16, rows: u16) -> StepView {
    match s.resize_fault(cols, rows) {
        Some(fault) => refuses(s, fault.text()),
        None => goes_on(s, Phase::Effect, ActionView::Resize { cols, rows }),
    }
}

/// The client has sent a frame after its greeting.
pub open spec fn takes_frame(s: SessionView, frame: ClientFrame) -> StepView {
    match frame {
        ClientFrame::Hello { cols, rows, resume_from_seq, capabilities } => {
            refuses(s, "hello can only be sent once"@)
        },
        ClientFrame::Input { data_b64 } => takes_input(s, base64_bytes(data_b64@)),
        ClientFrame::Resize { cols, rows } => resizes(s, cols, rows),
        ClientFrame::Keyboard { action } => match key_bytes(action) {
            Some(bytes) => writes(s, bytes),
            None => goes_on(s, Phase::Stream, ActionView::Select),
        },
        ClientFrame::Ping { ts_ms } => {
            goes_on(s, Phase::Reply, ActionView::Send(ServerFrameView::Pong { ts_ms }))
        },
    }
}

/// The answer to a greeting.
pub open spec fn ack_frame(s: SessionView) -> ServerFrameView {
    ServerFrameView::HelloAck {
        protocol_version: PROTOCOL_VERSION,
        session_id: s.summary.id,
        next_seq: s.next_seq,
    }
}

/// Output as it is replayed.
pub open spec fn chunk_of(event: EventView) -> ChunkView {
    ChunkView { seq: event.seq, data_b64: base64_text(event.data) }
}

/// The replay for a client that has seen the output up to `resume_from_seq`.
pub open spec fn replay_frame(h: HistoryView, resume_from_seq: Option<u64>) -> ServerFrameView {
    let (from_seq, events) = h.replay(resume_from_seq);
    ServerFrameView::Snapshot { from_seq, chunks: events.map_values(|e: EventView| chunk_of(e)) }
}

/// The status of the session.
pub open spec fn status_frame(s: SessionView) -> ServerFrameView {
    ServerFrameView::Status {
        running: s.summary.status == SessionStatus::Running,
        pid: s.summary.pid,
        attached_clients: s.summary.attached_clients,
    }
}

/// The retained events that a client has not seen which has seen the output up to
/// `resume_from_seq`, or none of it.
pub open spec fn missed_events(retained: Seq<EventView>, resume_from_seq: Option<u64>) -> Seq<
    EventView,
> {
    match resume_from_seq {
        Some(seen) => retained.filter(|e: EventView| e.seq > seen),
        None => retained.filter(|e: EventView| e.seq > 0),
    }
}

/// Whether the chunk has the event's number and a text that decodes to its bytes.
pub open spec fn shows_event(chunk: ChunkView, event: EventView) -> bool {
    &&& chunk.seq == event.seq
    &&& base64_bytes(chunk.data_b64) == Some(event.data)
}

/// Whether the frame is a replay that shows a client each event that it has missed, in
/// order and with its own bytes, and says with which number it begins, or would begin.
pub open spec fn shows_missed(
    frame: ServerFrameView,
    retained: Seq<EventView>,
    resume_from_seq: Option<u64>,
) -> bool {
    match frame {
        ServerFrameView::Snapshot { from_seq, chunks } => {
            let missed = missed_events(retained, resume_from_seq);
            &&& chunks.len() == missed.len()
            &&& forall|i: int|
                0 <= i < chunks.len() ==> shows_event(#[trigger] chunks[i], missed[i])
            &&& missed.len() > 0 ==> from_seq == missed[0].seq
            &&& missed.len() == 0 ==> from_seq == match resume_from_seq {
                Some(seen) => if seen == u64::MAX {
                    seen as int
                } else {
                    seen + 1
                },
                None => 1,
            }
        },
        _ => false,
    }
}

/// What is sent of the output, in words of the bytes: a replay shows what was missed,
/// and a live frame has the event's number and a text that decodes to its bytes.
pub open spec fn sends_output(
    phase: Phase,
    event: Event,
    retained: Seq<EventView>,
    action: ActionView,
) -> bool {
    match (phase, event) {
        (Phase::Ack { resume_from_seq }, Event::Done) => match action {
            ActionView::Send(frame) => shows_missed(frame, retained, resume_from_seq),
            _ => false,
        },
        (Phase::Stream, Event::Output(output)) => match action {
            ActionView::Send(ServerFrameView::Output { seq, data_b64 }) => seq == output.seq
                && base64_bytes(data_b64) == Some(output.data@),
            _ => false,
        },
        _ => true,
    }
}

/// Output as it is sent.
pub open spec fn output_frame(event: EventView) -> ServerFrameView {
    ServerFrameView::Output { seq: event.seq, data_b64: base64_text(event.data) }
}

/// The greeting is answered.
pub open spec fn acks(s: SessionView, resume_from_seq: Option<u64>) -> StepView {
    goes_on(s, Phase::Ack { resume_from_seq }, ActionView::Send(ack_frame(s)))
}

/// The client has greeted: the terminal takes its size, if it can, and the greeting is
/// answered.
pub open spec fn greets(
    s: SessionView,
    cols: u16,
    rows: u16,
    resume_from_seq: Option<u64>,
) -> StepView {
    match s.resize_fault(cols, rows) {
        Some(fault) => acks(s, resume_from_seq),
        None => goes_on(
            s,
            Phase::HelloResize { resume_from_seq },
            ActionView::Resize { cols, rows },
        ),
    }
}

/// A message has come in while the greeting is awaited.
pub open spec fn before_hello(s: SessionView, message: Incoming, now: Timestamp) -> StepView {
    match message {
        Incoming::Text(Ok(ClientFrame::Hello { cols, rows, resume_from_seq, capabilities })) => {
            greets(s, cols, rows, resume_from_seq)
        },
        Incoming::Ping(payload) => {
            goes_on(s, Phase::HelloPong, ActionView::SendPong(payload@))
        },
        Incoming::Pong => goes_on(s, Phase::Hello, ActionView::Listen),
        Incoming::Binary => goes_on(s, Phase::Hello, ActionView::Listen),
        _ => ends(s, now),
    }
}

/// Something has happened after the greeting was answered.
pub open spec fn in_stream(s: SessionView, event: Event, now: Timestamp) -> StepView {
    match event {
        Event::Message(Incoming::Text(Ok(frame))) => takes_frame(s, frame),
        Event::Message(Incoming::Text(Err(message))) => refuses(s, message@),
        Event::Message(Incoming::Ping(payload)) => {
            goes_on(s, Phase::Reply, ActionView::SendPong(payload@))
        },
        Event::Message(Incoming::Pong) => goes_on(s, Phase::Stream, ActionView::Select),
        Event::Message(Incoming::Binary) => goes_on(s, Phase::Stream, ActionView::Select),
        Event::Output(output) => {
            goes_on(s, Phase::Output, ActionView::Send(output_frame(output@)))
        },
        Event::Lagged => goes_on(s, Phase::Stream, ActionView::Select),
        _ => ends(s, now),
    }
}

/// What was asked for in this phase is done.
pub open spec fn when_done(s: SessionView, phase: Phase, now: Timestamp) -> StepView {
    match phase {
        Phase::Opening => goes_on(s, Phase::Hello, ActionView::Listen),
        Phase::HelloPong => goes_on(s, Phase::Hello, ActionView::Listen),
        Phase::HelloResize { resume_from_seq } => acks(s.touched(now), resume_from_seq),
        Phase::Ack { resume_from_seq } => {
            goes_on(s, Phase::Snapshot, ActionView::Send(replay_frame(s.history, resume_from_seq)))
        },
        Phase::Snapshot => goes_on(s, Phase::Status, ActionView::Send(status_frame(s))),
        Phase::Status => goes_on(s, Phase::Stream, ActionView::Select),
        Phase::Reply => goes_on(s, Phase::Stream, ActionView::Select),
        Phase::Effect => goes_on(s.touched(now), Phase::Stream, ActionView::Select),
        Phase::Output => goes_on(s, Phase::Stream, ActionView::Select),
        _ => ends(s, now),
    }
}

/// What was asked for in this phase has failed. A terminal that does not take the size
/// of the greeting is no reason to refuse the client.
pub open spec fn when_failed(
    s: SessionView,
    phase: Phase,
    message: Seq<char>,
    now: Timestamp,
) -> StepView {
    match phase {
        Phase::HelloResize { resume_from_seq } => acks(s, resume_from_seq),
        Phase::Reply => refuses(s, message),
        Phase::Effect => refuses(s, message),
        _ => ends(s, now),
    }
}

/// A step of a connection. What the phase does not wait for ends the connection; one
/// that is over stays so.
pub open spec fn next(s: SessionView, phase: Phase, event: Event, now: Timestamp) -> StepView {
    match phase {
        Phase::Closed => goes_on(s, Phase::Closed, ActionView::Close),
        Phase::Hello => match event {
            Event::Message(message) => before_hello(s, message, now),
            _ => ends(s, now),
        },
        Phase::Stream => in_stream(s, event, now),
        _ => match event {
            Event::Done => when_done(s, phase, now),
            Event::Failed(message) => when_failed(s, phase, message@, now),
            _ => ends(s, now),
        },
    }
}

/// The base64 texts of the events' bytes, from which the bytes can be read back.
pub fn encode_events(events: &Vec<OutputEvent>) -> (r: Vec<String>)
    requires
        all_encodable(events_view(events@)),
    ensures
        r@.len() == events@.len(),
        forall|i: int|
            0 <= i < r@.len() ==> (#[trigger] r@[i])@ == base64_text(events@[i].data@)
                && base64_bytes(r@[i]@) == Some(events@[i].data@),
{
    let mut list: Vec<String> = Vec::new();
    let mut i: usize = 0;
    while i < events.len()
        invariant
            i <= events.len(),
            list@.len() == i,
            all_encodable(events_view(events@)),
            forall|j: int|
                0 <= j < i ==> (#[trigger] list@[j])@ == base64_text(events@[j].data@)
                    && base64_bytes(list@[j]@) == Some(events@[j].data@),
        decreases events.len() - i,
    {
        assert(encodable(events_view(events@)[i as int].data.len()));
        list.push(encode_payload(&events[i].data));
        i = i + 1;
    }
    list
}

/// The replay of events whose bytes are these texts.
pub fn snapshot_frame(from_seq: u64, events: &Vec<OutputEvent>, data: Vec<String>) -> (r:
    ServerFrame)
    requires
        data@.len() == events@.len(),
    ensures
        r@ == (ServerFrameView::Snapshot {
            from_seq,
            chunks: Seq::new(
                events@.len(),
                |i: int| ChunkView { seq: events@[i].seq, data_b64: data@[i]@ },
            ),
        }),
{
    let mut chunks: Vec<OutputChunk> = Vec::new();
    let mut i: usize = 0;
    while i < events.len()
        invariant
            i <= events.len(),
            data@.len() == events@.len(),
            chunks_view(chunks@) == Seq::new(
                i as nat,
                |j: int| ChunkView { seq: events@[j].seq, data_b64: data@[j]@ },
            ),
        decreases events.len() - i,
    {
        let ghost before = chunks@;
        let chunk = OutputChunk { seq: events[i].seq, data_b64: data[i].clone() };
        chunks.push(chunk);
        assert(chunks_view(chunks@) =~= chunks_view(before).push(chunk@));
        i = i + 1;
        assert(chunks_view(chunks@) =~= Seq::new(
            i as nat,
            |j: int| ChunkView { seq: events@[j].seq, data_b64: data@[j]@ },
        ));
    }
    ServerFrame::Snapshot { from_seq, chunks }
}

/// The frame for output whose bytes are this text.
pub fn live_frame(seq: u64, data_b64: String) -> (r: ServerFrame)
    ensures
        r@ == (ServerFrameView::Output { seq, data_b64: data_b64@ }),
{
    ServerFrame::Output { seq, data_b64 }
}

fn refuse(message: String) -> (r: (Phase, Action))
    ensures
        r.0 == Phase::Refuse,
        r.1@ == ActionView::Send(
            ServerFrameView::Error { code: "bad_request"@, message: message@ },
        ),
{
    (Phase::Refuse, Action::Send(ServerFrame::Error { code: "bad_request".to_owned(), message }))
}

fn close_at(session: &mut Session, now: Timestamp) -> (r: (Phase, Action))
    requires
        old(session).wf(),
        now.valid(),
    ensures
        final(session).wf(),
        (StepView { session: final(session)@, phase: r.0, action: r.1@ }) == ends(
            old(session)@,
            now,
        ),
{
    session.detach_client_at(now);
    (Phase::Closed, Action::Close)
}

/// Writes the bytes to the session's process, or refuses.
pub fn write_bytes(session: &Session, bytes: Vec<u8>) -> (r: (Phase, Action))
    ensures
        goes_on(session@, r.0, r.1@) == writes(session@, bytes@),
{
    match session.check_input() {
        Ok(_) => (Phase::Effect, Action::Write(bytes)),
        Err(fault) => refuse(fault.message()),
    }
}

/// Takes input that decodes to these bytes, if it does.
pub fn take_input(session: &Session, decoded: Option<Vec<u8>>) -> (r: (Phase, Action))
    ensures
        goes_on(session@, r.0, r.1@) == takes_input(
            session@,
            match decoded {
                Some(bytes) => Some(bytes@),
                None => None,
            },
        ),
{
    match decoded {
        Some(bytes) => write_bytes(session, bytes),
        None => refuse("invalid base64 input".to_owned()),
    }
}

/// Takes a frame that the client has sent after its greeting.
pub fn take_frame(session: &Session, frame: ClientFrame) -> (r: (Phase, Action))
    ensures
        goes_on(session@, r.0, r.1@) == takes_frame(session@, frame),
{
    match frame {
        ClientFrame::Hello { cols, rows, resume_from_seq, capabilities } => {
            refuse("hello can only be sent once".to_owned())
        },
        ClientFrame::Input { data_b64 } => take_input(session, decode_payload(data_b64.as_str())),
        ClientFrame::Resize { cols, rows } => match session.check_resize(cols, rows) {
            Ok(_) => (Phase::Effect, Action::Resize { cols, rows }),
            Err(fault) => refuse(fault.message()),
        },
        ClientFrame::Keyboard { action } => match keyboard_action_to_bytes(action) {
            Some(bytes) => write_bytes(session, bytes),
            None => (Phase::Stream, Action::Select),
        },
        ClientFrame::Ping { ts_ms } => (Phase::Reply, Action::Send(ServerFrame::Pong { ts_ms })),
    }
}

fn ack(session: &Session, resume_from_seq: Option<u64>) -> (r: (Phase, Action))
    ensures
        goes_on(session@, r.0, r.1@) == acks(session@, resume_from_seq),
{
    let frame = ServerFrame::HelloAck {
        protocol_version: PROTOCOL_VERSION,
        session_id: session.id(),
        next_seq: session.next_seq(),
    };
    (Phase::Ack { resume_from_seq }, Action::Send(frame))
}

fn replay(session: &Session, resume_from_seq: Option<u64>) -> (r: ServerFrame)
    requires
        session.wf(),
    ensures
        r@ == replay_frame(session@.history, resume_from_seq),
        shows_missed(r@, session@.history.chunks, resume_from_seq),
{
    let (from_seq, events) = session.snapshot_since(resume_from_seq);
    let ghost held = events_view(events@);
    proof {
        session.lemma_wf();
        lemma_newer_encodable(
            session@.history.chunks,
            HistoryView::resume_point(resume_from_seq),
        );
    }
    let data = encode_events(&events);
    let frame = snapshot_frame(from_seq, &events, data);
    proof {
        let want = held.map_values(|e: EventView| chunk_of(e));
        let have = Seq::new(
            events@.len(),
            |i: int| ChunkView { seq: events@[i].seq, data_b64: data@[i]@ },
        );
        assert forall|i: int| 0 <= i < want.len() implies want[i] == have[i] by {
            assert(held[i] == events@[i]@);
        }
        assert(want =~= have);
        assert forall|i: int| 0 <= i < have.len() implies shows_event(
            #[trigger] have[i],
            missed_events(session@.history.chunks, resume_from_seq)[i],
        ) by {
            assert(held[i] == events@[i]@);
        }
    }
    frame
}

fn status(session: &Session) -> (r: ServerFrame)
    ensures
        r@ == status_frame(session@),
{
    let summary = session.summary();
    let running: bool = match summary.status {
        SessionStatus::Running => true,
        _ => false,
    };
    ServerFrame::Status {
        running,
        pid: summary.pid,
        attached_clients: summary.attached_clients,
    }
}

/// Opens a connection: the session counts the client, and its output is listened to
/// before anything else.
pub fn open_connection_at(session: &mut Session, now: Timestamp) -> (r: (Phase, Action))
    requires
        old(session).wf(),
        now.valid(),
    ensures
        final(session).wf(),
        final(session)@ == old(session)@.attached(now),
        r.0 == Phase::Opening,
        r.1@ == ActionView::Subscribe,
{
    session.attach_client_at(now);
    (Phase::Opening, Action::Subscribe)
}

fn step_hello(session: &mut Session, message: Incoming, now: Timestamp) -> (r: (Phase, Action))
    requires
        old(session).wf(),
        now.valid(),
    ensures
        final(session).wf(),
        (StepView { session: final(session)@, phase: r.0, action: r.1@ }) == before_hello(
            old(session)@,
            message,
            now,
        ),
{
    match message {
        Incoming::Text(Ok(ClientFrame::Hello { cols, rows, resume_from_seq, capabilities })) => {
            match session.check_resize(cols, rows) {
                Ok(_) => (Phase::HelloResize { resume_from_seq }, Action::Resize { cols, rows }),
                Err(_) => ack(session, resume_from_seq),
            }
        },
        Incoming::Ping(payload) => (Phase::HelloPong, Action::SendPong(payload)),
        Incoming::Pong => (Phase::Hello, Action::Listen),
        Incoming::Binary => (Phase::Hello, Action::Listen),
        _ => close_at(session, now),
    }
}

fn step_stream(session: &mut Session, event: Event, now: Timestamp) -> (r: (Phase, Action))
    requires
        old(session).wf(),
        now.valid(),
        event matches Event::Output(output) ==> encodable(output.data@.len()),
    ensures
        final(session).wf(),
        (StepView { session: final(session)@, phase: r.0, action: r.1@ }) == in_stream(
            old(session)@,
            event,
            now,
        ),
        sends_output(Phase::Stream, event, old(session)@.history.chunks, r.1@),
{
    match event {
        Event::Message(Incoming::Text(Ok(frame))) => take_frame(session, frame),
        Event::Message(Incoming::Text(Err(message))) => refuse(message),
        Event::Message(Incoming::Ping(payload)) => (Phase::Reply, Action::SendPong(payload)),
        Event::Message(Incoming::Pong) => (Phase::Stream, Action::Select),
        Event::Message(Incoming::Binary) => (Phase::Stream, Action::Select),
        Event::Output(output) => {
            let frame = live_frame(output.seq, encode_payload(&output.data));
            (Phase::Output, Action::Send(frame))
        },
        Event::Lagged => (Phase::Stream, Action::Select),
        _ => close_at(session, now),
    }
}

fn step_done(session: &mut Session, phase: Phase, now: Timestamp) -> (r: (Phase, Action))
    requires
        old(session).wf(),
        now.valid(),
    ensures
        final(session).wf(),
        (StepView { session: final(session)@, phase: r.0, action: r.1@ }) == when_done(
            old(session)@,
            phase,
            now,
        ),
        sends_output(phase, Event::Done, old(session)@.history.chunks, r.1@),
{
    match phase {
        Phase::Opening => (Phase::Hello, Action::Listen),
        Phase::HelloPong => (Phase::Hello, Action::Listen),
        Phase::HelloResize { resume_from_seq } => {
            session.note_activity_at(now);
            ack(session, resume_from_seq)
        },
        Phase::Ack { resume_from_seq } => {
            (Phase::Snapshot, Action::Send(replay(session, resume_from_seq)))
        },
        Phase::Snapshot => (Phase::Status, Action::Send(status(session))),
        Phase::Status => (Phase::Stream, Action::Select),
        Phase::Reply => (Phase::Stream, Action::Select),
        Phase::Effect => {
            session.note_activity_at(now);
            (Phase::Stream, Action::Select)
        },
        Phase::Output => (Phase::Stream, Action::Select),
        _ => close_at(session, now),
    }
}

/// Takes a step of a connection at the instant `now`.
pub fn step_at(session: &mut Session, phase: Phase, event: Event, now: Timestamp) -> (r: (
    Phase,
    Action,
))
    requires
        old(session).wf(),
        now.valid(),
        event matches Event::Output(output) ==> encodable(output.data@.len()),
    ensures
        final(session).wf(),
        (StepView { session: final(session)@, phase: r.0, action: r.1@ }) == next(
            old(session)@,
            phase,
            event,
            now,
        ),
        sends_output(phase, event, old(session)@.history.chunks, r.1@),
{
    match phase {
        Phase::Closed => (Phase::Closed, Action::Close),
        Phase::Hello => match event {
            Event::Message(message) => step_hello(session, message, now),
            _ => close_at(session, now),
        },
        Phase::Stream => step_stream(session, event, now),
        _ => match event {
            Event::Done => step_done(session, phase, now),
            Event::Failed(message) => match phase {
                Phase::HelloResize { resume_from_seq } => ack(session, resume_from_seq),
                Phase::Reply => refuse(message),
                Phase::Effect => refuse(message),
                _ => close_at(session, now),
            },
            _ => close_at(session, now),
        },
    }
}

/// Opens a connection: the session counts the client, and its output is listened to
/// before anything else.
pub fn open_connection(session: &mut Session) -> (r: (Phase, Action))
    requires
        old(session).wf(),
    ensures
        final(session).wf(),
        exists|now: Timestamp|
            now.valid() && final(session)@ == #[trigger] old(session)@.attached(now),
        r.0 == Phase::Opening,
        r.1@ == ActionView::Subscribe,
{
    open_connection_at(session, Timestamp::now())
}

/// Takes a step of a connection.
pub fn step(session: &mut Session, phase: Phase, event: Event) -> (r: (Phase, Action))
    requires
        old(session).wf(),
        event matches Event::Output(output) ==> encodable(output.data@.len()),
    ensures
        final(session).wf(),
        exists|now: Timestamp|
            now.valid() && (StepView { session: final(session)@, phase: r.0, action: r.1@ })
                == #[trigger] next(old(session)@, phase, event, now),
        sends_output(phase, event, old(session)@.history.chunks, r.1@),
{
    step_at(session, phase, event, Timestamp::now())
}

/// Events that fit in frames still do when only the newer ones are taken.
proof fn lemma_newer_encodable(chunks: Seq<EventView>, from: u64)
    requires
        all_encodable(chunks),
    ensures
        all_encodable(crate::history::newer(chunks, from)),
    decreases chunks.len(),
{
    reveal(Seq::filter);
    if chunks.len() > 0 {
        let rest = chunks.drop_last();
        assert(forall|i: int| 0 <= i < rest.len() ==> #[trigger] rest[i] == chunks[i]);
        lemma_newer_encodable(rest, from);
        assert(encodable(chunks[chunks.len() - 1].data.len()));
    }
}

/// The event that a client's greeting is.
pub open spec fn hello(
    cols: u16,
    rows: u16,
    resume_from_seq: Option<u64>,
    capabilities: ClientCapabilities,
) -> Event {
    Event::Message(
        Incoming::Text(Ok(ClientFrame::Hello { cols, rows, resume_from_seq, capabilities })),
    )
}

/// Law: a client that greets is sent the answer, the replay of what it missed and the
/// status, in this order, whether or not the terminal takes its size; then the traffic
/// begins. The steps are taken at the instants `at`.
pub proof fn lemma_greeting(
    s: SessionView,
    cols: u16,
    rows: u16,
    resume_from_seq: Option<u64>,
    capabilities: ClientCapabilities,
    resized: Event,
    at: Seq<Timestamp>,
)
    requires
        resized is Done || resized is Failed,
    ensures
        ({
            let first = next(
                s,
                Phase::Hello,
                hello(cols, rows, resume_from_seq, capabilities),
                at[0],
            );
            let answer = if s.resize_fault(cols, rows) is None {
                next(first.session, first.phase, resized, at[1])
            } else {
                first
            };
            let snapshot = next(answer.session, answer.phase, Event::Done, at[2]);
            let status = next(snapshot.session, snapshot.phase, Event::Done, at[3]);
            let stream = next(status.session, status.phase, Event::Done, at[4]);
            &&& s.resize_fault(cols, rows) is None ==> first.action == ActionView::Resize {
                cols,
                rows,
            }
            &&& answer.action == ActionView::Send(ack_frame(s))
            &&& snapshot.action == ActionView::Send(replay_frame(s.history, resume_from_seq))
            &&& status.action == ActionView::Send(status_frame(s))
            &&& stream.phase == Phase::Stream
            &&& stream.action == ActionView::Select
        }),
{
}

/// Law: before the greeting no frame is sent, and anything else than a greeting, a ping
/// or noise ends the connection.
pub proof fn lemma_hello_comes_first(s: SessionView, event: Event, now: Timestamp)
    requires
        !(event matches Event::Message(Incoming::Text(Ok(ClientFrame::Hello { .. })))),
    ensures
        ({
            let t = next(s, Phase::Hello, event, now);
            &&& !(t.action is Send)
            &&& !(t.action is Write)
            &&& !(t.action is Resize)
            &&& t.phase == Phase::Hello || t.phase == Phase::HelloPong || t.phase == Phase::Closed
        }),
{
}

/// Law: a client that greets again is told that it may not, and the connection ends.
pub proof fn lemma_hello_comes_once(
    s: SessionView,
    cols: u16,
    rows: u16,
    resume_from_seq: Option<u64>,
    capabilities: ClientCapabilities,
    sent: Event,
    now: Timestamp,
    later: Timestamp,
)
    ensures
        ({
            let told = next(
                s,
                Phase::Stream,
                hello(cols, rows, resume_from_seq, capabilities),
                now,
            );
            &&& told.action == ActionView::Send(
                ServerFrameView::Error {
                    code: "bad_request"@,
                    message: "hello can only be sent once"@,
                },
            )
            &&& next(told.session, told.phase, sent, later).phase == Phase::Closed
        }),
{
}

/// Law: a step changes the number of clients exactly when it ends the connection. It
/// never touches the process, the status or the output of the session.
pub proof fn lemma_step_keeps_session(s: SessionView, phase: Phase, event: Event, now: Timestamp)
    ensures
        ({
            let t = next(s, phase, event, now);
            &&& t.session.has_runtime == s.has_runtime
            &&& t.session.generation == s.generation
            &&& t.session.history == s.history
            &&& t.session.next_seq == s.next_seq
            &&& t.session.config == s.config
            &&& t.session.summary.status == s.summary.status
            &&& t.session.summary.pid == s.summary.pid
            &&& t.session.summary.exit_code == s.summary.exit_code
            &&& t.session.summary.archived == s.summary.archived
            &&& t.session.summary.attached_clients == if phase != Phase::Closed && t.phase
                == Phase::Closed && s.summary.attached_clients > 0 {
                s.summary.attached_clients - 1
            } else {
                s.summary.attached_clients as int
            }
        }),
{
}

/// An event and when it happens.
pub struct Happening {
    pub event: Event,
    pub now: Timestamp,
}

/// What is left when the events have happened one after another.
pub open spec fn run(s: SessionView, phase: Phase, events: Seq<Happening>) -> (SessionView, Phase)
    decreases events.len(),
{
    if events.len() == 0 {
        (s, phase)
    } else {
        let (before, at) = run(s, phase, events.drop_last());
        let t = next(before, at, events.last().event, events.last().now);
        (t.session, t.phase)
    }
}

/// Law: whatever happens on a connection, the session counts its client from the
/// opening until the end, once, and keeps its process, its status and its output.
pub proof fn lemma_connection_leaves_session(
    s: SessionView,
    opened: Timestamp,
    events: Seq<Happening>,
)
    requires
        s.summary.attached_clients < u32::MAX,
    ensures
        ({
            let (t, phase) = run(s.attached(opened), Phase::Opening, events);
            &&& t.summary.attached_clients == if phase == Phase::Closed {
                s.summary.attached_clients as int
            } else {
                s.summary.attached_clients + 1
            }
            &&& t.has_runtime == s.has_runtime
            &&& t.generation == s.generation
            &&& t.history == s.history
            &&& t.next_seq == s.next_seq
            &&& t.config == s.config
            &&& t.summary.status == s.summary.status
            &&& t.summary.pid == s.summary.pid
            &&& t.summary.exit_code == s.summary.exit_code
            &&& t.summary.archived == s.summary.archived
        }),
    decreases events.len(),
{
    if events.len() > 0 {
        lemma_connection_leaves_session(s, opened, events.drop_last());
        let (before, at) = run(s.attached(opened), Phase::Opening, events.drop_last());
        lemma_step_keeps_session(before, at, events.last().event, events.last().now);
    }
}

/// Law: a connection gets past its opening only once the session's output is listened
/// to, so every greeting is answered, and every replay taken, after that.
pub proof fn lemma_subscribed_first(s: SessionView, events: Seq<Happening>)
    ensures
        ({
            let phase = run(s, Phase::Opening, events).1;
            phase != Phase::Opening && phase != Phase::Closed ==> events.len() > 0
                && events[0].event is Done
        }),
        run(s, Phase::Opening, events).1 == Phase::Opening ==> events.len() == 0,
    decreases events.len(),
{
    if events.len() > 0 {
        let before = events.drop_last();
        lemma_subscribed_first(s, before);
        if before.len() > 0 {
            assert(before[0] == events[0]);
        }
    }
}

/// Law: no output is lost between the replay and the live output. With `subscribed` the
/// session when its output began to be listened to, and `replayed` the session when the
/// replay was taken, each output event that the client has not seen is in the replay or
/// comes after the subscription, if the history still retains those that were put out
/// before.
pub proof fn lemma_no_gap(
    subscribed: SessionView,
    replayed: SessionView,
    resume_from_seq: Option<u64>,
    seq: u64,
)
    requires
        replayed.gapless(),
        subscribed.next_seq <= replayed.next_seq,
        ({
            let seen = HistoryView::resume_point(resume_from_seq);
            &&& seq > seen
            &&& replayed.next_seq - replayed.history.chunks.len() <= seen
                || subscribed.next_seq <= seen
        }),
    ensures
        ({
            let chunks = replayed.history.replay(resume_from_seq).1;
            ||| seq > subscribed.next_seq
            ||| exists|i: int| 0 <= i < chunks.len() && (#[trigger] chunks[i]).seq == seq
        }),
{
    let all = replayed.history.chunks;
    if seq <= subscribed.next_seq {
        assert(ascending(all));
        let k = lemma_newer(all, HistoryView::resume_point(resume_from_seq));
        let at = all.len() - 1 - (replayed.next_seq - seq);
        assert(all[at].seq == seq);
        let chunks = replayed.history.replay(resume_from_seq).1;
        assert(chunks[at - k].seq == seq);
    }
}

/// Law: a connection that is over stays over.
pub proof fn lemma_closed_stays_closed(s: SessionView, event: Event, now: Timestamp)
    ensures
        next(s, Phase::Closed, event, now) == goes_on(s, Phase::Closed, ActionView::Close),
{
}

} // verus!
