use remoterm::connection::encode_events;
use remoterm::connection::live_frame;
use remoterm::connection::open_connection;
use remoterm::connection::open_connection_at;
use remoterm::connection::snapshot_frame;
use remoterm::connection::step;
use remoterm::connection::step_at;
use remoterm::connection::take_frame;
use remoterm::connection::take_input;
use remoterm::connection::write_bytes;
use remoterm::connection::Action;
use remoterm::connection::Event;
use remoterm::connection::Incoming;
use remoterm::connection::Phase;
use remoterm::history::OutputEvent;
use remoterm::proto::ClientCapabilities;
use remoterm::proto::ClientFrame;
use remoterm::proto::KeyboardAction;
use remoterm::proto::ServerFrame;
use remoterm::proto::PROTOCOL_VERSION;
use remoterm::session::Session;
use remoterm::session::SessionConfig;
use remoterm::timestamp::Timestamp;

fn at(secs: i64) -> Timestamp {
    Timestamp::new(secs, 0).unwrap()
}

fn session() -> Session {
    let config = SessionConfig {
        name: "n".to_string(),
        cwd: "/".to_string(),
        shell: "sh".to_string(),
        args: Vec::new(),
    };
    Session::new_at(3, config, 100, at(10))
}

fn running() -> Session {
    let mut s = session();
    s.install_runtime();
    s.mark_running_at(0, Some(1), at(11));
    s
}

fn hello(resume_from_seq: Option<u64>) -> Event {
    frame(ClientFrame::Hello {
        cols: 80,
        rows: 24,
        resume_from_seq,
        capabilities: ClientCapabilities { mobile: false, keyboard_overlay: false },
    })
}

fn frame(frame: ClientFrame) -> Event {
    Event::Message(Incoming::Text(Ok(frame)))
}

fn next(s: &mut Session, phase: Phase, event: Event) -> (Phase, Action) {
    step_at(s, phase, event, at(50))
}

fn refusal(action: Action) -> String {
    match action {
        Action::Send(ServerFrame::Error { code, message }) => {
            assert_eq!(code, "bad_request");
            message
        }
        other => panic!("{other:?}"),
    }
}

#[test]
fn opening_counts_the_client() {
    let mut s = session();
    let (phase, action) = open_connection_at(&mut s, at(20));
    assert_eq!(phase, Phase::Opening);
    assert!(matches!(action, Action::Subscribe));
    assert_eq!(s.summary().attached_clients, 1);
    assert_eq!(s.summary().updated_at, at(20));
    let (phase, action) = next(&mut s, phase, Event::Done);
    assert_eq!(phase, Phase::Hello);
    assert!(matches!(action, Action::Listen));
}

#[test]
fn a_greeting_is_answered_in_order() {
    let mut s = running();
    s.push_output_at(0, b"one".to_vec(), at(12));
    s.push_output_at(0, b"two".to_vec(), at(12));
    open_connection_at(&mut s, at(20));
    let (phase, action) = next(&mut s, Phase::Hello, hello(Some(1)));
    assert!(matches!(action, Action::Resize { cols: 80, rows: 24 }));
    let (phase, action) = next(&mut s, phase, Event::Done);
    assert_eq!(s.summary().last_activity_at, at(50));
    match action {
        Action::Send(ServerFrame::HelloAck { protocol_version, session_id, next_seq }) => {
            assert_eq!((protocol_version, session_id, next_seq), (PROTOCOL_VERSION, 3, 2));
        }
        other => panic!("{other:?}"),
    }
    let (phase, action) = next(&mut s, phase, Event::Done);
    match action {
        Action::Send(ServerFrame::Snapshot { from_seq, chunks }) => {
            assert_eq!(from_seq, 2);
            assert_eq!(chunks.len(), 1);
            assert_eq!((chunks[0].seq, chunks[0].data_b64.as_str()), (2, "dHdv"));
        }
        other => panic!("{other:?}"),
    }
    let (phase, action) = next(&mut s, phase, Event::Done);
    assert!(matches!(
        action,
        Action::Send(ServerFrame::Status { running: true, pid: Some(1), attached_clients: 1 })
    ));
    let (phase, action) = next(&mut s, phase, Event::Done);
    assert_eq!(phase, Phase::Stream);
    assert!(matches!(action, Action::Select));
}

#[test]
fn a_greeting_is_answered_without_a_process() {
    let mut s = session();
    let (phase, action) = next(&mut s, Phase::Hello, hello(None));
    assert!(matches!(action, Action::Send(ServerFrame::HelloAck { .. })));
    let (phase, action) = next(&mut s, phase, Event::Done);
    assert!(matches!(
        action,
        Action::Send(ServerFrame::Snapshot { from_seq: 1, ref chunks }) if chunks.is_empty()
    ));
    let (_, action) = next(&mut s, phase, Event::Done);
    assert!(matches!(
        action,
        Action::Send(ServerFrame::Status { running: false, pid: None, .. })
    ));
}

#[test]
fn a_greeting_is_answered_though_the_terminal_keeps_its_size() {
    let mut s = running();
    let (phase, _) = next(&mut s, Phase::Hello, hello(None));
    let (_, action) = next(&mut s, phase, Event::Failed("resize PTY failed".to_string()));
    assert!(matches!(action, Action::Send(ServerFrame::HelloAck { .. })));
    assert_eq!(s.summary().last_activity_at, at(11));
}

#[test]
fn pings_are_answered_before_the_greeting() {
    let mut s = session();
    let ping = Event::Message(Incoming::Ping(vec![1, 2]));
    let (phase, action) = next(&mut s, Phase::Hello, ping);
    assert!(matches!(action, Action::SendPong(ref p) if *p == vec![1, 2]));
    let (phase, action) = next(&mut s, phase, Event::Done);
    assert_eq!(phase, Phase::Hello);
    assert!(matches!(action, Action::Listen));
    for noise in [Incoming::Pong, Incoming::Binary] {
        let (phase, action) = next(&mut s, Phase::Hello, Event::Message(noise));
        assert_eq!(phase, Phase::Hello);
        assert!(matches!(action, Action::Listen));
    }
}

#[test]
fn anything_but_a_greeting_ends_the_connection() {
    let events = vec![
        frame(ClientFrame::Ping { ts_ms: 1 }),
        frame(ClientFrame::Resize { cols: 1, rows: 1 }),
        Event::Message(Incoming::Text(Err("bad".to_string()))),
        Event::Message(Incoming::Close),
        Event::Message(Incoming::Ended),
        Event::Message(Incoming::Broken),
    ];
    for event in events {
        let mut s = running();
        open_connection_at(&mut s, at(20));
        let (phase, action) = next(&mut s, Phase::Hello, event);
        assert_eq!(phase, Phase::Closed);
        assert!(matches!(action, Action::Close));
        assert_eq!(s.summary().attached_clients, 0);
        assert!(s.has_runtime());
    }
}

#[test]
fn a_failed_answer_ends_the_connection() {
    for phase in [
        Phase::HelloPong,
        Phase::Ack { resume_from_seq: None },
        Phase::Snapshot,
        Phase::Status,
        Phase::Output,
    ] {
        let mut s = running();
        open_connection_at(&mut s, at(20));
        let (phase, action) = next(&mut s, phase, Event::Failed("gone".to_string()));
        assert_eq!(phase, Phase::Closed);
        assert!(matches!(action, Action::Close));
        assert_eq!(s.summary().attached_clients, 0);
    }
}

#[test]
fn input_is_written() {
    let mut s = running();
    let input = frame(ClientFrame::Input { data_b64: "bHMK".to_string() });
    let (phase, action) = next(&mut s, Phase::Stream, input);
    assert!(matches!(action, Action::Write(ref bytes) if bytes == b"ls\n"));
    assert_eq!(s.summary().last_activity_at, at(11));
    let (phase, action) = next(&mut s, phase, Event::Done);
    assert_eq!(phase, Phase::Stream);
    assert!(matches!(action, Action::Select));
    assert_eq!(s.summary().last_activity_at, at(50));
}

#[test]
fn input_that_is_not_base64_is_refused() {
    let mut s = running();
    let input = frame(ClientFrame::Input { data_b64: "?".to_string() });
    let (phase, action) = next(&mut s, Phase::Stream, input);
    assert_eq!(phase, Phase::Refuse);
    assert_eq!(refusal(action), "invalid base64 input");
    let (phase, _) = next(&mut s, phase, Event::Done);
    assert_eq!(phase, Phase::Closed);
}

#[test]
fn decoded_input_is_written_or_refused() {
    let s = running();
    let (phase, action) = take_input(&s, Some(b"x".to_vec()));
    assert_eq!(phase, Phase::Effect);
    assert!(matches!(action, Action::Write(ref bytes) if bytes == b"x"));
    let (_, action) = take_input(&s, None);
    assert_eq!(refusal(action), "invalid base64 input");
    let (_, action) = take_input(&session(), Some(b"x".to_vec()));
    assert_eq!(refusal(action), "session runtime is not available");
}

#[test]
fn input_without_a_process_is_refused() {
    let mut s = session();
    let input = frame(ClientFrame::Input { data_b64: "bHMK".to_string() });
    let (_, action) = next(&mut s, Phase::Stream, input);
    assert_eq!(refusal(action), "session runtime is not available");
}

#[test]
fn input_that_cannot_be_written_is_refused() {
    let mut s = running();
    let failed = Event::Failed("write to PTY failed".to_string());
    let (phase, action) = next(&mut s, Phase::Effect, failed);
    assert_eq!(phase, Phase::Refuse);
    assert_eq!(refusal(action), "write to PTY failed");
}

#[test]
fn sizes_are_taken_or_refused() {
    let mut s = running();
    let resize = |cols, rows| frame(ClientFrame::Resize { cols, rows });
    let (phase, action) = next(&mut s, Phase::Stream, resize(120, 40));
    assert_eq!(phase, Phase::Effect);
    assert!(matches!(action, Action::Resize { cols: 120, rows: 40 }));
    let (_, action) = next(&mut s, Phase::Stream, resize(0, 40));
    assert_eq!(refusal(action), "invalid terminal size");
    let (_, action) = next(&mut session(), Phase::Stream, resize(120, 40));
    assert_eq!(refusal(action), "session runtime is not available");
}

#[test]
fn keys_are_written_or_passed_over() {
    let mut s = running();
    let key = |action| frame(ClientFrame::Keyboard { action });
    let (_, action) = next(&mut s, Phase::Stream, key(KeyboardAction::ArrowUp));
    assert!(matches!(action, Action::Write(ref bytes) if bytes == b"\x1b[A"));
    let (phase, action) = next(&mut s, Phase::Stream, key(KeyboardAction::ToggleCtrlLock));
    assert_eq!(phase, Phase::Stream);
    assert!(matches!(action, Action::Select));
}

#[test]
fn heartbeats_are_answered() {
    let mut s = running();
    let (phase, action) = next(&mut s, Phase::Stream, frame(ClientFrame::Ping { ts_ms: 77 }));
    assert_eq!(phase, Phase::Reply);
    assert!(matches!(action, Action::Send(ServerFrame::Pong { ts_ms: 77 })));
    let ping = Event::Message(Incoming::Ping(vec![9]));
    let (phase, action) = next(&mut s, Phase::Stream, ping);
    assert_eq!(phase, Phase::Reply);
    assert!(matches!(action, Action::SendPong(ref p) if *p == vec![9]));
    let failed = Event::Failed("failed to send websocket frame".to_string());
    let (_, action) = next(&mut s, phase, failed);
    assert_eq!(refusal(action), "failed to send websocket frame");
}

#[test]
fn a_second_greeting_is_refused() {
    let mut s = running();
    let (phase, action) = next(&mut s, Phase::Stream, hello(None));
    assert_eq!(refusal(action), "hello can only be sent once");
    let (phase, _) = next(&mut s, phase, Event::Failed("gone".to_string()));
    assert_eq!(phase, Phase::Closed);
}

#[test]
fn a_text_that_is_no_frame_is_refused() {
    let mut s = running();
    let text = Event::Message(Incoming::Text(Err("expected value".to_string())));
    let (_, action) = next(&mut s, Phase::Stream, text);
    assert_eq!(refusal(action), "expected value");
}

#[test]
fn output_is_sent() {
    let mut s = running();
    let output = Event::Output(OutputEvent { seq: 9, data: b"hi".to_vec() });
    let (phase, action) = next(&mut s, Phase::Stream, output);
    assert_eq!(phase, Phase::Output);
    match action {
        Action::Send(ServerFrame::Output { seq, data_b64 }) => {
            assert_eq!((seq, data_b64.as_str()), (9, "aGk="));
        }
        other => panic!("{other:?}"),
    }
    let (phase, _) = next(&mut s, phase, Event::Done);
    assert_eq!(phase, Phase::Stream);
}

#[test]
fn noise_and_lag_are_passed_over() {
    let mut s = running();
    for event in [
        Event::Lagged,
        Event::Message(Incoming::Pong),
        Event::Message(Incoming::Binary),
    ] {
        let (phase, action) = next(&mut s, Phase::Stream, event);
        assert_eq!(phase, Phase::Stream);
        assert!(matches!(action, Action::Select));
    }
}

#[test]
fn the_end_of_either_side_ends_the_connection() {
    for event in [
        Event::OutputClosed,
        Event::Message(Incoming::Close),
        Event::Message(Incoming::Ended),
        Event::Message(Incoming::Broken),
    ] {
        let mut s = running();
        open_connection_at(&mut s, at(20));
        let (phase, action) = next(&mut s, Phase::Stream, event);
        assert_eq!(phase, Phase::Closed);
        assert!(matches!(action, Action::Close));
        assert_eq!(s.summary().attached_clients, 0);
        let (phase, _) = next(&mut s, phase, Event::Done);
        assert_eq!(phase, Phase::Closed);
        assert_eq!(s.summary().attached_clients, 0);
    }
}

#[test]
fn a_connection_is_dated_by_the_clock() {
    let before = Timestamp::now();
    let mut s = running();
    let (phase, _) = open_connection(&mut s);
    assert!(!s.summary().updated_at.is_before(&before));
    let (phase, _) = step(&mut s, phase, Event::Done);
    assert_eq!(phase, Phase::Hello);
    let (phase, _) = step(&mut s, phase, Event::Message(Incoming::Close));
    assert_eq!(phase, Phase::Closed);
    assert_eq!(s.summary().attached_clients, 0);
}

#[test]
fn frames_carry_encoded_bytes() {
    let events = vec![
        OutputEvent { seq: 4, data: b"f".to_vec() },
        OutputEvent { seq: 5, data: b"fo".to_vec() },
    ];
    let data = encode_events(&events);
    assert_eq!(data, vec!["Zg==", "Zm8="]);
    match snapshot_frame(4, &events, data) {
        ServerFrame::Snapshot { from_seq, chunks } => {
            assert_eq!(from_seq, 4);
            let chunks: Vec<(u64, String)> =
                chunks.into_iter().map(|c| (c.seq, c.data_b64)).collect();
            assert_eq!(chunks, vec![(4, "Zg==".to_string()), (5, "Zm8=".to_string())]);
        }
        other => panic!("{other:?}"),
    }
    assert!(matches!(
        live_frame(6, "Zm9v".to_string()),
        ServerFrame::Output { seq: 6, ref data_b64 } if data_b64 == "Zm9v"
    ));
}

#[test]
fn bytes_are_written_where_there_is_a_process() {
    let (phase, action) = write_bytes(&running(), vec![3]);
    assert_eq!(phase, Phase::Effect);
    assert!(matches!(action, Action::Write(ref bytes) if *bytes == vec![3]));
    let (phase, action) = write_bytes(&session(), vec![3]);
    assert_eq!(phase, Phase::Refuse);
    assert_eq!(refusal(action), "session runtime is not available");
}

#[test]
fn frames_are_taken_without_touching_the_session() {
    let s = running();
    let (phase, _) = take_frame(&s, ClientFrame::Ping { ts_ms: 5 });
    assert_eq!(phase, Phase::Reply);
    let (phase, _) = take_frame(&s, ClientFrame::Resize { cols: 9, rows: 9 });
    assert_eq!(phase, Phase::Effect);
    assert_eq!(s.summary().updated_at, at(11));
}

#[test]
fn nothing_comes_before_the_subscription() {
    for event in [hello(None), Event::Failed("no".to_string()), Event::Message(Incoming::Ended)] {
        let mut s = running();
        let (phase, _) = open_connection_at(&mut s, at(20));
        let (phase, action) = next(&mut s, phase, event);
        assert_eq!(phase, Phase::Closed);
        assert!(matches!(action, Action::Close));
        assert_eq!(s.summary().attached_clients, 0);
        assert_eq!(s.summary().pid, Some(1));
    }
}

#[test]
fn replay_and_live_output_leave_no_gap() {
    let mut s = running();
    s.push_output_at(0, b"a".to_vec(), at(12));
    let (phase, _) = open_connection_at(&mut s, at(20));
    let (phase, _) = next(&mut s, phase, Event::Done);
    let subscribed = s.next_seq();
    let live = s.push_output_at(0, b"b".to_vec(), at(21)).unwrap();
    let (phase, _) = next(&mut s, phase, hello(None));
    let (phase, _) = next(&mut s, phase, Event::Done);
    let (_, action) = next(&mut s, phase, Event::Done);
    match action {
        Action::Send(ServerFrame::Snapshot { chunks, .. }) => {
            assert_eq!(chunks.iter().map(|c| c.seq).collect::<Vec<_>>(), vec![1, 2]);
        }
        other => panic!("{other:?}"),
    }
    assert!(live.event.seq > subscribed);
}
