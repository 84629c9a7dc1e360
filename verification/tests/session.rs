use std::path::PathBuf;

use remoterm::proto::SessionStatus;
use remoterm::proto::SessionSummary;
use remoterm::record::PersistedOutputEvent;
use remoterm::record::PersistedSession;
use remoterm::session::Session;
use remoterm::session::SessionConfig;
use remoterm::session::SessionFault;
use remoterm::sql::SqlValue;
use remoterm::sql::UPSERT_SESSION;
use remoterm::storage::Storage;
use remoterm::timestamp::Timestamp;

fn at(secs: i64) -> Timestamp {
    Timestamp::new(secs, 0).unwrap()
}

fn config() -> SessionConfig {
    SessionConfig {
        name: "backend".to_string(),
        cwd: "/srv".to_string(),
        shell: "/bin/sh".to_string(),
        args: vec!["-l".to_string()],
    }
}

fn fresh() -> Session {
    Session::new_at(7, config(), 16, at(100))
}

fn times(session: &Session) -> (i64, i64, i64) {
    let s = session.summary();
    (s.created_at.secs, s.updated_at.secs, s.last_activity_at.secs)
}

fn seqs(session: &Session) -> Vec<u64> {
    session.snapshot_since(None).1.iter().map(|e| e.seq).collect()
}

#[test]
fn a_new_session_is_starting() {
    let session = fresh();
    let s = session.summary();
    assert_eq!(s.id, 7);
    assert_eq!(session.id(), 7);
    assert_eq!(s.name, "backend");
    assert_eq!(s.cwd, "/srv");
    assert_eq!(s.shell, "/bin/sh");
    assert_eq!(s.args, vec!["-l"]);
    assert_eq!(s.status, SessionStatus::Starting);
    assert_eq!((s.pid, s.exit_code), (None, None));
    assert!(!s.archived);
    assert_eq!(s.attached_clients, 0);
    assert_eq!(times(&session), (100, 100, 100));
    assert_eq!((session.next_seq(), session.generation()), (0, 0));
    assert!(!session.has_runtime());
    assert!(s.is_active());
}

#[test]
fn a_new_session_is_dated_by_the_clock() {
    let before = Timestamp::now();
    let session = Session::new(1, config(), 16);
    let created = session.summary().created_at;
    assert!(!created.is_before(&before));
    assert_eq!(created, session.summary().updated_at);
}

#[test]
fn a_name_is_changed_in_both_places() {
    let mut session = fresh();
    let updated = session.set_name_at("api".to_string(), at(200));
    assert_eq!(updated.name, "api");
    assert_eq!(session.summary().name, "api");
    assert_eq!(session.config().name, "api");
    assert_eq!(times(&session), (100, 200, 100));
}

#[test]
fn archiving_counts_as_activity_and_restoring_does_not() {
    let mut session = fresh();
    assert!(session.set_archived_at(true, at(200)).archived);
    assert_eq!(times(&session), (100, 200, 200));
    assert!(!session.set_archived_at(false, at(300)).archived);
    assert_eq!(times(&session), (100, 300, 200));
}

#[test]
fn clients_are_counted() {
    let mut session = fresh();
    session.attach_client_at(at(101));
    session.attach_client_at(at(102));
    assert_eq!(session.summary().attached_clients, 2);
    session.detach_client_at(at(103));
    assert_eq!(session.summary().attached_clients, 1);
    session.detach_client_at(at(104));
    session.detach_client_at(at(105));
    assert_eq!(session.summary().attached_clients, 0);
    assert_eq!(times(&session), (100, 105, 100));
    assert_eq!(session.summary().status, SessionStatus::Starting);
}

#[test]
fn activity_is_noted() {
    let mut session = fresh();
    session.note_activity_at(at(150));
    assert_eq!(times(&session), (100, 150, 150));
}

#[test]
fn a_process_starts_runs_and_exits() {
    let mut session = fresh();
    let generation = session.advance_generation();
    assert_eq!(generation, 1);
    assert!(session.mark_starting_at(generation, at(110)));
    session.install_runtime();
    assert!(session.has_runtime());
    assert!(session.mark_running_at(generation, Some(42), at(120)));
    let s = session.summary();
    assert_eq!((s.status, s.pid, s.exit_code), (SessionStatus::Running, Some(42), None));
    assert_eq!(times(&session), (100, 120, 120));
    assert!(session.mark_exited_at(generation, 3, at(130)));
    let s = session.summary();
    assert_eq!((s.status, s.pid, s.exit_code), (SessionStatus::Exited, None, Some(3)));
    assert_eq!(times(&session), (100, 130, 120));
    assert!(!session.has_runtime());
    assert!(!s.is_active());
}

#[test]
fn a_stopped_session_has_no_process() {
    let mut session = fresh();
    let generation = session.advance_generation();
    session.install_runtime();
    session.mark_running_at(generation, Some(42), at(120));
    session.mark_stopped_at(at(140));
    let s = session.summary();
    assert_eq!((s.status, s.pid, s.exit_code), (SessionStatus::Stopped, None, None));
    assert_eq!(times(&session), (100, 140, 140));
    assert!(!session.has_runtime());
}

#[test]
fn an_earlier_process_is_ignored() {
    let mut session = fresh();
    let earlier = session.advance_generation();
    session.install_runtime();
    assert!(session.take_runtime_and_advance_generation());
    assert!(!session.has_runtime());
    assert!(!session.take_runtime_and_advance_generation());
    assert_eq!(session.generation(), 3);
    assert!(!session.mark_starting_at(earlier, at(200)));
    assert!(!session.mark_running_at(earlier, Some(1), at(200)));
    assert!(!session.mark_exited_at(earlier, 9, at(200)));
    assert!(session.push_output_at(earlier, b"late".to_vec(), at(200)).is_none());
    assert_eq!(times(&session), (100, 100, 100));
    assert_eq!(session.summary().status, SessionStatus::Starting);
    assert_eq!(session.next_seq(), 0);
}

#[test]
fn output_is_numbered_and_retained() {
    let mut session = fresh();
    let out = session.push_output_at(0, b"hello".to_vec(), at(200)).unwrap();
    assert_eq!(out.session_id, 7);
    assert_eq!((out.event.seq, out.event.data), (1, b"hello".to_vec()));
    assert_eq!(out.max_bytes, 16);
    assert_eq!(out.activity_at, at(200));
    let out = session.push_output_at(0, b"world".to_vec(), at(201)).unwrap();
    assert_eq!(out.event.seq, 2);
    assert_eq!(session.next_seq(), 2);
    assert_eq!(seqs(&session), vec![1, 2]);
    assert_eq!(times(&session), (100, 201, 201));
}

#[test]
fn nothing_written_is_no_output() {
    let mut session = fresh();
    assert!(session.push_output_at(0, Vec::new(), at(200)).is_none());
    assert_eq!(session.next_seq(), 0);
    assert_eq!(times(&session), (100, 100, 100));
}

#[test]
fn large_output_is_published_whole_and_retained_in_part() {
    let mut session = fresh();
    let data: Vec<u8> = (0..20).collect();
    let out = session.push_output_at(0, data.clone(), at(200)).unwrap();
    assert_eq!(out.event.data, data);
    let (_, chunks) = session.snapshot_since(None);
    assert_eq!(chunks.len(), 1);
    assert_eq!(chunks[0].data, data[4..].to_vec());
}

#[test]
fn forgotten_output_is_numbered_afresh() {
    let mut session = fresh();
    session.push_output_at(0, b"a".to_vec(), at(200));
    session.forget_output();
    assert_eq!(session.next_seq(), 0);
    assert!(seqs(&session).is_empty());
    let out = session.push_output_at(0, b"b".to_vec(), at(201)).unwrap();
    assert_eq!(out.event.seq, 1);
}

#[test]
fn a_client_picks_up_where_it_left_off() {
    let mut session = fresh();
    session.push_output_at(0, b"seen".to_vec(), at(200));
    let seen = session.next_seq();
    for text in ["one", "two", "three"] {
        session.push_output_at(0, text.as_bytes().to_vec(), at(201));
    }
    let (from, chunks) = session.snapshot_since(Some(seen));
    assert_eq!(from, 2);
    let texts: Vec<Vec<u8>> = chunks.into_iter().map(|c| c.data).collect();
    assert_eq!(texts, vec![b"one".to_vec(), b"two".to_vec(), b"three".to_vec()]);
}

#[test]
fn input_needs_a_process() {
    let mut session = fresh();
    assert_eq!(session.check_input(), Err(SessionFault::RuntimeUnavailable));
    session.install_runtime();
    assert_eq!(session.check_input(), Ok(()));
    assert_eq!(
        SessionFault::RuntimeUnavailable.message(),
        "session runtime is not available"
    );
}

#[test]
fn a_size_needs_cells_and_a_process() {
    let mut session = fresh();
    assert_eq!(session.check_resize(0, 24), Err(SessionFault::InvalidSize));
    assert_eq!(session.check_resize(80, 0), Err(SessionFault::InvalidSize));
    assert_eq!(session.check_resize(80, 24), Err(SessionFault::RuntimeUnavailable));
    session.install_runtime();
    assert_eq!(session.check_resize(80, 24), Ok(()));
    assert_eq!(session.check_resize(0, 0), Err(SessionFault::InvalidSize));
    assert_eq!(SessionFault::InvalidSize.message(), "invalid terminal size");
}

fn stored(status: SessionStatus, archived: bool) -> PersistedSession {
    PersistedSession {
        config: config(),
        summary: SessionSummary {
            id: 9,
            name: "backend".to_string(),
            cwd: "/srv".to_string(),
            shell: "/bin/sh".to_string(),
            args: vec!["-l".to_string()],
            status,
            pid: Some(5),
            exit_code: Some(2),
            archived,
            attached_clients: 3,
            last_activity_at: at(30),
            created_at: at(10),
            updated_at: at(20),
        },
    }
}

#[test]
fn a_session_comes_back_without_clients_and_process() {
    let events = vec![
        PersistedOutputEvent { seq: 4, data: b"ab".to_vec() },
        PersistedOutputEvent { seq: 5, data: b"cd".to_vec() },
    ];
    let session = Session::from_persisted(stored(SessionStatus::Running, false), 16, events);
    let s = session.summary();
    assert_eq!(s.attached_clients, 0);
    assert_eq!((s.pid, s.exit_code), (None, Some(2)));
    assert_eq!(s.status, SessionStatus::Running);
    assert_eq!(session.next_seq(), 5);
    assert_eq!(seqs(&session), vec![4, 5]);
    assert_eq!(session.generation(), 0);
    assert!(!session.has_runtime());
    assert_eq!(times(&session), (10, 20, 30));
}

#[test]
fn an_exited_session_keeps_what_it_reported() {
    let session = Session::from_persisted(stored(SessionStatus::Exited, false), 16, Vec::new());
    assert_eq!(session.summary().pid, Some(5));
    assert_eq!(session.summary().exit_code, Some(2));
    assert_eq!(session.next_seq(), 0);
}

#[test]
fn sessions_at_work_are_recovered() {
    assert!(stored(SessionStatus::Running, false).should_recover());
    assert!(stored(SessionStatus::Starting, false).should_recover());
    assert!(!stored(SessionStatus::Exited, false).should_recover());
    assert!(!stored(SessionStatus::Stopped, false).should_recover());
    assert!(!stored(SessionStatus::Running, true).should_recover());
}

#[test]
fn a_session_is_stored_as_it_is() {
    let mut session = fresh();
    session.set_name_at("api".to_string(), at(200));
    let storage = Storage::open(PathBuf::from("x.sqlite3"));
    let statement = session.persist_snapshot(&storage);
    assert_eq!(statement.sql, UPSERT_SESSION);
    assert_eq!(statement.params.len(), 12);
    assert!(matches!(&statement.params[1], SqlValue::Text(name) if name == "api"));
    assert!(matches!(&statement.params[10], SqlValue::Text(t) if t == "1970-01-01T00:03:20+00:00"));
}

#[test]
fn changes_are_dated_by_the_clock() {
    let mut session = fresh();
    let before = Timestamp::now();
    session.attach_client();
    assert!(!session.summary().updated_at.is_before(&before));
    session.detach_client();
    session.note_activity();
    assert!(!session.summary().last_activity_at.is_before(&before));
    assert!(!session.set_name("n".to_string()).updated_at.is_before(&before));
    assert!(!session.set_archived(true).last_activity_at.is_before(&before));
    assert!(session.mark_starting(0));
    assert!(session.mark_running(0, None));
    let out = session.push_output(0, b"x".to_vec()).unwrap();
    assert_eq!(out.activity_at, session.summary().last_activity_at);
    assert!(session.mark_exited(0, 0));
    session.mark_stopped();
    assert_eq!(session.summary().status, SessionStatus::Stopped);
}
