use std::path::PathBuf;

use remoterm::operation::begin;
use remoterm::operation::begin_at;
use remoterm::operation::can_begin;
use remoterm::operation::can_resume;
use remoterm::operation::create_session;
use remoterm::operation::create_session_at;
use remoterm::operation::recover_session;
use remoterm::operation::recover_session_at;
use remoterm::operation::refuse_missing;
use remoterm::operation::resume;
use remoterm::operation::resume_at;
use remoterm::operation::Effect;
use remoterm::operation::Outcome;
use remoterm::operation::Reply;
use remoterm::operation::Request;
use remoterm::operation::Settings;
use remoterm::operation::Step;
use remoterm::operation::Task;
use remoterm::proto::CreateSessionRequest;
use remoterm::proto::PatchSessionRequest;
use remoterm::proto::SessionStatus;
use remoterm::session::Session;
use remoterm::session::SessionConfig;
use remoterm::sql::SqlValue;
use remoterm::storage::Storage;
use remoterm::timestamp::Timestamp;

const SETTINGS: Settings = Settings { history_bytes: 100, default_cols: 80, default_rows: 24 };

fn at(secs: i64) -> Timestamp {
    Timestamp::new(secs, 0).unwrap()
}

fn storage() -> Storage {
    Storage::open(PathBuf::from("x.sqlite3"))
}

fn session() -> Session {
    let config = SessionConfig {
        name: "n".to_string(),
        cwd: "/srv".to_string(),
        shell: "/bin/sh".to_string(),
        args: vec!["-l".to_string()],
    };
    Session::new_at(3, config, 100, at(10))
}

fn running() -> Session {
    let mut s = session();
    let generation = s.advance_generation();
    s.install_runtime();
    s.mark_running_at(generation, Some(1), at(11));
    s.push_output_at(generation, b"old".to_vec(), at(12));
    s
}

fn request(name: &str) -> CreateSessionRequest {
    CreateSessionRequest {
        name: name.to_string(),
        cwd: "/srv".to_string(),
        shell: "/bin/sh".to_string(),
        args: Vec::new(),
    }
}

fn rename(name: &str) -> Request {
    Request::Rename(PatchSessionRequest { name: name.to_string() })
}

fn failed(message: &str) -> Outcome {
    Outcome::Failed(message.to_string())
}

fn word(effect: &Effect) -> &'static str {
    match effect {
        Effect::Store(_) => "store",
        Effect::Remove(_) => "remove",
        Effect::ClearOutput(_) => "clear",
        Effect::Register => "register",
        Effect::Unregister => "unregister",
        Effect::Kill => "kill",
        Effect::Start(_) => "start",
        Effect::Watch { .. } => "watch",
    }
}

/// Runs an operation to its end; the effect with the given word fails.
fn drive(s: &mut Session, first: Step, fails: &str) -> (Vec<&'static str>, Reply) {
    let mut done = Vec::new();
    let mut step = first;
    loop {
        match step {
            Step::End(reply) => return (done, reply),
            Step::Do(effect, task) => {
                let name = word(&effect);
                done.push(name);
                let outcome = if name == fails {
                    failed("it failed")
                } else if name == "start" {
                    Outcome::Started { pid: Some(77) }
                } else {
                    Outcome::Done
                };
                step = resume_at(s, &storage(), SETTINGS, task, outcome, at(60));
            }
        }
    }
}

fn perform(s: &mut Session, request: Request, fails: &str) -> (Vec<&'static str>, Reply) {
    let first = begin_at(s, &storage(), request, at(50));
    drive(s, first, fails)
}

fn is_internal(reply: &Reply) -> bool {
    matches!(reply, Reply::Refused(e) if e.code == 500 && e.message == "it failed")
}

#[test]
fn a_session_is_looked_at() {
    let mut s = running();
    let (done, reply) = perform(&mut s, Request::Get, "");
    assert!(done.is_empty());
    assert!(matches!(reply, Reply::Session { code: 200, summary } if summary.id == 3));
}

#[test]
fn a_missing_session_is_not_found() {
    for request in [
        Request::Get,
        rename("x"),
        Request::Delete,
        Request::Restart,
        Request::Stop,
        Request::Archive,
        Request::Restore,
    ] {
        let e = refuse_missing(&request);
        assert_eq!((e.code, e.message.as_str()), (404, "session not found"));
    }
    let e = refuse_missing(&rename(" "));
    assert_eq!((e.code, e.message.as_str()), (400, "name must not be empty"));
}

#[test]
fn a_session_is_renamed() {
    let mut s = running();
    let (done, reply) = perform(&mut s, rename("api"), "");
    assert_eq!(done, vec!["store"]);
    assert!(matches!(reply, Reply::Session { code: 200, summary } if summary.name == "api"));
    assert_eq!(s.config().name, "api");
    let (_, reply) = perform(&mut s, rename("web"), "store");
    assert!(is_internal(&reply));
    assert_eq!(s.summary().name, "web");
}

#[test]
fn an_empty_name_changes_nothing() {
    let mut s = running();
    let (done, reply) = perform(&mut s, rename("\t"), "");
    assert!(done.is_empty());
    assert!(matches!(reply, Reply::Refused(e) if e.code == 400));
    assert_eq!(s.summary().name, "n");
    assert_eq!(s.summary().updated_at, at(12));
}

#[test]
fn what_is_stored_is_the_session() {
    let mut s = running();
    match begin_at(&mut s, &storage(), rename("api"), at(50)) {
        Step::Do(Effect::Store(statement), _) => {
            assert!(matches!(&statement.params[1], SqlValue::Text(name) if name == "api"));
        }
        other => panic!("{other:?}"),
    }
}

#[test]
fn a_session_is_created() {
    let (mut s, first) = create_session_at(&storage(), request("a"), 9, SETTINGS, at(50)).unwrap();
    assert_eq!(s.id(), 9);
    assert_eq!(s.summary().status, SessionStatus::Starting);
    let (done, reply) = drive(&mut s, first, "");
    assert_eq!(done, vec!["store", "register", "store", "start", "store", "watch"]);
    match reply {
        Reply::Session { code, summary } => {
            assert_eq!(code, 201);
            assert_eq!((summary.status, summary.pid), (SessionStatus::Running, Some(77)));
        }
        other => panic!("{other:?}"),
    }
    assert!(s.has_runtime());
    assert_eq!(s.generation(), 1);
}

#[test]
fn a_request_without_a_name_creates_nothing() {
    let e = create_session_at(&storage(), request(" "), 9, SETTINGS, at(50)).unwrap_err();
    assert_eq!((e.code, e.message.as_str()), (400, "name must not be empty"));
}

#[test]
fn a_session_that_cannot_be_stored_is_not_created() {
    let (mut s, first) = create_session_at(&storage(), request("a"), 9, SETTINGS, at(50)).unwrap();
    let (done, reply) = drive(&mut s, first, "store");
    assert_eq!(done, vec!["store"]);
    assert!(is_internal(&reply));
}

#[test]
fn a_failed_creation_leaves_nothing_behind() {
    let (mut s, first) = create_session_at(&storage(), request("a"), 9, SETTINGS, at(50)).unwrap();
    let (done, reply) = drive(&mut s, first, "start");
    assert_eq!(done, vec!["store", "register", "store", "start", "unregister", "remove"]);
    assert!(is_internal(&reply));
    assert!(!s.has_runtime());
}

#[test]
fn created_sessions_have_fresh_identifiers() {
    let (a, _) = create_session(&storage(), request("a"), SETTINGS).unwrap();
    let (b, _) = create_session(&storage(), request("a"), SETTINGS).unwrap();
    assert_ne!(a.id(), b.id());
    assert!(create_session(&storage(), request(""), SETTINGS).is_err());
}

#[test]
fn a_process_is_started_as_the_session_says() {
    let mut s = session();
    let first = recover_session_at(&mut s, &storage(), at(50));
    let task = match first {
        Step::Do(Effect::Store(_), task) => task,
        other => panic!("{other:?}"),
    };
    match resume_at(&mut s, &storage(), SETTINGS, task, Outcome::Done, at(51)) {
        Step::Do(Effect::Start(command), _) => {
            assert_eq!(command.program, "/bin/sh");
            assert_eq!(command.args, vec!["-l"]);
            assert_eq!((command.cols, command.rows), (80, 24));
        }
        other => panic!("{other:?}"),
    }
}

#[test]
fn a_session_is_deleted() {
    let mut s = running();
    let (done, reply) = perform(&mut s, Request::Delete, "");
    assert_eq!(done, vec!["remove", "unregister", "kill"]);
    assert!(matches!(reply, Reply::Empty { code: 204 }));
    assert!(!s.has_runtime());
    let mut s = session();
    let (done, reply) = perform(&mut s, Request::Delete, "");
    assert_eq!(done, vec!["remove", "unregister"]);
    assert!(matches!(reply, Reply::Empty { code: 204 }));
}

#[test]
fn a_session_that_cannot_be_removed_stays() {
    let mut s = running();
    let (done, reply) = perform(&mut s, Request::Delete, "remove");
    assert_eq!(done, vec!["remove"]);
    assert!(is_internal(&reply));
    assert!(s.has_runtime());
    assert_eq!(s.generation(), 1);
}

#[test]
fn a_deletion_outlasts_a_process_that_cannot_be_killed() {
    let mut s = running();
    let (_, reply) = perform(&mut s, Request::Delete, "kill");
    assert!(matches!(reply, Reply::Empty { code: 204 }));
}

#[test]
fn a_session_is_restarted() {
    let mut s = running();
    let (done, reply) = perform(&mut s, Request::Restart, "");
    assert_eq!(done, vec!["kill", "store", "start", "clear", "store", "watch"]);
    assert!(matches!(
        reply,
        Reply::Session { code: 200, summary } if summary.status == SessionStatus::Running
    ));
    assert_eq!(s.next_seq(), 0);
    assert!(s.snapshot_since(None).1.is_empty());
    assert_eq!(s.generation(), 3);
    assert!(s.push_output_at(1, b"late".to_vec(), at(70)).is_none());
}

#[test]
fn a_session_without_a_process_is_restarted() {
    let mut s = session();
    let (done, _) = perform(&mut s, Request::Restart, "");
    assert_eq!(done, vec!["store", "start", "clear", "store", "watch"]);
    assert_eq!(s.generation(), 2);
}

#[test]
fn an_archived_session_is_not_restarted() {
    let mut s = running();
    s.set_archived_at(true, at(20));
    let (done, reply) = perform(&mut s, Request::Restart, "");
    assert!(done.is_empty());
    assert!(matches!(
        reply,
        Reply::Refused(e) if e.code == 400 && e.message == "cannot restart an archived session"
    ));
    assert!(s.has_runtime());
    assert_eq!(s.generation(), 1);
}

#[test]
fn a_restart_that_fails_says_so() {
    let mut s = running();
    let (done, reply) = perform(&mut s, Request::Restart, "start");
    assert_eq!(done, vec!["kill", "store", "start"]);
    assert!(is_internal(&reply));
    assert_eq!(s.summary().status, SessionStatus::Starting);
    assert_eq!(s.next_seq(), 1);
}

#[test]
fn a_restart_goes_on_though_old_output_stays_stored() {
    let mut s = running();
    let (done, reply) = perform(&mut s, Request::Restart, "clear");
    assert_eq!(done, vec!["kill", "store", "start", "clear", "watch"]);
    assert!(matches!(
        reply,
        Reply::Session { code: 200, summary } if summary.status == SessionStatus::Starting
    ));
    assert_eq!(s.next_seq(), 0);
}

#[test]
fn a_session_is_stopped() {
    let mut s = running();
    let (done, reply) = perform(&mut s, Request::Stop, "");
    assert_eq!(done, vec!["kill", "store"]);
    assert!(matches!(
        reply,
        Reply::Session { code: 200, summary } if summary.status == SessionStatus::Stopped
    ));
    assert!(!s.has_runtime());
    assert_eq!(s.next_seq(), 1);
    let (done, _) = perform(&mut s, Request::Stop, "");
    assert_eq!(done, vec!["store"]);
}

#[test]
fn a_stop_that_cannot_be_stored_says_so() {
    let mut s = running();
    let (_, reply) = perform(&mut s, Request::Stop, "store");
    assert!(is_internal(&reply));
    assert_eq!(s.summary().status, SessionStatus::Stopped);
}

#[test]
fn a_session_at_work_is_stopped_and_archived() {
    let mut s = running();
    let (done, reply) = perform(&mut s, Request::Archive, "");
    assert_eq!(done, vec!["kill", "store", "store"]);
    match reply {
        Reply::Session { code, summary } => {
            assert_eq!(code, 200);
            assert!(summary.archived);
            assert_eq!(summary.status, SessionStatus::Stopped);
        }
        other => panic!("{other:?}"),
    }
}

#[test]
fn an_idle_session_is_archived_as_it_is() {
    let mut s = session();
    s.mark_exited_at(0, 4, at(20));
    let (done, reply) = perform(&mut s, Request::Archive, "");
    assert_eq!(done, vec!["store"]);
    assert!(matches!(
        reply,
        Reply::Session { summary, .. }
            if summary.archived && summary.exit_code == Some(4)
    ));
}

#[test]
fn an_archive_that_cannot_be_stored_says_so() {
    let mut s = running();
    let (done, reply) = perform(&mut s, Request::Archive, "store");
    assert_eq!(done, vec!["kill", "store"]);
    assert!(is_internal(&reply));
    assert!(!s.summary().archived);
}

#[test]
fn a_session_is_restored() {
    let mut s = session();
    s.set_archived_at(true, at(20));
    let (done, reply) = perform(&mut s, Request::Restore, "");
    assert_eq!(done, vec!["store"]);
    assert!(matches!(reply, Reply::Session { code: 200, summary } if !summary.archived));
}

#[test]
fn a_session_is_recovered_with_its_output() {
    let mut s = running();
    let first = recover_session_at(&mut s, &storage(), at(50));
    let (done, reply) = drive(&mut s, first, "");
    assert_eq!(done, vec!["store", "start", "store", "watch"]);
    assert!(matches!(reply, Reply::Silence));
    assert_eq!(s.summary().status, SessionStatus::Running);
    assert_eq!(s.next_seq(), 1);
}

#[test]
fn a_session_that_cannot_be_recovered_is_stopped() {
    let mut s = session();
    let first = recover_session_at(&mut s, &storage(), at(50));
    let (done, reply) = drive(&mut s, first, "start");
    assert_eq!(done, vec!["store", "start", "store"]);
    assert!(matches!(reply, Reply::Silence));
    assert_eq!(s.summary().status, SessionStatus::Stopped);
}

#[test]
fn a_later_process_is_not_reported_as_this_one() {
    let mut s = session();
    let first = recover_session_at(&mut s, &storage(), at(50));
    let task = match first {
        Step::Do(_, task) => task,
        other => panic!("{other:?}"),
    };
    let task = match resume_at(&mut s, &storage(), SETTINGS, task, Outcome::Done, at(51)) {
        Step::Do(_, task) => task,
        other => panic!("{other:?}"),
    };
    s.advance_generation();
    let outcome = Outcome::Started { pid: Some(5) };
    match resume_at(&mut s, &storage(), SETTINGS, task, outcome, at(52)) {
        Step::Do(Effect::Watch { generation }, _) => assert_eq!(generation, 1),
        other => panic!("{other:?}"),
    }
    assert_eq!(s.summary().pid, None);
}

#[test]
fn operations_are_dated_by_the_clock() {
    let before = Timestamp::now();
    let mut s = running();
    let step = begin(&mut s, &storage(), rename("api"));
    assert!(!s.summary().updated_at.is_before(&before));
    match step {
        Step::Do(_, task) => {
            let end = resume(&mut s, &storage(), SETTINGS, task, Outcome::Done);
            assert!(matches!(end, Step::End(Reply::Session { code: 200, .. })));
        }
        other => panic!("{other:?}"),
    }
    recover_session(&mut s, &storage());
    assert_eq!(s.summary().status, SessionStatus::Starting);
}

#[test]
fn a_process_that_cannot_be_killed_stops_nothing() {
    let mut s = running();
    let (_, reply) = perform(&mut s, Request::Restart, "kill");
    assert!(matches!(
        reply,
        Reply::Session { code: 200, summary } if summary.status == SessionStatus::Running
    ));
    let (_, reply) = perform(&mut s, Request::Archive, "kill");
    assert!(matches!(reply, Reply::Session { code: 200, summary } if summary.archived));
}

#[test]
fn a_young_session_has_numbers_for_its_processes() {
    let s = session();
    assert!(can_begin(&s, &Request::Restart));
    assert!(can_begin(&s, &Request::Get));
    assert!(can_resume(&s, &Task::CreateRegistered));
    assert!(can_resume(&s, &Task::RestartKilled));
    assert!(can_resume(&s, &Task::StopStored));
}
