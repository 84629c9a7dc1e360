use remoterm::api::bad_request;
use remoterm::api::internal_error;
use remoterm::api::list_sessions;
use remoterm::api::session_not_found;
use remoterm::api::validate_new_session;
use remoterm::api::validate_rename;
use remoterm::proto::CreateSessionRequest;
use remoterm::proto::PatchSessionRequest;
use remoterm::proto::SessionStatus;
use remoterm::proto::SessionSummary;
use remoterm::timestamp::Timestamp;

fn request(name: &str, cwd: &str, shell: &str) -> CreateSessionRequest {
    CreateSessionRequest {
        name: name.to_string(),
        cwd: cwd.to_string(),
        shell: shell.to_string(),
        args: Vec::new(),
    }
}

fn refusal(req: CreateSessionRequest) -> (u16, String) {
    let e = validate_new_session(&req).unwrap_err();
    (e.code, e.message)
}

#[test]
fn a_session_needs_name_directory_and_shell() {
    assert!(validate_new_session(&request("a", "/", "/bin/sh")).is_ok());
    assert_eq!(refusal(request(" ", "", "")), (400, "name must not be empty".to_string()));
    assert_eq!(refusal(request("a", "\t", "")), (400, "cwd must not be empty".to_string()));
    assert_eq!(refusal(request("a", "/", "\n")), (400, "shell must not be empty".to_string()));
}

#[test]
fn a_name_is_not_blank() {
    assert!(validate_rename(&PatchSessionRequest { name: " a ".to_string() }).is_ok());
    let e = validate_rename(&PatchSessionRequest { name: "  ".to_string() }).unwrap_err();
    assert_eq!((e.code, e.message.as_str()), (400, "name must not be empty"));
}

#[test]
fn refusals_carry_codes() {
    let e = session_not_found();
    assert_eq!((e.code, e.message.as_str()), (404, "session not found"));
    let e = internal_error("disk full".to_string());
    assert_eq!((e.code, e.message.as_str()), (500, "disk full"));
    let e = bad_request("no");
    assert_eq!((e.code, e.message.as_str()), (400, "no"));
}

fn summary(id: u128, archived: bool, created: i64) -> SessionSummary {
    let t = Timestamp::new(created, 0).unwrap();
    SessionSummary {
        id,
        name: String::new(),
        cwd: String::new(),
        shell: String::new(),
        args: Vec::new(),
        status: SessionStatus::Running,
        pid: None,
        exit_code: None,
        archived,
        attached_clients: 0,
        last_activity_at: t,
        created_at: t,
        updated_at: t,
    }
}

fn order(list: Vec<SessionSummary>) -> Vec<u128> {
    list_sessions(list).into_iter().map(|s| s.id).collect()
}

#[test]
fn archived_sessions_come_last_and_older_ones_first() {
    let list = vec![
        summary(1, true, 10),
        summary(2, false, 30),
        summary(3, false, 20),
        summary(4, true, 5),
        summary(5, false, 40),
    ];
    assert_eq!(order(list), vec![3, 2, 5, 4, 1]);
    assert!(order(Vec::new()).is_empty());
}

#[test]
fn sessions_of_the_same_instant_keep_their_order() {
    let list = vec![
        summary(1, false, 10),
        summary(2, true, 10),
        summary(3, false, 10),
        summary(4, true, 10),
        summary(5, false, 10),
    ];
    assert_eq!(order(list), vec![1, 3, 5, 2, 4]);
}
