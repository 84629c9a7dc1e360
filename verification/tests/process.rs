use remoterm::process::on_read;
use remoterm::process::recorded_exit_code;
use remoterm::process::session_command;
use remoterm::process::ReadStep;
use remoterm::process::READ_BUFFER;
use remoterm::session::SessionConfig;

#[test]
fn a_session_runs_its_shell() {
    let config = SessionConfig {
        name: "backend".to_string(),
        cwd: "/srv".to_string(),
        shell: "/bin/bash".to_string(),
        args: vec!["-l".to_string(), "-i".to_string()],
    };
    let command = session_command(&config, 100, 30);
    assert_eq!(command.program, "/bin/bash");
    assert_eq!(command.args, vec!["-l", "-i"]);
    assert_eq!(command.cwd, "/srv");
    assert_eq!(command.term, "xterm-256color");
    assert_eq!((command.cols, command.rows), (100, 30));
}

#[test]
fn what_is_read_is_output() {
    assert_eq!(READ_BUFFER, 8192);
    let buffer = b"hello world".to_vec();
    assert!(matches!(on_read(&buffer, Some(5)), ReadStep::Output(data) if data == b"hello"));
    assert!(matches!(on_read(&buffer, Some(11)), ReadStep::Output(data) if data == buffer));
}

#[test]
fn reading_stops_at_the_end_and_on_errors() {
    let buffer = vec![0; 4];
    assert!(matches!(on_read(&buffer, Some(0)), ReadStep::Stop));
    assert!(matches!(on_read(&buffer, None), ReadStep::Stop));
}

#[test]
fn exit_codes_are_recorded() {
    assert_eq!(recorded_exit_code(Some(0)), 0);
    assert_eq!(recorded_exit_code(Some(137)), 137);
    assert_eq!(recorded_exit_code(None), 1);
}
