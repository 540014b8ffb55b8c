use easy_ssh::client::{ExecAction, ExecEvent, ExecState, ExecStep};
use easy_ssh::SSHError;

fn pending(step: ExecStep) -> (ExecState, ExecAction) {
    match step {
        ExecStep::Pending(state, action) => (state, action),
        ExecStep::Finished { .. } => panic!("finished early"),
        ExecStep::Failed(_) => panic!("failed early"),
    }
}

fn finished(step: ExecStep) -> (String, Option<i32>) {
    match step {
        ExecStep::Finished { output, exit_status } => (output, exit_status),
        ExecStep::Pending(..) => panic!("still pending"),
        ExecStep::Failed(_) => panic!("failed"),
    }
}

fn failed(step: ExecStep) -> SSHError {
    match step {
        ExecStep::Failed(e) => e,
        ExecStep::Pending(..) => panic!("still pending"),
        ExecStep::Finished { .. } => panic!("finished"),
    }
}

/// Runs `command` against a remote side that prints `output` and exits with
/// `code`, and checks the requests on the way.
fn run(command: &str, with_status: bool, output: &str, code: i32) -> (String, Option<i32>) {
    let (state, action) = pending(ExecState::start(command, with_status));
    assert!(matches!(action, ExecAction::OpenChannel));
    let (state, action) = pending(state.step(ExecEvent::Completed));
    match action {
        ExecAction::Dispatch { command: dispatched } => assert_eq!(dispatched, command),
        _ => panic!("expected the command to be dispatched"),
    }
    let (state, action) = pending(state.step(ExecEvent::Completed));
    assert!(matches!(action, ExecAction::ReadOutput));
    let (state, action) = pending(state.step(ExecEvent::Output(output.to_string())));
    assert!(matches!(action, ExecAction::WaitClose));
    let step = state.step(ExecEvent::Completed);
    if !with_status {
        return finished(step);
    }
    let (state, action) = pending(step);
    assert!(matches!(action, ExecAction::QueryExitStatus));
    finished(state.step(ExecEvent::ExitStatus(code)))
}

#[test]
fn exec_returns_the_output_that_was_read() {
    let (output, status) = run("echo hi", false, "hi\n", 0);
    assert!(output.contains("hi"));
    assert_eq!(output, "hi\n");
    assert_eq!(status, None);
}

#[test]
fn exec_with_status_returns_output_and_exit_code() {
    let (output, status) = run("whoami", true, "demo\n", 0);
    assert_eq!(output, "demo\n");
    assert_eq!(status, Some(0));
}

#[test]
fn nonzero_exit_code_comes_with_the_output_before_it() {
    let (output, status) = run("sh -c 'echo partial; exit 3'", true, "partial\n", 3);
    assert_eq!(output, "partial\n");
    assert_eq!(status, Some(3));
    let (output, status) = run("false", true, "", 1);
    assert_eq!(output, "");
    assert_eq!(status, Some(1));
    let (_, status) = run("kill -9 $$", true, "", -1);
    assert_eq!(status, Some(-1));
    let (_, status) = run("x", true, "", i32::MAX);
    assert_eq!(status, Some(i32::MAX));
}

#[test]
fn sequential_executions_do_not_share_output() {
    let (first, _) = run("echo one", false, "one\n", 0);
    let (second, _) = run("echo two", false, "two\n", 0);
    assert_eq!(first, "one\n");
    assert_eq!(second, "two\n");
    assert!(!second.contains("one"));
    let (third, status) = run("true", true, "", 0);
    assert_eq!(third, "");
    assert_eq!(status, Some(0));
}

#[test]
fn same_command_is_run_again_each_time() {
    let (first, _) = run("date", false, "Mon\n", 0);
    let (second, _) = run("date", false, "Tue\n", 0);
    assert_eq!(first, "Mon\n");
    assert_eq!(second, "Tue\n");
}

#[test]
fn channel_open_failure_is_a_transport_failure() {
    let (state, _) = pending(ExecState::start("ls", false));
    let error = ssh2::Error::new(ssh2::ErrorCode::Session(-21), "channel failure");
    match failed(state.step(ExecEvent::TransportFailed(error))) {
        SSHError::SSH(e) => {
            assert_eq!(e.code(), ssh2::ErrorCode::Session(-21));
            assert_eq!(e.message(), "channel failure");
        }
        _ => panic!("expected a transport failure"),
    }
}

#[test]
fn dispatch_failure_is_a_transport_failure() {
    let (state, _) = pending(ExecState::start("ls", true));
    let (state, _) = pending(state.step(ExecEvent::Completed));
    let error = ssh2::Error::new(ssh2::ErrorCode::Session(-22), "request denied");
    match failed(state.step(ExecEvent::TransportFailed(error))) {
        SSHError::SSH(e) => assert_eq!(e.code(), ssh2::ErrorCode::Session(-22)),
        _ => panic!("expected a transport failure"),
    }
}

#[test]
fn read_failure_keeps_the_error_of_the_stream() {
    let (state, _) = pending(ExecState::start("cat /dev/urandom", false));
    let (state, _) = pending(state.step(ExecEvent::Completed));
    let (state, _) = pending(state.step(ExecEvent::Completed));
    let error = std::io::Error::new(std::io::ErrorKind::InvalidData, "stream did not contain valid UTF-8");
    match failed(state.step(ExecEvent::IoFailed(error))) {
        SSHError::IO(e) => {
            assert_eq!(e.kind(), std::io::ErrorKind::InvalidData);
            assert_eq!(e.to_string(), "stream did not contain valid UTF-8");
        }
        _ => panic!("expected an I/O failure"),
    }
}

#[test]
fn read_timeout_is_an_io_failure() {
    let (state, _) = pending(ExecState::start("sleep 60", false));
    let (state, _) = pending(state.step(ExecEvent::Completed));
    let (state, _) = pending(state.step(ExecEvent::Completed));
    let error = std::io::Error::from(std::io::ErrorKind::TimedOut);
    match failed(state.step(ExecEvent::IoFailed(error))) {
        SSHError::IO(e) => assert_eq!(e.kind(), std::io::ErrorKind::TimedOut),
        _ => panic!("expected an I/O failure"),
    }
}

#[test]
fn close_failure_is_a_transport_failure() {
    let (state, _) = pending(ExecState::start("ls", true));
    let (state, _) = pending(state.step(ExecEvent::Completed));
    let (state, _) = pending(state.step(ExecEvent::Completed));
    let (state, _) = pending(state.step(ExecEvent::Output("a\n".to_string())));
    let error = ssh2::Error::new(ssh2::ErrorCode::Session(-9), "timed out");
    match failed(state.step(ExecEvent::TransportFailed(error))) {
        SSHError::SSH(e) => assert_eq!(e.message(), "timed out"),
        _ => panic!("expected a transport failure"),
    }
}

#[test]
fn status_query_failure_is_a_transport_failure() {
    let (state, _) = pending(ExecState::start("ls", true));
    let (state, _) = pending(state.step(ExecEvent::Completed));
    let (state, _) = pending(state.step(ExecEvent::Completed));
    let (state, _) = pending(state.step(ExecEvent::Output("a\n".to_string())));
    let (state, _) = pending(state.step(ExecEvent::Completed));
    let error = ssh2::Error::unknown();
    assert!(matches!(failed(state.step(ExecEvent::TransportFailed(error))), SSHError::SSH(_)));
}

#[test]
fn stray_event_leaves_the_exec_request_standing() {
    let (state, action) = pending(ExecState::start("ls", true));
    assert!(matches!(action, ExecAction::OpenChannel));
    let (state, action) = pending(state.step(ExecEvent::Output("stray".to_string())));
    assert!(matches!(action, ExecAction::OpenChannel));
    let (state, action) = pending(state.step(ExecEvent::ExitStatus(7)));
    assert!(matches!(action, ExecAction::OpenChannel));
    let (state, _) = pending(state.step(ExecEvent::Completed));
    let (state, action) = pending(state.step(ExecEvent::Completed));
    assert!(matches!(action, ExecAction::ReadOutput));
    let (state, action) = pending(state.step(ExecEvent::Completed));
    assert!(matches!(action, ExecAction::ReadOutput));
    let (state, action) = pending(state.step(ExecEvent::Output("real\n".to_string())));
    assert!(matches!(action, ExecAction::WaitClose));
    let (state, action) = pending(state.step(ExecEvent::Output("late\n".to_string())));
    assert!(matches!(action, ExecAction::WaitClose));
    let (state, action) = pending(state.step(ExecEvent::Completed));
    assert!(matches!(action, ExecAction::QueryExitStatus));
    let (state, action) = pending(state.step(ExecEvent::Completed));
    assert!(matches!(action, ExecAction::QueryExitStatus));
    let (output, status) = finished(state.step(ExecEvent::ExitStatus(2)));
    assert_eq!(output, "real\n");
    assert_eq!(status, Some(2));
}

#[test]
fn exec_request_can_be_asked_for_again() {
    let (state, _) = pending(ExecState::start("uname -a", false));
    assert!(matches!(state.request(), ExecAction::OpenChannel));
    let (state, _) = pending(state.step(ExecEvent::Completed));
    match state.request() {
        ExecAction::Dispatch { command } => assert_eq!(command, "uname -a"),
        _ => panic!("expected the command to be dispatched"),
    }
}

#[test]
fn output_is_returned_as_it_was_read() {
    let text = "line one\nline two\r\n\ttabbed ünïcödé \u{0}\n";
    let (output, _) = run("cat file", false, text, 0);
    assert_eq!(output, text);
    let (output, _) = run("true", false, "", 0);
    assert_eq!(output, "");
}
