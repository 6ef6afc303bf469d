use python_backend::outcome::{finish, ExecutionError, SpawnError};
use python_backend::protocol::{BackendResult, StreamState};
use python_backend::text::{decimal, same_text};

fn result(status: &str) -> BackendResult {
    BackendResult { status: status.to_string(), message: String::new(), outputs: Vec::new() }
}

fn state(final_result: Option<BackendResult>, last_stdout: &str) -> StreamState {
    StreamState { final_result, last_stdout: last_stdout.to_string() }
}

#[test]
fn finish_zero_exit_with_result_succeeds() {
    assert_eq!(finish(state(Some(result("ok")), "x"), Some(0)), Ok(result("ok")));
}

#[test]
fn finish_zero_exit_hands_on_an_error_status() {
    assert_eq!(finish(state(Some(result("error")), ""), Some(0)), Ok(result("error")));
}

#[test]
fn finish_zero_exit_without_result_fails() {
    let outcome = finish(state(None, "last words"), Some(0));
    assert_eq!(outcome, Err(ExecutionError::NoTerminalMessage));
    assert_eq!(
        outcome.unwrap_err().message(),
        "Python backend did not return a final status"
    );
}

#[test]
fn finish_nothing_written_and_exit_one() {
    let outcome = finish(StreamState::new(), Some(1));
    assert_eq!(
        outcome,
        Err(ExecutionError::NonZeroExit { code: 1, last_output_line: String::new() })
    );
    let message = outcome.unwrap_err().message();
    assert_eq!(message, "Python process failed with exit code 1");
    assert!(message.contains("exit code 1"));
    assert!(!message.contains(':'));
}

#[test]
fn finish_non_zero_exit_names_code_and_last_line() {
    let outcome = finish(state(None, "ValueError: bad sample rate"), Some(3));
    assert_eq!(
        outcome,
        Err(ExecutionError::NonZeroExit {
            code: 3,
            last_output_line: "ValueError: bad sample rate".to_string(),
        })
    );
    let message = outcome.unwrap_err().message();
    assert_eq!(message, "Python process failed with exit code 3: ValueError: bad sample rate");
    assert!(message.contains("exit code 3"));
    assert!(message.contains("ValueError: bad sample rate"));
}

#[test]
fn finish_non_zero_exit_fails_even_with_a_result() {
    let outcome = finish(state(Some(result("ok")), "{\"event\":\"complete\"}"), Some(2));
    assert_eq!(
        outcome,
        Err(ExecutionError::NonZeroExit {
            code: 2,
            last_output_line: "{\"event\":\"complete\"}".to_string(),
        })
    );
}

#[test]
fn finish_without_exit_code_reports_minus_one() {
    let outcome = finish(state(Some(result("ok")), ""), None);
    assert_eq!(
        outcome,
        Err(ExecutionError::NonZeroExit { code: -1, last_output_line: String::new() })
    );
    assert_eq!(outcome.unwrap_err().message(), "Python process failed with exit code -1");
}

#[test]
fn finish_negative_and_large_codes() {
    let message = finish(StreamState::new(), Some(-1073741819)).unwrap_err().message();
    assert_eq!(message, "Python process failed with exit code -1073741819");
    let message = finish(state(None, "x"), Some(255)).unwrap_err().message();
    assert_eq!(message, "Python process failed with exit code 255: x");
}

#[test]
fn wait_failure_message() {
    let error = ExecutionError::WaitFailed { reason: "interrupted".to_string() };
    assert_eq!(error.message(), "Failed to wait for Python process: interrupted");
}

#[test]
fn spawn_error_messages() {
    assert_eq!(
        SpawnError::LaunchFailed { reason: "No such file or directory (os error 2)".to_string() }
            .message(),
        "Failed to spawn Python process: No such file or directory (os error 2)"
    );
    assert_eq!(
        SpawnError::WriteFailed { reason: "Broken pipe (os error 32)".to_string() }.message(),
        "Failed to write to stdin: Broken pipe (os error 32)"
    );
    assert_eq!(
        SpawnError::SearchPathInvalid { reason: "path segment contains separator".to_string() }
            .message(),
        "Unable to join PATH entries: path segment contains separator"
    );
}

#[test]
fn decimal_renders_like_the_standard_library() {
    for n in [0, 1, 7, 9, 10, 11, 99, 100, 101, 12345, -1, -9, -10, -2048, i32::MAX, i32::MIN] {
        assert_eq!(decimal(n), n.to_string());
    }
    assert_eq!(decimal(0), "0");
    assert_eq!(decimal(-120), "-120");
    assert_eq!(decimal(i32::MIN), "-2147483648");
    assert_eq!(decimal(i32::MAX), "2147483647");
}

#[test]
fn same_text_is_equality_of_characters() {
    assert!(same_text("", ""));
    assert!(same_text("bin", "bin"));
    assert!(!same_text("bin", "Bin"));
    assert!(!same_text("bin", "bin "));
    assert!(!same_text("", "x"));
}

#[test]
fn prefixed_puts_the_head_first() {
    assert_eq!(python_backend::text::prefixed("exit code ", "1"), "exit code 1");
    assert_eq!(python_backend::text::prefixed("", ""), "");
    assert_eq!(python_backend::text::prefixed("a", ""), "a");
    assert_eq!(python_backend::text::prefixed("", "b"), "b");
}
