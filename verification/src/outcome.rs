//! How an invocation ends: the errors it can fail with, and the decision
//! taken once the worker's streams are closed and its exit code is known.

use crate::protocol::{
    decoded, initial_state, messages_of, state_after_all, BackendResult,
    BackendResultView, MessageView, StreamState, StreamStateView,
};
use crate::text::{decimal, decimal_text, prefixed};
use vstd::prelude::*;

verus! {

/// The worker could not be started or fed.
#[derive(Debug, Clone, PartialEq, Eq)]
pub enum SpawnError {
    /// The search path for the child could not be put together.
    SearchPathInvalid { reason: String },
    /// The operating system refused to start the process.
    LaunchFailed { reason: String },
    /// The request could not be written to the worker's standard input.
    WriteFailed { reason: String },
}

impl SpawnError {
    /// The failure as one line of text.
    pub fn message(&self) -> (r: String)
        ensures
            r@ == match *self {
                SpawnError::SearchPathInvalid { reason } => "Unable to join PATH entries: "@
                    + reason@,
                SpawnError::LaunchFailed { reason } => "Failed to spawn Python process: "@
                    + reason@,
                SpawnError::WriteFailed { reason } => "Failed to write to stdin: "@ + reason@,
            },
    {
        match self {
            SpawnError::SearchPathInvalid { reason } => prefixed(
                "Unable to join PATH entries: ",
                reason.as_str(),
            ),
            SpawnError::LaunchFailed { reason } => prefixed(
                "Failed to spawn Python process: ",
                reason.as_str(),
            ),
            SpawnError::WriteFailed { reason } => prefixed(
                "Failed to write to stdin: ",
                reason.as_str(),
            ),
        }
    }
}

/// The worker ran, and the run did not end in a result.
#[derive(Debug, Clone, PartialEq, Eq)]
pub enum ExecutionError {
    /// The exit code was not zero. A process that ended without an exit code
    /// is recorded with the code -1.
    NonZeroExit { code: i32, last_output_line: String },
    /// The exit code was zero, and no terminal message had been seen.
    NoTerminalMessage,
    /// Waiting for the process failed.
    WaitFailed { reason: String },
}

pub enum ExecutionErrorView {
    NonZeroExit { code: int, last_output_line: Seq<char> },
    NoTerminalMessage,
    WaitFailed { reason: Seq<char> },
}

impl View for ExecutionError {
    type V = ExecutionErrorView;

    open spec fn view(&self) -> ExecutionErrorView {
        match *self {
            ExecutionError::NonZeroExit { code, last_output_line } => {
                ExecutionErrorView::NonZeroExit {
                    code: code as int,
                    last_output_line: last_output_line@,
                }
            },
            ExecutionError::NoTerminalMessage => ExecutionErrorView::NoTerminalMessage,
            ExecutionError::WaitFailed { reason } => ExecutionErrorView::WaitFailed {
                reason: reason@,
            },
        }
    }
}

/// The text of an execution failure. A non-zero exit names the code and,
/// where a line of output was seen, that line.
pub open spec fn execution_message(error: ExecutionErrorView) -> Seq<char> {
    match error {
        ExecutionErrorView::NonZeroExit { code, last_output_line } => if last_output_line.len()
            == 0 {
            "Python process failed with exit code "@ + decimal_text(code)
        } else {
            "Python process failed with exit code "@ + decimal_text(code) + ": "@
                + last_output_line
        },
        ExecutionErrorView::NoTerminalMessage => "Python backend did not return a final status"@,
        ExecutionErrorView::WaitFailed { reason } => "Failed to wait for Python process: "@
            + reason,
    }
}

impl ExecutionError {
    /// The failure as one line of text.
    pub fn message(&self) -> (r: String)
        ensures
            r@ == execution_message(self@),
    {
        match self {
            ExecutionError::NonZeroExit { code, last_output_line } => {
                let head = prefixed(
                    "Python process failed with exit code ",
                    decimal(*code).as_str(),
                );
                if last_output_line.as_str().is_empty() {
                    head
                } else {
                    head.concat(": ").concat(last_output_line.as_str())
                }
            },
            ExecutionError::NoTerminalMessage => {
                "Python backend did not return a final status".to_owned()
            },
            ExecutionError::WaitFailed { reason } => prefixed(
                "Failed to wait for Python process: ",
                reason.as_str(),
            ),
        }
    }
}

/// The exit code as it is reported: -1 stands for a process that ended
/// without one.
pub open spec fn reported_code(exit_code: Option<i32>) -> int {
    match exit_code {
        Some(code) => code as int,
        None => -1,
    }
}

/// The outcome of an invocation whose streams are closed. A non-zero exit
/// fails whatever was read; a zero exit succeeds with the terminal result,
/// and fails if there is none.
pub open spec fn outcome(state: StreamStateView, exit_code: Option<i32>) -> Result<
    BackendResultView,
    ExecutionErrorView,
> {
    if exit_code != Some(0i32) {
        Err(
            ExecutionErrorView::NonZeroExit {
                code: reported_code(exit_code),
                last_output_line: state.last_stdout,
            },
        )
    } else {
        match state.final_result {
            Some(result) => Ok(result),
            None => Err(ExecutionErrorView::NoTerminalMessage),
        }
    }
}

/// The outcome of a whole run: the lines read from standard output, in
/// order, and the exit code.
pub open spec fn run_outcome(lines: Seq<Seq<char>>, exit_code: Option<i32>) -> Result<
    BackendResultView,
    ExecutionErrorView,
> {
    outcome(state_after_all(initial_state(), lines), exit_code)
}

/// The view of an outcome.
pub open spec fn outcome_view(result: Result<BackendResult, ExecutionError>) -> Result<
    BackendResultView,
    ExecutionErrorView,
> {
    match result {
        Ok(r) => Ok(r@),
        Err(e) => Err(e@),
    }
}

/// Decides the outcome once both streams are closed and the process has
/// exited. `exit_code` is `None` for a process that ended without a code.
pub fn finish(state: StreamState, exit_code: Option<i32>) -> (r: Result<
    BackendResult,
    ExecutionError,
>)
    ensures
        outcome_view(r) == outcome(state@, exit_code),
{
    match exit_code {
        Some(0) => match state.final_result {
            Some(result) => Ok(result),
            None => Err(ExecutionError::NoTerminalMessage),
        },
        Some(code) => Err(
            ExecutionError::NonZeroExit { code, last_output_line: state.last_stdout },
        ),
        None => Err(ExecutionError::NonZeroExit { code: -1, last_output_line: state.last_stdout }),
    }
}

/// The result of the last terminal message among `messages`, if there is one.
pub open spec fn last_complete(messages: Seq<MessageView>) -> Option<BackendResultView>
    decreases messages.len(),
{
    if messages.len() == 0 {
        None
    } else {
        match messages.last() {
            MessageView::Complete { payload, result } => Some(result),
            _ => last_complete(messages.drop_last()),
        }
    }
}

/// Whether `needle` occurs in `text` as a run of consecutive characters.
pub open spec fn occurs_in(needle: Seq<char>, text: Seq<char>) -> bool {
    exists|at: int|
        0 <= at && at + needle.len() <= text.len() && #[trigger] text.subrange(
            at,
            at + needle.len(),
        ) == needle
}

/// The last terminal message wins: after any run of lines the result held is
/// that of the last terminal message among them, and the one held before
/// where there was none.
pub proof fn lemma_last_terminal_message_wins(start: StreamStateView, lines: Seq<Seq<char>>)
    ensures
        state_after_all(start, lines).final_result == match last_complete(messages_of(lines)) {
            Some(result) => Some(result),
            None => start.final_result,
        },
    decreases lines.len(),
{
    if lines.len() > 0 {
        lemma_last_terminal_message_wins(start, lines.drop_last());
        match decoded(lines.last()) {
            Some(m) => {
                let before = messages_of(lines.drop_last());
                assert(before.push(m).drop_last() =~= before);
            },
            None => {},
        }
    }
}

/// Where every line decodes to a message, there is one message per line, in
/// the order of the lines.
pub proof fn lemma_one_message_per_line(lines: Seq<Seq<char>>)
    requires
        forall|i: int| 0 <= i < lines.len() ==> (#[trigger] decoded(lines[i])) is Some,
    ensures
        messages_of(lines).len() == lines.len(),
        forall|i: int|
            0 <= i < lines.len() ==> Some(#[trigger] messages_of(lines)[i]) == decoded(lines[i]),
    decreases lines.len(),
{
    if lines.len() > 0 {
        let front = lines.drop_last();
        assert forall|i: int| 0 <= i < front.len() implies (#[trigger] decoded(
            front[i],
        )) is Some by {
            assert(front[i] == lines[i]);
        }
        lemma_one_message_per_line(front);
        assert(decoded(lines[lines.len() - 1]) is Some);
        assert forall|i: int| 0 <= i < lines.len() implies Some(#[trigger] messages_of(lines)[i])
            == decoded(lines[i]) by {
            if i < front.len() {
                assert(front[i] == lines[i]);
                assert(messages_of(lines)[i] == messages_of(front)[i]);
            }
        }
    }
}

/// A worker that prints progress messages and then one terminal message,
/// and exits with code zero: every line is forwarded, in the order printed,
/// the terminal message last, and the run succeeds with the result that the
/// terminal message carries.
pub proof fn lemma_progress_then_terminal(lines: Seq<Seq<char>>)
    requires
        lines.len() > 0,
        forall|i: int|
            0 <= i < lines.len() - 1 ==> (#[trigger] decoded(lines[i])) matches Some(
                MessageView::Progress { .. },
            ),
        decoded(lines.last()) matches Some(MessageView::Complete { .. }),
    ensures
        messages_of(lines).len() == lines.len(),
        forall|i: int|
            0 <= i < lines.len() ==> Some(#[trigger] messages_of(lines)[i]) == decoded(lines[i]),
        forall|i: int|
            0 <= i < lines.len() - 1 ==> (#[trigger] messages_of(lines)[i]) is Progress,
        run_outcome(lines, Some(0i32)) == Ok::<BackendResultView, ExecutionErrorView>(
            decoded(lines.last())->Some_0->Complete_result,
        ),
{
    assert forall|i: int| 0 <= i < lines.len() implies (#[trigger] decoded(lines[i])) is Some by {
        if i < lines.len() - 1 {
        } else {
            assert(lines[i] == lines.last());
        }
    }
    lemma_one_message_per_line(lines);
    lemma_last_terminal_message_wins(initial_state(), lines);
    assert(Some(messages_of(lines)[lines.len() - 1]) == decoded(lines[lines.len() - 1]));
    assert forall|i: int| 0 <= i < lines.len() - 1 implies (#[trigger] messages_of(
        lines,
    )[i]) is Progress by {
        assert(Some(messages_of(lines)[i]) == decoded(lines[i]));
    }
}

/// A worker that exits with code zero and never printed a terminal message
/// has failed: the run ends in `NoTerminalMessage`, never in a result.
pub proof fn lemma_clean_exit_without_terminal_message(lines: Seq<Seq<char>>)
    requires
        forall|i: int|
            0 <= i < lines.len() ==> !((#[trigger] decoded(lines[i])) matches Some(
                MessageView::Complete { .. },
            )),
    ensures
        run_outcome(lines, Some(0i32)) == Err::<BackendResultView, ExecutionErrorView>(
            ExecutionErrorView::NoTerminalMessage,
        ),
    decreases lines.len(),
{
    if lines.len() > 0 {
        let front = lines.drop_last();
        assert forall|i: int| 0 <= i < front.len() implies !((#[trigger] decoded(
            front[i],
        )) matches Some(MessageView::Complete { .. })) by {
            assert(front[i] == lines[i]);
        }
        lemma_clean_exit_without_terminal_message(front);
        assert(lines.last() == lines[lines.len() - 1]);
    }
}

/// A worker that exits with a non-zero code has failed, whatever it
/// printed; the failure's text names the code and ends with the last line of
/// output seen, where there was one.
pub proof fn lemma_failure_names_code_and_last_line(
    state: StreamStateView,
    exit_code: Option<i32>,
)
    requires
        exit_code != Some(0i32),
    ensures
        outcome(state, exit_code) is Err,
        occurs_in(
            "exit code "@ + decimal_text(reported_code(exit_code)),
            execution_message(outcome(state, exit_code)->Err_0),
        ),
        state.last_stdout.len() > 0 ==> occurs_in(
            state.last_stdout,
            execution_message(outcome(state, exit_code)->Err_0),
        ),
        state.last_stdout.len() == 0 ==> execution_message(outcome(state, exit_code)->Err_0)
            == "Python process failed with exit code "@ + decimal_text(reported_code(exit_code)),
{
    reveal_strlit("Python process failed with exit code ");
    reveal_strlit("exit code ");
    let head = "Python process failed with exit code "@;
    let code = decimal_text(reported_code(exit_code));
    let needle = "exit code "@ + code;
    let text = execution_message(outcome(state, exit_code)->Err_0);
    let at = head.len() - "exit code "@.len();
    assert(text.subrange(at, at + needle.len()) =~= needle);
    if state.last_stdout.len() > 0 {
        let from = text.len() - state.last_stdout.len();
        assert(text.subrange(from, from + state.last_stdout.len()) =~= state.last_stdout);
    }
}

/// A line that is blank or no JSON document is skipped: wherever it is put
/// into a run of lines, the result held at the end is the same, and so is
/// the outcome of a run that exits with code zero.
pub proof fn lemma_unreadable_line_is_skipped(
    start: StreamStateView,
    lines: Seq<Seq<char>>,
    at: int,
    line: Seq<char>,
)
    requires
        0 <= at <= lines.len(),
        !(decoded(line) matches Some(MessageView::Progress { .. })),
        !(decoded(line) matches Some(MessageView::Complete { .. })),
    ensures
        state_after_all(start, lines.insert(at, line)).final_result == state_after_all(
            start,
            lines,
        ).final_result,
        outcome(state_after_all(start, lines.insert(at, line)), Some(0i32)) == outcome(
            state_after_all(start, lines),
            Some(0i32),
        ),
    decreases lines.len() - at,
{
    let longer = lines.insert(at, line);
    if at == lines.len() {
        assert(longer.drop_last() =~= lines);
        assert(longer.last() == line);
    } else {
        let front = lines.drop_last();
        assert(longer.drop_last() =~= front.insert(at, line));
        assert(longer.last() == lines.last());
        lemma_unreadable_line_is_skipped(start, front, at, line);
    }
}

} // verus!
