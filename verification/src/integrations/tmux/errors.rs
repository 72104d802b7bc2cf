//! The errors of tmux operations.
use vstd::prelude::*;
use vstd::string::*;
use crate::encoding::{lenient_text, text_from_utf8_lossy};
use crate::error::{error_from, error_of, ErrorCategory, WorkstateError, WorkstateErrorView};
use crate::ports::{status_text, ProcessOutput, ProcessOutputView};
use crate::text::{
    contains_text, join2, join3, lower, text_contains, text_lower, text_trim, trim,
};

verus! {

/// The error of output that cannot be read.
pub open spec fn malformed(detail: Seq<char>) -> WorkstateErrorView {
    error_of(ErrorCategory::Integration, "tmux returned malformed data: "@ + detail)
}

/// The error of output that cannot be read.
pub fn malformed_data(detail: &str) -> (r: WorkstateError)
    ensures
        r@ == malformed(detail@),
{
    WorkstateError::new(
        ErrorCategory::Integration,
        join2("tmux returned malformed data: ", detail).as_str(),
    )
}

/// The error of output that is no text.
pub open spec fn not_utf8(source: Seq<char>) -> WorkstateErrorView {
    error_from(
        ErrorCategory::Integration,
        "tmux returned output that is not valid UTF-8"@,
        source,
    )
}

/// The error of output that is no text.
pub fn invalid_utf8(source: &str) -> (r: WorkstateError)
    ensures
        r@ == not_utf8(source@),
{
    WorkstateError::with_source(
        ErrorCategory::Integration,
        "tmux returned output that is not valid UTF-8",
        source,
    )
}

/// The error of a command that failed.
pub open spec fn failure(operation: Seq<char>, output: ProcessOutputView) -> WorkstateErrorView {
    let error = error_of(
        ErrorCategory::Integration,
        "tmux operation '"@ + operation + "' failed"@,
    ).with("exit_status"@, status_text(output.status));
    let detail = trim(lenient_text(output.stderr));
    if detail.len() > 0 {
        error.with("detail"@, detail)
    } else {
        error
    }
}

/// The error of a command that failed.
pub fn command_failed(operation: &str, output: &ProcessOutput) -> (r: WorkstateError)
    ensures
        r@ == failure(operation@, output@),
{
    assert(output.stderr.deep_view() =~= output.stderr@);
    let detail = text_trim(text_from_utf8_lossy(output.stderr.as_slice()).as_str());
    let error = WorkstateError::new(
        ErrorCategory::Integration,
        join3("tmux operation '", operation, "' failed").as_str(),
    ).with_context("exit_status", output.status_text().as_str());
    if detail.as_str().is_empty() {
        error
    } else {
        error.with_context("detail", detail.as_str())
    }
}

/// The error of a command that could not be run.
pub open spec fn operation_failure(operation: Seq<char>, source: WorkstateErrorView) -> WorkstateErrorView {
    source.with("integration"@, "tmux"@).with("operation"@, operation)
}

/// The error of a command that could not be run.
pub fn operation_error(operation: &str, source: WorkstateError) -> (r: WorkstateError)
    ensures
        r@ == operation_failure(operation@, source@),
{
    source.with_context("integration", "tmux").with_context("operation", operation)
}

/// What a command printed, without regard to case.
pub open spec fn printed(output: ProcessOutputView) -> Seq<char> {
    lower(lenient_text(output.stdout) + " "@ + lenient_text(output.stderr))
}

fn all_printed(output: &ProcessOutput) -> (r: String)
    ensures
        r@ == printed(output@),
{
    assert(output.stdout.deep_view() =~= output.stdout@);
    assert(output.stderr.deep_view() =~= output.stderr@);
    let stdout = text_from_utf8_lossy(output.stdout.as_slice());
    let stderr = text_from_utf8_lossy(output.stderr.as_slice());
    text_lower(join3(stdout.as_str(), " ", stderr.as_str()).as_str())
}

/// No server answers.
pub open spec fn lacks_server(output: ProcessOutputView) -> bool {
    contains_text(printed(output), "no server running"@) || contains_text(
        printed(output),
        "failed to connect to server"@,
    )
}

/// What the command was about is not there.
pub open spec fn lacks_target(output: ProcessOutputView) -> bool {
    lacks_server(output) || contains_text(printed(output), "can't find session"@) || contains_text(
        printed(output),
        "can't find window"@,
    ) || contains_text(printed(output), "no such session"@) || contains_text(
        printed(output),
        "no such window"@,
    )
}

/// Whether what the command was about is not there.
pub fn missing_target(output: &ProcessOutput) -> (r: bool)
    ensures
        r == lacks_target(output@),
{
    let detail = all_printed(output);
    text_contains(detail.as_str(), "no server running") || text_contains(
        detail.as_str(),
        "failed to connect to server",
    ) || text_contains(detail.as_str(), "can't find session") || text_contains(
        detail.as_str(),
        "can't find window",
    ) || text_contains(detail.as_str(), "no such session") || text_contains(
        detail.as_str(),
        "no such window",
    )
}

/// Whether no server answers.
pub fn no_server(output: &ProcessOutput) -> (r: bool)
    ensures
        r == lacks_server(output@),
{
    let detail = all_printed(output);
    text_contains(detail.as_str(), "no server running") || text_contains(
        detail.as_str(),
        "failed to connect to server",
    )
}

/// The error of a window that does not come up.
pub open spec fn never_ready(session: Seq<char>, window: Seq<char>) -> WorkstateErrorView {
    error_of(
        ErrorCategory::Integration,
        "tmux did not expose the requested window before the readiness timeout"@,
    ).with("session_name"@, session).with("window_name"@, window)
}

/// The error of a window that does not come up.
pub fn readiness_timeout(session_name: &str, window_name: &str) -> (r: WorkstateError)
    ensures
        r@ == never_ready(session_name@, window_name@),
{
    WorkstateError::new(
        ErrorCategory::Integration,
        "tmux did not expose the requested window before the readiness timeout",
    ).with_context("session_name", session_name).with_context("window_name", window_name)
}

} // verus!
