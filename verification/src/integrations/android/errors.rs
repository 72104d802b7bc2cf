//! The errors of Android operations.
use vstd::prelude::*;
use vstd::string::*;
use vstd::utf8::*;
use crate::encoding::{lenient_text, text_from_utf8_lossy};
use crate::error::{error_from, ErrorCategory, WorkstateError, WorkstateErrorView};
use crate::ports::{ProcessOutput, ProcessOutputView};
use crate::text::{
    join2, join3, join4, signed_decimal, text_signed_decimal, text_trim, trim,
};
use crate::values::Replicate;

verus! {

/// What can go wrong with an Android virtual device.
#[derive(Debug)]
pub enum AndroidError {
    ToolUnavailable { tool: String },
    CommandFailed { operation: String, detail: String },
    MalformedOutput { operation: String, detail: String },
    MissingAvd { avd: String },
    AmbiguousAvd { avd: String, serials: Vec<String> },
    DeviceTimeout { avd: String, serial: Option<String>, last_state: String, boot_completed: bool },
    WindowTimeout { avd: String, serial: String },
    AmbiguousWindow { avd: String, serial: String, matches: usize },
    OwnershipUnavailable { serial: String },
}

/// What a `AndroidError` stands for.
#[verifier::ext_equal]
pub enum AndroidErrorView {
    ToolUnavailable { tool: Seq<char> },
    CommandFailed { operation: Seq<char>, detail: Seq<char> },
    MalformedOutput { operation: Seq<char>, detail: Seq<char> },
    MissingAvd { avd: Seq<char> },
    AmbiguousAvd { avd: Seq<char>, serials: Seq<Seq<char>> },
    DeviceTimeout { avd: Seq<char>, serial: Option<Seq<char>>, last_state: Seq<char>, boot_completed: bool },
    WindowTimeout { avd: Seq<char>, serial: Seq<char> },
    AmbiguousWindow { avd: Seq<char>, serial: Seq<char>, matches: usize },
    OwnershipUnavailable { serial: Seq<char> },
}

impl View for AndroidError {
    type V = AndroidErrorView;

    open spec fn view(&self) -> AndroidErrorView {
        match self {
            AndroidError::ToolUnavailable { tool } => AndroidErrorView::ToolUnavailable { tool: tool.deep_view() },
            AndroidError::CommandFailed { operation, detail } => AndroidErrorView::CommandFailed { operation: operation.deep_view(), detail: detail.deep_view() },
            AndroidError::MalformedOutput { operation, detail } => AndroidErrorView::MalformedOutput { operation: operation.deep_view(), detail: detail.deep_view() },
            AndroidError::MissingAvd { avd } => AndroidErrorView::MissingAvd { avd: avd.deep_view() },
            AndroidError::AmbiguousAvd { avd, serials } => AndroidErrorView::AmbiguousAvd { avd: avd.deep_view(), serials: serials.deep_view() },
            AndroidError::DeviceTimeout { avd, serial, last_state, boot_completed } => AndroidErrorView::DeviceTimeout { avd: avd.deep_view(), serial: serial.deep_view(), last_state: last_state.deep_view(), boot_completed: boot_completed.deep_view() },
            AndroidError::WindowTimeout { avd, serial } => AndroidErrorView::WindowTimeout { avd: avd.deep_view(), serial: serial.deep_view() },
            AndroidError::AmbiguousWindow { avd, serial, matches } => AndroidErrorView::AmbiguousWindow { avd: avd.deep_view(), serial: serial.deep_view(), matches: matches.deep_view() },
            AndroidError::OwnershipUnavailable { serial } => AndroidErrorView::OwnershipUnavailable { serial: serial.deep_view() },
        }
    }
}

impl DeepView for AndroidError {
    type V = AndroidErrorView;

    open spec fn deep_view(&self) -> AndroidErrorView {
        self.view()
    }
}

impl Replicate for AndroidError {
    fn replicate(&self) -> (r: Self) {
        match self {
            AndroidError::ToolUnavailable { tool } => AndroidError::ToolUnavailable { tool: tool.replicate() },
            AndroidError::CommandFailed { operation, detail } => AndroidError::CommandFailed { operation: operation.replicate(), detail: detail.replicate() },
            AndroidError::MalformedOutput { operation, detail } => AndroidError::MalformedOutput { operation: operation.replicate(), detail: detail.replicate() },
            AndroidError::MissingAvd { avd } => AndroidError::MissingAvd { avd: avd.replicate() },
            AndroidError::AmbiguousAvd { avd, serials } => AndroidError::AmbiguousAvd { avd: avd.replicate(), serials: serials.replicate() },
            AndroidError::DeviceTimeout { avd, serial, last_state, boot_completed } => AndroidError::DeviceTimeout { avd: avd.replicate(), serial: serial.replicate(), last_state: last_state.replicate(), boot_completed: boot_completed.replicate() },
            AndroidError::WindowTimeout { avd, serial } => AndroidError::WindowTimeout { avd: avd.replicate(), serial: serial.replicate() },
            AndroidError::AmbiguousWindow { avd, serial, matches } => AndroidError::AmbiguousWindow { avd: avd.replicate(), serial: serial.replicate(), matches: matches.replicate() },
            AndroidError::OwnershipUnavailable { serial } => AndroidError::OwnershipUnavailable { serial: serial.replicate() },
        }
    }
}

/// What the `Debug` formatting of a `Vec<String>` makes of the texts.
pub uninterp spec fn debug_texts(texts: Seq<Seq<char>>) -> Seq<char>;

/// `format!` with `{:?}` on a `Vec<String>`: the texts in quotes, with their escapes, between
/// brackets. How each of them is escaped is left to the name `debug_texts`.
#[verifier::external_body]
fn texts_for_debugging(texts: &Vec<String>) -> (r: String)
    ensures
        r@ == debug_texts(texts.deep_view()),
{
    format!("{texts:?}")
}

impl AndroidErrorView {
    /// The text of an error.
    pub open spec fn text(self) -> Seq<char> {
        match self {
            AndroidErrorView::ToolUnavailable { tool } => "Android tool '"@ + tool
                + "' is unavailable"@,
            AndroidErrorView::CommandFailed { operation, detail } => "Android operation '"@
                + operation + "' failed: "@ + detail,
            AndroidErrorView::MalformedOutput { operation, detail } => "Android operation '"@
                + operation + "' returned malformed data: "@ + detail,
            AndroidErrorView::MissingAvd { avd } => "Android Virtual Device '"@ + avd
                + "' is not available"@,
            AndroidErrorView::AmbiguousAvd { avd, serials } => "Android Virtual Device '"@ + avd
                + "' matched multiple emulator devices: "@ + debug_texts(serials),
            AndroidErrorView::DeviceTimeout { avd, serial, last_state, boot_completed } => "Android Virtual Device '"@
                + avd + "' did not become ready before the timeout"@,
            AndroidErrorView::WindowTimeout { avd, serial } => "Android Emulator window for '"@
                + avd + "' did not become observable before the timeout"@,
            AndroidErrorView::AmbiguousWindow { avd, serial, matches } => "Android Emulator window for '"@
                + avd + "' is ambiguous"@,
            AndroidErrorView::OwnershipUnavailable { serial } => "Android Emulator cleanup could not prove ownership"@,
        }
    }
}

/// An error of the integration with an Android error as its source.
pub open spec fn android_error(error: AndroidErrorView) -> WorkstateErrorView {
    error_from(ErrorCategory::Integration, error.text(), error.text())
}

impl AndroidError {
    /// The text of the error.
    pub fn to_text(&self) -> (r: String)
        ensures
            r@ == self@.text(),
    {
        match self {
            AndroidError::ToolUnavailable { tool } => join3(
                "Android tool '",
                tool.as_str(),
                "' is unavailable",
            ),
            AndroidError::CommandFailed { operation, detail } => join4(
                "Android operation '",
                operation.as_str(),
                "' failed: ",
                detail.as_str(),
            ),
            AndroidError::MalformedOutput { operation, detail } => join4(
                "Android operation '",
                operation.as_str(),
                "' returned malformed data: ",
                detail.as_str(),
            ),
            AndroidError::MissingAvd { avd } => join3(
                "Android Virtual Device '",
                avd.as_str(),
                "' is not available",
            ),
            AndroidError::AmbiguousAvd { avd, serials } => join4(
                "Android Virtual Device '",
                avd.as_str(),
                "' matched multiple emulator devices: ",
                texts_for_debugging(serials).as_str(),
            ),
            AndroidError::DeviceTimeout { avd, serial: _, last_state: _, boot_completed: _ } => join3(
                "Android Virtual Device '",
                avd.as_str(),
                "' did not become ready before the timeout",
            ),
            AndroidError::WindowTimeout { avd, serial: _ } => join3(
                "Android Emulator window for '",
                avd.as_str(),
                "' did not become observable before the timeout",
            ),
            AndroidError::AmbiguousWindow { avd, serial: _, matches: _ } => join3(
                "Android Emulator window for '",
                avd.as_str(),
                "' is ambiguous",
            ),
            AndroidError::OwnershipUnavailable {
                serial: _,
            } => "Android Emulator cleanup could not prove ownership".to_owned(),
        }
    }

    /// The error as one of the integration.
    pub fn into_workstate(self) -> (r: WorkstateError)
        ensures
            r@ == android_error(self@),
    {
        let text = self.to_text();
        WorkstateError::with_source(ErrorCategory::Integration, text.as_str(), text.as_str())
    }
}

/// Why a process has failed that printed the given texts: the first of them that is not blank, else
/// the exit status.
pub open spec fn failure_told(
    stderr: Seq<char>,
    stdout: Seq<char>,
    status: Option<i32>,
) -> Seq<char> {
    if trim(stderr).len() > 0 {
        trim(stderr)
    } else if trim(stdout).len() > 0 {
        trim(stdout)
    } else {
        match status {
            Some(code) => "process exited with status "@ + signed_decimal(code as int),
            None => "process terminated without an exit status"@,
        }
    }
}

/// Why a process has failed: what it printed, else its exit status.
pub open spec fn failure_of(output: ProcessOutputView) -> Seq<char> {
    failure_told(lenient_text(output.stderr), lenient_text(output.stdout), output.status)
}

/// Why a process has failed: what it printed, else its exit status.
pub fn process_failure_detail(output: &ProcessOutput) -> (r: String)
    ensures
        r@ == failure_of(output@),
        valid_utf8(output@.stderr) && valid_utf8(output@.stdout) ==> r@ == failure_told(
            decode_utf8(output@.stderr),
            decode_utf8(output@.stdout),
            output@.status,
        ),
{
    assert(output.stderr.deep_view() =~= output.stderr@);
    assert(output.stdout.deep_view() =~= output.stdout@);
    let stderr = text_trim(text_from_utf8_lossy(output.stderr.as_slice()).as_str());
    if !stderr.as_str().is_empty() {
        return stderr;
    }
    let stdout = text_trim(text_from_utf8_lossy(output.stdout.as_slice()).as_str());
    if !stdout.as_str().is_empty() {
        return stdout;
    }
    match output.status {
        Some(code) => join2(
            "process exited with status ",
            text_signed_decimal(code as i64).as_str(),
        ),
        None => "process terminated without an exit status".to_owned(),
    }
}

/// The error of an operation whose process has failed.
pub open spec fn command_failure(operation: Seq<char>, output: ProcessOutputView) -> WorkstateErrorView {
    android_error(AndroidErrorView::CommandFailed { operation, detail: failure_of(output) })
}

/// The error of an operation whose process has failed.
pub fn command_failed(operation: &str, output: &ProcessOutput) -> (r: WorkstateError)
    ensures
        r@ == command_failure(operation@, output@),
{
    AndroidError::CommandFailed {
        operation: operation.to_owned(),
        detail: process_failure_detail(output),
    }.into_workstate()
}

/// The error of an operation whose output cannot be read.
pub open spec fn malformed_output(operation: Seq<char>, detail: Seq<char>) -> WorkstateErrorView {
    android_error(AndroidErrorView::MalformedOutput { operation, detail })
}

/// The error of an operation whose output cannot be read.
pub fn malformed(operation: &str, detail: String) -> (r: WorkstateError)
    ensures
        r@ == malformed_output(operation@, detail@),
{
    AndroidError::MalformedOutput { operation: operation.to_owned(), detail }.into_workstate()
}

/// The error of a tool that is not installed.
pub fn unavailable(tool: &str) -> (r: WorkstateError)
    ensures
        r@ == android_error(AndroidErrorView::ToolUnavailable { tool: tool@ }),
{
    AndroidError::ToolUnavailable { tool: tool.to_owned() }.into_workstate()
}

} // verus!
