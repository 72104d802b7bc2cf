//! The errors of project editors.
use vstd::prelude::*;
use vstd::string::*;
use crate::error::{error_from, rendered, ErrorCategory, WorkstateError, WorkstateErrorView};
use crate::text::{decimal, join3, join4, join5, text_decimal};
use crate::values::Replicate;

verus! {

/// What can go wrong with a project editor.
#[derive(Debug, Clone, PartialEq, Eq)]
pub enum ZedError {
    InvalidProjectPath { editor: String, detail: String },
    OperationFailed { editor: String, operation: String, detail: String },
    AmbiguousProject { editor: String, project: String, matches: usize },
    WindowTimeout { editor: String, project: String },
    WindowCloseTimeout { editor: String, window: String },
}

/// What a `ZedError` stands for.
#[verifier::ext_equal]
pub enum ZedErrorView {
    InvalidProjectPath { editor: Seq<char>, detail: Seq<char> },
    OperationFailed { editor: Seq<char>, operation: Seq<char>, detail: Seq<char> },
    AmbiguousProject { editor: Seq<char>, project: Seq<char>, matches: usize },
    WindowTimeout { editor: Seq<char>, project: Seq<char> },
    WindowCloseTimeout { editor: Seq<char>, window: Seq<char> },
}

impl View for ZedError {
    type V = ZedErrorView;

    open spec fn view(&self) -> ZedErrorView {
        match self {
            ZedError::InvalidProjectPath { editor, detail } => ZedErrorView::InvalidProjectPath { editor: editor.deep_view(), detail: detail.deep_view() },
            ZedError::OperationFailed { editor, operation, detail } => ZedErrorView::OperationFailed { editor: editor.deep_view(), operation: operation.deep_view(), detail: detail.deep_view() },
            ZedError::AmbiguousProject { editor, project, matches } => ZedErrorView::AmbiguousProject { editor: editor.deep_view(), project: project.deep_view(), matches: matches.deep_view() },
            ZedError::WindowTimeout { editor, project } => ZedErrorView::WindowTimeout { editor: editor.deep_view(), project: project.deep_view() },
            ZedError::WindowCloseTimeout { editor, window } => ZedErrorView::WindowCloseTimeout { editor: editor.deep_view(), window: window.deep_view() },
        }
    }
}

impl DeepView for ZedError {
    type V = ZedErrorView;

    open spec fn deep_view(&self) -> ZedErrorView {
        self.view()
    }
}

impl Replicate for ZedError {
    fn replicate(&self) -> (r: Self) {
        match self {
            ZedError::InvalidProjectPath { editor, detail } => ZedError::InvalidProjectPath { editor: editor.replicate(), detail: detail.replicate() },
            ZedError::OperationFailed { editor, operation, detail } => ZedError::OperationFailed { editor: editor.replicate(), operation: operation.replicate(), detail: detail.replicate() },
            ZedError::AmbiguousProject { editor, project, matches } => ZedError::AmbiguousProject { editor: editor.replicate(), project: project.replicate(), matches: matches.replicate() },
            ZedError::WindowTimeout { editor, project } => ZedError::WindowTimeout { editor: editor.replicate(), project: project.replicate() },
            ZedError::WindowCloseTimeout { editor, window } => ZedError::WindowCloseTimeout { editor: editor.replicate(), window: window.replicate() },
        }
    }
}

impl ZedErrorView {
    /// The text of an error.
    pub open spec fn text(self) -> Seq<char> {
        match self {
            ZedErrorView::InvalidProjectPath { editor, detail } => editor + " project path is invalid: "@ + detail,
            ZedErrorView::OperationFailed { editor, operation, detail } => editor + " operation '"@ + operation + "' failed: "@ + detail,
            ZedErrorView::AmbiguousProject { editor, project, matches } => editor + " project '"@ + project + "' is ambiguous because "@ + decimal(matches as nat) + " matching windows were found"@,
            ZedErrorView::WindowTimeout { editor, project } => editor + " project '"@ + project + "' did not become observable before the timeout"@,
            ZedErrorView::WindowCloseTimeout { editor, window } => editor + " window '"@ + window + "' did not close before the timeout"@,
        }
    }
}

/// An error of the integration with an editor's error as its source.
pub open spec fn zed_error(error: ZedErrorView) -> WorkstateErrorView {
    error_from(ErrorCategory::Integration, error.text(), error.text())
}

impl ZedError {
    /// The text of the error.
    pub fn to_text(&self) -> (r: String)
        ensures
            r@ == self@.text(),
    {
        match self {
            ZedError::InvalidProjectPath { editor, detail } => join3(editor.as_str(), " project path is invalid: ", detail.as_str()),
            ZedError::OperationFailed { editor, operation, detail } => join5(editor.as_str(), " operation '", operation.as_str(), "' failed: ", detail.as_str()),
            ZedError::AmbiguousProject { editor, project, matches } => join3(join4(editor.as_str(), " project '", project.as_str(), "' is ambiguous because ").as_str(), text_decimal(*matches as u128).as_str(), " matching windows were found"),
            ZedError::WindowTimeout { editor, project } => join4(editor.as_str(), " project '", project.as_str(), "' did not become observable before the timeout"),
            ZedError::WindowCloseTimeout { editor, window } => join4(editor.as_str(), " window '", window.as_str(), "' did not close before the timeout"),
        }
    }

    /// The error as one of the integration.
    pub fn into_workstate(self) -> (r: WorkstateError)
        ensures
            r@ == zed_error(self@),
    {
        let text = self.to_text();
        WorkstateError::with_source(ErrorCategory::Integration, text.as_str(), text.as_str())
    }
}

/// The error of an operation that failed.
pub open spec fn operation_failure(
    editor: Seq<char>,
    operation: Seq<char>,
    source: WorkstateErrorView,
) -> WorkstateErrorView {
    zed_error(ZedErrorView::OperationFailed { editor, operation, detail: rendered(source) })
}

/// The error of an operation that failed.
pub fn operation_error(editor: &str, operation: &str, source: WorkstateError) -> (r: WorkstateError)
    ensures
        r@ == operation_failure(editor@, operation@, source@),
{
    ZedError::OperationFailed {
        editor: editor.to_owned(),
        operation: operation.to_owned(),
        detail: source.render(),
    }.into_workstate()
}

} // verus!
