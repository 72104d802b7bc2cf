//! The errors of COSMIC operations.
use vstd::prelude::*;
use vstd::string::*;
use crate::error::{error_from, ErrorCategory, WorkstateError, WorkstateErrorView};
use crate::text::{decimal, join3, join4, join5, join7, text_decimal};
use crate::values::Replicate;

verus! {

/// What can go wrong with the COSMIC desktop.
#[derive(Debug, Clone, PartialEq, Eq)]
pub enum CosmicError {
    ConnectionFailed { operation: String, detail: String },
    RequiredGlobalMissing { operation: String, global: String },
    ProtocolVersionUnsupported { operation: String, protocol: String, required: u32, advertised: Option<u32> },
    InitialSynchronizationFailed { operation: String, detail: String },
    InitialSynchronizationTimedOut { operation: String, timeout_ms: u64 },
    WaylandDispatchFailed { operation: String, detail: String },
    WaylandFlushFailed { operation: String, detail: String },
    WorkspaceNotFound { operation: String, identity: String },
    WorkspaceAmbiguous { operation: String, identity: String, matches: usize },
    WindowNotFound { operation: String, identity: String },
    WindowAmbiguous { operation: String, identity: String, matches: usize },
    TargetWorkspaceOutputMissing { operation: String, workspace: String },
    CapabilityUnavailable { operation: String, capability: String, detail: String },
    MutationNotConfirmed { operation: String, identity: String, detail: String },
    InvalidProtocolData { operation: String, detail: String },
    OperationTimedOut { operation: String, timeout_ms: u64 },
    BlockingTaskFailed { operation: String, detail: String },
    CommandFailed { operation: String, detail: String },
    MalformedOutput { operation: String, detail: String },
    IncompleteOutput { operation: String, detail: String },
    Unavailable { operation: String, detail: String },
}

/// What a `CosmicError` stands for.
#[verifier::ext_equal]
pub enum CosmicErrorView {
    ConnectionFailed { operation: Seq<char>, detail: Seq<char> },
    RequiredGlobalMissing { operation: Seq<char>, global: Seq<char> },
    ProtocolVersionUnsupported { operation: Seq<char>, protocol: Seq<char>, required: u32, advertised: Option<u32> },
    InitialSynchronizationFailed { operation: Seq<char>, detail: Seq<char> },
    InitialSynchronizationTimedOut { operation: Seq<char>, timeout_ms: u64 },
    WaylandDispatchFailed { operation: Seq<char>, detail: Seq<char> },
    WaylandFlushFailed { operation: Seq<char>, detail: Seq<char> },
    WorkspaceNotFound { operation: Seq<char>, identity: Seq<char> },
    WorkspaceAmbiguous { operation: Seq<char>, identity: Seq<char>, matches: usize },
    WindowNotFound { operation: Seq<char>, identity: Seq<char> },
    WindowAmbiguous { operation: Seq<char>, identity: Seq<char>, matches: usize },
    TargetWorkspaceOutputMissing { operation: Seq<char>, workspace: Seq<char> },
    CapabilityUnavailable { operation: Seq<char>, capability: Seq<char>, detail: Seq<char> },
    MutationNotConfirmed { operation: Seq<char>, identity: Seq<char>, detail: Seq<char> },
    InvalidProtocolData { operation: Seq<char>, detail: Seq<char> },
    OperationTimedOut { operation: Seq<char>, timeout_ms: u64 },
    BlockingTaskFailed { operation: Seq<char>, detail: Seq<char> },
    CommandFailed { operation: Seq<char>, detail: Seq<char> },
    MalformedOutput { operation: Seq<char>, detail: Seq<char> },
    IncompleteOutput { operation: Seq<char>, detail: Seq<char> },
    Unavailable { operation: Seq<char>, detail: Seq<char> },
}

impl View for CosmicError {
    type V = CosmicErrorView;

    open spec fn view(&self) -> CosmicErrorView {
        match self {
            CosmicError::ConnectionFailed { operation, detail } => CosmicErrorView::ConnectionFailed { operation: operation.deep_view(), detail: detail.deep_view() },
            CosmicError::RequiredGlobalMissing { operation, global } => CosmicErrorView::RequiredGlobalMissing { operation: operation.deep_view(), global: global.deep_view() },
            CosmicError::ProtocolVersionUnsupported { operation, protocol, required, advertised } => CosmicErrorView::ProtocolVersionUnsupported { operation: operation.deep_view(), protocol: protocol.deep_view(), required: required.deep_view(), advertised: advertised.deep_view() },
            CosmicError::InitialSynchronizationFailed { operation, detail } => CosmicErrorView::InitialSynchronizationFailed { operation: operation.deep_view(), detail: detail.deep_view() },
            CosmicError::InitialSynchronizationTimedOut { operation, timeout_ms } => CosmicErrorView::InitialSynchronizationTimedOut { operation: operation.deep_view(), timeout_ms: timeout_ms.deep_view() },
            CosmicError::WaylandDispatchFailed { operation, detail } => CosmicErrorView::WaylandDispatchFailed { operation: operation.deep_view(), detail: detail.deep_view() },
            CosmicError::WaylandFlushFailed { operation, detail } => CosmicErrorView::WaylandFlushFailed { operation: operation.deep_view(), detail: detail.deep_view() },
            CosmicError::WorkspaceNotFound { operation, identity } => CosmicErrorView::WorkspaceNotFound { operation: operation.deep_view(), identity: identity.deep_view() },
            CosmicError::WorkspaceAmbiguous { operation, identity, matches } => CosmicErrorView::WorkspaceAmbiguous { operation: operation.deep_view(), identity: identity.deep_view(), matches: matches.deep_view() },
            CosmicError::WindowNotFound { operation, identity } => CosmicErrorView::WindowNotFound { operation: operation.deep_view(), identity: identity.deep_view() },
            CosmicError::WindowAmbiguous { operation, identity, matches } => CosmicErrorView::WindowAmbiguous { operation: operation.deep_view(), identity: identity.deep_view(), matches: matches.deep_view() },
            CosmicError::TargetWorkspaceOutputMissing { operation, workspace } => CosmicErrorView::TargetWorkspaceOutputMissing { operation: operation.deep_view(), workspace: workspace.deep_view() },
            CosmicError::CapabilityUnavailable { operation, capability, detail } => CosmicErrorView::CapabilityUnavailable { operation: operation.deep_view(), capability: capability.deep_view(), detail: detail.deep_view() },
            CosmicError::MutationNotConfirmed { operation, identity, detail } => CosmicErrorView::MutationNotConfirmed { operation: operation.deep_view(), identity: identity.deep_view(), detail: detail.deep_view() },
            CosmicError::InvalidProtocolData { operation, detail } => CosmicErrorView::InvalidProtocolData { operation: operation.deep_view(), detail: detail.deep_view() },
            CosmicError::OperationTimedOut { operation, timeout_ms } => CosmicErrorView::OperationTimedOut { operation: operation.deep_view(), timeout_ms: timeout_ms.deep_view() },
            CosmicError::BlockingTaskFailed { operation, detail } => CosmicErrorView::BlockingTaskFailed { operation: operation.deep_view(), detail: detail.deep_view() },
            CosmicError::CommandFailed { operation, detail } => CosmicErrorView::CommandFailed { operation: operation.deep_view(), detail: detail.deep_view() },
            CosmicError::MalformedOutput { operation, detail } => CosmicErrorView::MalformedOutput { operation: operation.deep_view(), detail: detail.deep_view() },
            CosmicError::IncompleteOutput { operation, detail } => CosmicErrorView::IncompleteOutput { operation: operation.deep_view(), detail: detail.deep_view() },
            CosmicError::Unavailable { operation, detail } => CosmicErrorView::Unavailable { operation: operation.deep_view(), detail: detail.deep_view() },
        }
    }
}

impl DeepView for CosmicError {
    type V = CosmicErrorView;

    open spec fn deep_view(&self) -> CosmicErrorView {
        self.view()
    }
}

impl Replicate for CosmicError {
    fn replicate(&self) -> (r: Self) {
        match self {
            CosmicError::ConnectionFailed { operation, detail } => CosmicError::ConnectionFailed { operation: operation.replicate(), detail: detail.replicate() },
            CosmicError::RequiredGlobalMissing { operation, global } => CosmicError::RequiredGlobalMissing { operation: operation.replicate(), global: global.replicate() },
            CosmicError::ProtocolVersionUnsupported { operation, protocol, required, advertised } => CosmicError::ProtocolVersionUnsupported { operation: operation.replicate(), protocol: protocol.replicate(), required: required.replicate(), advertised: advertised.replicate() },
            CosmicError::InitialSynchronizationFailed { operation, detail } => CosmicError::InitialSynchronizationFailed { operation: operation.replicate(), detail: detail.replicate() },
            CosmicError::InitialSynchronizationTimedOut { operation, timeout_ms } => CosmicError::InitialSynchronizationTimedOut { operation: operation.replicate(), timeout_ms: timeout_ms.replicate() },
            CosmicError::WaylandDispatchFailed { operation, detail } => CosmicError::WaylandDispatchFailed { operation: operation.replicate(), detail: detail.replicate() },
            CosmicError::WaylandFlushFailed { operation, detail } => CosmicError::WaylandFlushFailed { operation: operation.replicate(), detail: detail.replicate() },
            CosmicError::WorkspaceNotFound { operation, identity } => CosmicError::WorkspaceNotFound { operation: operation.replicate(), identity: identity.replicate() },
            CosmicError::WorkspaceAmbiguous { operation, identity, matches } => CosmicError::WorkspaceAmbiguous { operation: operation.replicate(), identity: identity.replicate(), matches: matches.replicate() },
            CosmicError::WindowNotFound { operation, identity } => CosmicError::WindowNotFound { operation: operation.replicate(), identity: identity.replicate() },
            CosmicError::WindowAmbiguous { operation, identity, matches } => CosmicError::WindowAmbiguous { operation: operation.replicate(), identity: identity.replicate(), matches: matches.replicate() },
            CosmicError::TargetWorkspaceOutputMissing { operation, workspace } => CosmicError::TargetWorkspaceOutputMissing { operation: operation.replicate(), workspace: workspace.replicate() },
            CosmicError::CapabilityUnavailable { operation, capability, detail } => CosmicError::CapabilityUnavailable { operation: operation.replicate(), capability: capability.replicate(), detail: detail.replicate() },
            CosmicError::MutationNotConfirmed { operation, identity, detail } => CosmicError::MutationNotConfirmed { operation: operation.replicate(), identity: identity.replicate(), detail: detail.replicate() },
            CosmicError::InvalidProtocolData { operation, detail } => CosmicError::InvalidProtocolData { operation: operation.replicate(), detail: detail.replicate() },
            CosmicError::OperationTimedOut { operation, timeout_ms } => CosmicError::OperationTimedOut { operation: operation.replicate(), timeout_ms: timeout_ms.replicate() },
            CosmicError::BlockingTaskFailed { operation, detail } => CosmicError::BlockingTaskFailed { operation: operation.replicate(), detail: detail.replicate() },
            CosmicError::CommandFailed { operation, detail } => CosmicError::CommandFailed { operation: operation.replicate(), detail: detail.replicate() },
            CosmicError::MalformedOutput { operation, detail } => CosmicError::MalformedOutput { operation: operation.replicate(), detail: detail.replicate() },
            CosmicError::IncompleteOutput { operation, detail } => CosmicError::IncompleteOutput { operation: operation.replicate(), detail: detail.replicate() },
            CosmicError::Unavailable { operation, detail } => CosmicError::Unavailable { operation: operation.replicate(), detail: detail.replicate() },
        }
    }
}

/// What a result of a COSMIC operation stands for.
pub open spec fn seen_native<T: DeepView>(result: Result<T, CosmicError>) -> Result<
    T::V,
    CosmicErrorView,
> {
    match result {
        Ok(value) => Ok(value.deep_view()),
        Err(error) => Err(error@),
    }
}

/// An advertised version as it is printed for debugging.
pub open spec fn version_text(version: Option<u32>) -> Seq<char> {
    match version {
        Some(number) => "Some("@ + decimal(number as nat) + ")"@,
        None => "None"@,
    }
}

fn version_as_text(version: Option<u32>) -> (r: String)
    ensures
        r@ == version_text(version),
{
    match version {
        Some(number) => join3("Some(", text_decimal(number as u128).as_str(), ")"),
        None => "None".to_owned(),
    }
}

impl CosmicErrorView {
    /// The text of an error.
    pub open spec fn text(self) -> Seq<char> {
        match self {
            CosmicErrorView::ConnectionFailed { operation, detail } => "COSMIC operation '"@ + operation + "' could not connect to Wayland: "@ + detail,
            CosmicErrorView::RequiredGlobalMissing { operation, global } => "COSMIC operation '"@ + operation + "' requires protocol global '"@ + global + "', but it was not advertised"@,
            CosmicErrorView::ProtocolVersionUnsupported { operation, protocol, required, advertised } => "COSMIC operation '"@ + operation + "' requires protocol '"@ + protocol + "' version "@ + decimal(required as nat) + ", but the compositor advertised "@ + version_text(advertised),
            CosmicErrorView::InitialSynchronizationFailed { operation, detail } => "COSMIC operation '"@ + operation + "' could not synchronize its initial state: "@ + detail,
            CosmicErrorView::InitialSynchronizationTimedOut { operation, timeout_ms } => "COSMIC operation '"@ + operation + "' did not receive its initial state before the "@ + decimal(timeout_ms as nat) + " ms deadline"@,
            CosmicErrorView::WaylandDispatchFailed { operation, detail } => "COSMIC operation '"@ + operation + "' failed while dispatching Wayland events: "@ + detail,
            CosmicErrorView::WaylandFlushFailed { operation, detail } => "COSMIC operation '"@ + operation + "' failed while flushing Wayland requests: "@ + detail,
            CosmicErrorView::WorkspaceNotFound { operation, identity } => "COSMIC operation '"@ + operation + "' could not find workspace '"@ + identity + "'"@,
            CosmicErrorView::WorkspaceAmbiguous { operation, identity, matches } => "COSMIC operation '"@ + operation + "' found more than one workspace matching '"@ + identity + "' ("@ + decimal(matches as nat) + " matches)"@,
            CosmicErrorView::WindowNotFound { operation, identity } => "COSMIC operation '"@ + operation + "' could not find window '"@ + identity + "'"@,
            CosmicErrorView::WindowAmbiguous { operation, identity, matches } => "COSMIC operation '"@ + operation + "' found more than one window matching '"@ + identity + "' ("@ + decimal(matches as nat) + " matches)"@,
            CosmicErrorView::TargetWorkspaceOutputMissing { operation, workspace } => "COSMIC operation '"@ + operation + "' could not find an output for workspace '"@ + workspace + "'"@,
            CosmicErrorView::CapabilityUnavailable { operation, capability, detail } => "COSMIC operation '"@ + operation + "' cannot continue because capability '"@ + capability + "' is unavailable: "@ + detail,
            CosmicErrorView::MutationNotConfirmed { operation, identity, detail } => "COSMIC operation '"@ + operation + "' could not confirm mutation for '"@ + identity + "': "@ + detail,
            CosmicErrorView::InvalidProtocolData { operation, detail } => "COSMIC operation '"@ + operation + "' received invalid protocol data: "@ + detail,
            CosmicErrorView::OperationTimedOut { operation, timeout_ms } => "COSMIC operation '"@ + operation + "' exceeded its "@ + decimal(timeout_ms as nat) + " ms deadline"@,
            CosmicErrorView::BlockingTaskFailed { operation, detail } => "COSMIC operation '"@ + operation + "' failed in its blocking session: "@ + detail,
            CosmicErrorView::CommandFailed { operation, detail } => "COSMIC operation '"@ + operation + "' failed: "@ + detail,
            CosmicErrorView::MalformedOutput { operation, detail } => "COSMIC operation '"@ + operation + "' returned malformed data: "@ + detail,
            CosmicErrorView::IncompleteOutput { operation, detail } => "COSMIC operation '"@ + operation + "' returned incomplete data: "@ + detail,
            CosmicErrorView::Unavailable { operation, detail } => "COSMIC operation '"@ + operation + "' is unavailable: "@ + detail,
        }
    }

    /// The part of the program that an error belongs to.
    pub open spec fn category(self) -> ErrorCategory {
        match self {
            CosmicErrorView::RequiredGlobalMissing { .. }
            | CosmicErrorView::ProtocolVersionUnsupported { .. }
            | CosmicErrorView::CapabilityUnavailable { .. } => ErrorCategory::Platform,
            _ => ErrorCategory::Integration,
        }
    }
}

/// An error of the program with a COSMIC error as its source.
pub open spec fn cosmic_error(error: CosmicErrorView) -> WorkstateErrorView {
    error_from(error.category(), error.text(), error.text())
}

impl CosmicError {
    /// The text of the error.
    pub fn to_text(&self) -> (r: String)
        ensures
            r@ == self@.text(),
    {
        match self {
            CosmicError::ConnectionFailed { operation, detail } => join4("COSMIC operation '", operation.as_str(), "' could not connect to Wayland: ", detail.as_str()),
            CosmicError::RequiredGlobalMissing { operation, global } => join5("COSMIC operation '", operation.as_str(), "' requires protocol global '", global.as_str(), "', but it was not advertised"),
            CosmicError::ProtocolVersionUnsupported { operation, protocol, required, advertised } => join5(join4("COSMIC operation '", operation.as_str(), "' requires protocol '", protocol.as_str()).as_str(), "' version ", text_decimal(*required as u128).as_str(), ", but the compositor advertised ", version_as_text(*advertised).as_str()),
            CosmicError::InitialSynchronizationFailed { operation, detail } => join4("COSMIC operation '", operation.as_str(), "' could not synchronize its initial state: ", detail.as_str()),
            CosmicError::InitialSynchronizationTimedOut { operation, timeout_ms } => join5("COSMIC operation '", operation.as_str(), "' did not receive its initial state before the ", text_decimal(*timeout_ms as u128).as_str(), " ms deadline"),
            CosmicError::WaylandDispatchFailed { operation, detail } => join4("COSMIC operation '", operation.as_str(), "' failed while dispatching Wayland events: ", detail.as_str()),
            CosmicError::WaylandFlushFailed { operation, detail } => join4("COSMIC operation '", operation.as_str(), "' failed while flushing Wayland requests: ", detail.as_str()),
            CosmicError::WorkspaceNotFound { operation, identity } => join5("COSMIC operation '", operation.as_str(), "' could not find workspace '", identity.as_str(), "'"),
            CosmicError::WorkspaceAmbiguous { operation, identity, matches } => join7("COSMIC operation '", operation.as_str(), "' found more than one workspace matching '", identity.as_str(), "' (", text_decimal(*matches as u128).as_str(), " matches)"),
            CosmicError::WindowNotFound { operation, identity } => join5("COSMIC operation '", operation.as_str(), "' could not find window '", identity.as_str(), "'"),
            CosmicError::WindowAmbiguous { operation, identity, matches } => join7("COSMIC operation '", operation.as_str(), "' found more than one window matching '", identity.as_str(), "' (", text_decimal(*matches as u128).as_str(), " matches)"),
            CosmicError::TargetWorkspaceOutputMissing { operation, workspace } => join5("COSMIC operation '", operation.as_str(), "' could not find an output for workspace '", workspace.as_str(), "'"),
            CosmicError::CapabilityUnavailable { operation, capability, detail } => join3(join4("COSMIC operation '", operation.as_str(), "' cannot continue because capability '", capability.as_str()).as_str(), "' is unavailable: ", detail.as_str()),
            CosmicError::MutationNotConfirmed { operation, identity, detail } => join3(join4("COSMIC operation '", operation.as_str(), "' could not confirm mutation for '", identity.as_str()).as_str(), "': ", detail.as_str()),
            CosmicError::InvalidProtocolData { operation, detail } => join4("COSMIC operation '", operation.as_str(), "' received invalid protocol data: ", detail.as_str()),
            CosmicError::OperationTimedOut { operation, timeout_ms } => join5("COSMIC operation '", operation.as_str(), "' exceeded its ", text_decimal(*timeout_ms as u128).as_str(), " ms deadline"),
            CosmicError::BlockingTaskFailed { operation, detail } => join4("COSMIC operation '", operation.as_str(), "' failed in its blocking session: ", detail.as_str()),
            CosmicError::CommandFailed { operation, detail } => join4("COSMIC operation '", operation.as_str(), "' failed: ", detail.as_str()),
            CosmicError::MalformedOutput { operation, detail } => join4("COSMIC operation '", operation.as_str(), "' returned malformed data: ", detail.as_str()),
            CosmicError::IncompleteOutput { operation, detail } => join4("COSMIC operation '", operation.as_str(), "' returned incomplete data: ", detail.as_str()),
            CosmicError::Unavailable { operation, detail } => join4("COSMIC operation '", operation.as_str(), "' is unavailable: ", detail.as_str()),
        }
    }

    /// The part of the program that the error belongs to.
    pub fn category(&self) -> (r: ErrorCategory)
        ensures
            r == self@.category(),
    {
        match self {
            CosmicError::RequiredGlobalMissing { .. }
            | CosmicError::ProtocolVersionUnsupported { .. }
            | CosmicError::CapabilityUnavailable { .. } => ErrorCategory::Platform,
            _ => ErrorCategory::Integration,
        }
    }

    /// The error as one of the program.
    pub fn into_workstate(self) -> (r: WorkstateError)
        ensures
            r@ == cosmic_error(self@),
    {
        let text = self.to_text();
        WorkstateError::with_source(self.category(), text.as_str(), text.as_str())
    }
}

/// Only what the compositor lacks is an error of the platform; whatever else goes wrong is one of the
/// integration, and no error is lost on the way: its text is the message.
pub proof fn law_error_categories(error: CosmicErrorView)
    ensures
        cosmic_error(error).message == error.text(),
        cosmic_error(error).category == ErrorCategory::Platform <==> (error
            is RequiredGlobalMissing || error is ProtocolVersionUnsupported || error
            is CapabilityUnavailable),
        cosmic_error(error).category == ErrorCategory::Platform || cosmic_error(error).category
            == ErrorCategory::Integration,
{
}

} // verus!
