//! Sessions with the compositor: waiting for its state, and the operations that change something.
use vstd::prelude::*;
use vstd::string::*;
use crate::ports::{
    DesktopOperationOutcome, DesktopOperationOutcomeView, DesktopOperationStatus, DesktopSnapshot,
    DesktopSnapshotView,
};
use crate::text::{decimal, join2, join3, text_decimal};
use crate::time::TimeSpan;
use crate::values::{option_is_text, Replicate};
use super::super::errors::{seen_native, CosmicError, CosmicErrorView};
use super::capabilities::{
    managed, management_checked, read_checked, require_external_workspace_move_capability,
    require_management_capability, require_management_protocol_version, require_read_capability,
    require_workspace_tiling_capability, supports_tiling, tiling_checked, version_checked,
    workspace_supports_tiling, ManagementCapability, ReadCapability,
};
use super::operations::{
    holds_handle, known_as, law_known_workspace_is_resolved, law_listed_window_is_resolved,
    law_output_is_that_of_the_group, lemma_resolved_window_is_listed,
    lemma_resolved_workspace_is_known, output_resolved, resolve_window, resolve_workspace,
    target_output, well_named, window_resolved, workspace_resolved, workspace_tiling_enabled,
};
use super::snapshot::{
    from_wayland_state, from_wayland_state_for_operation, session_snapshot, tiling_known,
};
use super::state::{
    CosmicMutationState, CosmicMutationStateView, CosmicReadState, CosmicReadStateView,
    NativeTilingState, ProtocolToplevelView, ProtocolWorkspaceGroupView, ProtocolWorkspaceView,
};

verus! {

/// The milliseconds of a time span, as far as they can be counted.
pub open spec fn counted_millis(span: TimeSpan) -> u64 {
    if span.millis() > u64::MAX {
        u64::MAX
    } else {
        span.millis() as u64
    }
}

/// The milliseconds of a time span, as far as they can be counted.
pub fn duration_millis(duration: TimeSpan) -> (r: u64)
    ensures
        r == counted_millis(duration),
{
    let milliseconds = duration.as_millis();
    if milliseconds > 18_446_744_073_709_551_615 {
        u64::MAX
    } else {
        milliseconds as u64
    }
}

/// The error of an operation whose deadline cannot be told.
pub fn operation_timed_out(operation: &str, timeout: TimeSpan) -> (r: CosmicError)
    ensures
        r@ == (CosmicErrorView::OperationTimedOut {
            operation: operation@,
            timeout_ms: counted_millis(timeout),
        }),
{
    CosmicError::OperationTimedOut {
        operation: operation.to_owned(),
        timeout_ms: duration_millis(timeout),
    }
}

// ---------------------------------------------------------------------------------------------
// Waiting for the state of the compositor
// ---------------------------------------------------------------------------------------------
/// What the work is waiting for.
#[derive(Debug, Clone, Copy, PartialEq, Eq, Structural)]
pub enum SynchronizationPhase {
    Dispatch,
    Flush,
    Wait,
    Over,
}

impl DeepView for SynchronizationPhase {
    type V = SynchronizationPhase;

    open spec fn deep_view(&self) -> SynchronizationPhase {
        *self
    }
}

impl Replicate for SynchronizationPhase {
    fn replicate(&self) -> (r: Self) {
        *self
    }
}

/// Waiting for the state of the compositor.
#[derive(Debug)]
pub struct Synchronization {
    pub operation: String,
    pub timeout_ms: u64,
    pub phase: SynchronizationPhase,
}

/// What a `Synchronization` stands for.
#[verifier::ext_equal]
pub struct SynchronizationView {
    pub operation: Seq<char>,
    pub timeout_ms: u64,
    pub phase: SynchronizationPhase,
}

impl View for Synchronization {
    type V = SynchronizationView;

    open spec fn view(&self) -> SynchronizationView {
        SynchronizationView {
            operation: self.operation.deep_view(),
            timeout_ms: self.timeout_ms.deep_view(),
            phase: self.phase.deep_view(),
        }
    }
}

impl DeepView for Synchronization {
    type V = SynchronizationView;

    open spec fn deep_view(&self) -> SynchronizationView {
        self.view()
    }
}

impl Replicate for Synchronization {
    fn replicate(&self) -> (r: Self) {
        Synchronization {
            operation: self.operation.replicate(),
            timeout_ms: self.timeout_ms.replicate(),
            phase: self.phase.replicate(),
        }
    }
}

/// What the session replied. `late` tells whether the deadline has passed.
#[derive(Debug)]
pub enum SynchronizationEvent {
    Dispatched { complete: bool, late: bool },
    Flushed,
    Waited { readable: bool, late: bool },
    Failed(CosmicError),
}

/// What a `SynchronizationEvent` stands for.
#[verifier::ext_equal]
pub enum SynchronizationEventView {
    Dispatched { complete: bool, late: bool },
    Flushed,
    Waited { readable: bool, late: bool },
    Failed(CosmicErrorView),
}

impl View for SynchronizationEvent {
    type V = SynchronizationEventView;

    open spec fn view(&self) -> SynchronizationEventView {
        match self {
            SynchronizationEvent::Dispatched { complete, late } => SynchronizationEventView::Dispatched { complete: complete.deep_view(), late: late.deep_view() },
            SynchronizationEvent::Flushed => SynchronizationEventView::Flushed,
            SynchronizationEvent::Waited { readable, late } => SynchronizationEventView::Waited { readable: readable.deep_view(), late: late.deep_view() },
            SynchronizationEvent::Failed(value) => SynchronizationEventView::Failed(value.deep_view()),
        }
    }
}

impl DeepView for SynchronizationEvent {
    type V = SynchronizationEventView;

    open spec fn deep_view(&self) -> SynchronizationEventView {
        self.view()
    }
}

/// What is asked of the session next.
#[derive(Debug)]
pub enum SynchronizationStep {
    Dispatch,
    Flush,
    Wait,
    Finish,
    Fail(CosmicError),
    Idle,
}

/// What a `SynchronizationStep` stands for.
#[verifier::ext_equal]
pub enum SynchronizationStepView {
    Dispatch,
    Flush,
    Wait,
    Finish,
    Fail(CosmicErrorView),
    Idle,
}

impl View for SynchronizationStep {
    type V = SynchronizationStepView;

    open spec fn view(&self) -> SynchronizationStepView {
        match self {
            SynchronizationStep::Dispatch => SynchronizationStepView::Dispatch,
            SynchronizationStep::Flush => SynchronizationStepView::Flush,
            SynchronizationStep::Wait => SynchronizationStepView::Wait,
            SynchronizationStep::Finish => SynchronizationStepView::Finish,
            SynchronizationStep::Fail(value) => SynchronizationStepView::Fail(value.deep_view()),
            SynchronizationStep::Idle => SynchronizationStepView::Idle,
        }
    }
}

impl DeepView for SynchronizationStep {
    type V = SynchronizationStepView;

    open spec fn deep_view(&self) -> SynchronizationStepView {
        self.view()
    }
}

/// The work and what it asks of the session.
pub type SynchronizationMove = (SynchronizationView, SynchronizationStepView);

impl SynchronizationView {
    pub open spec fn to(self, phase: SynchronizationPhase, step: SynchronizationStepView) -> SynchronizationMove {
        (SynchronizationView { phase, ..self }, step)
    }

    pub open spec fn failed(self, error: CosmicErrorView) -> SynchronizationMove {
        self.to(SynchronizationPhase::Over, SynchronizationStepView::Fail(error))
    }

    pub open spec fn timed_out(self) -> SynchronizationMove {
        self.failed(
            CosmicErrorView::InitialSynchronizationTimedOut {
                operation: self.operation,
                timeout_ms: self.timeout_ms,
            },
        )
    }

    /// What follows a reply: pending events are dispatched until the state is complete; as long as it
    /// is not, requests are flushed and more events are waited for, until the deadline has passed.
    pub open spec fn next(self, event: SynchronizationEventView) -> SynchronizationMove {
        match (self.phase, event) {
            (SynchronizationPhase::Over, _) => (self, SynchronizationStepView::Idle),
            (_, SynchronizationEventView::Failed(error)) => self.failed(error),
            (
                SynchronizationPhase::Dispatch,
                SynchronizationEventView::Dispatched { complete, late },
            ) => if complete {
                self.to(SynchronizationPhase::Over, SynchronizationStepView::Finish)
            } else if late {
                self.timed_out()
            } else {
                self.to(SynchronizationPhase::Flush, SynchronizationStepView::Flush)
            },
            (SynchronizationPhase::Flush, SynchronizationEventView::Flushed) => self.to(
                SynchronizationPhase::Wait,
                SynchronizationStepView::Wait,
            ),
            (SynchronizationPhase::Wait, SynchronizationEventView::Waited { readable, late }) => if !readable
                && late {
                self.timed_out()
            } else {
                self.to(SynchronizationPhase::Dispatch, SynchronizationStepView::Dispatch)
            },
            _ => (self, SynchronizationStepView::Idle),
        }
    }
}

/// The work at its beginning.
pub open spec fn synchronization_begun(operation: Seq<char>, timeout_ms: u64) -> SynchronizationMove {
    (
        SynchronizationView { operation, timeout_ms, phase: SynchronizationPhase::Dispatch },
        SynchronizationStepView::Dispatch,
    )
}

fn timeout_error(operation: &str, timeout_ms: u64) -> (r: CosmicError)
    ensures
        r@ == (CosmicErrorView::InitialSynchronizationTimedOut {
            operation: operation@,
            timeout_ms,
        }),
{
    CosmicError::InitialSynchronizationTimedOut { operation: operation.to_owned(), timeout_ms }
}

impl Synchronization {
    /// Begins to wait.
    pub fn begin(operation: &str, timeout_ms: u64) -> (r: (Synchronization, SynchronizationStep))
        ensures
            (r.0@, r.1@) == synchronization_begun(operation@, timeout_ms),
    {
        (
            Synchronization {
                operation: operation.to_owned(),
                timeout_ms,
                phase: SynchronizationPhase::Dispatch,
            },
            SynchronizationStep::Dispatch,
        )
    }

    fn to(self, phase: SynchronizationPhase, step: SynchronizationStep) -> (r: (
        Synchronization,
        SynchronizationStep,
    ))
        ensures
            (r.0@, r.1@) == self@.to(phase, step@),
    {
        (
            Synchronization { operation: self.operation, timeout_ms: self.timeout_ms, phase },
            step,
        )
    }

    fn timed_out(self) -> (r: (Synchronization, SynchronizationStep))
        ensures
            (r.0@, r.1@) == self@.timed_out(),
    {
        let error = timeout_error(self.operation.as_str(), self.timeout_ms);
        self.to(SynchronizationPhase::Over, SynchronizationStep::Fail(error))
    }

    /// What follows a reply.
    pub fn advance(self, event: SynchronizationEvent) -> (r: (Synchronization, SynchronizationStep))
        ensures
            (r.0@, r.1@) == self@.next(event@),
    {
        match (self.phase, event) {
            (SynchronizationPhase::Over, _) => (self, SynchronizationStep::Idle),
            (_, SynchronizationEvent::Failed(error)) => self.to(
                SynchronizationPhase::Over,
                SynchronizationStep::Fail(error),
            ),
            (SynchronizationPhase::Dispatch, SynchronizationEvent::Dispatched { complete, late }) => {
                if complete {
                    self.to(SynchronizationPhase::Over, SynchronizationStep::Finish)
                } else if late {
                    self.timed_out()
                } else {
                    self.to(SynchronizationPhase::Flush, SynchronizationStep::Flush)
                }
            },
            (SynchronizationPhase::Flush, SynchronizationEvent::Flushed) => self.to(
                SynchronizationPhase::Wait,
                SynchronizationStep::Wait,
            ),
            (SynchronizationPhase::Wait, SynchronizationEvent::Waited { readable, late }) => {
                if !readable && late {
                    self.timed_out()
                } else {
                    self.to(SynchronizationPhase::Dispatch, SynchronizationStep::Dispatch)
                }
            },
            _ => (self, SynchronizationStep::Idle),
        }
    }
}

// ---------------------------------------------------------------------------------------------
// Reading
// ---------------------------------------------------------------------------------------------
/// What a session that has been waited for says of the desktop.
pub open spec fn observed(state: CosmicReadStateView) -> Result<DesktopSnapshotView, CosmicErrorView> {
    match state.protocol_error {
        Some(error) => Err(error),
        None => session_snapshot(state, "observe"@),
    }
}

/// What a session that has been waited for says of the desktop.
pub fn observe(state: CosmicReadState) -> (r: Result<DesktopSnapshot, CosmicError>)
    ensures
        seen_native(r) == observed(state@),
{
    match &state.protocol_error {
        Some(error) => Err(error.replicate()),
        None => from_wayland_state(&state),
    }
}

// ---------------------------------------------------------------------------------------------
// Operations
// ---------------------------------------------------------------------------------------------
/// What is asked of the compositor.
#[derive(Debug)]
pub enum NativeRequest {
    SetTiling { workspace: String, enabled: bool },
    MoveWindow { window: String, workspace: String },
    CloseWindow { window: String },
    FocusWindow { window: String },
}

/// What a `NativeRequest` stands for.
#[verifier::ext_equal]
pub enum NativeRequestView {
    SetTiling { workspace: Seq<char>, enabled: bool },
    MoveWindow { window: Seq<char>, workspace: Seq<char> },
    CloseWindow { window: Seq<char> },
    FocusWindow { window: Seq<char> },
}

impl View for NativeRequest {
    type V = NativeRequestView;

    open spec fn view(&self) -> NativeRequestView {
        match self {
            NativeRequest::SetTiling { workspace, enabled } => NativeRequestView::SetTiling { workspace: workspace.deep_view(), enabled: enabled.deep_view() },
            NativeRequest::MoveWindow { window, workspace } => NativeRequestView::MoveWindow { window: window.deep_view(), workspace: workspace.deep_view() },
            NativeRequest::CloseWindow { window } => NativeRequestView::CloseWindow { window: window.deep_view() },
            NativeRequest::FocusWindow { window } => NativeRequestView::FocusWindow { window: window.deep_view() },
        }
    }
}

impl DeepView for NativeRequest {
    type V = NativeRequestView;

    open spec fn deep_view(&self) -> NativeRequestView {
        self.view()
    }
}

impl Replicate for NativeRequest {
    fn replicate(&self) -> (r: Self) {
        match self {
            NativeRequest::SetTiling { workspace, enabled } => NativeRequest::SetTiling { workspace: workspace.replicate(), enabled: enabled.replicate() },
            NativeRequest::MoveWindow { window, workspace } => NativeRequest::MoveWindow { window: window.replicate(), workspace: workspace.replicate() },
            NativeRequest::CloseWindow { window } => NativeRequest::CloseWindow { window: window.replicate() },
            NativeRequest::FocusWindow { window } => NativeRequest::FocusWindow { window: window.replicate() },
        }
    }
}

/// A request of the protocol, over handles.
#[derive(Debug, Clone, Copy, PartialEq, Eq, Structural)]
pub enum NativeAction {
    SetTiling { workspace: u64, enabled: bool },
    Move { window: u64, workspace: u64, output: u64 },
    Close { window: u64 },
    Activate { window: u64, seat: u64 },
}

impl DeepView for NativeAction {
    type V = NativeAction;

    open spec fn deep_view(&self) -> NativeAction {
        *self
    }
}

impl Replicate for NativeAction {
    fn replicate(&self) -> (r: Self) {
        *self
    }
}

/// What is done about a request: a request of the protocol, or nothing.
pub type NativePlan = Option<NativeAction>;

pub open spec fn tiling_word(enabled: bool) -> Seq<char> {
    if enabled {
        "enabled"@
    } else {
        "disabled"@
    }
}

fn tiling_name(enabled: bool) -> (r: &'static str)
    ensures
        r@ == tiling_word(enabled),
{
    if enabled {
        "enabled"
    } else {
        "disabled"
    }
}

pub open spec fn window_handle_missing(operation: Seq<char>, window: Seq<char>) -> CosmicErrorView {
    CosmicErrorView::CapabilityUnavailable {
        operation,
        capability: "COSMIC toplevel handle"@,
        detail: "window '"@ + window + "' did not provide a native handle"@,
    }
}

/// The request of the protocol that changes the tiling of a workspace, where it is not as it should
/// be.
pub open spec fn tiling_planned(
    state: CosmicMutationStateView,
    identity: Seq<char>,
    enabled: bool,
    operation: Seq<char>,
) -> Result<NativePlan, CosmicErrorView> {
    match workspace_resolved(state.read.workspaces, identity, operation) {
        Err(error) => Err(error),
        Ok(workspace) => match tiling_checked(supports_tiling(workspace.capabilities), operation) {
            Err(error) => Err(error),
            Ok(_) => if !workspace.native_handle {
                Err(
                    CosmicErrorView::CapabilityUnavailable {
                        operation,
                        capability: "COSMIC workspace handle"@,
                        detail: "the selected workspace did not provide a native COSMIC handle"@,
                    },
                )
            } else if tiling_known(workspace.tiling) == Some(enabled) {
                Ok(None)
            } else {
                Ok(Some(NativeAction::SetTiling { workspace: workspace.handle, enabled }))
            },
        },
    }
}

/// The request of the protocol that moves a window, where it is not in that workspace alone.
pub open spec fn move_planned(
    state: CosmicMutationStateView,
    window_identity: Seq<char>,
    workspace_identity: Seq<char>,
    operation: Seq<char>,
) -> Result<NativePlan, CosmicErrorView> {
    match window_resolved(state.read.toplevels, window_identity, operation) {
        Err(error) => Err(error),
        Ok(window) => if !window.native_handle {
            Err(window_handle_missing(operation, window_identity))
        } else {
            match workspace_resolved(state.read.workspaces, workspace_identity, operation) {
                Err(error) => Err(error),
                Ok(workspace) => match output_resolved(
                    state.read.groups,
                    workspace.handle,
                    operation,
                    workspace_identity,
                ) {
                    Err(error) => Err(error),
                    Ok(output) => match managed(
                        state.management_capabilities,
                        state.toplevel_manager_version,
                        ManagementCapability::MoveToExternalWorkspace,
                        operation,
                    ) {
                        Err(error) => Err(error),
                        Ok(_) => if window.workspaces.len() == 1 && window.workspaces.contains(
                            workspace.handle,
                        ) {
                            Ok(None)
                        } else {
                            Ok(
                                Some(
                                    NativeAction::Move {
                                        window: window.handle,
                                        workspace: workspace.handle,
                                        output,
                                    },
                                ),
                            )
                        },
                    },
                },
            }
        },
    }
}

/// The request of the protocol that closes a window.
pub open spec fn close_planned(
    state: CosmicMutationStateView,
    window_identity: Seq<char>,
    operation: Seq<char>,
) -> Result<NativePlan, CosmicErrorView> {
    match window_resolved(state.read.toplevels, window_identity, operation) {
        Err(error) => Err(error),
        Ok(window) => if !window.native_handle {
            Err(window_handle_missing(operation, window_identity))
        } else {
            match managed(
                state.management_capabilities,
                state.toplevel_manager_version,
                ManagementCapability::WindowClose,
                operation,
            ) {
                Err(error) => Err(error),
                Ok(_) => Ok(Some(NativeAction::Close { window: window.handle })),
            }
        },
    }
}

/// The request of the protocol that gives a window the focus of the first seat.
pub open spec fn focus_planned(
    state: CosmicMutationStateView,
    window_identity: Seq<char>,
    operation: Seq<char>,
) -> Result<NativePlan, CosmicErrorView> {
    match window_resolved(state.read.toplevels, window_identity, operation) {
        Err(error) => Err(error),
        Ok(window) => if !window.native_handle {
            Err(window_handle_missing(operation, window_identity))
        } else {
            match managed(
                state.management_capabilities,
                state.toplevel_manager_version,
                ManagementCapability::WindowActivation,
                operation,
            ) {
                Err(error) => Err(error),
                Ok(_) => match read_checked(
                    state.read.capabilities,
                    ReadCapability::AvailableSeats,
                    operation,
                ) {
                    Err(error) => Err(error),
                    Ok(_) => if state.read.seats.len() == 0 {
                        Err(
                            CosmicErrorView::CapabilityUnavailable {
                                operation,
                                capability: "available seats"@,
                                detail: "the compositor did not advertise an input seat"@,
                            },
                        )
                    } else {
                        Ok(
                            Some(
                                NativeAction::Activate {
                                    window: window.handle,
                                    seat: state.read.seats[0],
                                },
                            ),
                        )
                    },
                },
            }
        },
    }
}

/// A workspace must have the tiling that was asked for.
pub open spec fn tiling_confirmed(
    snapshot: DesktopSnapshotView,
    identity: Seq<char>,
    enabled: bool,
    operation: Seq<char>,
) -> Result<(), CosmicErrorView> {
    match snapshot.workspace(identity) {
        None => Err(
            CosmicErrorView::MutationNotConfirmed {
                operation,
                identity,
                detail: "the fresh COSMIC snapshot no longer contains the workspace"@,
            },
        ),
        Some(workspace) => if workspace.tiling_enabled == Some(enabled) {
            Ok(())
        } else {
            Err(
                CosmicErrorView::MutationNotConfirmed {
                    operation,
                    identity,
                    detail: "the fresh COSMIC snapshot did not report tiling "@ + tiling_word(
                        enabled,
                    ),
                },
            )
        },
    }
}

/// A window must be in the workspace that was asked for.
pub open spec fn placement_confirmed(
    snapshot: DesktopSnapshotView,
    window: Seq<char>,
    workspace: Seq<char>,
    operation: Seq<char>,
) -> Result<(), CosmicErrorView> {
    match snapshot.window(window) {
        None => Err(
            CosmicErrorView::MutationNotConfirmed {
                operation,
                identity: window,
                detail: "the fresh COSMIC snapshot no longer contains the window"@,
            },
        ),
        Some(found) => if found.workspace_identity == Some(workspace) {
            Ok(())
        } else {
            Err(
                CosmicErrorView::MutationNotConfirmed {
                    operation,
                    identity: window,
                    detail: "the fresh COSMIC snapshot did not place the window in workspace '"@
                        + workspace + "'"@,
                },
            )
        },
    }
}

/// A deadline that passes while a change is to be confirmed means that it was not.
pub open spec fn confirmation_error(
    error: CosmicErrorView,
    operation: Seq<char>,
    identity: Seq<char>,
) -> CosmicErrorView {
    match error {
        CosmicErrorView::InitialSynchronizationTimedOut { operation: _, timeout_ms }
        | CosmicErrorView::OperationTimedOut {
            operation: _,
            timeout_ms,
        } => CosmicErrorView::MutationNotConfirmed {
            operation,
            identity,
            detail: "the compositor did not publish the requested state within "@ + decimal(
                timeout_ms as nat,
            ) + " ms"@,
        },
        _ => error,
    }
}

impl NativeRequestView {
    /// The name of the operation.
    pub open spec fn operation(self) -> Seq<char> {
        match self {
            NativeRequestView::SetTiling { .. } => "set-tiling"@,
            NativeRequestView::MoveWindow { .. } => "move-window"@,
            NativeRequestView::CloseWindow { .. } => "close-window"@,
            NativeRequestView::FocusWindow { .. } => "focus-window"@,
        }
    }

    /// What the operation is about.
    pub open spec fn subject(self) -> Seq<char> {
        match self {
            NativeRequestView::SetTiling { workspace, enabled } => workspace,
            NativeRequestView::MoveWindow { window, workspace } => window,
            NativeRequestView::CloseWindow { window } => window,
            NativeRequestView::FocusWindow { window } => window,
        }
    }

    /// A change to a state that the compositor publishes afterwards.
    pub open spec fn needs_confirmation(self) -> bool {
        self is SetTiling || self is MoveWindow
    }

    /// The state before the compositor publishes what was changed: what is to be published again has
    /// not arrived yet.
    pub open spec fn awaiting(self, state: CosmicReadStateView) -> CosmicReadStateView {
        match self {
            NativeRequestView::SetTiling { .. } => CosmicReadStateView {
                workspaces_done: false,
                ..state
            },
            NativeRequestView::MoveWindow { .. } => CosmicReadStateView {
                toplevels_done: false,
                ..state
            },
            _ => state,
        }
    }

    /// Whether the compositor has published what was changed.
    pub open spec fn refreshed(self, state: CosmicReadStateView) -> bool {
        match self {
            NativeRequestView::SetTiling { .. } => state.workspaces_done,
            NativeRequestView::MoveWindow { .. } => state.toplevels_done,
            _ => true,
        }
    }

    /// What is done about the request, once the state of the compositor is known.
    pub open spec fn planned(self, state: CosmicMutationStateView) -> Result<
        NativePlan,
        CosmicErrorView,
    > {
        match state.read.protocol_error {
            Some(error) => Err(error),
            None => match management_checked(
                state.management_capabilities,
                ManagementCapability::ToplevelManagement,
                self.operation(),
            ) {
                Err(error) => Err(error),
                Ok(_) => match self {
                    NativeRequestView::SetTiling { workspace, enabled } => tiling_planned(
                        state,
                        workspace,
                        enabled,
                        self.operation(),
                    ),
                    NativeRequestView::MoveWindow { window, workspace } => move_planned(
                        state,
                        window,
                        workspace,
                        self.operation(),
                    ),
                    NativeRequestView::CloseWindow { window } => close_planned(
                        state,
                        window,
                        self.operation(),
                    ),
                    NativeRequestView::FocusWindow { window } => focus_planned(
                        state,
                        window,
                        self.operation(),
                    ),
                },
            },
        }
    }

    /// Whether a fresh snapshot shows what was asked for.
    pub open spec fn confirmed(self, snapshot: DesktopSnapshotView) -> Result<(), CosmicErrorView> {
        match self {
            NativeRequestView::SetTiling { workspace, enabled } => tiling_confirmed(
                snapshot,
                workspace,
                enabled,
                self.operation(),
            ),
            NativeRequestView::MoveWindow { window, workspace } => placement_confirmed(
                snapshot,
                window,
                workspace,
                self.operation(),
            ),
            _ => Ok(()),
        }
    }

    /// Whether the state that the compositor published shows what was asked for.
    pub open spec fn settled(self, state: CosmicReadStateView) -> Result<(), CosmicErrorView> {
        match state.protocol_error {
            Some(error) => Err(error),
            None => match session_snapshot(state, self.operation()) {
                Err(error) => Err(error),
                Ok(snapshot) => self.confirmed(snapshot),
            },
        }
    }
}

/// Whether a workspace has the tiling that was asked for.
pub fn confirm_tiling(
    snapshot: &DesktopSnapshot,
    workspace_identity: &str,
    enabled: bool,
    operation: &str,
) -> (r: Result<(), CosmicError>)
    ensures
        seen_native(r) == tiling_confirmed(snapshot@, workspace_identity@, enabled, operation@),
{
    match snapshot.workspace(workspace_identity) {
        None => Err(
            CosmicError::MutationNotConfirmed {
                operation: operation.to_owned(),
                identity: workspace_identity.to_owned(),
                detail: "the fresh COSMIC snapshot no longer contains the workspace".to_owned(),
            },
        ),
        Some(workspace) => {
            let agrees = match workspace.tiling_enabled {
                Some(found) => found == enabled,
                None => false,
            };
            if agrees {
                return Ok(());
            }
            Err(
                CosmicError::MutationNotConfirmed {
                    operation: operation.to_owned(),
                    identity: workspace_identity.to_owned(),
                    detail: join2(
                        "the fresh COSMIC snapshot did not report tiling ",
                        tiling_name(enabled),
                    ),
                },
            )
        },
    }
}

/// Whether a window is in the workspace that was asked for.
pub fn confirm_window_placement(
    snapshot: &DesktopSnapshot,
    window_identity: &str,
    workspace_identity: &str,
    operation: &str,
) -> (r: Result<(), CosmicError>)
    ensures
        seen_native(r) == placement_confirmed(
            snapshot@,
            window_identity@,
            workspace_identity@,
            operation@,
        ),
{
    match snapshot.window(window_identity) {
        None => Err(
            CosmicError::MutationNotConfirmed {
                operation: operation.to_owned(),
                identity: window_identity.to_owned(),
                detail: "the fresh COSMIC snapshot no longer contains the window".to_owned(),
            },
        ),
        Some(window) => {
            if option_is_text(&window.workspace_identity, workspace_identity) {
                return Ok(());
            }
            Err(
                CosmicError::MutationNotConfirmed {
                    operation: operation.to_owned(),
                    identity: window_identity.to_owned(),
                    detail: join3(
                        "the fresh COSMIC snapshot did not place the window in workspace '",
                        workspace_identity,
                        "'",
                    ),
                },
            )
        },
    }
}

/// A deadline that passes while a change is to be confirmed means that it was not.
pub fn map_confirmation_error(error: CosmicError, operation: &str, identity: &str) -> (r: CosmicError)
    ensures
        r@ == confirmation_error(error@, operation@, identity@),
{
    match error {
        CosmicError::InitialSynchronizationTimedOut { operation: _, timeout_ms }
        | CosmicError::OperationTimedOut {
            operation: _,
            timeout_ms,
        } => CosmicError::MutationNotConfirmed {
            operation: operation.to_owned(),
            identity: identity.to_owned(),
            detail: join3(
                "the compositor did not publish the requested state within ",
                text_decimal(timeout_ms as u128).as_str(),
                " ms",
            ),
        },
        error => error,
    }
}

fn missing_window_handle(operation: &str, window: &str) -> (r: CosmicError)
    ensures
        r@ == window_handle_missing(operation@, window@),
{
    CosmicError::CapabilityUnavailable {
        operation: operation.to_owned(),
        capability: "COSMIC toplevel handle".to_owned(),
        detail: join3("window '", window, "' did not provide a native handle"),
    }
}

/// The error of a session whose workspace manager cannot be reached.
pub fn workspace_manager_unavailable(operation: &str) -> (r: CosmicError)
    ensures
        r@ == (CosmicErrorView::CapabilityUnavailable {
            operation: operation@,
            capability: "workspace manager"@,
            detail: "the native workspace manager proxy is unavailable"@,
        }),
{
    CosmicError::CapabilityUnavailable {
        operation: operation.to_owned(),
        capability: "workspace manager".to_owned(),
        detail: "the native workspace manager proxy is unavailable".to_owned(),
    }
}

fn plan_tiling(
    state: &CosmicMutationState,
    workspace_identity: &str,
    enabled: bool,
    operation: &str,
) -> (r: Result<NativePlan, CosmicError>)
    ensures
        seen_native(r) == tiling_planned(state@, workspace_identity@, enabled, operation@),
{
    let workspace = match resolve_workspace(
        &state.read.workspaces,
        workspace_identity,
        operation,
    ) {
        Err(error) => {
            return Err(error);
        },
        Ok(workspace) => workspace,
    };
    if let Err(error) = require_workspace_tiling_capability(
        workspace_supports_tiling(workspace.capabilities),
        operation,
    ) {
        return Err(error);
    }
    if !workspace.native_handle {
        return Err(
            CosmicError::CapabilityUnavailable {
                operation: operation.to_owned(),
                capability: "COSMIC workspace handle".to_owned(),
                detail: "the selected workspace did not provide a native COSMIC handle".to_owned(),
            },
        );
    }
    let settled = match workspace_tiling_enabled(workspace.tiling) {
        Some(found) => found == enabled,
        None => false,
    };
    if settled {
        Ok(None)
    } else {
        Ok(Some(NativeAction::SetTiling { workspace: workspace.handle, enabled }))
    }
}

fn plan_move(
    state: &CosmicMutationState,
    window_identity: &str,
    workspace_identity: &str,
    operation: &str,
) -> (r: Result<NativePlan, CosmicError>)
    ensures
        seen_native(r) == move_planned(state@, window_identity@, workspace_identity@, operation@),
{
    let window = match resolve_window(&state.read.toplevels, window_identity, operation) {
        Err(error) => {
            return Err(error);
        },
        Ok(window) => window,
    };
    if !window.native_handle {
        return Err(missing_window_handle(operation, window_identity));
    }
    let workspace = match resolve_workspace(
        &state.read.workspaces,
        workspace_identity,
        operation,
    ) {
        Err(error) => {
            return Err(error);
        },
        Ok(workspace) => workspace,
    };
    let output = match target_output(
        &state.read.groups,
        workspace.handle,
        operation,
        workspace_identity,
    ) {
        Err(error) => {
            return Err(error);
        },
        Ok(output) => output,
    };
    if let Err(error) = require_external_workspace_move_capability(
        state.management_capabilities,
        state.toplevel_manager_version,
        operation,
    ) {
        return Err(error);
    }
    assert(window.workspaces.deep_view() =~= window.workspaces@);
    if window.workspaces.len() == 1 && holds_handle(&window.workspaces, workspace.handle) {
        Ok(None)
    } else {
        Ok(
            Some(
                NativeAction::Move { window: window.handle, workspace: workspace.handle, output },
            ),
        )
    }
}

fn require_managed(
    state: &CosmicMutationState,
    capability: ManagementCapability,
    operation: &str,
) -> (r: Result<(), CosmicError>)
    ensures
        seen_native(r) == managed(
            state@.management_capabilities,
            state@.toplevel_manager_version,
            capability,
            operation@,
        ),
{
    match require_management_protocol_version(
        state.toplevel_manager_version,
        capability,
        operation,
    ) {
        Err(error) => Err(error),
        Ok(_) => require_management_capability(
            state.management_capabilities,
            capability,
            operation,
        ),
    }
}

fn plan_close(state: &CosmicMutationState, window_identity: &str, operation: &str) -> (r: Result<
    NativePlan,
    CosmicError,
>)
    ensures
        seen_native(r) == close_planned(state@, window_identity@, operation@),
{
    let window = match resolve_window(&state.read.toplevels, window_identity, operation) {
        Err(error) => {
            return Err(error);
        },
        Ok(window) => window,
    };
    if !window.native_handle {
        return Err(missing_window_handle(operation, window_identity));
    }
    match require_managed(state, ManagementCapability::WindowClose, operation) {
        Err(error) => Err(error),
        Ok(_) => Ok(Some(NativeAction::Close { window: window.handle })),
    }
}

fn plan_focus(state: &CosmicMutationState, window_identity: &str, operation: &str) -> (r: Result<
    NativePlan,
    CosmicError,
>)
    ensures
        seen_native(r) == focus_planned(state@, window_identity@, operation@),
{
    let window = match resolve_window(&state.read.toplevels, window_identity, operation) {
        Err(error) => {
            return Err(error);
        },
        Ok(window) => window,
    };
    if !window.native_handle {
        return Err(missing_window_handle(operation, window_identity));
    }
    if let Err(error) = require_managed(state, ManagementCapability::WindowActivation, operation) {
        return Err(error);
    }
    if let Err(error) = require_read_capability(
        state.read.capabilities,
        ReadCapability::AvailableSeats,
        operation,
    ) {
        return Err(error);
    }
    assert(state.read.seats.deep_view() =~= state.read.seats@);
    if state.read.seats.len() == 0 {
        return Err(
            CosmicError::CapabilityUnavailable {
                operation: operation.to_owned(),
                capability: "available seats".to_owned(),
                detail: "the compositor did not advertise an input seat".to_owned(),
            },
        );
    }
    Ok(Some(NativeAction::Activate { window: window.handle, seat: state.read.seats[0] }))
}

impl NativeRequest {
    /// The name of the operation.
    pub fn operation(&self) -> (r: &'static str)
        ensures
            r@ == self@.operation(),
    {
        match self {
            NativeRequest::SetTiling { .. } => "set-tiling",
            NativeRequest::MoveWindow { .. } => "move-window",
            NativeRequest::CloseWindow { .. } => "close-window",
            NativeRequest::FocusWindow { .. } => "focus-window",
        }
    }

    /// What the operation is about.
    pub fn subject(&self) -> (r: String)
        ensures
            r@ == self@.subject(),
    {
        match self {
            NativeRequest::SetTiling { workspace, enabled: _ } => workspace.clone(),
            NativeRequest::MoveWindow { window, workspace: _ } => window.clone(),
            NativeRequest::CloseWindow { window } => window.clone(),
            NativeRequest::FocusWindow { window } => window.clone(),
        }
    }

    /// Forgets, before a refresh, that what the request changes has arrived.
    pub fn await_refresh(&self, state: &mut CosmicReadState)
        ensures
            final(state)@ == self@.awaiting(old(state)@),
    {
        match self {
            NativeRequest::SetTiling { .. } => {
                state.workspaces_done = false;
            },
            NativeRequest::MoveWindow { .. } => {
                state.toplevels_done = false;
            },
            _ => {},
        }
    }

    /// Whether what the request changes has arrived again.
    pub fn is_refreshed(&self, state: &CosmicReadState) -> (r: bool)
        ensures
            r == self@.refreshed(state@),
    {
        match self {
            NativeRequest::SetTiling { .. } => state.workspaces_done,
            NativeRequest::MoveWindow { .. } => state.toplevels_done,
            _ => true,
        }
    }

    /// What is done about the request, once the state of the compositor is known.
    pub fn plan(&self, state: &CosmicMutationState) -> (r: Result<NativePlan, CosmicError>)
        ensures
            seen_native(r) == self@.planned(state@),
    {
        if let Some(error) = &state.read.protocol_error {
            return Err(error.replicate());
        }
        if let Err(error) = require_management_capability(
            state.management_capabilities,
            ManagementCapability::ToplevelManagement,
            self.operation(),
        ) {
            return Err(error);
        }
        match self {
            NativeRequest::SetTiling { workspace, enabled } => plan_tiling(
                state,
                workspace.as_str(),
                *enabled,
                self.operation(),
            ),
            NativeRequest::MoveWindow { window, workspace } => plan_move(
                state,
                window.as_str(),
                workspace.as_str(),
                self.operation(),
            ),
            NativeRequest::CloseWindow { window } => plan_close(
                state,
                window.as_str(),
                self.operation(),
            ),
            NativeRequest::FocusWindow { window } => plan_focus(
                state,
                window.as_str(),
                self.operation(),
            ),
        }
    }

    /// Whether the state that the compositor published shows what was asked for.
    pub fn settle(&self, state: &CosmicReadState) -> (r: Result<(), CosmicError>)
        ensures
            seen_native(r) == self@.settled(state@),
    {
        if let Some(error) = &state.protocol_error {
            return Err(error.replicate());
        }
        let snapshot = match from_wayland_state_for_operation(state, self.operation()) {
            Err(error) => {
                return Err(error);
            },
            Ok(snapshot) => snapshot,
        };
        match self {
            NativeRequest::SetTiling { workspace, enabled } => confirm_tiling(
                &snapshot,
                workspace.as_str(),
                *enabled,
                self.operation(),
            ),
            NativeRequest::MoveWindow { window, workspace } => confirm_window_placement(
                &snapshot,
                window.as_str(),
                workspace.as_str(),
                self.operation(),
            ),
            _ => Ok(()),
        }
    }
}

/// What the work is waiting for.
#[derive(Debug, Clone, Copy, PartialEq, Eq, Structural)]
pub enum NativePhase {
    State,
    Sending,
    Refresh,
    Over,
}

impl DeepView for NativePhase {
    type V = NativePhase;

    open spec fn deep_view(&self) -> NativePhase {
        *self
    }
}

impl Replicate for NativePhase {
    fn replicate(&self) -> (r: Self) {
        *self
    }
}

/// An operation that changes something.
#[derive(Debug)]
pub struct NativeOperation {
    pub request: NativeRequest,
    pub phase: NativePhase,
}

/// What a `NativeOperation` stands for.
#[verifier::ext_equal]
pub struct NativeOperationView {
    pub request: NativeRequestView,
    pub phase: NativePhase,
}

impl View for NativeOperation {
    type V = NativeOperationView;

    open spec fn view(&self) -> NativeOperationView {
        NativeOperationView {
            request: self.request.deep_view(),
            phase: self.phase.deep_view(),
        }
    }
}

impl DeepView for NativeOperation {
    type V = NativeOperationView;

    open spec fn deep_view(&self) -> NativeOperationView {
        self.view()
    }
}

impl Replicate for NativeOperation {
    fn replicate(&self) -> (r: Self) {
        NativeOperation {
            request: self.request.replicate(),
            phase: self.phase.replicate(),
        }
    }
}

/// What the session replied. `Stale` says why a fresh state could not be waited for.
#[derive(Debug)]
pub enum NativeEvent {
    Ready(CosmicMutationState),
    Sent,
    Fresh(CosmicReadState),
    Stale(CosmicError),
    Failed(CosmicError),
}

/// What a `NativeEvent` stands for.
#[verifier::ext_equal]
pub enum NativeEventView {
    Ready(CosmicMutationStateView),
    Sent,
    Fresh(CosmicReadStateView),
    Stale(CosmicErrorView),
    Failed(CosmicErrorView),
}

impl View for NativeEvent {
    type V = NativeEventView;

    open spec fn view(&self) -> NativeEventView {
        match self {
            NativeEvent::Ready(value) => NativeEventView::Ready(value.deep_view()),
            NativeEvent::Sent => NativeEventView::Sent,
            NativeEvent::Fresh(value) => NativeEventView::Fresh(value.deep_view()),
            NativeEvent::Stale(value) => NativeEventView::Stale(value.deep_view()),
            NativeEvent::Failed(value) => NativeEventView::Failed(value.deep_view()),
        }
    }
}

impl DeepView for NativeEvent {
    type V = NativeEventView;

    open spec fn deep_view(&self) -> NativeEventView {
        self.view()
    }
}

/// What is asked of the session next.
#[derive(Debug)]
pub enum NativeStep {
    Synchronize,
    Send(NativeAction),
    Refresh,
    Finish(DesktopOperationOutcome),
    Fail(CosmicError),
    Idle,
}

/// What a `NativeStep` stands for.
#[verifier::ext_equal]
pub enum NativeStepView {
    Synchronize,
    Send(NativeAction),
    Refresh,
    Finish(DesktopOperationOutcomeView),
    Fail(CosmicErrorView),
    Idle,
}

impl View for NativeStep {
    type V = NativeStepView;

    open spec fn view(&self) -> NativeStepView {
        match self {
            NativeStep::Synchronize => NativeStepView::Synchronize,
            NativeStep::Send(value) => NativeStepView::Send(value.deep_view()),
            NativeStep::Refresh => NativeStepView::Refresh,
            NativeStep::Finish(value) => NativeStepView::Finish(value.deep_view()),
            NativeStep::Fail(value) => NativeStepView::Fail(value.deep_view()),
            NativeStep::Idle => NativeStepView::Idle,
        }
    }
}

impl DeepView for NativeStep {
    type V = NativeStepView;

    open spec fn deep_view(&self) -> NativeStepView {
        self.view()
    }
}

/// The work and what it asks of the session.
pub type NativeMove = (NativeOperationView, NativeStepView);

/// Something was changed, or everything was as it should be.
pub open spec fn native_outcome(status: DesktopOperationStatus, identity: Seq<char>) -> DesktopOperationOutcomeView {
    DesktopOperationOutcomeView { status, identity: Some(identity), detail: None }
}

impl NativeOperationView {
    pub open spec fn to(self, phase: NativePhase, step: NativeStepView) -> NativeMove {
        (NativeOperationView { phase, ..self }, step)
    }

    pub open spec fn failed(self, error: CosmicErrorView) -> NativeMove {
        self.to(NativePhase::Over, NativeStepView::Fail(error))
    }

    pub open spec fn finished(self, status: DesktopOperationStatus) -> NativeMove {
        self.to(
            NativePhase::Over,
            NativeStepView::Finish(native_outcome(status, self.request.subject())),
        )
    }

    /// What follows a reply: once the state is known, the request is sent, unless everything is as it
    /// should be; a change that the compositor publishes is confirmed by a fresh state.
    pub open spec fn next(self, event: NativeEventView) -> NativeMove {
        match (self.phase, event) {
            (NativePhase::Over, _) => (self, NativeStepView::Idle),
            (_, NativeEventView::Failed(error)) => self.failed(error),
            (NativePhase::State, NativeEventView::Ready(state)) => match self.request.planned(state) {
                Err(error) => self.failed(error),
                Ok(None) => self.finished(DesktopOperationStatus::Unchanged),
                Ok(Some(action)) => self.to(NativePhase::Sending, NativeStepView::Send(action)),
            },
            (NativePhase::Sending, NativeEventView::Sent) => if self.request.needs_confirmation() {
                self.to(NativePhase::Refresh, NativeStepView::Refresh)
            } else {
                self.finished(DesktopOperationStatus::Changed)
            },
            (NativePhase::Refresh, NativeEventView::Stale(error)) => self.failed(
                confirmation_error(error, self.request.operation(), self.request.subject()),
            ),
            (NativePhase::Refresh, NativeEventView::Fresh(state)) => match self.request.settled(state) {
                Err(error) => self.failed(error),
                Ok(_) => self.finished(DesktopOperationStatus::Changed),
            },
            _ => (self, NativeStepView::Idle),
        }
    }
}

/// The work at its beginning.
pub open spec fn native_begun(request: NativeRequestView) -> NativeMove {
    (NativeOperationView { request, phase: NativePhase::State }, NativeStepView::Synchronize)
}

impl NativeOperation {
    /// Begins with the state of the compositor.
    pub fn begin(request: NativeRequest) -> (r: (NativeOperation, NativeStep))
        ensures
            (r.0@, r.1@) == native_begun(request@),
    {
        (NativeOperation { request, phase: NativePhase::State }, NativeStep::Synchronize)
    }

    fn to(self, phase: NativePhase, step: NativeStep) -> (r: (NativeOperation, NativeStep))
        ensures
            (r.0@, r.1@) == self@.to(phase, step@),
    {
        (NativeOperation { request: self.request, phase }, step)
    }

    fn failed(self, error: CosmicError) -> (r: (NativeOperation, NativeStep))
        ensures
            (r.0@, r.1@) == self@.failed(error@),
    {
        self.to(NativePhase::Over, NativeStep::Fail(error))
    }

    fn finished(self, status: DesktopOperationStatus) -> (r: (NativeOperation, NativeStep))
        ensures
            (r.0@, r.1@) == self@.finished(status),
    {
        let identity = self.request.subject();
        self.to(
            NativePhase::Over,
            NativeStep::Finish(
                DesktopOperationOutcome { status, identity: Some(identity), detail: None },
            ),
        )
    }

    /// What follows a reply.
    pub fn advance(self, event: NativeEvent) -> (r: (NativeOperation, NativeStep))
        ensures
            (r.0@, r.1@) == self@.next(event@),
    {
        match (self.phase, event) {
            (NativePhase::Over, _) => (self, NativeStep::Idle),
            (_, NativeEvent::Failed(error)) => self.failed(error),
            (NativePhase::State, NativeEvent::Ready(state)) => match self.request.plan(&state) {
                Err(error) => self.failed(error),
                Ok(None) => self.finished(DesktopOperationStatus::Unchanged),
                Ok(Some(action)) => self.to(NativePhase::Sending, NativeStep::Send(action)),
            },
            (NativePhase::Sending, NativeEvent::Sent) => {
                let confirming = match &self.request {
                    NativeRequest::SetTiling { .. } | NativeRequest::MoveWindow { .. } => true,
                    _ => false,
                };
                if confirming {
                    self.to(NativePhase::Refresh, NativeStep::Refresh)
                } else {
                    self.finished(DesktopOperationStatus::Changed)
                }
            },
            (NativePhase::Refresh, NativeEvent::Stale(error)) => {
                let mapped = map_confirmation_error(
                    error,
                    self.request.operation(),
                    self.request.subject().as_str(),
                );
                self.failed(mapped)
            },
            (NativePhase::Refresh, NativeEvent::Fresh(state)) => match self.request.settle(&state) {
                Err(error) => self.failed(error),
                Ok(_) => self.finished(DesktopOperationStatus::Changed),
            },
            _ => (self, NativeStep::Idle),
        }
    }
}

// ---------------------------------------------------------------------------------------------
// Laws
// ---------------------------------------------------------------------------------------------
/// Waiting ends well only where the state is complete.
pub proof fn law_finished_wait_is_complete(work: SynchronizationView, event: SynchronizationEventView)
    requires
        work.next(event).1 is Finish,
    ensures
        event matches SynchronizationEventView::Dispatched { complete, late } && complete,
{
}

/// A state that is complete is never given up, however late it is.
pub proof fn law_complete_state_is_never_late(work: SynchronizationView, late: bool)
    requires
        work.phase == SynchronizationPhase::Dispatch,
    ensures
        work.next(SynchronizationEventView::Dispatched { complete: true, late }).1
            == SynchronizationStepView::Finish,
{
}

/// A change to the tiling of a workspace, or to the workspace of a window, is reported as changed only
/// after a fresh state showed it.
pub proof fn law_changed_means_confirmed(work: NativeOperationView, event: NativeEventView)
    requires
        work.request.needs_confirmation(),
        work.next(event).1 == NativeStepView::Finish(
            native_outcome(DesktopOperationStatus::Changed, work.request.subject()),
        ),
    ensures
        event matches NativeEventView::Fresh(state) && (session_snapshot(
            state,
            work.request.operation(),
        ) matches Ok(snapshot) && (match work.request {
            NativeRequestView::SetTiling { workspace, enabled } => snapshot.workspace(workspace)
                is Some && snapshot.workspace(workspace)->Some_0.tiling_enabled == Some(enabled),
            NativeRequestView::MoveWindow { window, workspace } => snapshot.window(window) is Some
                && snapshot.window(window)->Some_0.workspace_identity == Some(workspace),
            _ => true,
        })),
{
}

/// A deadline that passes while a change is to be confirmed is reported as a change that was not
/// confirmed, never as one that was made.
pub proof fn law_confirmation_timeout_is_a_failure(
    work: NativeOperationView,
    operation: Seq<char>,
    timeout_ms: u64,
)
    requires
        work.phase == NativePhase::Refresh,
    ensures
        work.next(
            NativeEventView::Stale(
                CosmicErrorView::InitialSynchronizationTimedOut { operation, timeout_ms },
            ),
        ).1 matches NativeStepView::Fail(error) && error is MutationNotConfirmed,
{
}

/// Nothing is sent where the workspace already tiles as it should.
pub proof fn law_settled_tiling_is_left_alone(
    workspace: Seq<char>,
    enabled: bool,
    state: CosmicMutationStateView,
)
    requires
        ({
            let request = NativeRequestView::SetTiling { workspace, enabled };
            request.planned(state) is Ok && tiling_known(
                workspace_resolved(state.read.workspaces, workspace, request.operation())->Ok_0.tiling,
            ) == Some(enabled)
        }),
    ensures
        native_begun(NativeRequestView::SetTiling { workspace, enabled }).0.next(
            NativeEventView::Ready(state),
        ).1 == NativeStepView::Finish(native_outcome(DesktopOperationStatus::Unchanged, workspace)),
{
}

/// Once the work is over, no reply brings anything about.
pub proof fn law_over_is_over(work: NativeOperationView, event: NativeEventView)
    requires
        work.phase == NativePhase::Over,
    ensures
        work.next(event) == (work, NativeStepView::Idle),
{
}

/// The session can be asked to change something: it reported no fault and has a window manager.
pub open spec fn can_be_asked(state: CosmicMutationStateView) -> bool {
    state.read.protocol_error is None && state.management_capabilities.global_available
}

/// The window at a place is the only one with an identifier, and it can be named to the compositor.
pub open spec fn only_window(state: CosmicMutationStateView, window: Seq<char>, at: int) -> bool {
    &&& 0 <= at < state.read.toplevels.len()
    &&& forall|k: int|
        0 <= k < state.read.toplevels.len() ==> ((#[trigger] state.read.toplevels[k]).identifier
            == window <==> k == at)
    &&& state.read.toplevels[at].native_handle
}

/// The workspace at a place is the only one that is known by an identity.
pub open spec fn only_workspace(
    state: CosmicMutationStateView,
    workspace: Seq<char>,
    at: int,
) -> bool {
    &&& 0 <= at < state.read.workspaces.len()
    &&& forall|k: int|
        0 <= k < state.read.workspaces.len() ==> well_named(#[trigger] state.read.workspaces[k])
    &&& forall|k: int|
        0 <= k < state.read.workspaces.len() ==> (known_as(#[trigger] state.read.workspaces[k])
            == workspace <==> k == at)
}

/// A window that is to be closed, is listed once and can be named is closed: the compositor is sent a
/// request to close that window, and once it is sent, the window is reported as changed.
pub proof fn law_listed_window_is_closed(
    state: CosmicMutationStateView,
    window: Seq<char>,
    at: int,
)
    requires
        can_be_asked(state),
        only_window(state, window, at),
        state.management_capabilities.close,
        state.toplevel_manager_version >= 1,
    ensures
        ({
            let begun = native_begun(NativeRequestView::CloseWindow { window }).0;
            let sent = begun.next(NativeEventView::Ready(state));
            &&& sent.1 == NativeStepView::Send(
                NativeAction::Close { window: state.read.toplevels[at].handle },
            )
            &&& sent.0.next(NativeEventView::Sent).1 matches NativeStepView::Finish(outcome)
                && outcome.status == DesktopOperationStatus::Changed && outcome.identity == Some(
                window,
            )
        }),
{
    law_listed_window_is_resolved(state.read.toplevels, window, "close-window"@);
}

/// A window that is to get the focus, is listed once and can be named gets it: the compositor is sent a
/// request to activate that window for the first of its seats.
pub proof fn law_listed_window_is_focused(
    state: CosmicMutationStateView,
    window: Seq<char>,
    at: int,
)
    requires
        can_be_asked(state),
        only_window(state, window, at),
        state.management_capabilities.activate,
        state.toplevel_manager_version >= 1,
        state.read.capabilities.seat_count > 0,
        state.read.seats.len() > 0,
    ensures
        ({
            let begun = native_begun(NativeRequestView::FocusWindow { window }).0;
            let sent = begun.next(NativeEventView::Ready(state));
            &&& sent.1 == NativeStepView::Send(
                NativeAction::Activate {
                    window: state.read.toplevels[at].handle,
                    seat: state.read.seats[0],
                },
            )
            &&& sent.0.next(NativeEventView::Sent).1 matches NativeStepView::Finish(outcome)
                && outcome.status == DesktopOperationStatus::Changed && outcome.identity == Some(
                window,
            )
        }),
{
    law_listed_window_is_resolved(state.read.toplevels, window, "focus-window"@);
}

/// A window that is to be moved and is not in the workspace alone is moved: the compositor is sent a
/// request to move that window to that workspace, on the first output of the group that the workspace
/// stands in, and a fresh state is waited for. A window that is there alone is left where it is.
pub proof fn law_listed_window_is_moved(
    state: CosmicMutationStateView,
    window: Seq<char>,
    workspace: Seq<char>,
    at: int,
    place: int,
    group: int,
)
    requires
        can_be_asked(state),
        only_window(state, window, at),
        only_workspace(state, workspace, place),
        state.management_capabilities.move_to_external_workspace,
        state.toplevel_manager_version >= 4,
        0 <= group < state.read.groups.len(),
        state.read.groups[group].workspaces.contains(state.read.workspaces[place].handle),
        state.read.groups[group].outputs.len() > 0,
        forall|k: int|
            0 <= k < group ==> !(#[trigger] state.read.groups[k]).workspaces.contains(
                state.read.workspaces[place].handle,
            ),
    ensures
        ({
            let handle = state.read.workspaces[place].handle;
            let begun = native_begun(NativeRequestView::MoveWindow { window, workspace }).0;
            let sent = begun.next(NativeEventView::Ready(state));
            if state.read.toplevels[at].workspaces == seq![handle] {
                sent.1 matches NativeStepView::Finish(outcome) && outcome.status
                    == DesktopOperationStatus::Unchanged && outcome.identity == Some(window)
            } else {
                &&& sent.1 == NativeStepView::Send(
                    NativeAction::Move {
                        window: state.read.toplevels[at].handle,
                        workspace: handle,
                        output: state.read.groups[group].outputs[0],
                    },
                )
                &&& sent.0.next(NativeEventView::Sent).1 == NativeStepView::Refresh
            }
        }),
{
    law_listed_window_is_resolved(state.read.toplevels, window, "move-window"@);
    law_known_workspace_is_resolved(state.read.workspaces, workspace, "move-window"@);
    let handle = state.read.workspaces[place].handle;
    law_output_is_that_of_the_group(state.read.groups, handle, "move-window"@, workspace);
    let there = state.read.toplevels[at].workspaces;
    if there == seq![handle] {
        assert(there[0] == handle);
        assert(there.contains(handle));
    } else if there.len() == 1 && there.contains(handle) {
        assert(there =~= seq![handle]);
    }
}

/// A workspace that is to tile, or not to tile, is told so unless it does already: the compositor is
/// sent a request with that workspace and the tiling that was asked for, and a fresh state is waited
/// for.
pub proof fn law_listed_workspace_is_tiled(
    state: CosmicMutationStateView,
    workspace: Seq<char>,
    enabled: bool,
    place: int,
)
    requires
        can_be_asked(state),
        only_workspace(state, workspace, place),
        state.read.workspaces[place].native_handle,
        supports_tiling(state.read.workspaces[place].capabilities),
    ensures
        ({
            let begun = native_begun(NativeRequestView::SetTiling { workspace, enabled }).0;
            let sent = begun.next(NativeEventView::Ready(state));
            let there = if enabled {
                NativeTilingState::Enabled
            } else {
                NativeTilingState::FloatingOnly
            };
            if state.read.workspaces[place].tiling == there {
                sent.1 matches NativeStepView::Finish(outcome) && outcome.status
                    == DesktopOperationStatus::Unchanged && outcome.identity == Some(workspace)
            } else {
                &&& sent.1 == NativeStepView::Send(
                    NativeAction::SetTiling {
                        workspace: state.read.workspaces[place].handle,
                        enabled,
                    },
                )
                &&& sent.0.next(NativeEventView::Sent).1 == NativeStepView::Refresh
            }
        }),
{
    law_known_workspace_is_resolved(state.read.workspaces, workspace, "set-tiling"@);
}

/// What is sent is what was asked for: a request of the same kind, for a window with the identifier and
/// a workspace that is known by the identity of the request, and only where the session can do it.
pub proof fn law_only_the_request_is_sent(
    request: NativeRequestView,
    state: CosmicMutationStateView,
)
    ensures
        native_begun(request).0.next(NativeEventView::Ready(state)).1 matches NativeStepView::Send(
            action,
        ) ==> can_be_asked(state) && (match (request, action) {
            (
                NativeRequestView::SetTiling { workspace, enabled },
                NativeAction::SetTiling { workspace: handle, enabled: wanted },
            ) => enabled == wanted && exists|k: int|
                0 <= k < state.read.workspaces.len() && known_as(#[trigger] state.read.workspaces[k])
                    == workspace && state.read.workspaces[k].handle == handle
                    && state.read.workspaces[k].native_handle,
            (
                NativeRequestView::MoveWindow { window, workspace },
                NativeAction::Move { window: moved, workspace: handle, output },
            ) => state.management_capabilities.move_to_external_workspace && (exists|k: int|
                0 <= k < state.read.toplevels.len() && (
                #[trigger] state.read.toplevels[k]).identifier == window
                    && state.read.toplevels[k].handle == moved) && exists|k: int|
                0 <= k < state.read.workspaces.len() && known_as(#[trigger] state.read.workspaces[k])
                    == workspace && state.read.workspaces[k].handle == handle,
            (
                NativeRequestView::CloseWindow { window },
                NativeAction::Close { window: closed },
            ) => state.management_capabilities.close && exists|k: int|
                0 <= k < state.read.toplevels.len() && (
                #[trigger] state.read.toplevels[k]).identifier == window
                    && state.read.toplevels[k].handle == closed,
            (
                NativeRequestView::FocusWindow { window },
                NativeAction::Activate { window: focused, seat },
            ) => state.management_capabilities.activate && state.read.seats.contains(seat)
                && exists|k: int|
                0 <= k < state.read.toplevels.len() && (
                #[trigger] state.read.toplevels[k]).identifier == window
                    && state.read.toplevels[k].handle == focused,
            _ => false,
        }),
{
    let operation = request.operation();
    match request {
        NativeRequestView::SetTiling { workspace, .. } => {
            lemma_resolved_workspace_is_known(state.read.workspaces, workspace, operation);
        },
        NativeRequestView::MoveWindow { window, workspace } => {
            lemma_resolved_workspace_is_known(state.read.workspaces, workspace, operation);
            lemma_resolved_window_is_listed(state.read.toplevels, window, operation);
        },
        NativeRequestView::CloseWindow { window } => {
            lemma_resolved_window_is_listed(state.read.toplevels, window, operation);
        },
        NativeRequestView::FocusWindow { window } => {
            lemma_resolved_window_is_listed(state.read.toplevels, window, operation);
        },
    }
}

/// A change that a fresh state shows is reported as made, for the window or workspace that it is about:
/// the desktop has the workspace with the tiling that was asked for, or the window in the workspace.
pub proof fn law_shown_change_is_reported(
    work: NativeOperationView,
    state: CosmicReadStateView,
    snapshot: DesktopSnapshotView,
)
    requires
        work.phase == NativePhase::Refresh,
        state.protocol_error is None,
        session_snapshot(state, work.request.operation()) == Ok::<
            DesktopSnapshotView,
            CosmicErrorView,
        >(snapshot),
    ensures
        work.request matches NativeRequestView::SetTiling { workspace, enabled } ==> (
        snapshot.workspace(workspace) matches Some(found) && found.tiling_enabled == Some(enabled)
            <==> work.next(NativeEventView::Fresh(state)).1 == NativeStepView::Finish(
            DesktopOperationOutcomeView {
                status: DesktopOperationStatus::Changed,
                identity: Some(workspace),
                detail: None,
            },
        )),
        work.request matches NativeRequestView::MoveWindow { window, workspace } ==> (
        snapshot.window(window) matches Some(found) && found.workspace_identity == Some(workspace)
            <==> work.next(NativeEventView::Fresh(state)).1 == NativeStepView::Finish(
            DesktopOperationOutcomeView {
                status: DesktopOperationStatus::Changed,
                identity: Some(window),
                detail: None,
            },
        )),
{
}

/// A fresh state is one that the compositor published after the request: what the request changes
/// counts as not arrived until it is published again, and nothing else of the state is forgotten.
pub proof fn law_fresh_state_arrives_after_the_request(
    request: NativeRequestView,
    state: CosmicReadStateView,
)
    ensures
        request.needs_confirmation() ==> !request.refreshed(request.awaiting(state)),
        request is SetTiling ==> request.awaiting(state).toplevels_done == state.toplevels_done
            && forall|workspaces: Seq<ProtocolWorkspaceView>, groups: Seq<ProtocolWorkspaceGroupView>|
            request.refreshed(#[trigger] request.awaiting(state).with_workspaces(workspaces, groups)),
        request is MoveWindow ==> request.awaiting(state).workspaces_done == state.workspaces_done
            && forall|toplevels: Seq<ProtocolToplevelView>|
            request.refreshed(#[trigger] request.awaiting(state).with_toplevels(toplevels)),
        request.awaiting(state).workspaces == state.workspaces,
        request.awaiting(state).toplevels == state.toplevels,
        request.awaiting(state).groups == state.groups,
        request.awaiting(state).seats == state.seats,
        request.awaiting(state).protocol_error == state.protocol_error,
{
}

/// A state that is not complete in time is given up; one that may still become complete is waited for:
/// requests are flushed, events are awaited, and what arrived is looked at again.
pub proof fn law_incomplete_state_is_awaited(work: SynchronizationView)
    requires
        work.phase == SynchronizationPhase::Dispatch,
    ensures
        ({
            let flushing = work.next(
                SynchronizationEventView::Dispatched { complete: false, late: false },
            );
            let waiting = flushing.0.next(SynchronizationEventView::Flushed);
            let again = waiting.0.next(
                SynchronizationEventView::Waited { readable: true, late: false },
            );
            &&& flushing.1 == SynchronizationStepView::Flush
            &&& waiting.1 == SynchronizationStepView::Wait
            &&& again == (work, SynchronizationStepView::Dispatch)
            &&& waiting.0.next(SynchronizationEventView::Waited { readable: false, late: true }).1
                == SynchronizationStepView::Fail(
                CosmicErrorView::InitialSynchronizationTimedOut {
                    operation: work.operation,
                    timeout_ms: work.timeout_ms,
                },
            )
            &&& work.next(SynchronizationEventView::Dispatched { complete: false, late: true }).1
                == SynchronizationStepView::Fail(
                CosmicErrorView::InitialSynchronizationTimedOut {
                    operation: work.operation,
                    timeout_ms: work.timeout_ms,
                },
            )
        }),
{
}

} // verus!
