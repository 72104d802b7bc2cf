//! The requests and snapshots that pass between the library and the world outside it.
use vstd::prelude::*;
use vstd::string::*;
use crate::collections::TextMap;
use crate::domain::{
    ActionId, CleanupPolicy, CommandSpec, CommandSpecView, ComposeSpec, ComposeSpecView,
    ContainerSpec, ContainerSpecView, EmulatorSpec, EmulatorSpecView, EnvironmentSlug,
    MutationRecord, MutationRecordView, ReadinessCheck, ReadinessCheckView, ResourceRecord,
    ResourceRecordView, WorkspaceTarget, WorkspaceTargetView,
};
use crate::error::{error_of, seen, ErrorCategory, WorkstateError, WorkstateErrorView};
use crate::text::{is_blank, same_text, text_trim, signed_decimal, text_signed_decimal};
use crate::time::TimeSpan;
use crate::values::{empty_list, Replicate};

verus! {

// ---------------------------------------------------------------------------------------------
// Processes
// ---------------------------------------------------------------------------------------------
/// A process to run.
#[derive(Debug, Clone, PartialEq, Eq)]
pub struct ProcessRequest {
    pub program: String,
    pub arguments: Vec<String>,
    pub working_directory: Option<String>,
    pub environment: Vec<(String, String)>,
}

/// What a `ProcessRequest` stands for.
#[verifier::ext_equal]
pub struct ProcessRequestView {
    pub program: Seq<char>,
    pub arguments: Seq<Seq<char>>,
    pub working_directory: Option<Seq<char>>,
    pub environment: Seq<(Seq<char>, Seq<char>)>,
}

impl View for ProcessRequest {
    type V = ProcessRequestView;

    open spec fn view(&self) -> ProcessRequestView {
        ProcessRequestView {
            program: self.program.deep_view(),
            arguments: self.arguments.deep_view(),
            working_directory: self.working_directory.deep_view(),
            environment: self.environment.deep_view(),
        }
    }
}

impl DeepView for ProcessRequest {
    type V = ProcessRequestView;

    open spec fn deep_view(&self) -> ProcessRequestView {
        self.view()
    }
}

impl Replicate for ProcessRequest {
    fn replicate(&self) -> (r: Self) {
        ProcessRequest {
            program: self.program.replicate(),
            arguments: self.arguments.replicate(),
            working_directory: self.working_directory.replicate(),
            environment: self.environment.replicate(),
        }
    }
}

/// What a process left behind: its exit status, where it has one, and its output.
#[derive(Debug, Clone, PartialEq, Eq)]
pub struct ProcessOutput {
    pub status: Option<i32>,
    pub stdout: Vec<u8>,
    pub stderr: Vec<u8>,
}

/// What a `ProcessOutput` stands for.
#[verifier::ext_equal]
pub struct ProcessOutputView {
    pub status: Option<i32>,
    pub stdout: Seq<u8>,
    pub stderr: Seq<u8>,
}

impl View for ProcessOutput {
    type V = ProcessOutputView;

    open spec fn view(&self) -> ProcessOutputView {
        ProcessOutputView {
            status: self.status.deep_view(),
            stdout: self.stdout.deep_view(),
            stderr: self.stderr.deep_view(),
        }
    }
}

impl DeepView for ProcessOutput {
    type V = ProcessOutputView;

    open spec fn deep_view(&self) -> ProcessOutputView {
        self.view()
    }
}

impl Replicate for ProcessOutput {
    fn replicate(&self) -> (r: Self) {
        ProcessOutput {
            status: self.status.replicate(),
            stdout: self.stdout.replicate(),
            stderr: self.stderr.replicate(),
        }
    }
}

/// A process that keeps running.
#[derive(Debug, Clone, PartialEq, Eq)]
pub struct BackgroundProcess {
    pub identity: String,
}

/// What a `BackgroundProcess` stands for.
#[verifier::ext_equal]
pub struct BackgroundProcessView {
    pub identity: Seq<char>,
}

impl View for BackgroundProcess {
    type V = BackgroundProcessView;

    open spec fn view(&self) -> BackgroundProcessView {
        BackgroundProcessView {
            identity: self.identity.deep_view(),
        }
    }
}

impl DeepView for BackgroundProcess {
    type V = BackgroundProcessView;

    open spec fn deep_view(&self) -> BackgroundProcessView {
        self.view()
    }
}

impl Replicate for BackgroundProcess {
    fn replicate(&self) -> (r: Self) {
        BackgroundProcess {
            identity: self.identity.replicate(),
        }
    }
}

impl ProcessOutputView {
    /// A process has succeeded where it exited with status zero.
    pub open spec fn success(self) -> bool {
        self.status == Some(0i32)
    }
}

/// An exit status in messages.
pub open spec fn status_text(status: Option<i32>) -> Seq<char> {
    match status {
        Some(code) => signed_decimal(code as int),
        None => "unknown"@,
    }
}

impl ProcessOutput {
    /// The exit status in messages.
    pub fn status_text(&self) -> (r: String)
        ensures
            r@ == status_text(self@.status),
    {
        match self.status {
            Some(code) => text_signed_decimal(code as i64),
            None => "unknown".to_owned(),
        }
    }

    /// Whether the process has succeeded.
    pub fn succeeded(&self) -> (r: bool)
        ensures
            r == self@.success(),
    {
        match self.status {
            Some(status) => status == 0,
            None => false,
        }
    }
}

/// The process of the given identity, where it holds a visible character.
pub open spec fn background_of(identity: Seq<char>) -> Result<BackgroundProcessView, WorkstateErrorView> {
    if is_blank(identity) {
        Err(error_of(ErrorCategory::Process, "background process identity must not be blank"@))
    } else {
        Ok(BackgroundProcessView { identity })
    }
}

impl BackgroundProcess {
    /// The process of the given identity; one that holds no visible character is refused.
    pub fn new(identity: String) -> (r: Result<Self, WorkstateError>)
        ensures
            seen(r) == background_of(identity@),
    {
        if text_trim(identity.as_str()).as_str().is_empty() {
            Err(
                WorkstateError::new(
                    ErrorCategory::Process,
                    "background process identity must not be blank",
                ),
            )
        } else {
            Ok(BackgroundProcess { identity })
        }
    }
}

/// How the run of a process ended.
#[derive(Debug)]
pub enum ProcessRun {
    Finished(ProcessOutput),
    Failed(WorkstateError),
    TimedOut,
    Cancelled,
}

/// What a `ProcessRun` stands for.
#[verifier::ext_equal]
pub enum ProcessRunView {
    Finished(ProcessOutputView),
    Failed(WorkstateErrorView),
    TimedOut,
    Cancelled,
}

impl View for ProcessRun {
    type V = ProcessRunView;

    open spec fn view(&self) -> ProcessRunView {
        match self {
            ProcessRun::Finished(output) => ProcessRunView::Finished(output@),
            ProcessRun::Failed(error) => ProcessRunView::Failed(error@),
            ProcessRun::TimedOut => ProcessRunView::TimedOut,
            ProcessRun::Cancelled => ProcessRunView::Cancelled,
        }
    }
}

impl DeepView for ProcessRun {
    type V = ProcessRunView;

    open spec fn deep_view(&self) -> ProcessRunView {
        self.view()
    }
}

// ---------------------------------------------------------------------------------------------
// The desktop
// ---------------------------------------------------------------------------------------------
/// A workspace of the desktop.
#[derive(Debug, Clone, PartialEq, Eq)]
pub struct DesktopWorkspaceSnapshot {
    pub identity: String,
    pub name: Option<String>,
    pub position: Option<u32>,
    pub focused: bool,
    pub tiling_enabled: Option<bool>,
}

/// What a `DesktopWorkspaceSnapshot` stands for.
#[verifier::ext_equal]
pub struct DesktopWorkspaceSnapshotView {
    pub identity: Seq<char>,
    pub name: Option<Seq<char>>,
    pub position: Option<u32>,
    pub focused: bool,
    pub tiling_enabled: Option<bool>,
}

impl View for DesktopWorkspaceSnapshot {
    type V = DesktopWorkspaceSnapshotView;

    open spec fn view(&self) -> DesktopWorkspaceSnapshotView {
        DesktopWorkspaceSnapshotView {
            identity: self.identity.deep_view(),
            name: self.name.deep_view(),
            position: self.position.deep_view(),
            focused: self.focused.deep_view(),
            tiling_enabled: self.tiling_enabled.deep_view(),
        }
    }
}

impl DeepView for DesktopWorkspaceSnapshot {
    type V = DesktopWorkspaceSnapshotView;

    open spec fn deep_view(&self) -> DesktopWorkspaceSnapshotView {
        self.view()
    }
}

impl Replicate for DesktopWorkspaceSnapshot {
    fn replicate(&self) -> (r: Self) {
        DesktopWorkspaceSnapshot {
            identity: self.identity.replicate(),
            name: self.name.replicate(),
            position: self.position.replicate(),
            focused: self.focused.replicate(),
            tiling_enabled: self.tiling_enabled.replicate(),
        }
    }
}

/// A window of the desktop.
#[derive(Debug, Clone, PartialEq, Eq)]
pub struct DesktopWindowSnapshot {
    pub identity: String,
    pub application: Option<String>,
    pub title: Option<String>,
    pub project_path: Option<String>,
    pub workspace_identity: Option<String>,
    pub focused: bool,
}

/// What a `DesktopWindowSnapshot` stands for.
#[verifier::ext_equal]
pub struct DesktopWindowSnapshotView {
    pub identity: Seq<char>,
    pub application: Option<Seq<char>>,
    pub title: Option<Seq<char>>,
    pub project_path: Option<Seq<char>>,
    pub workspace_identity: Option<Seq<char>>,
    pub focused: bool,
}

impl View for DesktopWindowSnapshot {
    type V = DesktopWindowSnapshotView;

    open spec fn view(&self) -> DesktopWindowSnapshotView {
        DesktopWindowSnapshotView {
            identity: self.identity.deep_view(),
            application: self.application.deep_view(),
            title: self.title.deep_view(),
            project_path: self.project_path.deep_view(),
            workspace_identity: self.workspace_identity.deep_view(),
            focused: self.focused.deep_view(),
        }
    }
}

impl DeepView for DesktopWindowSnapshot {
    type V = DesktopWindowSnapshotView;

    open spec fn deep_view(&self) -> DesktopWindowSnapshotView {
        self.view()
    }
}

impl Replicate for DesktopWindowSnapshot {
    fn replicate(&self) -> (r: Self) {
        DesktopWindowSnapshot {
            identity: self.identity.replicate(),
            application: self.application.replicate(),
            title: self.title.replicate(),
            project_path: self.project_path.replicate(),
            workspace_identity: self.workspace_identity.replicate(),
            focused: self.focused.replicate(),
        }
    }
}

/// The workspaces and windows of the desktop at one moment.
#[derive(Debug, Clone, PartialEq, Eq)]
pub struct DesktopSnapshot {
    pub workspaces: Vec<DesktopWorkspaceSnapshot>,
    pub windows: Vec<DesktopWindowSnapshot>,
}

/// What a `DesktopSnapshot` stands for.
#[verifier::ext_equal]
pub struct DesktopSnapshotView {
    pub workspaces: Seq<DesktopWorkspaceSnapshotView>,
    pub windows: Seq<DesktopWindowSnapshotView>,
}

impl View for DesktopSnapshot {
    type V = DesktopSnapshotView;

    open spec fn view(&self) -> DesktopSnapshotView {
        DesktopSnapshotView {
            workspaces: self.workspaces.deep_view(),
            windows: self.windows.deep_view(),
        }
    }
}

impl DeepView for DesktopSnapshot {
    type V = DesktopSnapshotView;

    open spec fn deep_view(&self) -> DesktopSnapshotView {
        self.view()
    }
}

impl Replicate for DesktopSnapshot {
    fn replicate(&self) -> (r: Self) {
        DesktopSnapshot {
            workspaces: self.workspaces.replicate(),
            windows: self.windows.replicate(),
        }
    }
}

/// What became of an operation on the desktop.
#[derive(Debug, Clone, Copy, PartialEq, Eq, Structural)]
pub enum DesktopOperationStatus {
    Created,
    AlreadyPresent,
    Reused,
    Changed,
    Unchanged,
    Unavailable,
    Ambiguous,
}

impl DeepView for DesktopOperationStatus {
    type V = DesktopOperationStatus;

    open spec fn deep_view(&self) -> DesktopOperationStatus {
        *self
    }
}

impl Replicate for DesktopOperationStatus {
    fn replicate(&self) -> (r: Self) {
        *self
    }
}

/// The outcome of an operation on the desktop.
#[derive(Debug, Clone, PartialEq, Eq)]
pub struct DesktopOperationOutcome {
    pub status: DesktopOperationStatus,
    pub identity: Option<String>,
    pub detail: Option<String>,
}

/// What a `DesktopOperationOutcome` stands for.
#[verifier::ext_equal]
pub struct DesktopOperationOutcomeView {
    pub status: DesktopOperationStatus,
    pub identity: Option<Seq<char>>,
    pub detail: Option<Seq<char>>,
}

impl View for DesktopOperationOutcome {
    type V = DesktopOperationOutcomeView;

    open spec fn view(&self) -> DesktopOperationOutcomeView {
        DesktopOperationOutcomeView {
            status: self.status.deep_view(),
            identity: self.identity.deep_view(),
            detail: self.detail.deep_view(),
        }
    }
}

impl DeepView for DesktopOperationOutcome {
    type V = DesktopOperationOutcomeView;

    open spec fn deep_view(&self) -> DesktopOperationOutcomeView {
        self.view()
    }
}

impl Replicate for DesktopOperationOutcome {
    fn replicate(&self) -> (r: Self) {
        DesktopOperationOutcome {
            status: self.status.replicate(),
            identity: self.identity.replicate(),
            detail: self.detail.replicate(),
        }
    }
}

/// The workspace that a target was found to mean.
#[derive(Debug, Clone, PartialEq, Eq)]
pub struct DesktopWorkspaceResolution {
    pub status: DesktopOperationStatus,
    pub workspace: Option<DesktopWorkspaceSnapshot>,
}

/// What a `DesktopWorkspaceResolution` stands for.
#[verifier::ext_equal]
pub struct DesktopWorkspaceResolutionView {
    pub status: DesktopOperationStatus,
    pub workspace: Option<DesktopWorkspaceSnapshotView>,
}

impl View for DesktopWorkspaceResolution {
    type V = DesktopWorkspaceResolutionView;

    open spec fn view(&self) -> DesktopWorkspaceResolutionView {
        DesktopWorkspaceResolutionView {
            status: self.status.deep_view(),
            workspace: self.workspace.deep_view(),
        }
    }
}

impl DeepView for DesktopWorkspaceResolution {
    type V = DesktopWorkspaceResolutionView;

    open spec fn deep_view(&self) -> DesktopWorkspaceResolutionView {
        self.view()
    }
}

impl Replicate for DesktopWorkspaceResolution {
    fn replicate(&self) -> (r: Self) {
        DesktopWorkspaceResolution {
            status: self.status.replicate(),
            workspace: self.workspace.replicate(),
        }
    }
}

/// The first window with the given identity.
pub open spec fn window_named(
    windows: Seq<DesktopWindowSnapshotView>,
    identity: Seq<char>,
) -> Option<DesktopWindowSnapshotView>
    decreases windows.len(),
{
    if windows.len() == 0 {
        None
    } else if windows[0].identity == identity {
        Some(windows[0])
    } else {
        window_named(windows.drop_first(), identity)
    }
}

/// The first workspace with the given identity.
pub open spec fn workspace_named(
    workspaces: Seq<DesktopWorkspaceSnapshotView>,
    identity: Seq<char>,
) -> Option<DesktopWorkspaceSnapshotView>
    decreases workspaces.len(),
{
    if workspaces.len() == 0 {
        None
    } else if workspaces[0].identity == identity {
        Some(workspaces[0])
    } else {
        workspace_named(workspaces.drop_first(), identity)
    }
}

impl DesktopSnapshotView {
    pub open spec fn window(self, identity: Seq<char>) -> Option<DesktopWindowSnapshotView> {
        window_named(self.windows, identity)
    }

    pub open spec fn workspace(self, identity: Seq<char>) -> Option<DesktopWorkspaceSnapshotView> {
        workspace_named(self.workspaces, identity)
    }
}

impl DesktopSnapshot {
    /// The first window with the given identity.
    pub fn window(&self, identity: &str) -> (r: Option<DesktopWindowSnapshot>)
        ensures
            r.deep_view() == self@.window(identity@),
    {
        let mut i: usize = 0;
        let ghost all = self.windows.deep_view();
        assert(all.skip(0) =~= all);
        while i < self.windows.len()
            invariant
                i <= self.windows@.len(),
                all == self.windows.deep_view(),
                window_named(all, identity@) == window_named(all.skip(i as int), identity@),
            decreases self.windows@.len() - i,
        {
            assert(all.skip(i as int)[0] == self.windows@[i as int]@);
            assert(all.skip(i as int).drop_first() =~= all.skip(i as int + 1));
            if same_text(self.windows[i].identity.as_str(), identity) {
                return Some(self.windows[i].replicate());
            }
            i = i + 1;
        }
        None
    }

    /// The first workspace with the given identity.
    pub fn workspace(&self, identity: &str) -> (r: Option<DesktopWorkspaceSnapshot>)
        ensures
            r.deep_view() == self@.workspace(identity@),
    {
        let mut i: usize = 0;
        let ghost all = self.workspaces.deep_view();
        assert(all.skip(0) =~= all);
        while i < self.workspaces.len()
            invariant
                i <= self.workspaces@.len(),
                all == self.workspaces.deep_view(),
                workspace_named(all, identity@) == workspace_named(all.skip(i as int), identity@),
            decreases self.workspaces@.len() - i,
        {
            assert(all.skip(i as int)[0] == self.workspaces@[i as int]@);
            assert(all.skip(i as int).drop_first() =~= all.skip(i as int + 1));
            if same_text(self.workspaces[i].identity.as_str(), identity) {
                return Some(self.workspaces[i].replicate());
            }
            i = i + 1;
        }
        None
    }
}

/// The target means a workspace that is there.
pub open spec fn resolved_to(workspace: DesktopWorkspaceSnapshotView) -> DesktopWorkspaceResolutionView {
    DesktopWorkspaceResolutionView {
        status: DesktopOperationStatus::AlreadyPresent,
        workspace: Some(workspace),
    }
}

/// The target means no workspace that is there.
pub open spec fn resolved_to_none() -> DesktopWorkspaceResolutionView {
    DesktopWorkspaceResolutionView {
        status: DesktopOperationStatus::Unavailable,
        workspace: None,
    }
}

impl DesktopWorkspaceResolution {
    /// The target means a workspace that is there.
    pub fn existing(workspace: DesktopWorkspaceSnapshot) -> (r: Self)
        ensures
            r@ == resolved_to(workspace@),
    {
        DesktopWorkspaceResolution {
            status: DesktopOperationStatus::AlreadyPresent,
            workspace: Some(workspace),
        }
    }

    /// The target means no workspace that is there.
    pub fn none() -> (r: Self)
        ensures
            r@ == resolved_to_none(),
    {
        DesktopWorkspaceResolution { status: DesktopOperationStatus::Unavailable, workspace: None }
    }
}

impl DesktopOperationOutcome {
    /// Something was made.
    pub fn created(identity: String) -> (r: Self)
        ensures
            r@ == (DesktopOperationOutcomeView {
                status: DesktopOperationStatus::Created,
                identity: Some(identity@),
                detail: None,
            }),
    {
        DesktopOperationOutcome {
            status: DesktopOperationStatus::Created,
            identity: Some(identity),
            detail: None,
        }
    }

    /// Something was changed.
    pub fn changed(identity: Option<String>) -> (r: Self)
        ensures
            r@ == (DesktopOperationOutcomeView {
                status: DesktopOperationStatus::Changed,
                identity: identity.deep_view(),
                detail: None,
            }),
    {
        DesktopOperationOutcome { status: DesktopOperationStatus::Changed, identity, detail: None }
    }

    /// Everything was as it should be.
    pub fn unchanged(identity: Option<String>) -> (r: Self)
        ensures
            r@ == (DesktopOperationOutcomeView {
                status: DesktopOperationStatus::Unchanged,
                identity: identity.deep_view(),
                detail: None,
            }),
    {
        DesktopOperationOutcome { status: DesktopOperationStatus::Unchanged, identity, detail: None }
    }

    /// The outcome with a detail.
    pub fn with_detail(self, detail: &str) -> (r: Self)
        ensures
            r@ == (DesktopOperationOutcomeView { detail: Some(detail@), ..self@ }),
    {
        DesktopOperationOutcome {
            status: self.status,
            identity: self.identity,
            detail: Some(detail.to_owned()),
        }
    }
}

// ---------------------------------------------------------------------------------------------
// Docker
// ---------------------------------------------------------------------------------------------
/// The action and the environment that a Docker request belongs to.
#[derive(Debug, Clone, PartialEq, Eq)]
pub struct DockerActionContext {
    pub action_id: ActionId,
    pub environment: EnvironmentSlug,
    pub cleanup_policy: CleanupPolicy,
}

/// What a `DockerActionContext` stands for.
#[verifier::ext_equal]
pub struct DockerActionContextView {
    pub action_id: Seq<char>,
    pub environment: Seq<char>,
    pub cleanup_policy: CleanupPolicy,
}

impl View for DockerActionContext {
    type V = DockerActionContextView;

    open spec fn view(&self) -> DockerActionContextView {
        DockerActionContextView {
            action_id: self.action_id.deep_view(),
            environment: self.environment.deep_view(),
            cleanup_policy: self.cleanup_policy.deep_view(),
        }
    }
}

impl DeepView for DockerActionContext {
    type V = DockerActionContextView;

    open spec fn deep_view(&self) -> DockerActionContextView {
        self.view()
    }
}

impl Replicate for DockerActionContext {
    fn replicate(&self) -> (r: Self) {
        DockerActionContext {
            action_id: self.action_id.replicate(),
            environment: self.environment.replicate(),
            cleanup_policy: self.cleanup_policy.replicate(),
        }
    }
}

/// A directory that is mounted into a container.
#[derive(Debug, Clone, PartialEq, Eq)]
pub struct DockerMountSnapshot {
    pub source: String,
    pub target: String,
    pub read_only: bool,
}

/// What a `DockerMountSnapshot` stands for.
#[verifier::ext_equal]
pub struct DockerMountSnapshotView {
    pub source: Seq<char>,
    pub target: Seq<char>,
    pub read_only: bool,
}

impl View for DockerMountSnapshot {
    type V = DockerMountSnapshotView;

    open spec fn view(&self) -> DockerMountSnapshotView {
        DockerMountSnapshotView {
            source: self.source.deep_view(),
            target: self.target.deep_view(),
            read_only: self.read_only.deep_view(),
        }
    }
}

impl DeepView for DockerMountSnapshot {
    type V = DockerMountSnapshotView;

    open spec fn deep_view(&self) -> DockerMountSnapshotView {
        self.view()
    }
}

impl Replicate for DockerMountSnapshot {
    fn replicate(&self) -> (r: Self) {
        DockerMountSnapshot {
            source: self.source.replicate(),
            target: self.target.replicate(),
            read_only: self.read_only.replicate(),
        }
    }
}

/// A container port that is published on the host.
#[derive(Debug, Clone, PartialEq, Eq)]
pub struct DockerPortSnapshot {
    pub host: u16,
    pub container: u16,
    pub protocol: String,
}

/// What a `DockerPortSnapshot` stands for.
#[verifier::ext_equal]
pub struct DockerPortSnapshotView {
    pub host: u16,
    pub container: u16,
    pub protocol: Seq<char>,
}

impl View for DockerPortSnapshot {
    type V = DockerPortSnapshotView;

    open spec fn view(&self) -> DockerPortSnapshotView {
        DockerPortSnapshotView {
            host: self.host.deep_view(),
            container: self.container.deep_view(),
            protocol: self.protocol.deep_view(),
        }
    }
}

impl DeepView for DockerPortSnapshot {
    type V = DockerPortSnapshotView;

    open spec fn deep_view(&self) -> DockerPortSnapshotView {
        self.view()
    }
}

impl Replicate for DockerPortSnapshot {
    fn replicate(&self) -> (r: Self) {
        DockerPortSnapshot {
            host: self.host.replicate(),
            container: self.container.replicate(),
            protocol: self.protocol.replicate(),
        }
    }
}

/// The state of a container.
#[derive(Debug, Clone, PartialEq, Eq)]
pub enum DockerContainerState {
    Created,
    Running,
    Paused,
    Restarting,
    Exited,
    Dead,
    Unknown(String),
}

/// What a `DockerContainerState` stands for.
#[verifier::ext_equal]
pub enum DockerContainerStateView {
    Created,
    Running,
    Paused,
    Restarting,
    Exited,
    Dead,
    Unknown(Seq<char>),
}

impl View for DockerContainerState {
    type V = DockerContainerStateView;

    open spec fn view(&self) -> DockerContainerStateView {
        match self {
            DockerContainerState::Created => DockerContainerStateView::Created,
            DockerContainerState::Running => DockerContainerStateView::Running,
            DockerContainerState::Paused => DockerContainerStateView::Paused,
            DockerContainerState::Restarting => DockerContainerStateView::Restarting,
            DockerContainerState::Exited => DockerContainerStateView::Exited,
            DockerContainerState::Dead => DockerContainerStateView::Dead,
            DockerContainerState::Unknown(value) => DockerContainerStateView::Unknown(value.deep_view()),
        }
    }
}

impl DeepView for DockerContainerState {
    type V = DockerContainerStateView;

    open spec fn deep_view(&self) -> DockerContainerStateView {
        self.view()
    }
}

impl Replicate for DockerContainerState {
    fn replicate(&self) -> (r: Self) {
        match self {
            DockerContainerState::Created => DockerContainerState::Created,
            DockerContainerState::Running => DockerContainerState::Running,
            DockerContainerState::Paused => DockerContainerState::Paused,
            DockerContainerState::Restarting => DockerContainerState::Restarting,
            DockerContainerState::Exited => DockerContainerState::Exited,
            DockerContainerState::Dead => DockerContainerState::Dead,
            DockerContainerState::Unknown(value) => DockerContainerState::Unknown(value.replicate()),
        }
    }
}

/// What the health check of a container says.
#[derive(Debug, Clone, PartialEq, Eq)]
pub enum DockerHealthState {
    Unreported,
    Healthy,
    Unhealthy,
    Starting,
    Unknown(String),
}

/// What a `DockerHealthState` stands for.
#[verifier::ext_equal]
pub enum DockerHealthStateView {
    Unreported,
    Healthy,
    Unhealthy,
    Starting,
    Unknown(Seq<char>),
}

impl View for DockerHealthState {
    type V = DockerHealthStateView;

    open spec fn view(&self) -> DockerHealthStateView {
        match self {
            DockerHealthState::Unreported => DockerHealthStateView::Unreported,
            DockerHealthState::Healthy => DockerHealthStateView::Healthy,
            DockerHealthState::Unhealthy => DockerHealthStateView::Unhealthy,
            DockerHealthState::Starting => DockerHealthStateView::Starting,
            DockerHealthState::Unknown(value) => DockerHealthStateView::Unknown(value.deep_view()),
        }
    }
}

impl DeepView for DockerHealthState {
    type V = DockerHealthStateView;

    open spec fn deep_view(&self) -> DockerHealthStateView {
        self.view()
    }
}

impl Replicate for DockerHealthState {
    fn replicate(&self) -> (r: Self) {
        match self {
            DockerHealthState::Unreported => DockerHealthState::Unreported,
            DockerHealthState::Healthy => DockerHealthState::Healthy,
            DockerHealthState::Unhealthy => DockerHealthState::Unhealthy,
            DockerHealthState::Starting => DockerHealthState::Starting,
            DockerHealthState::Unknown(value) => DockerHealthState::Unknown(value.replicate()),
        }
    }
}

/// A container as Docker describes it.
#[derive(Debug, Clone, PartialEq, Eq)]
pub struct DockerContainerSnapshot {
    pub id: String,
    pub name: String,
    pub image: Option<String>,
    pub command: Option<CommandSpec>,
    pub working_directory: Option<String>,
    pub environment: TextMap,
    pub mounts: Vec<DockerMountSnapshot>,
    pub ports: Vec<DockerPortSnapshot>,
    pub state: DockerContainerState,
    pub health: DockerHealthState,
    pub exit_code: Option<i32>,
    pub status: Option<String>,
}

/// What a `DockerContainerSnapshot` stands for.
#[verifier::ext_equal]
pub struct DockerContainerSnapshotView {
    pub id: Seq<char>,
    pub name: Seq<char>,
    pub image: Option<Seq<char>>,
    pub command: Option<CommandSpecView>,
    pub working_directory: Option<Seq<char>>,
    pub environment: Map<Seq<char>, Seq<char>>,
    pub mounts: Seq<DockerMountSnapshotView>,
    pub ports: Seq<DockerPortSnapshotView>,
    pub state: DockerContainerStateView,
    pub health: DockerHealthStateView,
    pub exit_code: Option<i32>,
    pub status: Option<Seq<char>>,
}

impl View for DockerContainerSnapshot {
    type V = DockerContainerSnapshotView;

    open spec fn view(&self) -> DockerContainerSnapshotView {
        DockerContainerSnapshotView {
            id: self.id.deep_view(),
            name: self.name.deep_view(),
            image: self.image.deep_view(),
            command: self.command.deep_view(),
            working_directory: self.working_directory.deep_view(),
            environment: self.environment.deep_view(),
            mounts: self.mounts.deep_view(),
            ports: self.ports.deep_view(),
            state: self.state.deep_view(),
            health: self.health.deep_view(),
            exit_code: self.exit_code.deep_view(),
            status: self.status.deep_view(),
        }
    }
}

impl DeepView for DockerContainerSnapshot {
    type V = DockerContainerSnapshotView;

    open spec fn deep_view(&self) -> DockerContainerSnapshotView {
        self.view()
    }
}

impl Replicate for DockerContainerSnapshot {
    fn replicate(&self) -> (r: Self) {
        DockerContainerSnapshot {
            id: self.id.replicate(),
            name: self.name.replicate(),
            image: self.image.replicate(),
            command: self.command.replicate(),
            working_directory: self.working_directory.replicate(),
            environment: self.environment.replicate(),
            mounts: self.mounts.replicate(),
            ports: self.ports.replicate(),
            state: self.state.replicate(),
            health: self.health.replicate(),
            exit_code: self.exit_code.replicate(),
            status: self.status.replicate(),
        }
    }
}

/// A container that an action asks for.
#[derive(Debug, Clone, PartialEq, Eq)]
pub struct DockerContainerRequest {
    pub context: DockerActionContext,
    pub specification: ContainerSpec,
    pub working_directory: Option<String>,
    pub readiness_checks: Vec<ReadinessCheck>,
}

/// What a `DockerContainerRequest` stands for.
#[verifier::ext_equal]
pub struct DockerContainerRequestView {
    pub context: DockerActionContextView,
    pub specification: ContainerSpecView,
    pub working_directory: Option<Seq<char>>,
    pub readiness_checks: Seq<ReadinessCheckView>,
}

impl View for DockerContainerRequest {
    type V = DockerContainerRequestView;

    open spec fn view(&self) -> DockerContainerRequestView {
        DockerContainerRequestView {
            context: self.context.deep_view(),
            specification: self.specification.deep_view(),
            working_directory: self.working_directory.deep_view(),
            readiness_checks: self.readiness_checks.deep_view(),
        }
    }
}

impl DeepView for DockerContainerRequest {
    type V = DockerContainerRequestView;

    open spec fn deep_view(&self) -> DockerContainerRequestView {
        self.view()
    }
}

impl Replicate for DockerContainerRequest {
    fn replicate(&self) -> (r: Self) {
        DockerContainerRequest {
            context: self.context.replicate(),
            specification: self.specification.replicate(),
            working_directory: self.working_directory.replicate(),
            readiness_checks: self.readiness_checks.replicate(),
        }
    }
}

/// A service of a Compose project.
#[derive(Debug, Clone, PartialEq, Eq)]
pub struct DockerComposeServiceSnapshot {
    pub name: String,
    pub container_id: Option<String>,
    pub state: DockerContainerState,
    pub health: DockerHealthState,
}

/// What a `DockerComposeServiceSnapshot` stands for.
#[verifier::ext_equal]
pub struct DockerComposeServiceSnapshotView {
    pub name: Seq<char>,
    pub container_id: Option<Seq<char>>,
    pub state: DockerContainerStateView,
    pub health: DockerHealthStateView,
}

impl View for DockerComposeServiceSnapshot {
    type V = DockerComposeServiceSnapshotView;

    open spec fn view(&self) -> DockerComposeServiceSnapshotView {
        DockerComposeServiceSnapshotView {
            name: self.name.deep_view(),
            container_id: self.container_id.deep_view(),
            state: self.state.deep_view(),
            health: self.health.deep_view(),
        }
    }
}

impl DeepView for DockerComposeServiceSnapshot {
    type V = DockerComposeServiceSnapshotView;

    open spec fn deep_view(&self) -> DockerComposeServiceSnapshotView {
        self.view()
    }
}

impl Replicate for DockerComposeServiceSnapshot {
    fn replicate(&self) -> (r: Self) {
        DockerComposeServiceSnapshot {
            name: self.name.replicate(),
            container_id: self.container_id.replicate(),
            state: self.state.replicate(),
            health: self.health.replicate(),
        }
    }
}

/// A Compose project as Docker describes it.
#[derive(Debug, Clone, PartialEq, Eq)]
pub struct DockerComposeSnapshot {
    pub project_name: String,
    pub working_directory: String,
    pub services: Vec<DockerComposeServiceSnapshot>,
}

/// What a `DockerComposeSnapshot` stands for.
#[verifier::ext_equal]
pub struct DockerComposeSnapshotView {
    pub project_name: Seq<char>,
    pub working_directory: Seq<char>,
    pub services: Seq<DockerComposeServiceSnapshotView>,
}

impl View for DockerComposeSnapshot {
    type V = DockerComposeSnapshotView;

    open spec fn view(&self) -> DockerComposeSnapshotView {
        DockerComposeSnapshotView {
            project_name: self.project_name.deep_view(),
            working_directory: self.working_directory.deep_view(),
            services: self.services.deep_view(),
        }
    }
}

impl DeepView for DockerComposeSnapshot {
    type V = DockerComposeSnapshotView;

    open spec fn deep_view(&self) -> DockerComposeSnapshotView {
        self.view()
    }
}

impl Replicate for DockerComposeSnapshot {
    fn replicate(&self) -> (r: Self) {
        DockerComposeSnapshot {
            project_name: self.project_name.replicate(),
            working_directory: self.working_directory.replicate(),
            services: self.services.replicate(),
        }
    }
}

/// A Compose project that an action asks for.
#[derive(Debug, Clone, PartialEq, Eq)]
pub struct DockerComposeRequest {
    pub context: DockerActionContext,
    pub specification: ComposeSpec,
    pub working_directory: String,
    pub readiness_checks: Vec<ReadinessCheck>,
    pub environment: Vec<(String, String)>,
}

/// What a `DockerComposeRequest` stands for.
#[verifier::ext_equal]
pub struct DockerComposeRequestView {
    pub context: DockerActionContextView,
    pub specification: ComposeSpecView,
    pub working_directory: Seq<char>,
    pub readiness_checks: Seq<ReadinessCheckView>,
    pub environment: Seq<(Seq<char>, Seq<char>)>,
}

impl View for DockerComposeRequest {
    type V = DockerComposeRequestView;

    open spec fn view(&self) -> DockerComposeRequestView {
        DockerComposeRequestView {
            context: self.context.deep_view(),
            specification: self.specification.deep_view(),
            working_directory: self.working_directory.deep_view(),
            readiness_checks: self.readiness_checks.deep_view(),
            environment: self.environment.deep_view(),
        }
    }
}

impl DeepView for DockerComposeRequest {
    type V = DockerComposeRequestView;

    open spec fn deep_view(&self) -> DockerComposeRequestView {
        self.view()
    }
}

impl Replicate for DockerComposeRequest {
    fn replicate(&self) -> (r: Self) {
        DockerComposeRequest {
            context: self.context.replicate(),
            specification: self.specification.replicate(),
            working_directory: self.working_directory.replicate(),
            readiness_checks: self.readiness_checks.replicate(),
            environment: self.environment.replicate(),
        }
    }
}

/// Whether the Docker Engine answers.
#[derive(Debug, Clone, PartialEq, Eq)]
pub struct DockerEngineSnapshot {
    pub ready: bool,
    pub version: Option<String>,
    pub detail: Option<String>,
}

/// What a `DockerEngineSnapshot` stands for.
#[verifier::ext_equal]
pub struct DockerEngineSnapshotView {
    pub ready: bool,
    pub version: Option<Seq<char>>,
    pub detail: Option<Seq<char>>,
}

impl View for DockerEngineSnapshot {
    type V = DockerEngineSnapshotView;

    open spec fn view(&self) -> DockerEngineSnapshotView {
        DockerEngineSnapshotView {
            ready: self.ready.deep_view(),
            version: self.version.deep_view(),
            detail: self.detail.deep_view(),
        }
    }
}

impl DeepView for DockerEngineSnapshot {
    type V = DockerEngineSnapshotView;

    open spec fn deep_view(&self) -> DockerEngineSnapshotView {
        self.view()
    }
}

impl Replicate for DockerEngineSnapshot {
    fn replicate(&self) -> (r: Self) {
        DockerEngineSnapshot {
            ready: self.ready.replicate(),
            version: self.version.replicate(),
            detail: self.detail.replicate(),
        }
    }
}

/// What was observed of a container.
#[derive(Debug, Clone, PartialEq, Eq)]
pub enum DockerContainerObservation {
    Missing,
    Present(DockerContainerSnapshot),
    Unavailable(DockerEngineSnapshot),
}

/// What a `DockerContainerObservation` stands for.
#[verifier::ext_equal]
pub enum DockerContainerObservationView {
    Missing,
    Present(DockerContainerSnapshotView),
    Unavailable(DockerEngineSnapshotView),
}

impl View for DockerContainerObservation {
    type V = DockerContainerObservationView;

    open spec fn view(&self) -> DockerContainerObservationView {
        match self {
            DockerContainerObservation::Missing => DockerContainerObservationView::Missing,
            DockerContainerObservation::Present(value) => DockerContainerObservationView::Present(value.deep_view()),
            DockerContainerObservation::Unavailable(value) => DockerContainerObservationView::Unavailable(value.deep_view()),
        }
    }
}

impl DeepView for DockerContainerObservation {
    type V = DockerContainerObservationView;

    open spec fn deep_view(&self) -> DockerContainerObservationView {
        self.view()
    }
}

impl Replicate for DockerContainerObservation {
    fn replicate(&self) -> (r: Self) {
        match self {
            DockerContainerObservation::Missing => DockerContainerObservation::Missing,
            DockerContainerObservation::Present(value) => DockerContainerObservation::Present(value.replicate()),
            DockerContainerObservation::Unavailable(value) => DockerContainerObservation::Unavailable(value.replicate()),
        }
    }
}

/// What was observed of a Compose project.
#[derive(Debug, Clone, PartialEq, Eq)]
pub enum DockerComposeObservation {
    Missing,
    Present(DockerComposeSnapshot),
    Unavailable(DockerEngineSnapshot),
}

/// What a `DockerComposeObservation` stands for.
#[verifier::ext_equal]
pub enum DockerComposeObservationView {
    Missing,
    Present(DockerComposeSnapshotView),
    Unavailable(DockerEngineSnapshotView),
}

impl View for DockerComposeObservation {
    type V = DockerComposeObservationView;

    open spec fn view(&self) -> DockerComposeObservationView {
        match self {
            DockerComposeObservation::Missing => DockerComposeObservationView::Missing,
            DockerComposeObservation::Present(value) => DockerComposeObservationView::Present(value.deep_view()),
            DockerComposeObservation::Unavailable(value) => DockerComposeObservationView::Unavailable(value.deep_view()),
        }
    }
}

impl DeepView for DockerComposeObservation {
    type V = DockerComposeObservationView;

    open spec fn deep_view(&self) -> DockerComposeObservationView {
        self.view()
    }
}

impl Replicate for DockerComposeObservation {
    fn replicate(&self) -> (r: Self) {
        match self {
            DockerComposeObservation::Missing => DockerComposeObservation::Missing,
            DockerComposeObservation::Present(value) => DockerComposeObservation::Present(value.replicate()),
            DockerComposeObservation::Unavailable(value) => DockerComposeObservation::Unavailable(value.replicate()),
        }
    }
}

/// What became of a Docker operation.
#[derive(Debug, Clone, Copy, PartialEq, Eq, Structural)]
pub enum DockerOperationStatus {
    Created,
    Repaired,
    Reused,
    Healthy,
    Unchanged,
    Conflict,
}

impl DeepView for DockerOperationStatus {
    type V = DockerOperationStatus;

    open spec fn deep_view(&self) -> DockerOperationStatus {
        *self
    }
}

impl Replicate for DockerOperationStatus {
    fn replicate(&self) -> (r: Self) {
        *self
    }
}

/// The outcome of a Docker operation.
#[derive(Debug, Clone, PartialEq, Eq)]
pub struct DockerEnsureOutcome {
    pub status: DockerOperationStatus,
    pub resources: Vec<ResourceRecord>,
    pub detail: Option<String>,
    pub outputs: Vec<String>,
}

/// What a `DockerEnsureOutcome` stands for.
#[verifier::ext_equal]
pub struct DockerEnsureOutcomeView {
    pub status: DockerOperationStatus,
    pub resources: Seq<ResourceRecordView>,
    pub detail: Option<Seq<char>>,
    pub outputs: Seq<Seq<char>>,
}

impl View for DockerEnsureOutcome {
    type V = DockerEnsureOutcomeView;

    open spec fn view(&self) -> DockerEnsureOutcomeView {
        DockerEnsureOutcomeView {
            status: self.status.deep_view(),
            resources: self.resources.deep_view(),
            detail: self.detail.deep_view(),
            outputs: self.outputs.deep_view(),
        }
    }
}

impl DeepView for DockerEnsureOutcome {
    type V = DockerEnsureOutcomeView;

    open spec fn deep_view(&self) -> DockerEnsureOutcomeView {
        self.view()
    }
}

impl Replicate for DockerEnsureOutcome {
    fn replicate(&self) -> (r: Self) {
        DockerEnsureOutcome {
            status: self.status.replicate(),
            resources: self.resources.replicate(),
            detail: self.detail.replicate(),
            outputs: self.outputs.replicate(),
        }
    }
}

/// The Docker resources that an action may take down.
#[derive(Debug, Clone, PartialEq, Eq)]
pub struct DockerCleanupRequest {
    pub context: DockerActionContext,
    pub specification: Option<ContainerSpec>,
    pub compose: Option<DockerComposeRequest>,
    pub resources: Vec<ResourceRecord>,
}

/// What a `DockerCleanupRequest` stands for.
#[verifier::ext_equal]
pub struct DockerCleanupRequestView {
    pub context: DockerActionContextView,
    pub specification: Option<ContainerSpecView>,
    pub compose: Option<DockerComposeRequestView>,
    pub resources: Seq<ResourceRecordView>,
}

impl View for DockerCleanupRequest {
    type V = DockerCleanupRequestView;

    open spec fn view(&self) -> DockerCleanupRequestView {
        DockerCleanupRequestView {
            context: self.context.deep_view(),
            specification: self.specification.deep_view(),
            compose: self.compose.deep_view(),
            resources: self.resources.deep_view(),
        }
    }
}

impl DeepView for DockerCleanupRequest {
    type V = DockerCleanupRequestView;

    open spec fn deep_view(&self) -> DockerCleanupRequestView {
        self.view()
    }
}

impl Replicate for DockerCleanupRequest {
    fn replicate(&self) -> (r: Self) {
        DockerCleanupRequest {
            context: self.context.replicate(),
            specification: self.specification.replicate(),
            compose: self.compose.replicate(),
            resources: self.resources.replicate(),
        }
    }
}

/// How many readiness checks were run, and what the last one said.
#[derive(Debug, Clone, PartialEq, Eq)]
pub struct DockerCheckReport {
    pub checks_run: usize,
    pub last_detail: Option<String>,
}

/// What a `DockerCheckReport` stands for.
#[verifier::ext_equal]
pub struct DockerCheckReportView {
    pub checks_run: usize,
    pub last_detail: Option<Seq<char>>,
}

impl View for DockerCheckReport {
    type V = DockerCheckReportView;

    open spec fn view(&self) -> DockerCheckReportView {
        DockerCheckReportView {
            checks_run: self.checks_run.deep_view(),
            last_detail: self.last_detail.deep_view(),
        }
    }
}

impl DeepView for DockerCheckReport {
    type V = DockerCheckReportView;

    open spec fn deep_view(&self) -> DockerCheckReportView {
        self.view()
    }
}

impl Replicate for DockerCheckReport {
    fn replicate(&self) -> (r: Self) {
        DockerCheckReport {
            checks_run: self.checks_run.replicate(),
            last_detail: self.last_detail.replicate(),
        }
    }
}

impl DockerContainerState {
    /// Whether the container runs.
    pub fn is_running(&self) -> (r: bool)
        ensures
            r == (self@ == DockerContainerStateView::Running),
    {
        match self {
            DockerContainerState::Running => true,
            _ => false,
        }
    }
}

impl DockerHealthStateView {
    /// A container is ready where it has no health check or its health check is met.
    pub open spec fn ready(self) -> bool {
        self == DockerHealthStateView::Unreported || self == DockerHealthStateView::Healthy
    }
}

impl DockerHealthState {
    /// Whether the health check stands in the way of readiness.
    pub fn satisfies_readiness(&self) -> (r: bool)
        ensures
            r == self@.ready(),
    {
        match self {
            DockerHealthState::Unreported | DockerHealthState::Healthy => true,
            _ => false,
        }
    }
}

impl DockerEnsureOutcome {
    /// An outcome without resources and without output.
    pub fn new(status: DockerOperationStatus) -> (r: Self)
        ensures
            r@ == (DockerEnsureOutcomeView {
                status,
                resources: Seq::empty(),
                detail: None,
                outputs: Seq::empty(),
            }),
    {
        DockerEnsureOutcome { status, resources: empty_list(), detail: None, outputs: empty_list() }
    }
}

// ---------------------------------------------------------------------------------------------
// Android
// ---------------------------------------------------------------------------------------------
/// The state of a device as adb lists it.
#[derive(Debug, Clone, PartialEq, Eq)]
pub enum AndroidDeviceState {
    Device,
    Offline,
    Unauthorized,
    NoPermissions,
    Unknown(String),
}

/// What a `AndroidDeviceState` stands for.
#[verifier::ext_equal]
pub enum AndroidDeviceStateView {
    Device,
    Offline,
    Unauthorized,
    NoPermissions,
    Unknown(Seq<char>),
}

impl View for AndroidDeviceState {
    type V = AndroidDeviceStateView;

    open spec fn view(&self) -> AndroidDeviceStateView {
        match self {
            AndroidDeviceState::Device => AndroidDeviceStateView::Device,
            AndroidDeviceState::Offline => AndroidDeviceStateView::Offline,
            AndroidDeviceState::Unauthorized => AndroidDeviceStateView::Unauthorized,
            AndroidDeviceState::NoPermissions => AndroidDeviceStateView::NoPermissions,
            AndroidDeviceState::Unknown(value) => AndroidDeviceStateView::Unknown(value.deep_view()),
        }
    }
}

impl DeepView for AndroidDeviceState {
    type V = AndroidDeviceStateView;

    open spec fn deep_view(&self) -> AndroidDeviceStateView {
        self.view()
    }
}

impl Replicate for AndroidDeviceState {
    fn replicate(&self) -> (r: Self) {
        match self {
            AndroidDeviceState::Device => AndroidDeviceState::Device,
            AndroidDeviceState::Offline => AndroidDeviceState::Offline,
            AndroidDeviceState::Unauthorized => AndroidDeviceState::Unauthorized,
            AndroidDeviceState::NoPermissions => AndroidDeviceState::NoPermissions,
            AndroidDeviceState::Unknown(value) => AndroidDeviceState::Unknown(value.replicate()),
        }
    }
}

/// A device as adb lists it.
#[derive(Debug, Clone, PartialEq, Eq)]
pub struct AndroidDeviceSnapshot {
    pub serial: String,
    pub avd: Option<String>,
    pub state: AndroidDeviceState,
    pub boot_completed: bool,
}

/// What a `AndroidDeviceSnapshot` stands for.
#[verifier::ext_equal]
pub struct AndroidDeviceSnapshotView {
    pub serial: Seq<char>,
    pub avd: Option<Seq<char>>,
    pub state: AndroidDeviceStateView,
    pub boot_completed: bool,
}

impl View for AndroidDeviceSnapshot {
    type V = AndroidDeviceSnapshotView;

    open spec fn view(&self) -> AndroidDeviceSnapshotView {
        AndroidDeviceSnapshotView {
            serial: self.serial.deep_view(),
            avd: self.avd.deep_view(),
            state: self.state.deep_view(),
            boot_completed: self.boot_completed.deep_view(),
        }
    }
}

impl DeepView for AndroidDeviceSnapshot {
    type V = AndroidDeviceSnapshotView;

    open spec fn deep_view(&self) -> AndroidDeviceSnapshotView {
        self.view()
    }
}

impl Replicate for AndroidDeviceSnapshot {
    fn replicate(&self) -> (r: Self) {
        AndroidDeviceSnapshot {
            serial: self.serial.replicate(),
            avd: self.avd.replicate(),
            state: self.state.replicate(),
            boot_completed: self.boot_completed.replicate(),
        }
    }
}

/// A virtual device that can be started.
#[derive(Debug, Clone, PartialEq, Eq)]
pub struct AndroidVirtualDevice {
    pub name: String,
}

/// What a `AndroidVirtualDevice` stands for.
#[verifier::ext_equal]
pub struct AndroidVirtualDeviceView {
    pub name: Seq<char>,
}

impl View for AndroidVirtualDevice {
    type V = AndroidVirtualDeviceView;

    open spec fn view(&self) -> AndroidVirtualDeviceView {
        AndroidVirtualDeviceView {
            name: self.name.deep_view(),
        }
    }
}

impl DeepView for AndroidVirtualDevice {
    type V = AndroidVirtualDeviceView;

    open spec fn deep_view(&self) -> AndroidVirtualDeviceView {
        self.view()
    }
}

impl Replicate for AndroidVirtualDevice {
    fn replicate(&self) -> (r: Self) {
        AndroidVirtualDevice {
            name: self.name.replicate(),
        }
    }
}

/// The action and the environment that an emulator request belongs to.
#[derive(Debug, Clone, PartialEq, Eq)]
pub struct EmulatorActionContext {
    pub action_id: ActionId,
    pub environment: EnvironmentSlug,
    pub cleanup_policy: CleanupPolicy,
}

/// What a `EmulatorActionContext` stands for.
#[verifier::ext_equal]
pub struct EmulatorActionContextView {
    pub action_id: Seq<char>,
    pub environment: Seq<char>,
    pub cleanup_policy: CleanupPolicy,
}

impl View for EmulatorActionContext {
    type V = EmulatorActionContextView;

    open spec fn view(&self) -> EmulatorActionContextView {
        EmulatorActionContextView {
            action_id: self.action_id.deep_view(),
            environment: self.environment.deep_view(),
            cleanup_policy: self.cleanup_policy.deep_view(),
        }
    }
}

impl DeepView for EmulatorActionContext {
    type V = EmulatorActionContextView;

    open spec fn deep_view(&self) -> EmulatorActionContextView {
        self.view()
    }
}

impl Replicate for EmulatorActionContext {
    fn replicate(&self) -> (r: Self) {
        EmulatorActionContext {
            action_id: self.action_id.replicate(),
            environment: self.environment.replicate(),
            cleanup_policy: self.cleanup_policy.replicate(),
        }
    }
}

/// An emulator that an action asks for.
#[derive(Debug, Clone, PartialEq, Eq)]
pub struct EmulatorRequest {
    pub context: EmulatorActionContext,
    pub specification: EmulatorSpec,
    pub workspace_target: Option<WorkspaceTarget>,
    pub timeout: TimeSpan,
    pub poll_interval: TimeSpan,
}

/// What a `EmulatorRequest` stands for.
#[verifier::ext_equal]
pub struct EmulatorRequestView {
    pub context: EmulatorActionContextView,
    pub specification: EmulatorSpecView,
    pub workspace_target: Option<WorkspaceTargetView>,
    pub timeout: TimeSpan,
    pub poll_interval: TimeSpan,
}

impl View for EmulatorRequest {
    type V = EmulatorRequestView;

    open spec fn view(&self) -> EmulatorRequestView {
        EmulatorRequestView {
            context: self.context.deep_view(),
            specification: self.specification.deep_view(),
            workspace_target: self.workspace_target.deep_view(),
            timeout: self.timeout.deep_view(),
            poll_interval: self.poll_interval.deep_view(),
        }
    }
}

impl DeepView for EmulatorRequest {
    type V = EmulatorRequestView;

    open spec fn deep_view(&self) -> EmulatorRequestView {
        self.view()
    }
}

impl Replicate for EmulatorRequest {
    fn replicate(&self) -> (r: Self) {
        EmulatorRequest {
            context: self.context.replicate(),
            specification: self.specification.replicate(),
            workspace_target: self.workspace_target.replicate(),
            timeout: self.timeout.replicate(),
            poll_interval: self.poll_interval.replicate(),
        }
    }
}

/// A running emulator.
#[derive(Debug, Clone, PartialEq, Eq)]
pub struct EmulatorRuntimeSnapshot {
    pub avd: String,
    pub serial: String,
    pub state: AndroidDeviceState,
    pub boot_completed: bool,
    pub process_identity: Option<String>,
    pub window_identity: Option<String>,
    pub workspace_identity: Option<String>,
}

/// What a `EmulatorRuntimeSnapshot` stands for.
#[verifier::ext_equal]
pub struct EmulatorRuntimeSnapshotView {
    pub avd: Seq<char>,
    pub serial: Seq<char>,
    pub state: AndroidDeviceStateView,
    pub boot_completed: bool,
    pub process_identity: Option<Seq<char>>,
    pub window_identity: Option<Seq<char>>,
    pub workspace_identity: Option<Seq<char>>,
}

impl View for EmulatorRuntimeSnapshot {
    type V = EmulatorRuntimeSnapshotView;

    open spec fn view(&self) -> EmulatorRuntimeSnapshotView {
        EmulatorRuntimeSnapshotView {
            avd: self.avd.deep_view(),
            serial: self.serial.deep_view(),
            state: self.state.deep_view(),
            boot_completed: self.boot_completed.deep_view(),
            process_identity: self.process_identity.deep_view(),
            window_identity: self.window_identity.deep_view(),
            workspace_identity: self.workspace_identity.deep_view(),
        }
    }
}

impl DeepView for EmulatorRuntimeSnapshot {
    type V = EmulatorRuntimeSnapshotView;

    open spec fn deep_view(&self) -> EmulatorRuntimeSnapshotView {
        self.view()
    }
}

impl Replicate for EmulatorRuntimeSnapshot {
    fn replicate(&self) -> (r: Self) {
        EmulatorRuntimeSnapshot {
            avd: self.avd.replicate(),
            serial: self.serial.replicate(),
            state: self.state.replicate(),
            boot_completed: self.boot_completed.replicate(),
            process_identity: self.process_identity.replicate(),
            window_identity: self.window_identity.replicate(),
            workspace_identity: self.workspace_identity.replicate(),
        }
    }
}

/// What was observed of an emulator.
#[derive(Debug, Clone, PartialEq, Eq)]
pub enum EmulatorObservation {
    Missing,
    Present(EmulatorRuntimeSnapshot),
}

/// What a `EmulatorObservation` stands for.
#[verifier::ext_equal]
pub enum EmulatorObservationView {
    Missing,
    Present(EmulatorRuntimeSnapshotView),
}

impl View for EmulatorObservation {
    type V = EmulatorObservationView;

    open spec fn view(&self) -> EmulatorObservationView {
        match self {
            EmulatorObservation::Missing => EmulatorObservationView::Missing,
            EmulatorObservation::Present(value) => EmulatorObservationView::Present(value.deep_view()),
        }
    }
}

impl DeepView for EmulatorObservation {
    type V = EmulatorObservationView;

    open spec fn deep_view(&self) -> EmulatorObservationView {
        self.view()
    }
}

impl Replicate for EmulatorObservation {
    fn replicate(&self) -> (r: Self) {
        match self {
            EmulatorObservation::Missing => EmulatorObservation::Missing,
            EmulatorObservation::Present(value) => EmulatorObservation::Present(value.replicate()),
        }
    }
}

/// What became of an emulator operation.
#[derive(Debug, Clone, Copy, PartialEq, Eq, Structural)]
pub enum EmulatorOperationStatus {
    Started,
    AlreadyRunning,
    Ready,
}

impl DeepView for EmulatorOperationStatus {
    type V = EmulatorOperationStatus;

    open spec fn deep_view(&self) -> EmulatorOperationStatus {
        *self
    }
}

impl Replicate for EmulatorOperationStatus {
    fn replicate(&self) -> (r: Self) {
        *self
    }
}

/// The outcome of starting an emulator.
#[derive(Debug, Clone, PartialEq, Eq)]
pub struct EmulatorEnsureOutcome {
    pub status: EmulatorOperationStatus,
    pub runtime: Option<EmulatorRuntimeSnapshot>,
    pub resources: Vec<ResourceRecord>,
    pub mutations: Vec<MutationRecord>,
    pub outputs: Vec<String>,
}

/// What a `EmulatorEnsureOutcome` stands for.
#[verifier::ext_equal]
pub struct EmulatorEnsureOutcomeView {
    pub status: EmulatorOperationStatus,
    pub runtime: Option<EmulatorRuntimeSnapshotView>,
    pub resources: Seq<ResourceRecordView>,
    pub mutations: Seq<MutationRecordView>,
    pub outputs: Seq<Seq<char>>,
}

impl View for EmulatorEnsureOutcome {
    type V = EmulatorEnsureOutcomeView;

    open spec fn view(&self) -> EmulatorEnsureOutcomeView {
        EmulatorEnsureOutcomeView {
            status: self.status.deep_view(),
            runtime: self.runtime.deep_view(),
            resources: self.resources.deep_view(),
            mutations: self.mutations.deep_view(),
            outputs: self.outputs.deep_view(),
        }
    }
}

impl DeepView for EmulatorEnsureOutcome {
    type V = EmulatorEnsureOutcomeView;

    open spec fn deep_view(&self) -> EmulatorEnsureOutcomeView {
        self.view()
    }
}

impl Replicate for EmulatorEnsureOutcome {
    fn replicate(&self) -> (r: Self) {
        EmulatorEnsureOutcome {
            status: self.status.replicate(),
            runtime: self.runtime.replicate(),
            resources: self.resources.replicate(),
            mutations: self.mutations.replicate(),
            outputs: self.outputs.replicate(),
        }
    }
}

/// The outcome of stopping emulators.
#[derive(Debug, Clone, PartialEq, Eq)]
pub struct EmulatorCleanupOutcome {
    pub status: EmulatorOperationStatus,
    pub detail: Option<String>,
    pub outputs: Vec<String>,
}

/// What a `EmulatorCleanupOutcome` stands for.
#[verifier::ext_equal]
pub struct EmulatorCleanupOutcomeView {
    pub status: EmulatorOperationStatus,
    pub detail: Option<Seq<char>>,
    pub outputs: Seq<Seq<char>>,
}

impl View for EmulatorCleanupOutcome {
    type V = EmulatorCleanupOutcomeView;

    open spec fn view(&self) -> EmulatorCleanupOutcomeView {
        EmulatorCleanupOutcomeView {
            status: self.status.deep_view(),
            detail: self.detail.deep_view(),
            outputs: self.outputs.deep_view(),
        }
    }
}

impl DeepView for EmulatorCleanupOutcome {
    type V = EmulatorCleanupOutcomeView;

    open spec fn deep_view(&self) -> EmulatorCleanupOutcomeView {
        self.view()
    }
}

impl Replicate for EmulatorCleanupOutcome {
    fn replicate(&self) -> (r: Self) {
        EmulatorCleanupOutcome {
            status: self.status.replicate(),
            detail: self.detail.replicate(),
            outputs: self.outputs.replicate(),
        }
    }
}

impl AndroidDeviceSnapshotView {
    /// A device is ready where it is connected and Android has booted.
    pub open spec fn ready(self) -> bool {
        self.state == AndroidDeviceStateView::Device && self.boot_completed
    }
}

impl EmulatorRuntimeSnapshotView {
    /// An emulator is ready where it is connected and Android has booted.
    pub open spec fn ready(self) -> bool {
        self.state == AndroidDeviceStateView::Device && self.boot_completed
    }
}

impl AndroidDeviceState {
    /// Whether adb can talk to the device.
    pub fn is_connected(&self) -> (r: bool)
        ensures
            r == (self@ == AndroidDeviceStateView::Device),
    {
        match self {
            AndroidDeviceState::Device => true,
            _ => false,
        }
    }
}

impl AndroidDeviceSnapshot {
    /// Whether the device is connected and booted.
    pub fn is_ready(&self) -> (r: bool)
        ensures
            r == self@.ready(),
    {
        self.state.is_connected() && self.boot_completed
    }
}

impl EmulatorRuntimeSnapshot {
    /// Whether the emulator is connected and booted.
    pub fn is_ready(&self) -> (r: bool)
        ensures
            r == self@.ready(),
    {
        self.state.is_connected() && self.boot_completed
    }
}

// ---------------------------------------------------------------------------------------------
// Terminals and editors
// ---------------------------------------------------------------------------------------------
/// A window of a tmux session.
#[derive(Debug, Clone, PartialEq, Eq)]
pub struct TmuxWindowSnapshot {
    pub identity: String,
    pub name: String,
    pub command: Option<String>,
    pub start_command: Option<String>,
    pub working_directory: Option<String>,
    pub process_id: Option<u32>,
    pub is_dead: bool,
}

/// What a `TmuxWindowSnapshot` stands for.
#[verifier::ext_equal]
pub struct TmuxWindowSnapshotView {
    pub identity: Seq<char>,
    pub name: Seq<char>,
    pub command: Option<Seq<char>>,
    pub start_command: Option<Seq<char>>,
    pub working_directory: Option<Seq<char>>,
    pub process_id: Option<u32>,
    pub is_dead: bool,
}

impl View for TmuxWindowSnapshot {
    type V = TmuxWindowSnapshotView;

    open spec fn view(&self) -> TmuxWindowSnapshotView {
        TmuxWindowSnapshotView {
            identity: self.identity.deep_view(),
            name: self.name.deep_view(),
            command: self.command.deep_view(),
            start_command: self.start_command.deep_view(),
            working_directory: self.working_directory.deep_view(),
            process_id: self.process_id.deep_view(),
            is_dead: self.is_dead.deep_view(),
        }
    }
}

impl DeepView for TmuxWindowSnapshot {
    type V = TmuxWindowSnapshotView;

    open spec fn deep_view(&self) -> TmuxWindowSnapshotView {
        self.view()
    }
}

impl Replicate for TmuxWindowSnapshot {
    fn replicate(&self) -> (r: Self) {
        TmuxWindowSnapshot {
            identity: self.identity.replicate(),
            name: self.name.replicate(),
            command: self.command.replicate(),
            start_command: self.start_command.replicate(),
            working_directory: self.working_directory.replicate(),
            process_id: self.process_id.replicate(),
            is_dead: self.is_dead.replicate(),
        }
    }
}

/// A tmux session.
#[derive(Debug, Clone, PartialEq, Eq)]
pub struct TmuxSessionSnapshot {
    pub identity: String,
    pub name: String,
    pub windows: Vec<TmuxWindowSnapshot>,
}

/// What a `TmuxSessionSnapshot` stands for.
#[verifier::ext_equal]
pub struct TmuxSessionSnapshotView {
    pub identity: Seq<char>,
    pub name: Seq<char>,
    pub windows: Seq<TmuxWindowSnapshotView>,
}

impl View for TmuxSessionSnapshot {
    type V = TmuxSessionSnapshotView;

    open spec fn view(&self) -> TmuxSessionSnapshotView {
        TmuxSessionSnapshotView {
            identity: self.identity.deep_view(),
            name: self.name.deep_view(),
            windows: self.windows.deep_view(),
        }
    }
}

impl DeepView for TmuxSessionSnapshot {
    type V = TmuxSessionSnapshotView;

    open spec fn deep_view(&self) -> TmuxSessionSnapshotView {
        self.view()
    }
}

impl Replicate for TmuxSessionSnapshot {
    fn replicate(&self) -> (r: Self) {
        TmuxSessionSnapshot {
            identity: self.identity.replicate(),
            name: self.name.replicate(),
            windows: self.windows.replicate(),
        }
    }
}

/// A tmux window to open.
#[derive(Debug, Clone, PartialEq, Eq)]
pub struct TmuxWindowRequest {
    pub name: String,
    pub process: ProcessRequest,
}

/// What a `TmuxWindowRequest` stands for.
#[verifier::ext_equal]
pub struct TmuxWindowRequestView {
    pub name: Seq<char>,
    pub process: ProcessRequestView,
}

impl View for TmuxWindowRequest {
    type V = TmuxWindowRequestView;

    open spec fn view(&self) -> TmuxWindowRequestView {
        TmuxWindowRequestView {
            name: self.name.deep_view(),
            process: self.process.deep_view(),
        }
    }
}

impl DeepView for TmuxWindowRequest {
    type V = TmuxWindowRequestView;

    open spec fn deep_view(&self) -> TmuxWindowRequestView {
        self.view()
    }
}

impl Replicate for TmuxWindowRequest {
    fn replicate(&self) -> (r: Self) {
        TmuxWindowRequest {
            name: self.name.replicate(),
            process: self.process.replicate(),
        }
    }
}

/// A window of a project editor.
#[derive(Debug, Clone, PartialEq, Eq)]
pub struct EditorWindowSnapshot {
    pub identity: String,
    pub application: String,
    pub title: Option<String>,
    pub project_path: Option<String>,
    pub workspace_identity: Option<String>,
}

/// What a `EditorWindowSnapshot` stands for.
#[verifier::ext_equal]
pub struct EditorWindowSnapshotView {
    pub identity: Seq<char>,
    pub application: Seq<char>,
    pub title: Option<Seq<char>>,
    pub project_path: Option<Seq<char>>,
    pub workspace_identity: Option<Seq<char>>,
}

impl View for EditorWindowSnapshot {
    type V = EditorWindowSnapshotView;

    open spec fn view(&self) -> EditorWindowSnapshotView {
        EditorWindowSnapshotView {
            identity: self.identity.deep_view(),
            application: self.application.deep_view(),
            title: self.title.deep_view(),
            project_path: self.project_path.deep_view(),
            workspace_identity: self.workspace_identity.deep_view(),
        }
    }
}

impl DeepView for EditorWindowSnapshot {
    type V = EditorWindowSnapshotView;

    open spec fn deep_view(&self) -> EditorWindowSnapshotView {
        self.view()
    }
}

impl Replicate for EditorWindowSnapshot {
    fn replicate(&self) -> (r: Self) {
        EditorWindowSnapshot {
            identity: self.identity.replicate(),
            application: self.application.replicate(),
            title: self.title.replicate(),
            project_path: self.project_path.replicate(),
            workspace_identity: self.workspace_identity.replicate(),
        }
    }
}

/// Whether an editor was launched or found open.
#[derive(Debug, Clone, Copy, PartialEq, Eq, Structural)]
pub enum EditorOperationStatus {
    Launched,
    Reused,
}

impl DeepView for EditorOperationStatus {
    type V = EditorOperationStatus;

    open spec fn deep_view(&self) -> EditorOperationStatus {
        *self
    }
}

impl Replicate for EditorOperationStatus {
    fn replicate(&self) -> (r: Self) {
        *self
    }
}

/// The editor window of a project.
#[derive(Debug, Clone, PartialEq, Eq)]
pub struct EditorOpenOutcome {
    pub status: EditorOperationStatus,
    pub window: EditorWindowSnapshot,
    pub owned: bool,
    pub process_identity: Option<String>,
}

/// What a `EditorOpenOutcome` stands for.
#[verifier::ext_equal]
pub struct EditorOpenOutcomeView {
    pub status: EditorOperationStatus,
    pub window: EditorWindowSnapshotView,
    pub owned: bool,
    pub process_identity: Option<Seq<char>>,
}

impl View for EditorOpenOutcome {
    type V = EditorOpenOutcomeView;

    open spec fn view(&self) -> EditorOpenOutcomeView {
        EditorOpenOutcomeView {
            status: self.status.deep_view(),
            window: self.window.deep_view(),
            owned: self.owned.deep_view(),
            process_identity: self.process_identity.deep_view(),
        }
    }
}

impl DeepView for EditorOpenOutcome {
    type V = EditorOpenOutcomeView;

    open spec fn deep_view(&self) -> EditorOpenOutcomeView {
        self.view()
    }
}

impl Replicate for EditorOpenOutcome {
    fn replicate(&self) -> (r: Self) {
        EditorOpenOutcome {
            status: self.status.replicate(),
            window: self.window.replicate(),
            owned: self.owned.replicate(),
            process_identity: self.process_identity.replicate(),
        }
    }
}

/// A window is found by its identity: what is found is the first of the list that bears it, and where
/// there is one, one is found. So it is with workspaces.
pub proof fn law_first_of_its_identity_is_found(
    windows: Seq<DesktopWindowSnapshotView>,
    workspaces: Seq<DesktopWorkspaceSnapshotView>,
    identity: Seq<char>,
    i: int,
)
    ensures
        0 <= i < windows.len() && windows[i].identity == identity && (forall|j: int|
            0 <= j < i ==> (#[trigger] windows[j]).identity != identity) ==> window_named(
            windows,
            identity,
        ) == Some(windows[i]),
        (forall|j: int| 0 <= j < windows.len() ==> (#[trigger] windows[j]).identity != identity)
            ==> window_named(windows, identity) is None,
        0 <= i < workspaces.len() && workspaces[i].identity == identity && (forall|j: int|
            0 <= j < i ==> (#[trigger] workspaces[j]).identity != identity) ==> workspace_named(
            workspaces,
            identity,
        ) == Some(workspaces[i]),
        (forall|j: int|
            0 <= j < workspaces.len() ==> (#[trigger] workspaces[j]).identity != identity)
            ==> workspace_named(workspaces, identity) is None,
    decreases windows.len() + workspaces.len(),
{
    if windows.len() > 0 || workspaces.len() > 0 {
        let fewer = if windows.len() > 0 {
            windows.drop_first()
        } else {
            windows
        };
        let less = if workspaces.len() > 0 {
            workspaces.drop_first()
        } else {
            workspaces
        };
        law_first_of_its_identity_is_found(fewer, less, identity, i - 1);
        if windows.len() > 0 {
            assert(forall|j: int| 0 <= j < fewer.len() ==> #[trigger] fewer[j] == windows[j + 1]);
            assert(windows[0].identity == windows[0].identity);
        }
        if workspaces.len() > 0 {
            assert(forall|j: int| 0 <= j < less.len() ==> #[trigger] less[j] == workspaces[j + 1]);
            assert(workspaces[0].identity == workspaces[0].identity);
        }
    }
}

/// A process has succeeded where its status is zero; what was ready is connected and has booted.
pub proof fn law_status_zero_is_success(
    output: ProcessOutputView,
    device: AndroidDeviceSnapshotView,
    health: DockerHealthStateView,
    workspace: DesktopWorkspaceSnapshotView,
    identity: Seq<char>,
)
    ensures
        output.success() <==> output.status == Some(0i32),
        device.ready() <==> device.state is Device && device.boot_completed,
        health is Healthy || health is Unreported ==> health.ready(),
        health is Unhealthy || health is Starting ==> !health.ready(),
        resolved_to(workspace).workspace == Some(workspace),
        resolved_to_none().workspace is None,
        background_of(identity) matches Ok(process) ==> process.identity == identity,
        background_of(identity) is Ok <==> !is_blank(identity),
{
}

} // verus!
