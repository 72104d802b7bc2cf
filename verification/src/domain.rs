//! The records and specifications that actions are described by.
use vstd::prelude::*;
use vstd::string::*;
use crate::collections::TextMap;
use crate::error::{error_of, seen, ErrorCategory, WorkstateError, WorkstateErrorView};
use crate::text::{
    char_is_white, chars_of, is_blank, is_white, join3, joined, text_join, text_trim, trim,
};
use crate::values::{append, append_all, empty_list, list_of, rest, Agree, Replicate};

verus! {

/// The stable name of an action.
pub type ActionId = String;

/// The stable name of an environment.
pub type EnvironmentSlug = String;

/// How a resource came to be part of an environment.
#[derive(Debug, Clone, Copy, PartialEq, Eq, Structural)]
pub enum OwnershipStatus {
    CreatedByCurrentRun,
    ReusedExisting,
    PreExisting,
}

impl DeepView for OwnershipStatus {
    type V = OwnershipStatus;

    open spec fn deep_view(&self) -> OwnershipStatus {
        *self
    }
}

impl Replicate for OwnershipStatus {
    fn replicate(&self) -> (r: Self) {
        *self
    }
}

/// Whether the resources of an action are taken down with it.
#[derive(Debug, Clone, Copy, PartialEq, Eq, Structural)]
pub enum CleanupPolicy {
    OwnedOnly,
    Preserve,
}

impl DeepView for CleanupPolicy {
    type V = CleanupPolicy;

    open spec fn deep_view(&self) -> CleanupPolicy {
        *self
    }
}

impl Replicate for CleanupPolicy {
    fn replicate(&self) -> (r: Self) {
        *self
    }
}

/// How a mutation is undone.
#[derive(Debug, Clone, Copy, PartialEq, Eq, Structural)]
pub enum CompensationOperation {
    Nothing,
    Handler,
}

impl DeepView for CompensationOperation {
    type V = CompensationOperation;

    open spec fn deep_view(&self) -> CompensationOperation {
        *self
    }
}

impl Replicate for CompensationOperation {
    fn replicate(&self) -> (r: Self) {
        *self
    }
}

/// The kinds of resources that an action can create or reuse.
#[derive(Debug, Clone, Copy, PartialEq, Eq, Structural)]
pub enum ResourceKind {
    AndroidEmulator,
    DesktopWindow,
    DesktopWorkspace,
    DockerCompose,
    DockerContainer,
    DockerDesktop,
    Environment,
    TmuxSession,
    TmuxWindow,
}

impl DeepView for ResourceKind {
    type V = ResourceKind;

    open spec fn deep_view(&self) -> ResourceKind {
        *self
    }
}

impl Replicate for ResourceKind {
    fn replicate(&self) -> (r: Self) {
        *self
    }
}

/// What an action asks of the tiling of a workspace.
#[derive(Debug, Clone, Copy, PartialEq, Eq, Structural)]
pub enum TilingPreference {
    Unchanged,
    Enabled,
    Disabled,
}

impl DeepView for TilingPreference {
    type V = TilingPreference;

    open spec fn deep_view(&self) -> TilingPreference {
        *self
    }
}

impl Replicate for TilingPreference {
    fn replicate(&self) -> (r: Self) {
        *self
    }
}

/// Whether a command is run to its end or kept running.
#[derive(Debug, Clone, Copy, PartialEq, Eq, Structural)]
pub enum ExecutionMode {
    Once,
    Background,
}

impl DeepView for ExecutionMode {
    type V = ExecutionMode;

    open spec fn deep_view(&self) -> ExecutionMode {
        *self
    }
}

impl Replicate for ExecutionMode {
    fn replicate(&self) -> (r: Self) {
        *self
    }
}

/// The kinds of actions.
#[derive(Debug, Clone, Copy, PartialEq, Eq, Structural)]
pub enum ActionKind {
    ConfigureTiling,
    OpenApplication,
    OpenProject,
    OpenProjectWithCursor,
    OpenProjectWithVsCode,
    RunCommand,
    StartAndroidEmulator,
    StartCompose,
    StartContainer,
    StartOtherEnvironment,
    StartService,
}

impl DeepView for ActionKind {
    type V = ActionKind;

    open spec fn deep_view(&self) -> ActionKind {
        *self
    }
}

impl Replicate for ActionKind {
    fn replicate(&self) -> (r: Self) {
        *self
    }
}

/// The kind of a resource and the identity that it keeps.
#[derive(Debug, Clone, PartialEq, Eq)]
pub struct ResourceIdentity {
    pub kind: ResourceKind,
    pub stable_identity: String,
}

/// What a `ResourceIdentity` stands for.
#[verifier::ext_equal]
pub struct ResourceIdentityView {
    pub kind: ResourceKind,
    pub stable_identity: Seq<char>,
}

impl View for ResourceIdentity {
    type V = ResourceIdentityView;

    open spec fn view(&self) -> ResourceIdentityView {
        ResourceIdentityView {
            kind: self.kind.deep_view(),
            stable_identity: self.stable_identity.deep_view(),
        }
    }
}

impl DeepView for ResourceIdentity {
    type V = ResourceIdentityView;

    open spec fn deep_view(&self) -> ResourceIdentityView {
        self.view()
    }
}

impl Replicate for ResourceIdentity {
    fn replicate(&self) -> (r: Self) {
        ResourceIdentity {
            kind: self.kind.replicate(),
            stable_identity: self.stable_identity.replicate(),
        }
    }
}

impl Agree for ResourceIdentity {
    fn agrees(&self, other: &Self) -> (r: bool) {
        self.kind == other.kind && self.stable_identity.agrees(&other.stable_identity)
    }
}

/// What is remembered of a resource that an action created or reused.
#[derive(Debug, Clone, PartialEq, Eq)]
pub struct ResourceRecord {
    pub resource: ResourceIdentity,
    pub ownership: OwnershipStatus,
    pub action_id: Option<ActionId>,
    pub observed_before: bool,
    pub cleanup_policy: CleanupPolicy,
    pub integration_metadata: TextMap,
}

/// What a `ResourceRecord` stands for.
#[verifier::ext_equal]
pub struct ResourceRecordView {
    pub resource: ResourceIdentityView,
    pub ownership: OwnershipStatus,
    pub action_id: Option<Seq<char>>,
    pub observed_before: bool,
    pub cleanup_policy: CleanupPolicy,
    pub integration_metadata: Map<Seq<char>, Seq<char>>,
}

impl View for ResourceRecord {
    type V = ResourceRecordView;

    open spec fn view(&self) -> ResourceRecordView {
        ResourceRecordView {
            resource: self.resource.deep_view(),
            ownership: self.ownership.deep_view(),
            action_id: self.action_id.deep_view(),
            observed_before: self.observed_before.deep_view(),
            cleanup_policy: self.cleanup_policy.deep_view(),
            integration_metadata: self.integration_metadata.deep_view(),
        }
    }
}

impl DeepView for ResourceRecord {
    type V = ResourceRecordView;

    open spec fn deep_view(&self) -> ResourceRecordView {
        self.view()
    }
}

impl Replicate for ResourceRecord {
    fn replicate(&self) -> (r: Self) {
        ResourceRecord {
            resource: self.resource.replicate(),
            ownership: self.ownership.replicate(),
            action_id: self.action_id.replicate(),
            observed_before: self.observed_before.replicate(),
            cleanup_policy: self.cleanup_policy.replicate(),
            integration_metadata: self.integration_metadata.replicate(),
        }
    }
}

/// What is remembered of a change to a resource, so that it can be undone.
#[derive(Debug, Clone, PartialEq, Eq)]
pub struct MutationRecord {
    pub target: String,
    pub action_id: Option<ActionId>,
    pub resource: Option<ResourceIdentity>,
    pub previous_value: Option<String>,
    pub applied_value: Option<String>,
    pub ownership: OwnershipStatus,
    pub compensation: CompensationOperation,
    pub cleanup_policy: CleanupPolicy,
}

/// What a `MutationRecord` stands for.
#[verifier::ext_equal]
pub struct MutationRecordView {
    pub target: Seq<char>,
    pub action_id: Option<Seq<char>>,
    pub resource: Option<ResourceIdentityView>,
    pub previous_value: Option<Seq<char>>,
    pub applied_value: Option<Seq<char>>,
    pub ownership: OwnershipStatus,
    pub compensation: CompensationOperation,
    pub cleanup_policy: CleanupPolicy,
}

impl View for MutationRecord {
    type V = MutationRecordView;

    open spec fn view(&self) -> MutationRecordView {
        MutationRecordView {
            target: self.target.deep_view(),
            action_id: self.action_id.deep_view(),
            resource: self.resource.deep_view(),
            previous_value: self.previous_value.deep_view(),
            applied_value: self.applied_value.deep_view(),
            ownership: self.ownership.deep_view(),
            compensation: self.compensation.deep_view(),
            cleanup_policy: self.cleanup_policy.deep_view(),
        }
    }
}

impl DeepView for MutationRecord {
    type V = MutationRecordView;

    open spec fn deep_view(&self) -> MutationRecordView {
        self.view()
    }
}

impl Replicate for MutationRecord {
    fn replicate(&self) -> (r: Self) {
        MutationRecord {
            target: self.target.replicate(),
            action_id: self.action_id.replicate(),
            resource: self.resource.replicate(),
            previous_value: self.previous_value.replicate(),
            applied_value: self.applied_value.replicate(),
            ownership: self.ownership.replicate(),
            compensation: self.compensation.replicate(),
            cleanup_policy: self.cleanup_policy.replicate(),
        }
    }
}

/// A command line: a program with its arguments, or a line for the shell.
#[derive(Debug, Clone, PartialEq, Eq)]
pub struct CommandSpec {
    pub program: String,
    pub arguments: Vec<String>,
    pub shell: bool,
    pub environment: TextMap,
}

/// What a `CommandSpec` stands for.
#[verifier::ext_equal]
pub struct CommandSpecView {
    pub program: Seq<char>,
    pub arguments: Seq<Seq<char>>,
    pub shell: bool,
    pub environment: Map<Seq<char>, Seq<char>>,
}

impl View for CommandSpec {
    type V = CommandSpecView;

    open spec fn view(&self) -> CommandSpecView {
        CommandSpecView {
            program: self.program.deep_view(),
            arguments: self.arguments.deep_view(),
            shell: self.shell.deep_view(),
            environment: self.environment.deep_view(),
        }
    }
}

impl DeepView for CommandSpec {
    type V = CommandSpecView;

    open spec fn deep_view(&self) -> CommandSpecView {
        self.view()
    }
}

impl Replicate for CommandSpec {
    fn replicate(&self) -> (r: Self) {
        CommandSpec {
            program: self.program.replicate(),
            arguments: self.arguments.replicate(),
            shell: self.shell.replicate(),
            environment: self.environment.replicate(),
        }
    }
}

impl Agree for CommandSpec {
    fn agrees(&self, other: &Self) -> (r: bool) {
        self.program.agrees(&other.program) && self.arguments.agrees(&other.arguments) && self.shell == other.shell && self.environment.agrees(&other.environment)
    }
}

/// A directory that is mounted into a container.
#[derive(Debug, Clone, PartialEq, Eq)]
pub struct MountSpec {
    pub source: String,
    pub target: String,
    pub read_only: bool,
}

/// What a `MountSpec` stands for.
#[verifier::ext_equal]
pub struct MountSpecView {
    pub source: Seq<char>,
    pub target: Seq<char>,
    pub read_only: bool,
}

impl View for MountSpec {
    type V = MountSpecView;

    open spec fn view(&self) -> MountSpecView {
        MountSpecView {
            source: self.source.deep_view(),
            target: self.target.deep_view(),
            read_only: self.read_only.deep_view(),
        }
    }
}

impl DeepView for MountSpec {
    type V = MountSpecView;

    open spec fn deep_view(&self) -> MountSpecView {
        self.view()
    }
}

impl Replicate for MountSpec {
    fn replicate(&self) -> (r: Self) {
        MountSpec {
            source: self.source.replicate(),
            target: self.target.replicate(),
            read_only: self.read_only.replicate(),
        }
    }
}

impl Agree for MountSpec {
    fn agrees(&self, other: &Self) -> (r: bool) {
        self.source.agrees(&other.source) && self.target.agrees(&other.target) && self.read_only == other.read_only
    }
}

/// A container port that is published on the host.
#[derive(Debug, Clone, PartialEq, Eq)]
pub struct PortSpec {
    pub host: u16,
    pub container: u16,
    pub protocol: String,
}

/// What a `PortSpec` stands for.
#[verifier::ext_equal]
pub struct PortSpecView {
    pub host: u16,
    pub container: u16,
    pub protocol: Seq<char>,
}

impl View for PortSpec {
    type V = PortSpecView;

    open spec fn view(&self) -> PortSpecView {
        PortSpecView {
            host: self.host.deep_view(),
            container: self.container.deep_view(),
            protocol: self.protocol.deep_view(),
        }
    }
}

impl DeepView for PortSpec {
    type V = PortSpecView;

    open spec fn deep_view(&self) -> PortSpecView {
        self.view()
    }
}

impl Replicate for PortSpec {
    fn replicate(&self) -> (r: Self) {
        PortSpec {
            host: self.host.replicate(),
            container: self.container.replicate(),
            protocol: self.protocol.replicate(),
        }
    }
}

impl Agree for PortSpec {
    fn agrees(&self, other: &Self) -> (r: bool) {
        self.host == other.host && self.container == other.container && self.protocol.agrees(&other.protocol)
    }
}

/// The configuration of a container.
#[derive(Debug, Clone, PartialEq, Eq)]
pub struct ContainerSpec {
    pub name: String,
    pub image: Option<String>,
    pub command: Option<CommandSpec>,
    pub environment: TextMap,
    pub mounts: Vec<MountSpec>,
    pub ports: Vec<PortSpec>,
}

/// What a `ContainerSpec` stands for.
#[verifier::ext_equal]
pub struct ContainerSpecView {
    pub name: Seq<char>,
    pub image: Option<Seq<char>>,
    pub command: Option<CommandSpecView>,
    pub environment: Map<Seq<char>, Seq<char>>,
    pub mounts: Seq<MountSpecView>,
    pub ports: Seq<PortSpecView>,
}

impl View for ContainerSpec {
    type V = ContainerSpecView;

    open spec fn view(&self) -> ContainerSpecView {
        ContainerSpecView {
            name: self.name.deep_view(),
            image: self.image.deep_view(),
            command: self.command.deep_view(),
            environment: self.environment.deep_view(),
            mounts: self.mounts.deep_view(),
            ports: self.ports.deep_view(),
        }
    }
}

impl DeepView for ContainerSpec {
    type V = ContainerSpecView;

    open spec fn deep_view(&self) -> ContainerSpecView {
        self.view()
    }
}

impl Replicate for ContainerSpec {
    fn replicate(&self) -> (r: Self) {
        ContainerSpec {
            name: self.name.replicate(),
            image: self.image.replicate(),
            command: self.command.replicate(),
            environment: self.environment.replicate(),
            mounts: self.mounts.replicate(),
            ports: self.ports.replicate(),
        }
    }
}

/// The configuration of a Compose project.
#[derive(Debug, Clone, PartialEq, Eq)]
pub struct ComposeSpec {
    pub compose_file: Option<String>,
    pub services: Vec<String>,
    pub up_command: Option<CommandSpec>,
    pub down_command: Option<CommandSpec>,
}

/// What a `ComposeSpec` stands for.
#[verifier::ext_equal]
pub struct ComposeSpecView {
    pub compose_file: Option<Seq<char>>,
    pub services: Seq<Seq<char>>,
    pub up_command: Option<CommandSpecView>,
    pub down_command: Option<CommandSpecView>,
}

impl View for ComposeSpec {
    type V = ComposeSpecView;

    open spec fn view(&self) -> ComposeSpecView {
        ComposeSpecView {
            compose_file: self.compose_file.deep_view(),
            services: self.services.deep_view(),
            up_command: self.up_command.deep_view(),
            down_command: self.down_command.deep_view(),
        }
    }
}

impl DeepView for ComposeSpec {
    type V = ComposeSpecView;

    open spec fn deep_view(&self) -> ComposeSpecView {
        self.view()
    }
}

impl Replicate for ComposeSpec {
    fn replicate(&self) -> (r: Self) {
        ComposeSpec {
            compose_file: self.compose_file.replicate(),
            services: self.services.replicate(),
            up_command: self.up_command.replicate(),
            down_command: self.down_command.replicate(),
        }
    }
}

/// An Android virtual device and the arguments that its emulator is started with.
#[derive(Debug, Clone, PartialEq, Eq)]
pub struct EmulatorSpec {
    pub avd: String,
    pub arguments: Vec<String>,
}

/// What a `EmulatorSpec` stands for.
#[verifier::ext_equal]
pub struct EmulatorSpecView {
    pub avd: Seq<char>,
    pub arguments: Seq<Seq<char>>,
}

impl View for EmulatorSpec {
    type V = EmulatorSpecView;

    open spec fn view(&self) -> EmulatorSpecView {
        EmulatorSpecView {
            avd: self.avd.deep_view(),
            arguments: self.arguments.deep_view(),
        }
    }
}

impl DeepView for EmulatorSpec {
    type V = EmulatorSpecView;

    open spec fn deep_view(&self) -> EmulatorSpecView {
        self.view()
    }
}

impl Replicate for EmulatorSpec {
    fn replicate(&self) -> (r: Self) {
        EmulatorSpec {
            avd: self.avd.replicate(),
            arguments: self.arguments.replicate(),
        }
    }
}

/// A time limit.
#[derive(Debug, Clone, PartialEq, Eq)]
pub struct TimeoutSpec {
    pub milliseconds: u64,
}

/// What a `TimeoutSpec` stands for.
#[verifier::ext_equal]
pub struct TimeoutSpecView {
    pub milliseconds: u64,
}

impl View for TimeoutSpec {
    type V = TimeoutSpecView;

    open spec fn view(&self) -> TimeoutSpecView {
        TimeoutSpecView {
            milliseconds: self.milliseconds.deep_view(),
        }
    }
}

impl DeepView for TimeoutSpec {
    type V = TimeoutSpecView;

    open spec fn deep_view(&self) -> TimeoutSpecView {
        self.view()
    }
}

impl Replicate for TimeoutSpec {
    fn replicate(&self) -> (r: Self) {
        TimeoutSpec {
            milliseconds: self.milliseconds.replicate(),
        }
    }
}

/// A condition that a started service has to meet.
#[derive(Debug, Clone, PartialEq, Eq)]
pub enum ReadinessCheck {
    Nothing,
    Tcp { host: String, port: u16, timeout: TimeoutSpec },
    Http { url: String, expected_status: Option<u16>, timeout: TimeoutSpec },
    Command { command: CommandSpec, timeout: TimeoutSpec },
    Delay { milliseconds: u64 },
    Container { name: String, timeout: TimeoutSpec },
    Compose { services: Vec<String>, timeout: TimeoutSpec },
}

/// What a `ReadinessCheck` stands for.
#[verifier::ext_equal]
pub enum ReadinessCheckView {
    Nothing,
    Tcp { host: Seq<char>, port: u16, timeout: TimeoutSpecView },
    Http { url: Seq<char>, expected_status: Option<u16>, timeout: TimeoutSpecView },
    Command { command: CommandSpecView, timeout: TimeoutSpecView },
    Delay { milliseconds: u64 },
    Container { name: Seq<char>, timeout: TimeoutSpecView },
    Compose { services: Seq<Seq<char>>, timeout: TimeoutSpecView },
}

impl View for ReadinessCheck {
    type V = ReadinessCheckView;

    open spec fn view(&self) -> ReadinessCheckView {
        match self {
            ReadinessCheck::Nothing => ReadinessCheckView::Nothing,
            ReadinessCheck::Tcp { host, port, timeout } => ReadinessCheckView::Tcp { host: host.deep_view(), port: port.deep_view(), timeout: timeout.deep_view() },
            ReadinessCheck::Http { url, expected_status, timeout } => ReadinessCheckView::Http { url: url.deep_view(), expected_status: expected_status.deep_view(), timeout: timeout.deep_view() },
            ReadinessCheck::Command { command, timeout } => ReadinessCheckView::Command { command: command.deep_view(), timeout: timeout.deep_view() },
            ReadinessCheck::Delay { milliseconds } => ReadinessCheckView::Delay { milliseconds: milliseconds.deep_view() },
            ReadinessCheck::Container { name, timeout } => ReadinessCheckView::Container { name: name.deep_view(), timeout: timeout.deep_view() },
            ReadinessCheck::Compose { services, timeout } => ReadinessCheckView::Compose { services: services.deep_view(), timeout: timeout.deep_view() },
        }
    }
}

impl DeepView for ReadinessCheck {
    type V = ReadinessCheckView;

    open spec fn deep_view(&self) -> ReadinessCheckView {
        self.view()
    }
}

impl Replicate for ReadinessCheck {
    fn replicate(&self) -> (r: Self) {
        match self {
            ReadinessCheck::Nothing => ReadinessCheck::Nothing,
            ReadinessCheck::Tcp { host, port, timeout } => ReadinessCheck::Tcp { host: host.replicate(), port: port.replicate(), timeout: timeout.replicate() },
            ReadinessCheck::Http { url, expected_status, timeout } => ReadinessCheck::Http { url: url.replicate(), expected_status: expected_status.replicate(), timeout: timeout.replicate() },
            ReadinessCheck::Command { command, timeout } => ReadinessCheck::Command { command: command.replicate(), timeout: timeout.replicate() },
            ReadinessCheck::Delay { milliseconds } => ReadinessCheck::Delay { milliseconds: milliseconds.replicate() },
            ReadinessCheck::Container { name, timeout } => ReadinessCheck::Container { name: name.replicate(), timeout: timeout.replicate() },
            ReadinessCheck::Compose { services, timeout } => ReadinessCheck::Compose { services: services.replicate(), timeout: timeout.replicate() },
        }
    }
}

/// How an existing workspace is named.
#[derive(Debug, Clone, PartialEq, Eq)]
pub enum WorkspaceReference {
    Name(String),
    Identifier(String),
}

/// What a `WorkspaceReference` stands for.
#[verifier::ext_equal]
pub enum WorkspaceReferenceView {
    Name(Seq<char>),
    Identifier(Seq<char>),
}

impl View for WorkspaceReference {
    type V = WorkspaceReferenceView;

    open spec fn view(&self) -> WorkspaceReferenceView {
        match self {
            WorkspaceReference::Name(value) => WorkspaceReferenceView::Name(value.deep_view()),
            WorkspaceReference::Identifier(value) => WorkspaceReferenceView::Identifier(value.deep_view()),
        }
    }
}

impl DeepView for WorkspaceReference {
    type V = WorkspaceReferenceView;

    open spec fn deep_view(&self) -> WorkspaceReferenceView {
        self.view()
    }
}

impl Replicate for WorkspaceReference {
    fn replicate(&self) -> (r: Self) {
        match self {
            WorkspaceReference::Name(value) => WorkspaceReference::Name(value.replicate()),
            WorkspaceReference::Identifier(value) => WorkspaceReference::Identifier(value.replicate()),
        }
    }
}

/// The workspace that a window or a setting is meant for.
#[derive(Debug, Clone, PartialEq, Eq)]
pub enum WorkspaceTarget {
    Existing { reference: WorkspaceReference },
    Current,
    NextEmpty,
    Create { name: String },
    Nowhere,
}

/// What a `WorkspaceTarget` stands for.
#[verifier::ext_equal]
pub enum WorkspaceTargetView {
    Existing { reference: WorkspaceReferenceView },
    Current,
    NextEmpty,
    Create { name: Seq<char> },
    Nowhere,
}

impl View for WorkspaceTarget {
    type V = WorkspaceTargetView;

    open spec fn view(&self) -> WorkspaceTargetView {
        match self {
            WorkspaceTarget::Existing { reference } => WorkspaceTargetView::Existing { reference: reference.deep_view() },
            WorkspaceTarget::Current => WorkspaceTargetView::Current,
            WorkspaceTarget::NextEmpty => WorkspaceTargetView::NextEmpty,
            WorkspaceTarget::Create { name } => WorkspaceTargetView::Create { name: name.deep_view() },
            WorkspaceTarget::Nowhere => WorkspaceTargetView::Nowhere,
        }
    }
}

impl DeepView for WorkspaceTarget {
    type V = WorkspaceTargetView;

    open spec fn deep_view(&self) -> WorkspaceTargetView {
        self.view()
    }
}

impl Replicate for WorkspaceTarget {
    fn replicate(&self) -> (r: Self) {
        match self {
            WorkspaceTarget::Existing { reference } => WorkspaceTarget::Existing { reference: reference.replicate() },
            WorkspaceTarget::Current => WorkspaceTarget::Current,
            WorkspaceTarget::NextEmpty => WorkspaceTarget::NextEmpty,
            WorkspaceTarget::Create { name } => WorkspaceTarget::Create { name: name.replicate() },
            WorkspaceTarget::Nowhere => WorkspaceTarget::Nowhere,
        }
    }
}

/// The parameters of an action; each kind of action reads its own.
#[derive(Debug, Clone, PartialEq, Eq)]
pub struct ActionParameters {
    pub application: Option<String>,
    pub application_arguments: Vec<String>,
    pub project_path: Option<String>,
    pub command: Option<CommandSpec>,
    pub container: Option<ContainerSpec>,
    pub compose: Option<ComposeSpec>,
    pub emulator: Option<EmulatorSpec>,
    pub workspace_id: Option<String>,
    pub other_environment: Option<EnvironmentSlug>,
}

/// What a `ActionParameters` stands for.
#[verifier::ext_equal]
pub struct ActionParametersView {
    pub application: Option<Seq<char>>,
    pub application_arguments: Seq<Seq<char>>,
    pub project_path: Option<Seq<char>>,
    pub command: Option<CommandSpecView>,
    pub container: Option<ContainerSpecView>,
    pub compose: Option<ComposeSpecView>,
    pub emulator: Option<EmulatorSpecView>,
    pub workspace_id: Option<Seq<char>>,
    pub other_environment: Option<Seq<char>>,
}

impl View for ActionParameters {
    type V = ActionParametersView;

    open spec fn view(&self) -> ActionParametersView {
        ActionParametersView {
            application: self.application.deep_view(),
            application_arguments: self.application_arguments.deep_view(),
            project_path: self.project_path.deep_view(),
            command: self.command.deep_view(),
            container: self.container.deep_view(),
            compose: self.compose.deep_view(),
            emulator: self.emulator.deep_view(),
            workspace_id: self.workspace_id.deep_view(),
            other_environment: self.other_environment.deep_view(),
        }
    }
}

impl DeepView for ActionParameters {
    type V = ActionParametersView;

    open spec fn deep_view(&self) -> ActionParametersView {
        self.view()
    }
}

impl Replicate for ActionParameters {
    fn replicate(&self) -> (r: Self) {
        ActionParameters {
            application: self.application.replicate(),
            application_arguments: self.application_arguments.replicate(),
            project_path: self.project_path.replicate(),
            command: self.command.replicate(),
            container: self.container.replicate(),
            compose: self.compose.replicate(),
            emulator: self.emulator.replicate(),
            workspace_id: self.workspace_id.replicate(),
            other_environment: self.other_environment.replicate(),
        }
    }
}

/// An action of an environment.
#[derive(Debug, Clone, PartialEq, Eq)]
pub struct ActionSpec {
    pub id: ActionId,
    pub kind: ActionKind,
    pub parameters: ActionParameters,
    pub execution_mode: Option<ExecutionMode>,
    pub working_directory: Option<String>,
    pub timeout: Option<TimeoutSpec>,
    pub readiness_checks: Vec<ReadinessCheck>,
    pub cleanup_policy: CleanupPolicy,
    pub desktop_workspace: Option<String>,
    pub resolved_environment: Option<EnvironmentSlug>,
    pub resolved_workspace_target: Option<WorkspaceTarget>,
    pub resolved_tiling: Option<TilingPreference>,
}

/// What a `ActionSpec` stands for.
#[verifier::ext_equal]
pub struct ActionSpecView {
    pub id: Seq<char>,
    pub kind: ActionKind,
    pub parameters: ActionParametersView,
    pub execution_mode: Option<ExecutionMode>,
    pub working_directory: Option<Seq<char>>,
    pub timeout: Option<TimeoutSpecView>,
    pub readiness_checks: Seq<ReadinessCheckView>,
    pub cleanup_policy: CleanupPolicy,
    pub desktop_workspace: Option<Seq<char>>,
    pub resolved_environment: Option<Seq<char>>,
    pub resolved_workspace_target: Option<WorkspaceTargetView>,
    pub resolved_tiling: Option<TilingPreference>,
}

impl View for ActionSpec {
    type V = ActionSpecView;

    open spec fn view(&self) -> ActionSpecView {
        ActionSpecView {
            id: self.id.deep_view(),
            kind: self.kind.deep_view(),
            parameters: self.parameters.deep_view(),
            execution_mode: self.execution_mode.deep_view(),
            working_directory: self.working_directory.deep_view(),
            timeout: self.timeout.deep_view(),
            readiness_checks: self.readiness_checks.deep_view(),
            cleanup_policy: self.cleanup_policy.deep_view(),
            desktop_workspace: self.desktop_workspace.deep_view(),
            resolved_environment: self.resolved_environment.deep_view(),
            resolved_workspace_target: self.resolved_workspace_target.deep_view(),
            resolved_tiling: self.resolved_tiling.deep_view(),
        }
    }
}

impl DeepView for ActionSpec {
    type V = ActionSpecView;

    open spec fn deep_view(&self) -> ActionSpecView {
        self.view()
    }
}

impl Replicate for ActionSpec {
    fn replicate(&self) -> (r: Self) {
        ActionSpec {
            id: self.id.replicate(),
            kind: self.kind.replicate(),
            parameters: self.parameters.replicate(),
            execution_mode: self.execution_mode.replicate(),
            working_directory: self.working_directory.replicate(),
            timeout: self.timeout.replicate(),
            readiness_checks: self.readiness_checks.replicate(),
            cleanup_policy: self.cleanup_policy.replicate(),
            desktop_workspace: self.desktop_workspace.replicate(),
            resolved_environment: self.resolved_environment.replicate(),
            resolved_workspace_target: self.resolved_workspace_target.replicate(),
            resolved_tiling: self.resolved_tiling.replicate(),
        }
    }
}


impl OwnershipStatus {
    /// The environment owns what its current run has created.
    pub open spec fn owned(self) -> bool {
        self == OwnershipStatus::CreatedByCurrentRun
    }

    /// Whether the environment owns the resource.
    pub fn is_environment_owned(self) -> (r: bool)
        ensures
            r == self.owned(),
    {
        self == OwnershipStatus::CreatedByCurrentRun
    }
}

impl ActionKind {
    /// The key under which the handler of this kind is registered.
    pub open spec fn key_text(self) -> Seq<char> {
        match self {
            ActionKind::ConfigureTiling => "configure_tiling"@,
            ActionKind::OpenApplication => "open_application"@,
            ActionKind::OpenProject => "open_project"@,
            ActionKind::OpenProjectWithCursor => "open_project_with_cursor"@,
            ActionKind::OpenProjectWithVsCode => "open_project_with_vs_code"@,
            ActionKind::RunCommand => "run_command"@,
            ActionKind::StartAndroidEmulator => "start_android_emulator"@,
            ActionKind::StartCompose => "start_compose"@,
            ActionKind::StartContainer => "start_container"@,
            ActionKind::StartOtherEnvironment => "start_other_environment"@,
            ActionKind::StartService => "start_service"@,
        }
    }

    /// The key under which the handler of this kind is registered.
    pub fn key(self) -> (r: &'static str)
        ensures
            r@ == self.key_text(),
    {
        match self {
            ActionKind::ConfigureTiling => "configure_tiling",
            ActionKind::OpenApplication => "open_application",
            ActionKind::OpenProject => "open_project",
            ActionKind::OpenProjectWithCursor => "open_project_with_cursor",
            ActionKind::OpenProjectWithVsCode => "open_project_with_vs_code",
            ActionKind::RunCommand => "run_command",
            ActionKind::StartAndroidEmulator => "start_android_emulator",
            ActionKind::StartCompose => "start_compose",
            ActionKind::StartContainer => "start_container",
            ActionKind::StartOtherEnvironment => "start_other_environment",
            ActionKind::StartService => "start_service",
        }
    }
}

/// The error of an identity that holds no visible character.
pub open spec fn blank_identity_error() -> WorkstateErrorView {
    error_of(ErrorCategory::Domain, "resource identity must not be blank"@)
}

/// The identity of a resource, where it holds a visible character.
pub open spec fn identity_of(kind: ResourceKind, stable_identity: Seq<char>) -> Result<
    ResourceIdentityView,
    WorkstateErrorView,
> {
    if is_blank(stable_identity) {
        Err(blank_identity_error())
    } else {
        Ok(ResourceIdentityView { kind, stable_identity })
    }
}

impl ResourceKind {
    pub open spec fn label_text(self) -> Seq<char> {
        match self {
            ResourceKind::AndroidEmulator => "android_emulator"@,
            ResourceKind::DesktopWindow => "desktop_window"@,
            ResourceKind::DesktopWorkspace => "desktop_workspace"@,
            ResourceKind::DockerCompose => "docker_compose"@,
            ResourceKind::DockerContainer => "docker_container"@,
            ResourceKind::DockerDesktop => "docker_desktop"@,
            ResourceKind::Environment => "environment"@,
            ResourceKind::TmuxSession => "tmux_session"@,
            ResourceKind::TmuxWindow => "tmux_window"@,
        }
    }

    /// The name of the kind in messages.
    pub fn label(self) -> (r: &'static str)
        ensures
            r@ == self.label_text(),
    {
        match self {
            ResourceKind::AndroidEmulator => "android_emulator",
            ResourceKind::DesktopWindow => "desktop_window",
            ResourceKind::DesktopWorkspace => "desktop_workspace",
            ResourceKind::DockerCompose => "docker_compose",
            ResourceKind::DockerContainer => "docker_container",
            ResourceKind::DockerDesktop => "docker_desktop",
            ResourceKind::Environment => "environment",
            ResourceKind::TmuxSession => "tmux_session",
            ResourceKind::TmuxWindow => "tmux_window",
        }
    }
}

impl ResourceIdentity {
    /// The identity of a resource; one that holds no visible character is refused.
    pub fn new(kind: ResourceKind, stable_identity: String) -> (r: Result<Self, WorkstateError>)
        ensures
            seen(r) == identity_of(kind, stable_identity@),
    {
        if text_trim(stable_identity.as_str()).as_str().is_empty() {
            Err(WorkstateError::new(ErrorCategory::Domain, "resource identity must not be blank"))
        } else {
            Ok(ResourceIdentity { kind, stable_identity })
        }
    }

    /// The kind and the identity as one text.
    pub fn to_text(&self) -> (r: String)
        ensures
            r@ == self.kind.label_text() + ":"@ + self.stable_identity@,
    {
        join3(self.kind.label(), ":", self.stable_identity.as_str())
    }
}

impl ResourceRecordView {
    /// A resource may be taken down where the environment owns it and its action does not keep it.
    pub open spec fn cleanup_candidate(self) -> bool {
        self.ownership.owned() && self.cleanup_policy != CleanupPolicy::Preserve
    }

    /// The record with one more metadata entry.
    pub open spec fn noting(self, key: Seq<char>, value: Seq<char>) -> ResourceRecordView {
        ResourceRecordView {
            integration_metadata: self.integration_metadata.insert(key, value),
            ..self
        }
    }

    /// The metadata entry under `key`.
    pub open spec fn note(self, key: Seq<char>) -> Option<Seq<char>> {
        if self.integration_metadata.contains_key(key) {
            Some(self.integration_metadata[key])
        } else {
            None
        }
    }
}

/// A record of an action's resource without metadata.
pub open spec fn record_of(
    resource: ResourceIdentityView,
    ownership: OwnershipStatus,
    action_id: Seq<char>,
    observed_before: bool,
    cleanup_policy: CleanupPolicy,
) -> ResourceRecordView {
    ResourceRecordView {
        resource,
        ownership,
        action_id: Some(action_id),
        observed_before,
        cleanup_policy,
        integration_metadata: Map::empty(),
    }
}

impl ResourceRecord {
    /// A record without metadata that belongs to no action yet.
    pub fn new(resource: ResourceIdentity, ownership: OwnershipStatus) -> (r: Self)
        ensures
            r@ == (ResourceRecordView {
                resource: resource@,
                ownership,
                action_id: None,
                observed_before: false,
                cleanup_policy: CleanupPolicy::OwnedOnly,
                integration_metadata: Map::empty(),
            }),
    {
        ResourceRecord {
            resource,
            ownership,
            action_id: None,
            observed_before: false,
            cleanup_policy: CleanupPolicy::OwnedOnly,
            integration_metadata: TextMap::new(),
        }
    }

    /// A record of an action's resource without metadata.
    pub fn of_action(
        resource: ResourceIdentity,
        ownership: OwnershipStatus,
        action_id: &str,
        observed_before: bool,
        cleanup_policy: CleanupPolicy,
    ) -> (r: Self)
        ensures
            r@ == record_of(resource@, ownership, action_id@, observed_before, cleanup_policy),
    {
        ResourceRecord {
            resource,
            ownership,
            action_id: Some(action_id.to_owned()),
            observed_before,
            cleanup_policy,
            integration_metadata: TextMap::new(),
        }
    }

    /// Adds a metadata entry.
    pub fn note(&mut self, key: &str, value: &str)
        ensures
            final(self)@ == old(self)@.noting(key@, value@),
    {
        self.integration_metadata.insert(key.to_owned(), value.to_owned());
    }

    /// Whether the resource may be taken down.
    pub fn is_cleanup_candidate(&self) -> (r: bool)
        ensures
            r == self@.cleanup_candidate(),
    {
        self.ownership.is_environment_owned() && self.cleanup_policy != CleanupPolicy::Preserve
    }
}

/// The record of a change by an action to a resource, which its handler can undo.
pub open spec fn mutation_of(
    target: Seq<char>,
    action_id: Seq<char>,
    resource: ResourceIdentityView,
    previous_value: Option<Seq<char>>,
    applied_value: Seq<char>,
    cleanup_policy: CleanupPolicy,
) -> Result<MutationRecordView, WorkstateErrorView> {
    if is_blank(target) {
        Err(error_of(ErrorCategory::Domain, "mutation target must not be blank"@))
    } else {
        Ok(
            MutationRecordView {
                target,
                action_id: Some(action_id),
                resource: Some(resource),
                previous_value,
                applied_value: Some(applied_value),
                ownership: OwnershipStatus::CreatedByCurrentRun,
                compensation: CompensationOperation::Handler,
                cleanup_policy,
            },
        )
    }
}

impl MutationRecord {
    /// The record of a change by an action to a resource; a target without a visible character is
    /// refused.
    pub fn of_action(
        target: String,
        action_id: &str,
        resource: ResourceIdentity,
        previous_value: Option<String>,
        applied_value: String,
        cleanup_policy: CleanupPolicy,
    ) -> (r: Result<Self, WorkstateError>)
        ensures
            seen(r) == mutation_of(
                target@,
                action_id@,
                resource@,
                previous_value.deep_view(),
                applied_value@,
                cleanup_policy,
            ),
    {
        if text_trim(target.as_str()).as_str().is_empty() {
            return Err(
                WorkstateError::new(ErrorCategory::Domain, "mutation target must not be blank"),
            );
        }
        Ok(
            MutationRecord {
                target,
                action_id: Some(action_id.to_owned()),
                resource: Some(resource),
                previous_value,
                applied_value: Some(applied_value),
                ownership: OwnershipStatus::CreatedByCurrentRun,
                compensation: CompensationOperation::Handler,
                cleanup_policy,
            },
        )
    }
}

/// The resources of a kind that may be taken down, in their order.
pub open spec fn owned_of_kind(resources: Seq<ResourceRecordView>, kind: ResourceKind) -> Seq<
    ResourceRecordView,
>
    decreases resources.len(),
{
    if resources.len() == 0 {
        Seq::empty()
    } else {
        let earlier = owned_of_kind(resources.drop_last(), kind);
        if resources.last().resource.kind == kind && resources.last().cleanup_candidate() {
            earlier.push(resources.last())
        } else {
            earlier
        }
    }
}

/// The resources of a kind that may be taken down, in their order.
pub fn owned_resources(resources: &Vec<ResourceRecord>, kind: ResourceKind) -> (r: Vec<
    ResourceRecord,
>)
    ensures
        r.deep_view() == owned_of_kind(resources.deep_view(), kind),
{
    let ghost all = resources.deep_view();
    let mut owned: Vec<ResourceRecord> = empty_list();
    let mut i: usize = 0;
    assert(all.take(0) =~= Seq::<ResourceRecordView>::empty());
    while i < resources.len()
        invariant
            i <= resources@.len(),
            all == resources.deep_view(),
            owned.deep_view() == owned_of_kind(all.take(i as int), kind),
        decreases resources@.len() - i,
    {
        assert(all[i as int] == resources@[i as int]@);
        assert(all.take(i as int + 1).drop_last() =~= all.take(i as int));
        if resources[i].resource.kind == kind && resources[i].is_cleanup_candidate() {
            append(&mut owned, resources[i].replicate());
        }
        i = i + 1;
    }
    assert(all.take(i as int) =~= all);
    owned
}

/// Each of the resources that may be taken down is of the kind, and belongs to the environment.
pub proof fn law_only_owned_resources(
    resources: Seq<ResourceRecordView>,
    kind: ResourceKind,
    i: int,
)
    requires
        0 <= i < owned_of_kind(resources, kind).len(),
    ensures
        owned_of_kind(resources, kind)[i].resource.kind == kind,
        owned_of_kind(resources, kind)[i].cleanup_candidate(),
        resources.contains(owned_of_kind(resources, kind)[i]),
    decreases resources.len(),
{
    let earlier = owned_of_kind(resources.drop_last(), kind);
    if i < earlier.len() {
        law_only_owned_resources(resources.drop_last(), kind, i);
        let at = choose|j: int|
            0 <= j < resources.drop_last().len() && resources.drop_last()[j] == earlier[i];
        assert(resources[at] == earlier[i]);
    } else {
        assert(resources[resources.len() - 1] == resources.last());
    }
}

/// What was read of a command line: the words that are complete, the one that is being read, the quote
/// that is open, and whether the next character stands for itself.
pub struct ArgvRead {
    pub words: Seq<Seq<char>>,
    pub current: Option<Seq<char>>,
    pub quote: Option<char>,
    pub escaped: bool,
}

impl ArgvRead {
    /// The word that is being read, as far as it is known.
    pub open spec fn word(self) -> Seq<char> {
        match self.current {
            Some(word) => word,
            None => Seq::empty(),
        }
    }

    /// One more character. Words stand between white space; quotes keep it, and a backslash takes the
    /// next character as it is, outside single quotes.
    pub open spec fn reading(self, c: char) -> ArgvRead {
        if self.escaped {
            ArgvRead { current: Some(self.word().push(c)), escaped: false, ..self }
        } else if self.quote is Some {
            if self.quote == Some(c) {
                ArgvRead { quote: None, ..self }
            } else if c == '\\' && self.quote == Some('"') {
                ArgvRead { escaped: true, ..self }
            } else {
                ArgvRead { current: Some(self.word().push(c)), ..self }
            }
        } else if c == '\\' {
            ArgvRead { current: Some(self.word()), escaped: true, ..self }
        } else if c == '"' || c == '\'' {
            ArgvRead { current: Some(self.word()), quote: Some(c), ..self }
        } else if is_white(c) {
            match self.current {
                Some(word) => ArgvRead { words: self.words.push(word), current: None, ..self },
                None => self,
            }
        } else {
            ArgvRead { current: Some(self.word().push(c)), ..self }
        }
    }
}

/// What is read of a command line.
pub open spec fn argv_read(line: Seq<char>) -> ArgvRead
    decreases line.len(),
{
    if line.len() == 0 {
        ArgvRead { words: Seq::empty(), current: None, quote: None, escaped: false }
    } else {
        argv_read(line.drop_last()).reading(line.last())
    }
}

/// The words of a command line; none where a quote or an escape is left open.
pub open spec fn argv_words(line: Seq<char>) -> Option<Seq<Seq<char>>> {
    let read = argv_read(line);
    if read.quote is Some || read.escaped {
        None
    } else {
        match read.current {
            Some(word) => Some(read.words.push(word)),
            None => Some(read.words),
        }
    }
}

/// The words of a command line; none where a quote or an escape is left open.
pub fn split_argv(line: &str) -> (r: Option<Vec<String>>)
    ensures
        r.deep_view() == argv_words(line@),
{
    let chars = chars_of(line);
    let mut words: Vec<String> = empty_list();
    let mut current: Option<String> = None;
    let mut quote: Option<char> = None;
    let mut escaped: bool = false;
    let mut i: usize = 0;
    assert(line@.take(0) =~= Seq::<char>::empty());
    while i < chars.len()
        invariant
            i <= chars@.len(),
            chars@ == line@,
            argv_read(line@.take(i as int)) == (ArgvRead {
                words: words.deep_view(),
                current: current.deep_view(),
                quote,
                escaped,
            }),
        decreases chars@.len() - i,
    {
        assert(line@.take(i as int + 1).drop_last() =~= line@.take(i as int));
        let c = chars[i];
        let mut kept: bool = false;
        if escaped {
            escaped = false;
            kept = true;
        } else if quote.is_some() {
            if quote == Some(c) {
                quote = None;
            } else if c == '\\' && quote == Some('"') {
                escaped = true;
            } else {
                kept = true;
            }
        } else if c == '\\' {
            escaped = true;
            if current.is_none() {
                current = Some(String::new());
            }
        } else if c == '"' || c == '\'' {
            quote = Some(c);
            if current.is_none() {
                current = Some(String::new());
            }
        } else if char_is_white(c) {
            if let Some(word) = current {
                append(&mut words, word);
            }
            current = None;
        } else {
            kept = true;
        }
        if kept {
            let mut word = match current {
                Some(word) => word,
                None => String::new(),
            };
            word.push(c);
            current = Some(word);
        }
        i = i + 1;
    }
    assert(line@.take(i as int) =~= line@);
    if quote.is_some() || escaped {
        return None;
    }
    if let Some(word) = current {
        append(&mut words, word);
    }
    Some(words)
}

/// The command that a line stands for: its first word is the program.
pub open spec fn command_read(line: Seq<char>) -> Option<CommandSpecView> {
    match argv_words(line) {
        Some(words) if words.len() > 0 => Some(
            CommandSpecView {
                program: words[0],
                arguments: words.drop_first(),
                shell: false,
                environment: Map::empty(),
            },
        ),
        _ => None,
    }
}

impl CommandSpec {
    /// The command that a line stands for, where its quotes are closed and it holds a word.
    pub fn from_argv_line(line: &str) -> (r: Option<Self>)
        ensures
            r.deep_view() == command_read(line@),
    {
        match split_argv(line) {
            None => None,
            Some(words) => {
                if words.len() == 0 {
                    return None;
                }
                assert(words.deep_view()[0] == words@[0]@);
                let mut command = CommandSpec::new(words[0].clone());
                command.arguments = rest(&words);
                Some(command)
            },
        }
    }
}

impl CommandSpec {
    /// A command without arguments.
    pub fn new(program: String) -> (r: Self)
        ensures
            r@ == (CommandSpecView {
                program: program@,
                arguments: Seq::empty(),
                shell: false,
                environment: Map::empty(),
            }),
    {
        CommandSpec {
            program,
            arguments: empty_list(),
            shell: false,
            environment: TextMap::new(),
        }
    }

    /// The program and its arguments on one line.
    pub fn display_line(&self) -> (r: String)
        ensures
            r@ == command_line(self@),
    {
        let mut words = list_of(self.program.clone());
        append_all(&mut words, self.arguments.replicate());
        text_join(&words, " ")
    }
}

/// The program and its arguments on one line.
pub open spec fn command_line(command: CommandSpecView) -> Seq<char> {
    joined(seq![command.program] + command.arguments, " "@)
}

/// The target that an action names: its resolved target, else the workspace of its parameters, else
/// the workspace of the action.
pub open spec fn named_target(action: ActionSpecView) -> Option<WorkspaceTargetView> {
    match (
        action.resolved_workspace_target,
        action.parameters.workspace_id,
        action.desktop_workspace,
    ) {
        (Some(target), _, _) => Some(target),
        (None, Some(id), _) | (None, None, Some(id)) => Some(
            WorkspaceTargetView::Existing { reference: WorkspaceReferenceView::Identifier(id) },
        ),
        (None, None, None) => None,
    }
}

/// A target that names no workspace at all.
pub open spec fn places_window(target: Option<WorkspaceTargetView>) -> bool {
    target matches Some(wanted) && wanted !is Nowhere
}

impl ActionSpec {
    /// The target that the action names.
    pub fn workspace_target(&self) -> (r: Option<WorkspaceTarget>)
        ensures
            r.deep_view() == named_target(self@),
    {
        if let Some(target) = &self.resolved_workspace_target {
            return Some(target.replicate());
        }
        if let Some(id) = &self.parameters.workspace_id {
            return Some(
                WorkspaceTarget::Existing { reference: WorkspaceReference::Identifier(id.clone()) },
            );
        }
        match &self.desktop_workspace {
            Some(id) => Some(
                WorkspaceTarget::Existing { reference: WorkspaceReference::Identifier(id.clone()) },
            ),
            None => None,
        }
    }
}

/// Whether a target asks for a workspace.
pub fn target_places_window(target: &Option<WorkspaceTarget>) -> (r: bool)
    ensures
        r == places_window(target.deep_view()),
{
    match target {
        Some(WorkspaceTarget::Nowhere) | None => false,
        Some(_) => true,
    }
}

proof fn lemma_owned_is_listed(resources: Seq<ResourceRecordView>, kind: ResourceKind, i: int)
    requires
        0 <= i < resources.len(),
        resources[i].resource.kind == kind,
        resources[i].ownership == OwnershipStatus::CreatedByCurrentRun,
        resources[i].cleanup_policy != CleanupPolicy::Preserve,
    ensures
        owned_of_kind(resources, kind).contains(resources[i]),
    decreases resources.len(),
{
    let front = resources.drop_last();
    let earlier = owned_of_kind(front, kind);
    let all = owned_of_kind(resources, kind);
    if i < front.len() {
        assert(front[i] == resources[i]);
        lemma_owned_is_listed(front, kind, i);
        let k = choose|k: int| 0 <= k < earlier.len() && earlier[k] == resources[i];
        assert(all[k] == resources[i]);
    } else {
        assert(all[earlier.len() as int] == resources[i]);
    }
}

/// A resource is up for cleaning exactly where it was created by this run and is not to be preserved;
/// every such resource of a kind is taken up, and no other one is.
pub proof fn law_every_owned_resource_is_taken_up(
    resources: Seq<ResourceRecordView>,
    kind: ResourceKind,
)
    ensures
        forall|i: int|
            0 <= i < resources.len() ==> ((#[trigger] resources[i]).resource.kind == kind
                && resources[i].ownership == OwnershipStatus::CreatedByCurrentRun
                && resources[i].cleanup_policy != CleanupPolicy::Preserve ==> owned_of_kind(
                resources,
                kind,
            ).contains(resources[i])),
        forall|k: int|
            0 <= k < owned_of_kind(resources, kind).len() ==> (#[trigger] owned_of_kind(
                resources,
                kind,
            )[k]).ownership == OwnershipStatus::CreatedByCurrentRun && owned_of_kind(
                resources,
                kind,
            )[k].cleanup_policy != CleanupPolicy::Preserve && owned_of_kind(
                resources,
                kind,
            )[k].resource.kind == kind && resources.contains(owned_of_kind(resources, kind)[k]),
{
    assert forall|i: int| 0 <= i < resources.len() implies ((
    #[trigger] resources[i]).resource.kind == kind && resources[i].ownership
        == OwnershipStatus::CreatedByCurrentRun && resources[i].cleanup_policy
        != CleanupPolicy::Preserve ==> owned_of_kind(resources, kind).contains(resources[i])) by {
        if resources[i].resource.kind == kind && resources[i].ownership
            == OwnershipStatus::CreatedByCurrentRun && resources[i].cleanup_policy
            != CleanupPolicy::Preserve {
            lemma_owned_is_listed(resources, kind, i);
        }
    }
    assert forall|k: int| 0 <= k < owned_of_kind(resources, kind).len() implies (
    #[trigger] owned_of_kind(resources, kind)[k]).ownership == OwnershipStatus::CreatedByCurrentRun
        && owned_of_kind(resources, kind)[k].cleanup_policy != CleanupPolicy::Preserve
        && owned_of_kind(resources, kind)[k].resource.kind == kind && resources.contains(
        owned_of_kind(resources, kind)[k],
    ) by {
        law_only_owned_resources(resources, kind, k);
    }
}

/// What a note says is read back under its key, and other notes stay what they are.
pub proof fn law_notes_are_read_back(
    record: ResourceRecordView,
    key: Seq<char>,
    value: Seq<char>,
    other: Seq<char>,
)
    ensures
        record.noting(key, value).note(key) == Some(value),
        other != key ==> record.noting(key, value).note(other) == record.note(other),
        record.noting(key, value).resource == record.resource,
        record.noting(key, value).ownership == record.ownership,
        record.noting(key, value).cleanup_policy == record.cleanup_policy,
        record.noting(key, value).action_id == record.action_id,
        record.noting(key, value).observed_before == record.observed_before,
{
}

/// A new record says whose resource it is and what becomes of it; a change that is recorded keeps what
/// was there before and what is there now, for whoever is to undo it.
pub proof fn law_records_keep_what_they_are_given(
    resource: ResourceIdentityView,
    ownership: OwnershipStatus,
    action_id: Seq<char>,
    observed_before: bool,
    cleanup_policy: CleanupPolicy,
    target: Seq<char>,
    previous_value: Option<Seq<char>>,
    applied_value: Seq<char>,
)
    ensures
        ({
            let record = record_of(resource, ownership, action_id, observed_before, cleanup_policy);
            &&& record.resource == resource && record.ownership == ownership && record.action_id
                == Some(action_id) && record.observed_before == observed_before
                && record.cleanup_policy == cleanup_policy
            &&& forall|key: Seq<char>| #[trigger] record.note(key) is None
        }),
        mutation_of(target, action_id, resource, previous_value, applied_value, cleanup_policy)
            matches Ok(mutation) ==> mutation.target == target && mutation.action_id == Some(
            action_id,
        ) && mutation.resource == Some(resource) && mutation.previous_value == previous_value
            && mutation.applied_value == Some(applied_value) && mutation.cleanup_policy
            == cleanup_policy && mutation.ownership == OwnershipStatus::CreatedByCurrentRun
            && mutation.compensation == CompensationOperation::Handler,
        trim(target).len() > 0 <==> mutation_of(
            target,
            action_id,
            resource,
            previous_value,
            applied_value,
            cleanup_policy,
        ) is Ok,
{
}

/// Where a window is to go: to the target that was resolved for the action, else to the workspace that
/// its parameters name, else to that of the desktop; and nowhere only where none of them says so.
pub proof fn law_nearest_target_counts(action: ActionSpecView)
    ensures
        action.resolved_workspace_target matches Some(target) ==> named_target(action) == Some(
            target,
        ),
        action.resolved_workspace_target is None ==> (action.parameters.workspace_id matches Some(
            id,
        ) ==> named_target(action) == Some(
            WorkspaceTargetView::Existing { reference: WorkspaceReferenceView::Identifier(id) },
        )),
        action.resolved_workspace_target is None && action.parameters.workspace_id is None ==> (
        action.desktop_workspace matches Some(id) ==> named_target(action) == Some(
            WorkspaceTargetView::Existing { reference: WorkspaceReferenceView::Identifier(id) },
        )),
        named_target(action) is None <==> action.resolved_workspace_target is None
            && action.parameters.workspace_id is None && action.desktop_workspace is None,
        places_window(named_target(action)) <==> named_target(action) is Some && !(named_target(
            action,
        )->Some_0 is Nowhere),
{
}

} // verus!
