//! Bringing a container to run: what is asked of the world next, for each of its replies, and how what
//! was done is undone after a failure.
use vstd::prelude::*;
use vstd::string::*;
use crate::domain::{OwnershipStatus, ResourceRecord, ResourceRecordView};
use crate::error::{
    error_of, rendered, seen, ErrorCategory, WorkstateError, WorkstateErrorView,
};
use crate::integrations::docker::backend::{
    asks_readiness, container_arguments, container_found, container_logs, create_read,
    law_described_container_is_created,
    container_not_ready_error, create_arguments, docker_identity_from_output, engine_lost,
    engine_unavailable_after_mutation, find_container, has_observable_readiness_checks,
    inspect_arguments, is_already_stopped, is_missing_container, log_arguments, logs_found,
    not_ready_error, printed_identity, says_already_stopped, says_missing_container,
};
use crate::integrations::docker::errors::{
    conflict, conflict_error, docker_error, docker_failure, missing_image, missing_image_error,
};
use crate::integrations::docker::models::{
    container_configuration_key, container_matches, container_record_with_cleanup,
    container_recorded, matches_request, request_key, snapshot_configuration_key, snapshot_key,
};
use crate::ports::{
    DockerContainerObservation, DockerContainerObservationView, DockerContainerRequest,
    DockerContainerRequestView, DockerContainerSnapshot, DockerContainerSnapshotView,
    DockerContainerStateView, DockerEnsureOutcome, DockerEnsureOutcomeView, DockerOperationStatus,
    ProcessOutput, ProcessOutputView,
};
use crate::text::{join3, joined, same_text, text_join};
use crate::values::{append, empty_list, text_list2, text_list3, Replicate};

verus! {

/// How a container is taken down.
#[derive(Debug, Clone, Copy, PartialEq, Eq, Structural)]
pub enum TakeDown {
    Remove,
    Stop,
}

impl DeepView for TakeDown {
    type V = TakeDown;

    open spec fn deep_view(&self) -> TakeDown {
        *self
    }
}

impl Replicate for TakeDown {
    fn replicate(&self) -> (r: Self) {
        *self
    }
}

/// A container that was created or started so far.
#[derive(Debug, Clone, PartialEq, Eq)]
pub struct PartialContainer {
    pub identity: String,
    pub take_down: TakeDown,
}

/// What a `PartialContainer` stands for.
#[verifier::ext_equal]
pub struct PartialContainerView {
    pub identity: Seq<char>,
    pub take_down: TakeDown,
}

impl View for PartialContainer {
    type V = PartialContainerView;

    open spec fn view(&self) -> PartialContainerView {
        PartialContainerView {
            identity: self.identity.deep_view(),
            take_down: self.take_down.deep_view(),
        }
    }
}

impl DeepView for PartialContainer {
    type V = PartialContainerView;

    open spec fn deep_view(&self) -> PartialContainerView {
        self.view()
    }
}

impl Replicate for PartialContainer {
    fn replicate(&self) -> (r: Self) {
        PartialContainer {
            identity: self.identity.replicate(),
            take_down: self.take_down.replicate(),
        }
    }
}

/// What the work on a container is waiting for.
#[derive(Debug)]
pub enum ContainerPhase {
    Engine,
    Before,
    Mounts { image: String },
    Create,
    Created { printed: bool },
    Start { fresh: bool },
    StartLogs { output: ProcessOutput },
    Started { fresh: bool },
    Logs { snapshot: DockerContainerSnapshot },
    Checks { outcome: DockerEnsureOutcome },
    CleanupInspect { error: WorkstateError },
    CleanupRun { error: WorkstateError, take_down: TakeDown },
    CleanupEngine { error: WorkstateError, diagnostics: Vec<String> },
    Over,
}

/// What a `ContainerPhase` stands for.
#[verifier::ext_equal]
pub enum ContainerPhaseView {
    Engine,
    Before,
    Mounts { image: Seq<char> },
    Create,
    Created { printed: bool },
    Start { fresh: bool },
    StartLogs { output: ProcessOutputView },
    Started { fresh: bool },
    Logs { snapshot: DockerContainerSnapshotView },
    Checks { outcome: DockerEnsureOutcomeView },
    CleanupInspect { error: WorkstateErrorView },
    CleanupRun { error: WorkstateErrorView, take_down: TakeDown },
    CleanupEngine { error: WorkstateErrorView, diagnostics: Seq<Seq<char>> },
    Over,
}

impl View for ContainerPhase {
    type V = ContainerPhaseView;

    open spec fn view(&self) -> ContainerPhaseView {
        match self {
            ContainerPhase::Engine => ContainerPhaseView::Engine,
            ContainerPhase::Before => ContainerPhaseView::Before,
            ContainerPhase::Mounts { image } => ContainerPhaseView::Mounts { image: image.deep_view() },
            ContainerPhase::Create => ContainerPhaseView::Create,
            ContainerPhase::Created { printed } => ContainerPhaseView::Created { printed: printed.deep_view() },
            ContainerPhase::Start { fresh } => ContainerPhaseView::Start { fresh: fresh.deep_view() },
            ContainerPhase::StartLogs { output } => ContainerPhaseView::StartLogs { output: output.deep_view() },
            ContainerPhase::Started { fresh } => ContainerPhaseView::Started { fresh: fresh.deep_view() },
            ContainerPhase::Logs { snapshot } => ContainerPhaseView::Logs { snapshot: snapshot.deep_view() },
            ContainerPhase::Checks { outcome } => ContainerPhaseView::Checks { outcome: outcome.deep_view() },
            ContainerPhase::CleanupInspect { error } => ContainerPhaseView::CleanupInspect { error: error.deep_view() },
            ContainerPhase::CleanupRun { error, take_down } => ContainerPhaseView::CleanupRun { error: error.deep_view(), take_down: take_down.deep_view() },
            ContainerPhase::CleanupEngine { error, diagnostics } => ContainerPhaseView::CleanupEngine { error: error.deep_view(), diagnostics: diagnostics.deep_view() },
            ContainerPhase::Over => ContainerPhaseView::Over,
        }
    }
}

impl DeepView for ContainerPhase {
    type V = ContainerPhaseView;

    open spec fn deep_view(&self) -> ContainerPhaseView {
        self.view()
    }
}

impl Replicate for ContainerPhase {
    fn replicate(&self) -> (r: Self) {
        match self {
            ContainerPhase::Engine => ContainerPhase::Engine,
            ContainerPhase::Before => ContainerPhase::Before,
            ContainerPhase::Mounts { image } => ContainerPhase::Mounts { image: image.replicate() },
            ContainerPhase::Create => ContainerPhase::Create,
            ContainerPhase::Created { printed } => ContainerPhase::Created { printed: printed.replicate() },
            ContainerPhase::Start { fresh } => ContainerPhase::Start { fresh: fresh.replicate() },
            ContainerPhase::StartLogs { output } => ContainerPhase::StartLogs { output: output.replicate() },
            ContainerPhase::Started { fresh } => ContainerPhase::Started { fresh: fresh.replicate() },
            ContainerPhase::Logs { snapshot } => ContainerPhase::Logs { snapshot: snapshot.replicate() },
            ContainerPhase::Checks { outcome } => ContainerPhase::Checks { outcome: outcome.replicate() },
            ContainerPhase::CleanupInspect { error } => ContainerPhase::CleanupInspect { error: error.replicate() },
            ContainerPhase::CleanupRun { error, take_down } => ContainerPhase::CleanupRun { error: error.replicate(), take_down: take_down.replicate() },
            ContainerPhase::CleanupEngine { error, diagnostics } => ContainerPhase::CleanupEngine { error: error.replicate(), diagnostics: diagnostics.replicate() },
            ContainerPhase::Over => ContainerPhase::Over,
        }
    }
}

/// The work on a container: what is asked for, what was done so far, and what it is waiting for.
#[derive(Debug)]
pub struct ContainerEnsure {
    pub request: DockerContainerRequest,
    pub engine_resources: Vec<ResourceRecord>,
    pub outputs: Vec<String>,
    pub partial: Option<PartialContainer>,
    pub phase: ContainerPhase,
}

/// What a `ContainerEnsure` stands for.
#[verifier::ext_equal]
pub struct ContainerEnsureView {
    pub request: DockerContainerRequestView,
    pub engine_resources: Seq<ResourceRecordView>,
    pub outputs: Seq<Seq<char>>,
    pub partial: Option<PartialContainerView>,
    pub phase: ContainerPhaseView,
}

impl View for ContainerEnsure {
    type V = ContainerEnsureView;

    open spec fn view(&self) -> ContainerEnsureView {
        ContainerEnsureView {
            request: self.request.deep_view(),
            engine_resources: self.engine_resources.deep_view(),
            outputs: self.outputs.deep_view(),
            partial: self.partial.deep_view(),
            phase: self.phase.deep_view(),
        }
    }
}

impl DeepView for ContainerEnsure {
    type V = ContainerEnsureView;

    open spec fn deep_view(&self) -> ContainerEnsureView {
        self.view()
    }
}

impl Replicate for ContainerEnsure {
    fn replicate(&self) -> (r: Self) {
        ContainerEnsure {
            request: self.request.replicate(),
            engine_resources: self.engine_resources.replicate(),
            outputs: self.outputs.replicate(),
            partial: self.partial.replicate(),
            phase: self.phase.replicate(),
        }
    }
}

/// What the world replied.
#[derive(Debug)]
pub enum ContainerEvent {
    EngineReady(DockerEnsureOutcome),
    Observed(DockerContainerObservation),
    MountsResolved(Vec<String>),
    Ran(ProcessOutput),
    ChecksPassed,
    ServicesStopped,
    Failed(WorkstateError),
}

/// What a `ContainerEvent` stands for.
#[verifier::ext_equal]
pub enum ContainerEventView {
    EngineReady(DockerEnsureOutcomeView),
    Observed(DockerContainerObservationView),
    MountsResolved(Seq<Seq<char>>),
    Ran(ProcessOutputView),
    ChecksPassed,
    ServicesStopped,
    Failed(WorkstateErrorView),
}

impl View for ContainerEvent {
    type V = ContainerEventView;

    open spec fn view(&self) -> ContainerEventView {
        match self {
            ContainerEvent::EngineReady(value) => ContainerEventView::EngineReady(value.deep_view()),
            ContainerEvent::Observed(value) => ContainerEventView::Observed(value.deep_view()),
            ContainerEvent::MountsResolved(value) => ContainerEventView::MountsResolved(value.deep_view()),
            ContainerEvent::Ran(value) => ContainerEventView::Ran(value.deep_view()),
            ContainerEvent::ChecksPassed => ContainerEventView::ChecksPassed,
            ContainerEvent::ServicesStopped => ContainerEventView::ServicesStopped,
            ContainerEvent::Failed(value) => ContainerEventView::Failed(value.deep_view()),
        }
    }
}

impl DeepView for ContainerEvent {
    type V = ContainerEventView;

    open spec fn deep_view(&self) -> ContainerEventView {
        self.view()
    }
}

/// What is asked of the world next.
#[derive(Debug)]
pub enum ContainerStep {
    EnsureEngine,
    Observe,
    ResolveMounts,
    Run { arguments: Vec<String>, in_directory: bool },
    CheckReadiness,
    StopServices(Vec<ResourceRecord>),
    Finish(DockerEnsureOutcome),
    Fail(WorkstateError),
    Idle,
}

/// What a `ContainerStep` stands for.
#[verifier::ext_equal]
pub enum ContainerStepView {
    EnsureEngine,
    Observe,
    ResolveMounts,
    Run { arguments: Seq<Seq<char>>, in_directory: bool },
    CheckReadiness,
    StopServices(Seq<ResourceRecordView>),
    Finish(DockerEnsureOutcomeView),
    Fail(WorkstateErrorView),
    Idle,
}

impl View for ContainerStep {
    type V = ContainerStepView;

    open spec fn view(&self) -> ContainerStepView {
        match self {
            ContainerStep::EnsureEngine => ContainerStepView::EnsureEngine,
            ContainerStep::Observe => ContainerStepView::Observe,
            ContainerStep::ResolveMounts => ContainerStepView::ResolveMounts,
            ContainerStep::Run { arguments, in_directory } => ContainerStepView::Run { arguments: arguments.deep_view(), in_directory: in_directory.deep_view() },
            ContainerStep::CheckReadiness => ContainerStepView::CheckReadiness,
            ContainerStep::StopServices(value) => ContainerStepView::StopServices(value.deep_view()),
            ContainerStep::Finish(value) => ContainerStepView::Finish(value.deep_view()),
            ContainerStep::Fail(value) => ContainerStepView::Fail(value.deep_view()),
            ContainerStep::Idle => ContainerStepView::Idle,
        }
    }
}

impl DeepView for ContainerStep {
    type V = ContainerStepView;

    open spec fn deep_view(&self) -> ContainerStepView {
        self.view()
    }
}

impl Replicate for ContainerStep {
    fn replicate(&self) -> (r: Self) {
        match self {
            ContainerStep::EnsureEngine => ContainerStep::EnsureEngine,
            ContainerStep::Observe => ContainerStep::Observe,
            ContainerStep::ResolveMounts => ContainerStep::ResolveMounts,
            ContainerStep::Run { arguments, in_directory } => ContainerStep::Run { arguments: arguments.replicate(), in_directory: in_directory.replicate() },
            ContainerStep::CheckReadiness => ContainerStep::CheckReadiness,
            ContainerStep::StopServices(value) => ContainerStep::StopServices(value.replicate()),
            ContainerStep::Finish(value) => ContainerStep::Finish(value.replicate()),
            ContainerStep::Fail(value) => ContainerStep::Fail(value.replicate()),
            ContainerStep::Idle => ContainerStep::Idle,
        }
    }
}

/// The work and what it asks of the world.
pub type ContainerMove = (ContainerEnsureView, ContainerStepView);

/// The name of an operation in records.
pub open spec fn operation_name(take_down: TakeDown) -> Seq<char> {
    match take_down {
        TakeDown::Remove => "remove"@,
        TakeDown::Stop => "stop"@,
    }
}

/// The arguments that take a container down.
pub open spec fn take_down_arguments(take_down: TakeDown, identity: Seq<char>) -> Seq<Seq<char>> {
    match take_down {
        TakeDown::Remove => seq!["rm"@, "--force"@, identity],
        TakeDown::Stop => seq!["stop"@, identity],
    }
}

/// The arguments that take a container down.
pub fn arguments_to_take_down(take_down: TakeDown, identity: &str) -> (r: Vec<String>)
    ensures
        r.deep_view() == take_down_arguments(take_down, identity@),
{
    match take_down {
        TakeDown::Remove => text_list3("rm", "--force", identity),
        TakeDown::Stop => text_list2("stop", identity),
    }
}

/// A container is down after the call: it succeeded, there is no such container, or it was to be
/// stopped and was stopped already.
pub open spec fn is_down(take_down: TakeDown, output: ProcessOutputView) -> bool {
    output.success() || says_missing_container(output) || (take_down == TakeDown::Stop
        && says_already_stopped(output))
}

/// Whether a container is down after the call.
pub fn was_taken_down(take_down: TakeDown, output: &ProcessOutput) -> (r: bool)
    ensures
        r == is_down(take_down, output@),
{
    output.succeeded() || is_missing_container(output) || (take_down == TakeDown::Stop
        && is_already_stopped(output))
}

/// What is to be done about a container that is to be taken down again.
pub enum TakeDownPlan {
    Done,
    Keep(String),
    Run(Vec<String>),
}

/// What a `TakeDownPlan` stands for.
pub enum TakeDownPlanView {
    Done,
    Keep(Seq<char>),
    Run(Seq<Seq<char>>),
}

impl View for TakeDownPlan {
    type V = TakeDownPlanView;

    open spec fn view(&self) -> TakeDownPlanView {
        match self {
            TakeDownPlan::Done => TakeDownPlanView::Done,
            TakeDownPlan::Keep(reason) => TakeDownPlanView::Keep(reason@),
            TakeDownPlan::Run(arguments) => TakeDownPlanView::Run(arguments.deep_view()),
        }
    }
}

/// A container is taken down only where it still is the one that is meant: the identity is its own
/// and, where a name is expected, so is the name. One that is absent, or does not run and was to be
/// stopped, needs nothing.
pub open spec fn take_down_plan(
    identity: Seq<char>,
    take_down: TakeDown,
    expected_name: Option<Seq<char>>,
    found: Option<DockerContainerSnapshotView>,
) -> TakeDownPlanView {
    match found {
        None => TakeDownPlanView::Done,
        Some(snapshot) => if snapshot.id != identity || (expected_name matches Some(name)
            && snapshot.name != name) {
            TakeDownPlanView::Keep(
                "preserved Docker container identity '"@ + identity
                    + "' because it no longer matches the original resource"@,
            )
        } else if take_down == TakeDown::Stop && snapshot.state
            != DockerContainerStateView::Running {
            TakeDownPlanView::Done
        } else {
            TakeDownPlanView::Run(take_down_arguments(take_down, identity))
        },
    }
}

/// What is to be done about a container that is to be taken down again.
pub fn plan_take_down(
    identity: &str,
    take_down: TakeDown,
    expected_name: Option<&str>,
    found: &Option<DockerContainerSnapshot>,
) -> (r: TakeDownPlan)
    ensures
        r@ == take_down_plan(identity@, take_down, expected_name.deep_view(), found.deep_view()),
{
    match found {
        None => TakeDownPlan::Done,
        Some(snapshot) => {
            let other_name = match expected_name {
                Some(name) => !same_text(snapshot.name.as_str(), name),
                None => false,
            };
            if !same_text(snapshot.id.as_str(), identity) || other_name {
                return TakeDownPlan::Keep(
                    join3(
                        "preserved Docker container identity '",
                        identity,
                        "' because it no longer matches the original resource",
                    ),
                );
            }
            if take_down == TakeDown::Stop && !snapshot.state.is_running() {
                return TakeDownPlan::Done;
            }
            TakeDownPlan::Run(arguments_to_take_down(take_down, identity))
        },
    }
}

/// The error of a container that could not be taken down again.
pub open spec fn take_down_failure(take_down: TakeDown, output: ProcessOutputView) -> WorkstateErrorView {
    docker_failure(
        match take_down {
            TakeDown::Stop => "stop partially started container"@,
            TakeDown::Remove => "remove partially created container"@,
        },
        output,
    )
}

/// The error of a container that could not be taken down again.
pub fn take_down_error(take_down: TakeDown, output: &ProcessOutput) -> (r: WorkstateError)
    ensures
        r@ == take_down_failure(take_down, output@),
{
    match take_down {
        TakeDown::Stop => docker_error("stop partially started container", output),
        TakeDown::Remove => docker_error("remove partially created container", output),
    }
}

/// An error with what undoing said.
pub open spec fn with_cleanup(error: WorkstateErrorView, diagnostics: Seq<Seq<char>>) -> WorkstateErrorView {
    error.with(
        "partial_cleanup"@,
        if diagnostics.len() == 0 {
            "completed"@
        } else {
            joined(diagnostics, "; "@)
        },
    )
}

/// An error with what undoing said.
pub fn note_cleanup(error: WorkstateError, diagnostics: &Vec<String>) -> (r: WorkstateError)
    ensures
        r@ == with_cleanup(error@, diagnostics.deep_view()),
{
    if diagnostics.len() == 0 {
        error.with_context("partial_cleanup", "completed")
    } else {
        error.with_context("partial_cleanup", text_join(diagnostics, "; ").as_str())
    }
}

/// The error of a container that could not be started, with the end of its log.
pub open spec fn start_failure(
    container_name: Seq<char>,
    output: ProcessOutputView,
    logs: Result<Option<Seq<char>>, WorkstateErrorView>,
) -> WorkstateErrorView {
    let error = docker_failure("start container"@, output).with("container_name"@, container_name);
    match logs {
        Ok(Some(logs)) => error.with("log_tail"@, logs),
        Ok(None) => error,
        Err(failure) => error.with("log_tail_error"@, rendered(failure)),
    }
}

fn start_error(
    container_name: &str,
    output: &ProcessOutput,
    logs: Result<Option<String>, WorkstateError>,
) -> (r: WorkstateError)
    ensures
        r@ == start_failure(container_name@, output@, seen(logs)),
{
    let error = docker_error("start container", output).with_context(
        "container_name",
        container_name,
    );
    match logs {
        Ok(Some(logs)) => error.with_context("log_tail", logs.as_str()),
        Ok(None) => error,
        Err(failure) => error.with_context("log_tail_error", failure.render().as_str()),
    }
}

/// The error of a container that is gone.
pub open spec fn gone_error(message: Seq<char>, container_name: Seq<char>) -> WorkstateErrorView {
    error_of(ErrorCategory::Integration, message).with("container_name"@, container_name)
}

impl ContainerEnsureView {
    pub open spec fn name(self) -> Seq<char> {
        self.request.specification.name
    }

    pub open spec fn waiting_for(self, phase: ContainerPhaseView) -> ContainerEnsureView {
        ContainerEnsureView { phase, ..self }
    }

    pub open spec fn saying(self, line: Seq<char>) -> ContainerEnsureView {
        ContainerEnsureView { outputs: self.outputs.push(line), ..self }
    }

    /// The work on a container that is to be taken down again in case of a failure.
    pub open spec fn holding(self, identity: Seq<char>, take_down: TakeDown) -> ContainerEnsureView {
        ContainerEnsureView {
            partial: Some(PartialContainerView { identity, take_down }),
            ..self
        }
    }

    /// The end of undoing: the services that were started for the engine are stopped, then the error
    /// is returned.
    pub open spec fn undone(self, error: WorkstateErrorView, diagnostics: Seq<Seq<char>>) -> ContainerMove {
        if self.engine_resources.len() == 0 {
            (
                self.waiting_for(ContainerPhaseView::Over),
                ContainerStepView::Fail(with_cleanup(error, diagnostics)),
            )
        } else {
            (
                self.waiting_for(ContainerPhaseView::CleanupEngine { error, diagnostics }),
                ContainerStepView::StopServices(self.engine_resources),
            )
        }
    }

    /// The beginning of undoing: the container that was created or started is looked at again.
    pub open spec fn failed(self, error: WorkstateErrorView) -> ContainerMove {
        match self.partial {
            None => self.undone(error, Seq::empty()),
            Some(partial) => (
                self.waiting_for(ContainerPhaseView::CleanupInspect { error }),
                ContainerStepView::Run {
                    arguments: seq![
                        "inspect"@,
                        "--format"@,
                        "{{json .}}"@,
                        partial.identity,
                    ],
                    in_directory: false,
                },
            ),
        }
    }

    /// The container runs as it should: it is recorded, and its readiness is checked where that is
    /// asked for.
    pub open spec fn runs(
        self,
        snapshot: DockerContainerSnapshotView,
        ownership: OwnershipStatus,
        status: DockerOperationStatus,
        operation: Option<TakeDown>,
        observed_before: bool,
    ) -> ContainerMove {
        let noted = match operation {
            Some(take_down) => Some(operation_name(take_down)),
            None => None,
        };
        match container_recorded(
            self.request.context,
            self.request,
            snapshot,
            ownership,
            observed_before,
            noted,
        ) {
            Err(error) => self.failed(error),
            Ok(record) => {
                let outcome = DockerEnsureOutcomeView {
                    status,
                    resources: self.engine_resources.push(record),
                    detail: None,
                    outputs: self.outputs.push(
                        if operation is Some {
                            "Docker container '"@ + self.name() + "' is running"@
                        } else {
                            "Docker container '"@ + self.name() + "' was already healthy"@
                        },
                    ),
                };
                if asks_readiness(self.request.readiness_checks) {
                    (
                        self.waiting_for(ContainerPhaseView::Checks { outcome }),
                        ContainerStepView::CheckReadiness,
                    )
                } else {
                    (
                        self.waiting_for(ContainerPhaseView::Over),
                        ContainerStepView::Finish(outcome),
                    )
                }
            },
        }
    }

    /// A container is started by its identity.
    pub open spec fn starting(self, identity: Seq<char>, fresh: bool) -> ContainerMove {
        (
            self.waiting_for(ContainerPhaseView::Start { fresh }),
            ContainerStepView::Run { arguments: seq!["start"@, identity], in_directory: true },
        )
    }

    /// The container is not configured as it should be; it is left alone.
    pub open spec fn conflicts(self, snapshot: DockerContainerSnapshotView) -> ContainerMove {
        self.failed(conflict_error(self.name(), request_key(self.request), snapshot_key(snapshot)))
    }

    /// After the first look: a missing container is created, one that runs is reused, and one that
    /// does not run is started.
    pub open spec fn after_before(self, observation: DockerContainerObservationView) -> ContainerMove {
        match observation {
            DockerContainerObservationView::Unavailable(engine) => self.failed(engine_lost(engine)),
            DockerContainerObservationView::Missing => match self.request.specification.image {
                None => self.failed(
                    missing_image_error(self.request.context.action_id, self.name()),
                ),
                Some(image) => if self.request.specification.mounts.len() == 0 {
                    (
                        self.waiting_for(ContainerPhaseView::Create),
                        ContainerStepView::Run {
                            arguments: create_arguments(
                                self.request.specification,
                                image,
                                Seq::empty(),
                            ),
                            in_directory: true,
                        },
                    )
                } else {
                    (
                        self.waiting_for(ContainerPhaseView::Mounts { image }),
                        ContainerStepView::ResolveMounts,
                    )
                },
            },
            DockerContainerObservationView::Present(snapshot) => if !matches_request(
                self.request,
                snapshot,
            ) {
                self.conflicts(snapshot)
            } else if snapshot.state == DockerContainerStateView::Running {
                if !asks_readiness(self.request.readiness_checks) && !snapshot.health.ready() {
                    (
                        self.waiting_for(ContainerPhaseView::Logs { snapshot }),
                        ContainerStepView::Run {
                            arguments: seq!["logs"@, "--tail"@, "20"@, snapshot.id],
                            in_directory: false,
                        },
                    )
                } else {
                    self.saying("reused running Docker container '"@ + self.name() + "'"@).runs(
                        snapshot,
                        OwnershipStatus::ReusedExisting,
                        DockerOperationStatus::Reused,
                        None,
                        true,
                    )
                }
            } else {
                self.holding(snapshot.id, TakeDown::Stop).starting(snapshot.id, false)
            },
        }
    }

    /// After the container was created.
    pub open spec fn after_create(self, output: ProcessOutputView) -> ContainerMove {
        if !output.success() {
            self.failed(docker_failure("create container"@, output))
        } else {
            let held = ContainerEnsureView {
                partial: match printed_identity(output.stdout) {
                    Some(identity) => Some(
                        PartialContainerView { identity, take_down: TakeDown::Remove },
                    ),
                    None => None,
                },
                ..self
            };
            (
                held.waiting_for(
                    ContainerPhaseView::Created { printed: output.stdout.len() > 0 },
                ),
                ContainerStepView::Observe,
            )
        }
    }

    /// After the container that was created was looked at.
    pub open spec fn after_created(
        self,
        printed: bool,
        observation: DockerContainerObservationView,
    ) -> ContainerMove {
        match observation {
            DockerContainerObservationView::Unavailable(engine) => self.failed(engine_lost(engine)),
            DockerContainerObservationView::Missing => self.failed(
                gone_error("Docker did not expose the container after creation"@, self.name()),
            ),
            DockerContainerObservationView::Present(snapshot) => {
                let created = self.holding(snapshot.id, TakeDown::Remove).saying(
                    "created Docker container '"@ + self.name() + "'"@,
                );
                let told = if printed {
                    created.saying("Docker assigned container identity '"@ + snapshot.id + "'"@)
                } else {
                    created
                };
                told.starting(snapshot.id, true)
            },
        }
    }

    /// After the container was started and looked at.
    pub open spec fn after_started(
        self,
        fresh: bool,
        observation: DockerContainerObservationView,
    ) -> ContainerMove {
        match observation {
            DockerContainerObservationView::Unavailable(engine) => self.failed(engine_lost(engine)),
            DockerContainerObservationView::Missing => self.failed(
                gone_error("Docker container disappeared after it was started"@, self.name()),
            ),
            DockerContainerObservationView::Present(snapshot) => if fresh {
                if matches_request(self.request, snapshot) {
                    self.runs(
                        snapshot,
                        OwnershipStatus::CreatedByCurrentRun,
                        DockerOperationStatus::Created,
                        Some(TakeDown::Remove),
                        false,
                    )
                } else {
                    self.conflicts(snapshot)
                }
            } else {
                self.holding(snapshot.id, TakeDown::Stop).saying(
                    "started existing Docker container '"@ + self.name() + "'"@,
                ).runs(
                    snapshot,
                    OwnershipStatus::CreatedByCurrentRun,
                    DockerOperationStatus::Repaired,
                    Some(TakeDown::Stop),
                    true,
                )
            },
        }
    }

    /// After the container that is to be taken down again was looked at.
    pub open spec fn after_cleanup_inspect(
        self,
        error: WorkstateErrorView,
        output: ProcessOutputView,
    ) -> ContainerMove {
        match self.partial {
            None => self.undone(error, Seq::empty()),
            Some(partial) => match container_found(
                "inspect partially created container"@,
                output,
            ) {
                Err(failure) => self.undone(error, seq![rendered(failure)]),
                Ok(found) => match take_down_plan(
                    partial.identity,
                    partial.take_down,
                    Some(self.name()),
                    found,
                ) {
                    TakeDownPlanView::Done => self.undone(error, Seq::empty()),
                    TakeDownPlanView::Keep(reason) => self.undone(error, seq![reason]),
                    TakeDownPlanView::Run(arguments) => (
                        self.waiting_for(
                            ContainerPhaseView::CleanupRun { error, take_down: partial.take_down },
                        ),
                        ContainerStepView::Run { arguments, in_directory: false },
                    ),
                },
            },
        }
    }

    /// What follows a reply. A reply that does not belong to what the work is waiting for changes
    /// nothing.
    pub open spec fn next(self, event: ContainerEventView) -> ContainerMove {
        match (self.phase, event) {
            (ContainerPhaseView::Engine, ContainerEventView::EngineReady(engine)) => (
                ContainerEnsureView {
                    engine_resources: engine.resources,
                    outputs: engine.outputs,
                    phase: ContainerPhaseView::Before,
                    ..self
                },
                ContainerStepView::Observe,
            ),
            (
                ContainerPhaseView::Before,
                ContainerEventView::Observed(observation),
            ) => self.after_before(observation),
            (
                ContainerPhaseView::Mounts { image },
                ContainerEventView::MountsResolved(sources),
            ) => (
                self.waiting_for(ContainerPhaseView::Create),
                ContainerStepView::Run {
                    arguments: create_arguments(self.request.specification, image, sources),
                    in_directory: true,
                },
            ),
            (ContainerPhaseView::Create, ContainerEventView::Ran(output)) => self.after_create(
                output,
            ),
            (
                ContainerPhaseView::Created { printed },
                ContainerEventView::Observed(observation),
            ) => self.after_created(printed, observation),
            (
                ContainerPhaseView::Start { fresh },
                ContainerEventView::Ran(output),
            ) => if output.success() {
                (
                    self.waiting_for(ContainerPhaseView::Started { fresh }),
                    ContainerStepView::Observe,
                )
            } else {
                (
                    self.waiting_for(ContainerPhaseView::StartLogs { output }),
                    ContainerStepView::Run {
                        arguments: seq![
                            "logs"@,
                            "--tail"@,
                            "20"@,
                            match self.partial {
                                Some(partial) => partial.identity,
                                None => self.name(),
                            },
                        ],
                        in_directory: false,
                    },
                )
            },
            (
                ContainerPhaseView::StartLogs { output },
                ContainerEventView::Ran(logs),
            ) => self.failed(start_failure(self.name(), output, logs_found(logs))),
            (
                ContainerPhaseView::StartLogs { output },
                ContainerEventView::Failed(error),
            ) => self.failed(start_failure(self.name(), output, Err(error))),
            (
                ContainerPhaseView::Started { fresh },
                ContainerEventView::Observed(observation),
            ) => self.after_started(fresh, observation),
            (
                ContainerPhaseView::Logs { snapshot },
                ContainerEventView::Ran(logs),
            ) => self.failed(not_ready_error(self.name(), snapshot, logs_found(logs))),
            (
                ContainerPhaseView::Logs { snapshot },
                ContainerEventView::Failed(error),
            ) => self.failed(not_ready_error(self.name(), snapshot, Err(error))),
            (ContainerPhaseView::Checks { outcome }, ContainerEventView::ChecksPassed) => (
                self.waiting_for(ContainerPhaseView::Over),
                ContainerStepView::Finish(outcome),
            ),
            (
                ContainerPhaseView::CleanupInspect { error },
                ContainerEventView::Ran(output),
            ) => self.after_cleanup_inspect(error, output),
            (
                ContainerPhaseView::CleanupInspect { error },
                ContainerEventView::Failed(failure),
            ) => self.undone(error, seq![rendered(failure)]),
            (
                ContainerPhaseView::CleanupRun { error, take_down },
                ContainerEventView::Ran(output),
            ) => if is_down(take_down, output) {
                self.undone(error, Seq::empty())
            } else {
                self.undone(error, seq![rendered(take_down_failure(take_down, output))])
            },
            (
                ContainerPhaseView::CleanupRun { error, take_down: _ },
                ContainerEventView::Failed(failure),
            ) => self.undone(error, seq![rendered(failure)]),
            (
                ContainerPhaseView::CleanupEngine { error, diagnostics },
                ContainerEventView::ServicesStopped,
            ) => (
                self.waiting_for(ContainerPhaseView::Over),
                ContainerStepView::Fail(with_cleanup(error, diagnostics)),
            ),
            (
                ContainerPhaseView::CleanupEngine { error, diagnostics },
                ContainerEventView::Failed(failure),
            ) => (
                self.waiting_for(ContainerPhaseView::Over),
                ContainerStepView::Fail(with_cleanup(error, diagnostics.push(rendered(failure)))),
            ),
            (ContainerPhaseView::Over, _) => (self, ContainerStepView::Idle),
            (_, ContainerEventView::Failed(error)) => self.failed(error),
            _ => (self, ContainerStepView::Idle),
        }
    }
}

impl ContainerEnsure {
    /// Begins with the engine, which has to answer first.
    pub fn begin(request: DockerContainerRequest) -> (r: (ContainerEnsure, ContainerStep))
        ensures
            r.0@ == (ContainerEnsureView {
                request: request@,
                engine_resources: Seq::empty(),
                outputs: Seq::empty(),
                partial: None,
                phase: ContainerPhaseView::Engine,
            }),
            r.1@ == ContainerStepView::EnsureEngine,
    {
        (
            ContainerEnsure {
                request,
                engine_resources: empty_list(),
                outputs: empty_list(),
                partial: None,
                phase: ContainerPhase::Engine,
            },
            ContainerStep::EnsureEngine,
        )
    }

    fn waiting_for(self, phase: ContainerPhase) -> (r: ContainerEnsure)
        ensures
            r@ == self@.waiting_for(phase@),
    {
        ContainerEnsure {
            request: self.request,
            engine_resources: self.engine_resources,
            outputs: self.outputs,
            partial: self.partial,
            phase,
        }
    }

    fn saying(self, line: String) -> (r: ContainerEnsure)
        ensures
            r@ == self@.saying(line@),
    {
        let mut outputs = self.outputs;
        append(&mut outputs, line);
        ContainerEnsure {
            request: self.request,
            engine_resources: self.engine_resources,
            outputs,
            partial: self.partial,
            phase: self.phase,
        }
    }

    fn holding(self, identity: String, take_down: TakeDown) -> (r: ContainerEnsure)
        ensures
            r@ == self@.holding(identity@, take_down),
    {
        ContainerEnsure {
            request: self.request,
            engine_resources: self.engine_resources,
            outputs: self.outputs,
            partial: Some(PartialContainer { identity, take_down }),
            phase: self.phase,
        }
    }

    fn undone(self, error: WorkstateError, diagnostics: Vec<String>) -> (r: (
        ContainerEnsure,
        ContainerStep,
    ))
        ensures
            (r.0@, r.1@) == self@.undone(error@, diagnostics.deep_view()),
    {
        if self.engine_resources.len() == 0 {
            (
                self.waiting_for(ContainerPhase::Over),
                ContainerStep::Fail(note_cleanup(error, &diagnostics)),
            )
        } else {
            let services = self.engine_resources.replicate();
            (
                self.waiting_for(ContainerPhase::CleanupEngine { error, diagnostics }),
                ContainerStep::StopServices(services),
            )
        }
    }

    fn failed(self, error: WorkstateError) -> (r: (ContainerEnsure, ContainerStep))
        ensures
            (r.0@, r.1@) == self@.failed(error@),
    {
        let arguments = match &self.partial {
            None => {
                return self.undone(error, empty_list());
            },
            Some(partial) => inspect_arguments(partial.identity.as_str()),
        };
        (
            self.waiting_for(ContainerPhase::CleanupInspect { error }),
            ContainerStep::Run { arguments, in_directory: false },
        )
    }

    fn runs(
        self,
        snapshot: DockerContainerSnapshot,
        ownership: OwnershipStatus,
        status: DockerOperationStatus,
        operation: Option<TakeDown>,
        observed_before: bool,
    ) -> (r: (ContainerEnsure, ContainerStep))
        ensures
            (r.0@, r.1@) == self@.runs(snapshot@, ownership, status, operation, observed_before),
    {
        let noted = match operation {
            Some(TakeDown::Remove) => Some("remove"),
            Some(TakeDown::Stop) => Some("stop"),
            None => None,
        };
        match container_record_with_cleanup(
            &self.request.context,
            &self.request,
            &snapshot,
            ownership,
            observed_before,
            noted,
        ) {
            Err(error) => self.failed(error),
            Ok(record) => {
                let mut resources = self.engine_resources.replicate();
                append(&mut resources, record);
                let mut outputs = self.outputs.replicate();
                let name = self.request.specification.name.as_str();
                let line = if operation.is_some() {
                    join3("Docker container '", name, "' is running")
                } else {
                    join3("Docker container '", name, "' was already healthy")
                };
                append(&mut outputs, line);
                let outcome = DockerEnsureOutcome { status, resources, detail: None, outputs };
                if has_observable_readiness_checks(&self.request.readiness_checks) {
                    (
                        self.waiting_for(ContainerPhase::Checks { outcome }),
                        ContainerStep::CheckReadiness,
                    )
                } else {
                    (self.waiting_for(ContainerPhase::Over), ContainerStep::Finish(outcome))
                }
            },
        }
    }

    fn starting(self, identity: &str, fresh: bool) -> (r: (ContainerEnsure, ContainerStep))
        ensures
            (r.0@, r.1@) == self@.starting(identity@, fresh),
    {
        (
            self.waiting_for(ContainerPhase::Start { fresh }),
            ContainerStep::Run { arguments: text_list2("start", identity), in_directory: true },
        )
    }

    fn conflicts(self, snapshot: &DockerContainerSnapshot) -> (r: (ContainerEnsure, ContainerStep))
        ensures
            (r.0@, r.1@) == self@.conflicts(snapshot@),
    {
        let error = conflict(
            self.request.specification.name.as_str(),
            container_configuration_key(&self.request).as_str(),
            snapshot_configuration_key(snapshot).as_str(),
        );
        self.failed(error)
    }

    fn after_before(self, observation: DockerContainerObservation) -> (r: (
        ContainerEnsure,
        ContainerStep,
    ))
        ensures
            (r.0@, r.1@) == self@.after_before(observation@),
    {
        match observation {
            DockerContainerObservation::Unavailable(engine) => self.failed(
                engine_unavailable_after_mutation(&engine),
            ),
            DockerContainerObservation::Missing => {
                let image = match &self.request.specification.image {
                    Some(image) => image.clone(),
                    None => {
                        let error = missing_image(
                            self.request.context.action_id.as_str(),
                            self.request.specification.name.as_str(),
                        );
                        return self.failed(error);
                    },
                };
                if self.request.specification.mounts.len() == 0 {
                    let arguments = container_arguments(
                        &self.request.specification,
                        image.as_str(),
                        &empty_list(),
                    );
                    (
                        self.waiting_for(ContainerPhase::Create),
                        ContainerStep::Run { arguments, in_directory: true },
                    )
                } else {
                    (
                        self.waiting_for(ContainerPhase::Mounts { image }),
                        ContainerStep::ResolveMounts,
                    )
                }
            },
            DockerContainerObservation::Present(snapshot) => {
                if !container_matches(&self.request, &snapshot) {
                    return self.conflicts(&snapshot);
                }
                if !snapshot.state.is_running() {
                    let identity = snapshot.id.clone();
                    return self.holding(snapshot.id, TakeDown::Stop).starting(
                        identity.as_str(),
                        false,
                    );
                }
                if !has_observable_readiness_checks(&self.request.readiness_checks)
                    && !snapshot.health.satisfies_readiness() {
                    let arguments = log_arguments(snapshot.id.as_str());
                    return (
                        self.waiting_for(ContainerPhase::Logs { snapshot }),
                        ContainerStep::Run { arguments, in_directory: false },
                    );
                }
                let line = join3(
                    "reused running Docker container '",
                    self.request.specification.name.as_str(),
                    "'",
                );
                self.saying(line).runs(
                    snapshot,
                    OwnershipStatus::ReusedExisting,
                    DockerOperationStatus::Reused,
                    None,
                    true,
                )
            },
        }
    }

    fn after_create(self, output: ProcessOutput) -> (r: (ContainerEnsure, ContainerStep))
        ensures
            (r.0@, r.1@) == self@.after_create(output@),
    {
        if !output.succeeded() {
            return self.failed(docker_error("create container", &output));
        }
        assert(output.stdout.deep_view() =~= output.stdout@);
        let partial = match docker_identity_from_output(output.stdout.as_slice()) {
            Some(identity) => Some(PartialContainer { identity, take_down: TakeDown::Remove }),
            None => None,
        };
        (
            ContainerEnsure {
                request: self.request,
                engine_resources: self.engine_resources,
                outputs: self.outputs,
                partial,
                phase: ContainerPhase::Created { printed: output.stdout.len() > 0 },
            },
            ContainerStep::Observe,
        )
    }

    fn after_created(self, printed: bool, observation: DockerContainerObservation) -> (r: (
        ContainerEnsure,
        ContainerStep,
    ))
        ensures
            (r.0@, r.1@) == self@.after_created(printed, observation@),
    {
        match observation {
            DockerContainerObservation::Unavailable(engine) => self.failed(
                engine_unavailable_after_mutation(&engine),
            ),
            DockerContainerObservation::Missing => {
                let error = WorkstateError::new(
                    ErrorCategory::Integration,
                    "Docker did not expose the container after creation",
                ).with_context("container_name", self.request.specification.name.as_str());
                self.failed(error)
            },
            DockerContainerObservation::Present(snapshot) => {
                let line = join3(
                    "created Docker container '",
                    self.request.specification.name.as_str(),
                    "'",
                );
                let identity = snapshot.id.clone();
                let created = self.holding(snapshot.id, TakeDown::Remove).saying(line);
                let told = if printed {
                    created.saying(
                        join3("Docker assigned container identity '", identity.as_str(), "'"),
                    )
                } else {
                    created
                };
                told.starting(identity.as_str(), true)
            },
        }
    }

    fn after_started(self, fresh: bool, observation: DockerContainerObservation) -> (r: (
        ContainerEnsure,
        ContainerStep,
    ))
        ensures
            (r.0@, r.1@) == self@.after_started(fresh, observation@),
    {
        match observation {
            DockerContainerObservation::Unavailable(engine) => self.failed(
                engine_unavailable_after_mutation(&engine),
            ),
            DockerContainerObservation::Missing => {
                let error = WorkstateError::new(
                    ErrorCategory::Integration,
                    "Docker container disappeared after it was started",
                ).with_context("container_name", self.request.specification.name.as_str());
                self.failed(error)
            },
            DockerContainerObservation::Present(snapshot) => {
                if fresh {
                    return if container_matches(&self.request, &snapshot) {
                        self.runs(
                            snapshot,
                            OwnershipStatus::CreatedByCurrentRun,
                            DockerOperationStatus::Created,
                            Some(TakeDown::Remove),
                            false,
                        )
                    } else {
                        self.conflicts(&snapshot)
                    };
                }
                let line = join3(
                    "started existing Docker container '",
                    self.request.specification.name.as_str(),
                    "'",
                );
                let identity = snapshot.id.clone();
                self.holding(identity, TakeDown::Stop).saying(line).runs(
                    snapshot,
                    OwnershipStatus::CreatedByCurrentRun,
                    DockerOperationStatus::Repaired,
                    Some(TakeDown::Stop),
                    true,
                )
            },
        }
    }

    fn after_cleanup_inspect(self, error: WorkstateError, output: ProcessOutput) -> (r: (
        ContainerEnsure,
        ContainerStep,
    ))
        ensures
            (r.0@, r.1@) == self@.after_cleanup_inspect(error@, output@),
    {
        let partial = match &self.partial {
            None => {
                return self.undone(error, empty_list());
            },
            Some(partial) => partial.replicate(),
        };
        match find_container("inspect partially created container", &output) {
            Err(failure) => self.undone(error, crate::values::list_of(failure.render())),
            Ok(found) => match plan_take_down(
                partial.identity.as_str(),
                partial.take_down,
                Some(self.request.specification.name.as_str()),
                &found,
            ) {
                TakeDownPlan::Done => self.undone(error, empty_list()),
                TakeDownPlan::Keep(reason) => self.undone(error, crate::values::list_of(reason)),
                TakeDownPlan::Run(arguments) => (
                    self.waiting_for(
                        ContainerPhase::CleanupRun { error, take_down: partial.take_down },
                    ),
                    ContainerStep::Run { arguments, in_directory: false },
                ),
            },
        }
    }

    /// What follows a reply. A reply that does not belong to what the work is waiting for changes
    /// nothing.
    pub fn advance(self, event: ContainerEvent) -> (r: (ContainerEnsure, ContainerStep))
        ensures
            (r.0@, r.1@) == self@.next(event@),
    {
        let phase = self.phase.replicate();
        match (phase, event) {
            (ContainerPhase::Engine, ContainerEvent::EngineReady(engine)) => (
                ContainerEnsure {
                    request: self.request,
                    engine_resources: engine.resources,
                    outputs: engine.outputs,
                    partial: self.partial,
                    phase: ContainerPhase::Before,
                },
                ContainerStep::Observe,
            ),
            (
                ContainerPhase::Before,
                ContainerEvent::Observed(observation),
            ) => self.after_before(observation),
            (ContainerPhase::Mounts { image }, ContainerEvent::MountsResolved(sources)) => {
                let arguments = container_arguments(
                    &self.request.specification,
                    image.as_str(),
                    &sources,
                );
                (
                    self.waiting_for(ContainerPhase::Create),
                    ContainerStep::Run { arguments, in_directory: true },
                )
            },
            (ContainerPhase::Create, ContainerEvent::Ran(output)) => self.after_create(output),
            (
                ContainerPhase::Created { printed },
                ContainerEvent::Observed(observation),
            ) => self.after_created(printed, observation),
            (ContainerPhase::Start { fresh }, ContainerEvent::Ran(output)) => {
                if output.succeeded() {
                    return (
                        self.waiting_for(ContainerPhase::Started { fresh }),
                        ContainerStep::Observe,
                    );
                }
                let identity = match &self.partial {
                    Some(partial) => partial.identity.clone(),
                    None => self.request.specification.name.clone(),
                };
                (
                    self.waiting_for(ContainerPhase::StartLogs { output }),
                    ContainerStep::Run {
                        arguments: log_arguments(identity.as_str()),
                        in_directory: false,
                    },
                )
            },
            (ContainerPhase::StartLogs { output }, ContainerEvent::Ran(logs)) => {
                let error = start_error(
                    self.request.specification.name.as_str(),
                    &output,
                    container_logs(&logs),
                );
                self.failed(error)
            },
            (ContainerPhase::StartLogs { output }, ContainerEvent::Failed(failure)) => {
                let error = start_error(
                    self.request.specification.name.as_str(),
                    &output,
                    Err(failure),
                );
                self.failed(error)
            },
            (
                ContainerPhase::Started { fresh },
                ContainerEvent::Observed(observation),
            ) => self.after_started(fresh, observation),
            (ContainerPhase::Logs { snapshot }, ContainerEvent::Ran(logs)) => {
                let error = container_not_ready_error(
                    self.request.specification.name.as_str(),
                    &snapshot,
                    container_logs(&logs),
                );
                self.failed(error)
            },
            (ContainerPhase::Logs { snapshot }, ContainerEvent::Failed(failure)) => {
                let error = container_not_ready_error(
                    self.request.specification.name.as_str(),
                    &snapshot,
                    Err(failure),
                );
                self.failed(error)
            },
            (ContainerPhase::Checks { outcome }, ContainerEvent::ChecksPassed) => (
                self.waiting_for(ContainerPhase::Over),
                ContainerStep::Finish(outcome),
            ),
            (
                ContainerPhase::CleanupInspect { error },
                ContainerEvent::Ran(output),
            ) => self.after_cleanup_inspect(error, output),
            (
                ContainerPhase::CleanupInspect { error },
                ContainerEvent::Failed(failure),
            ) => self.undone(error, crate::values::list_of(failure.render())),
            (
                ContainerPhase::CleanupRun { error, take_down },
                ContainerEvent::Ran(output),
            ) => if was_taken_down(take_down, &output) {
                self.undone(error, empty_list())
            } else {
                self.undone(
                    error,
                    crate::values::list_of(take_down_error(take_down, &output).render()),
                )
            },
            (
                ContainerPhase::CleanupRun { error, take_down: _ },
                ContainerEvent::Failed(failure),
            ) => self.undone(error, crate::values::list_of(failure.render())),
            (
                ContainerPhase::CleanupEngine { error, diagnostics },
                ContainerEvent::ServicesStopped,
            ) => (
                self.waiting_for(ContainerPhase::Over),
                ContainerStep::Fail(note_cleanup(error, &diagnostics)),
            ),
            (
                ContainerPhase::CleanupEngine { error, diagnostics },
                ContainerEvent::Failed(failure),
            ) => {
                let mut said = diagnostics;
                append(&mut said, failure.render());
                (
                    self.waiting_for(ContainerPhase::Over),
                    ContainerStep::Fail(note_cleanup(error, &said)),
                )
            },
            (ContainerPhase::Over, _) => (self, ContainerStep::Idle),
            (_, ContainerEvent::Failed(error)) => self.failed(error),
            _ => (self, ContainerStep::Idle),
        }
    }
}

// ---------------------------------------------------------------------------------------------
// Laws
// ---------------------------------------------------------------------------------------------
/// The work found its container there: nothing is created any more, and nothing it would take down
/// again is removed.
pub open spec fn keeps_container(work: ContainerEnsureView) -> bool {
    &&& match work.phase {
        ContainerPhaseView::Engine => false,
        ContainerPhaseView::Before => false,
        ContainerPhaseView::Mounts { .. } => false,
        ContainerPhaseView::Create => false,
        ContainerPhaseView::Created { .. } => false,
        ContainerPhaseView::Start { fresh } => !fresh,
        ContainerPhaseView::Started { fresh } => !fresh,
        ContainerPhaseView::CleanupRun { error, take_down } => take_down == TakeDown::Stop,
        _ => true,
    }
    &&& work.partial matches Some(partial) ==> partial.take_down == TakeDown::Stop
}

/// A command that removes a container.
pub open spec fn removes(step: ContainerStepView) -> bool {
    step matches ContainerStepView::Run { arguments, in_directory } && arguments.len() > 0
        && arguments[0] == "rm"@
}

/// A container that was there before is never removed, whatever the world replies: once the first look
/// has found it, no step removes a container.
#[verifier::rlimit(60)]
#[verifier::spinoff_prover]
pub proof fn law_existing_container_is_never_removed(
    work: ContainerEnsureView,
    event: ContainerEventView,
)
    requires
        keeps_container(work) || (work.phase is Before && work.partial is None && (event
            matches ContainerEventView::Observed(observation) && observation is Present)),
    ensures
        keeps_container(work.next(event).0),
        !removes(work.next(event).1),
{
    reveal_strlit("rm");
    reveal_strlit("stop");
    reveal_strlit("start");
    reveal_strlit("inspect");
    reveal_strlit("logs");
    assert("rm"@.len() != "stop"@.len());
    assert("rm"@.len() != "start"@.len());
    assert("rm"@.len() != "inspect"@.len());
    assert("rm"@.len() != "logs"@.len());
}

/// What is undone after a failure is exactly what was done: the container that the work holds is
/// looked at, by its identity, before anything else happens.
pub proof fn law_failure_looks_at_what_was_done(
    work: ContainerEnsureView,
    error: WorkstateErrorView,
)
    ensures
        work.partial matches Some(partial) ==> (work.failed(error).1
            matches ContainerStepView::Run { arguments, in_directory } && arguments == seq![
            "inspect"@,
            "--format"@,
            "{{json .}}"@,
            partial.identity,
        ]),
        work.partial is None && work.engine_resources.len() == 0 ==> work.failed(error).1
            == ContainerStepView::Fail(error.with("partial_cleanup"@, "completed"@)),
{
}

/// A container is taken down again only under the identity that was recorded when it was created or
/// started.
pub proof fn law_only_the_same_container_is_taken_down(
    identity: Seq<char>,
    take_down: TakeDown,
    name: Option<Seq<char>>,
    found: Option<DockerContainerSnapshotView>,
)
    ensures
        take_down_plan(identity, take_down, name, found) is Run ==> (found matches Some(snapshot)
            && snapshot.id == identity && (name matches Some(expected) ==> snapshot.name
            == expected)),
{
}

/// Once the work is over, no reply brings anything about.
pub proof fn law_over_is_over(work: ContainerEnsureView, event: ContainerEventView)
    requires
        work.phase is Over,
    ensures
        work.next(event) == (work, ContainerStepView::Idle),
{
}

/// A container that runs as it should, and asks for no further checks, is reused without any change:
/// the work finishes at once, and records the container as one that it does not own.
pub proof fn law_running_container_is_reused(
    work: ContainerEnsureView,
    snapshot: DockerContainerSnapshotView,
)
    requires
        work.phase is Before,
        matches_request(work.request, snapshot),
        snapshot.state == DockerContainerStateView::Running,
        snapshot.health.ready(),
        !asks_readiness(work.request.readiness_checks),
        !crate::text::is_blank(snapshot.id),
    ensures
        work.next(
            ContainerEventView::Observed(DockerContainerObservationView::Present(snapshot)),
        ).1 matches ContainerStepView::Finish(outcome) && outcome.status
            == DockerOperationStatus::Reused && outcome.resources.len()
            == work.engine_resources.len() + 1 && outcome.resources.last().ownership
            == OwnershipStatus::ReusedExisting && outcome.resources.last().resource.stable_identity
            == snapshot.id,
{
}

/// A container that is missing is created from the image of its specification: as soon as the sources
/// of its mounts are known, Docker is told to create it under its name from that image. Without an
/// image nothing is created.
pub proof fn law_missing_container_is_created(work: ContainerEnsureView, sources: Seq<Seq<char>>)
    requires
        work.phase is Before,
        work.partial is None,
        work.request.specification.environment.dom().finite(),
    ensures
        ({
            let missing = work.next(
                ContainerEventView::Observed(DockerContainerObservationView::Missing),
            );
            let specification = work.request.specification;
            match specification.image {
                None => !(missing.1 is Run) && !(missing.1 is Finish),
                Some(image) => image.len() > 0 && image[0] != '-' ==> ({
                    let created = if specification.mounts.len() == 0 {
                        missing
                    } else {
                        missing.0.next(ContainerEventView::MountsResolved(sources))
                    };
                    &&& specification.mounts.len() > 0 ==> missing.1
                        == ContainerStepView::ResolveMounts
                    &&& created.1 matches ContainerStepView::Run { arguments, in_directory }
                        && in_directory && arguments[0] == "create"@ && create_read(
                        arguments.skip(1),
                    ).image == Some(image) && create_read(arguments.skip(1)).name == Some(
                        specification.name,
                    ) && create_read(arguments.skip(1)).ports.len() == specification.ports.len()
                        && create_read(arguments.skip(1)).mounts.len()
                        == specification.mounts.len()
                    &&& created.0.phase is Create
                }),
            }
        }),
{
    if let Some(image) = work.request.specification.image {
        if image.len() > 0 && image[0] != '-' {
            law_described_container_is_created(work.request.specification, image, sources);
            law_described_container_is_created(work.request.specification, image, Seq::empty());
        }
    }
}

/// A container that was created is looked at and then started, under the identity that Docker gave it;
/// until it runs it is held for removal, so that a failure takes it away again.
pub proof fn law_created_container_is_started(
    work: ContainerEnsureView,
    output: ProcessOutputView,
    snapshot: DockerContainerSnapshotView,
)
    requires
        work.phase is Create,
        output.status == Some(0i32),
    ensures
        ({
            let created = work.next(ContainerEventView::Ran(output));
            let started = created.0.next(
                ContainerEventView::Observed(DockerContainerObservationView::Present(snapshot)),
            );
            let begun = started.0.next(ContainerEventView::Ran(output));
            &&& created.1 == ContainerStepView::Observe
            &&& started.1 == (ContainerStepView::Run {
                arguments: seq!["start"@, snapshot.id],
                in_directory: true,
            })
            &&& started.0.partial == Some(
                PartialContainerView { identity: snapshot.id, take_down: TakeDown::Remove },
            )
            &&& begun.1 == ContainerStepView::Observe
        }),
{
}

/// A container that is there, is as it should be and does not run is started, and is held to be stopped
/// again after a failure, never to be removed.
pub proof fn law_stopped_container_is_started(
    work: ContainerEnsureView,
    snapshot: DockerContainerSnapshotView,
)
    requires
        work.phase is Before,
        matches_request(work.request, snapshot),
        snapshot.state != DockerContainerStateView::Running,
    ensures
        ({
            let started = work.next(
                ContainerEventView::Observed(DockerContainerObservationView::Present(snapshot)),
            );
            &&& started.1 == (ContainerStepView::Run {
                arguments: seq!["start"@, snapshot.id],
                in_directory: true,
            })
            &&& started.0.partial == Some(
                PartialContainerView { identity: snapshot.id, take_down: TakeDown::Stop },
            )
        }),
{
}

/// A container that is there and is not as it should be is left alone: nothing is run, and the work
/// fails with an error that says so.
pub proof fn law_other_container_is_left_alone(
    work: ContainerEnsureView,
    snapshot: DockerContainerSnapshotView,
)
    requires
        work.phase is Before,
        work.partial is None,
        !matches_request(work.request, snapshot),
    ensures
        ({
            let over = work.next(
                ContainerEventView::Observed(DockerContainerObservationView::Present(snapshot)),
            );
            &&& !(over.1 is Run) && !(over.1 is Finish) && !(over.1 is CheckReadiness)
            &&& work.engine_resources.len() == 0 ==> (over.1 matches ContainerStepView::Fail(error)
                && error.message == "Docker container '"@ + work.request.specification.name
                + "' exists with incompatible configuration; it was preserved"@)
            &&& work.engine_resources.len() > 0 ==> over.1 == ContainerStepView::StopServices(
                work.engine_resources,
            )
        }),
{
}

/// A container that was started and runs as it should is reported under its identity, as created by
/// this run: one that was made, or one that was started again. Checks that were asked for are made
/// first, and once they have passed the same is reported.
pub proof fn law_started_container_is_reported(
    work: ContainerEnsureView,
    fresh: bool,
    snapshot: DockerContainerSnapshotView,
)
    requires
        work.phase == (ContainerPhaseView::Started { fresh }),
        matches_request(work.request, snapshot),
        !crate::text::is_blank(snapshot.id),
    ensures
        ({
            let reported = work.next(
                ContainerEventView::Observed(DockerContainerObservationView::Present(snapshot)),
            );
            let last = if exists|i: int|
                0 <= i < work.request.readiness_checks.len() && (
                #[trigger] work.request.readiness_checks[i]) !is Nothing {
                reported.0.next(ContainerEventView::ChecksPassed)
            } else {
                reported
            };
            &&& (reported.1 == ContainerStepView::CheckReadiness) == (exists|i: int|
                0 <= i < work.request.readiness_checks.len() && (
                #[trigger] work.request.readiness_checks[i]) !is Nothing)
            &&& last.1 matches ContainerStepView::Finish(outcome) && outcome.status == (if fresh {
                DockerOperationStatus::Created
            } else {
                DockerOperationStatus::Repaired
            }) && outcome.resources.len() == work.engine_resources.len() + 1
                && outcome.resources.take(work.engine_resources.len() as int)
                == work.engine_resources && outcome.resources.last().resource.stable_identity
                == snapshot.id && outcome.resources.last().ownership
                == OwnershipStatus::CreatedByCurrentRun && outcome.resources.last().observed_before
                == !fresh && outcome.resources.last().integration_metadata["cleanup_operation"@]
                == (if fresh {
                "remove"@
            } else {
                "stop"@
            })
        }),
{
    let reported = work.next(
        ContainerEventView::Observed(DockerContainerObservationView::Present(snapshot)),
    );
    let outcome = match reported.1 {
        ContainerStepView::Finish(outcome) => outcome,
        _ => reported.0.phase->Checks_outcome,
    };
    assert(outcome.resources.take(work.engine_resources.len() as int) =~= work.engine_resources);
}

/// A start that fails is told with the end of the log; what was made for it is then taken down: the
/// container is inspected, and where it is still the same one it is removed if it was made here, and
/// stopped if it was there before. In the end the failure is reported.
pub proof fn law_failed_start_is_undone(
    work: ContainerEnsureView,
    output: ProcessOutputView,
    logs: ProcessOutputView,
    inspected: ProcessOutputView,
    identity: Seq<char>,
    take_down: TakeDown,
    fresh: bool,
    snapshot: DockerContainerSnapshotView,
)
    requires
        work.phase == (ContainerPhaseView::Start { fresh }),
        work.partial == Some(PartialContainerView { identity, take_down }),
        work.engine_resources.len() == 0,
        output.status != Some(0i32),
        container_found("inspect partially created container"@, inspected) == Ok::<
            Option<DockerContainerSnapshotView>,
            WorkstateErrorView,
        >(Some(snapshot)),
        snapshot.id == identity,
        snapshot.name == work.request.specification.name,
        snapshot.state == DockerContainerStateView::Running,
    ensures
        ({
            let told = work.next(ContainerEventView::Ran(output));
            let looked = told.0.next(ContainerEventView::Ran(logs));
            let undone = looked.0.next(ContainerEventView::Ran(inspected));
            let gone = ProcessOutputView { status: Some(0i32), ..output };
            let over = undone.0.next(ContainerEventView::Ran(gone));
            &&& told.1 == (ContainerStepView::Run {
                arguments: seq!["logs"@, "--tail"@, "20"@, identity],
                in_directory: false,
            })
            &&& looked.1 == (ContainerStepView::Run {
                arguments: seq!["inspect"@, "--format"@, "{{json .}}"@, identity],
                in_directory: false,
            })
            &&& undone.1 == (ContainerStepView::Run {
                arguments: match take_down {
                    TakeDown::Remove => seq!["rm"@, "--force"@, identity],
                    TakeDown::Stop => seq!["stop"@, identity],
                },
                in_directory: false,
            })
            &&& over.1 is Fail
            &&& over.0.phase is Over
        }),
{
}

/// A failure is never reported as a success: a command that creates a container and fails, an engine
/// that is lost and checks that do not pass end the work with a failure, or go on to undo what was done.
pub proof fn law_failure_is_no_success(
    work: ContainerEnsureView,
    error: WorkstateErrorView,
    output: ProcessOutputView,
)
    requires
        !(work.phase is Over),
    ensures
        !(work.next(ContainerEventView::Failed(error)).1 is Finish),
        work.phase is Create && output.status != Some(0i32) ==> !(work.next(
            ContainerEventView::Ran(output),
        ).1 is Finish) && !(work.next(ContainerEventView::Ran(output)).1 is Observe),
        work.phase is Checks && work.partial is None && work.engine_resources.len() == 0 ==> (
        work.next(ContainerEventView::Failed(error)).1 matches ContainerStepView::Fail(told)
            && told.message == error.message && told.category == error.category),
        work.phase is Checks && work.partial is Some ==> (work.next(
            ContainerEventView::Failed(error),
        ).1 matches ContainerStepView::Run { arguments, in_directory } && arguments
            == seq!["inspect"@, "--format"@, "{{json .}}"@, work.partial->Some_0.identity]),
{
}

} // verus!
