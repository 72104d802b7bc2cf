//! Bringing a Compose project to run: what is asked of the world next, for each of its replies, and how
//! what was started is taken down after a failure.
use vstd::prelude::*;
use vstd::string::*;
use crate::domain::{OwnershipStatus, ResourceKind, ResourceRecord, ResourceRecordView};
use crate::error::{rendered, ErrorCategory, WorkstateError, WorkstateErrorView};
use crate::integrations::docker::backend::{
    asks_readiness, container_found, engine_lost, engine_unavailable_after_mutation,
    find_container, has_observable_readiness_checks, inspect_arguments,
};
use crate::integrations::docker::containers::{
    is_down, note_cleanup, plan_take_down, take_down_error, take_down_failure, take_down_plan,
    was_taken_down, with_cleanup, TakeDown, TakeDownPlan, TakeDownPlanView,
};
use crate::integrations::docker::errors::{docker_error, docker_failure};
use crate::integrations::docker::models::{compose_record, compose_recorded};
use crate::ports::{
    DockerComposeObservation, DockerComposeObservationView, DockerComposeRequest,
    DockerComposeRequestView, DockerComposeServiceSnapshot, DockerComposeServiceSnapshotView,
    DockerComposeSnapshot, DockerComposeSnapshotView, DockerContainerStateView,
    DockerEnsureOutcome, DockerEnsureOutcomeView, DockerOperationStatus, ProcessOutput,
    ProcessOutputView,
};
use crate::text::{join3, same_text};
use crate::values::{append, empty_list, list_of, rest, Replicate};

verus! {

/// The container of a service that is to be taken down again.
#[derive(Debug, Clone, PartialEq, Eq)]
pub struct PendingService {
    pub name: String,
    pub identity: String,
    pub take_down: TakeDown,
}

/// What a `PendingService` stands for.
#[verifier::ext_equal]
pub struct PendingServiceView {
    pub name: Seq<char>,
    pub identity: Seq<char>,
    pub take_down: TakeDown,
}

impl View for PendingService {
    type V = PendingServiceView;

    open spec fn view(&self) -> PendingServiceView {
        PendingServiceView {
            name: self.name.deep_view(),
            identity: self.identity.deep_view(),
            take_down: self.take_down.deep_view(),
        }
    }
}

impl DeepView for PendingService {
    type V = PendingServiceView;

    open spec fn deep_view(&self) -> PendingServiceView {
        self.view()
    }
}

impl Replicate for PendingService {
    fn replicate(&self) -> (r: Self) {
        PendingService {
            name: self.name.replicate(),
            identity: self.identity.replicate(),
            take_down: self.take_down.replicate(),
        }
    }
}

/// What the work on a project is waiting for.
#[derive(Debug)]
pub enum ProjectPhase {
    Engine,
    Before,
    Up,
    After,
    Checks { outcome: DockerEnsureOutcome },
    CleanupObserve { error: WorkstateError },
    CleanupInspect { error: WorkstateError, pending: Vec<PendingService>, said: Vec<String> },
    CleanupRun { error: WorkstateError, pending: Vec<PendingService>, said: Vec<String> },
    CleanupEngine { error: WorkstateError, diagnostics: Vec<String> },
    Over,
}

/// What a `ProjectPhase` stands for.
#[verifier::ext_equal]
pub enum ProjectPhaseView {
    Engine,
    Before,
    Up,
    After,
    Checks { outcome: DockerEnsureOutcomeView },
    CleanupObserve { error: WorkstateErrorView },
    CleanupInspect { error: WorkstateErrorView, pending: Seq<PendingServiceView>, said: Seq<Seq<char>> },
    CleanupRun { error: WorkstateErrorView, pending: Seq<PendingServiceView>, said: Seq<Seq<char>> },
    CleanupEngine { error: WorkstateErrorView, diagnostics: Seq<Seq<char>> },
    Over,
}

impl View for ProjectPhase {
    type V = ProjectPhaseView;

    open spec fn view(&self) -> ProjectPhaseView {
        match self {
            ProjectPhase::Engine => ProjectPhaseView::Engine,
            ProjectPhase::Before => ProjectPhaseView::Before,
            ProjectPhase::Up => ProjectPhaseView::Up,
            ProjectPhase::After => ProjectPhaseView::After,
            ProjectPhase::Checks { outcome } => ProjectPhaseView::Checks { outcome: outcome.deep_view() },
            ProjectPhase::CleanupObserve { error } => ProjectPhaseView::CleanupObserve { error: error.deep_view() },
            ProjectPhase::CleanupInspect { error, pending, said } => ProjectPhaseView::CleanupInspect { error: error.deep_view(), pending: pending.deep_view(), said: said.deep_view() },
            ProjectPhase::CleanupRun { error, pending, said } => ProjectPhaseView::CleanupRun { error: error.deep_view(), pending: pending.deep_view(), said: said.deep_view() },
            ProjectPhase::CleanupEngine { error, diagnostics } => ProjectPhaseView::CleanupEngine { error: error.deep_view(), diagnostics: diagnostics.deep_view() },
            ProjectPhase::Over => ProjectPhaseView::Over,
        }
    }
}

impl DeepView for ProjectPhase {
    type V = ProjectPhaseView;

    open spec fn deep_view(&self) -> ProjectPhaseView {
        self.view()
    }
}

impl Replicate for ProjectPhase {
    fn replicate(&self) -> (r: Self) {
        match self {
            ProjectPhase::Engine => ProjectPhase::Engine,
            ProjectPhase::Before => ProjectPhase::Before,
            ProjectPhase::Up => ProjectPhase::Up,
            ProjectPhase::After => ProjectPhase::After,
            ProjectPhase::Checks { outcome } => ProjectPhase::Checks { outcome: outcome.replicate() },
            ProjectPhase::CleanupObserve { error } => ProjectPhase::CleanupObserve { error: error.replicate() },
            ProjectPhase::CleanupInspect { error, pending, said } => ProjectPhase::CleanupInspect { error: error.replicate(), pending: pending.replicate(), said: said.replicate() },
            ProjectPhase::CleanupRun { error, pending, said } => ProjectPhase::CleanupRun { error: error.replicate(), pending: pending.replicate(), said: said.replicate() },
            ProjectPhase::CleanupEngine { error, diagnostics } => ProjectPhase::CleanupEngine { error: error.replicate(), diagnostics: diagnostics.replicate() },
            ProjectPhase::Over => ProjectPhase::Over,
        }
    }
}

/// The work on a project: what is asked for, what was done so far, and what it is waiting for.
#[derive(Debug)]
pub struct ProjectEnsure {
    pub request: DockerComposeRequest,
    pub engine_resources: Vec<ResourceRecord>,
    pub outputs: Vec<String>,
    pub before: Option<DockerComposeSnapshot>,
    pub started: bool,
    pub phase: ProjectPhase,
}

/// What a `ProjectEnsure` stands for.
#[verifier::ext_equal]
pub struct ProjectEnsureView {
    pub request: DockerComposeRequestView,
    pub engine_resources: Seq<ResourceRecordView>,
    pub outputs: Seq<Seq<char>>,
    pub before: Option<DockerComposeSnapshotView>,
    pub started: bool,
    pub phase: ProjectPhaseView,
}

impl View for ProjectEnsure {
    type V = ProjectEnsureView;

    open spec fn view(&self) -> ProjectEnsureView {
        ProjectEnsureView {
            request: self.request.deep_view(),
            engine_resources: self.engine_resources.deep_view(),
            outputs: self.outputs.deep_view(),
            before: self.before.deep_view(),
            started: self.started.deep_view(),
            phase: self.phase.deep_view(),
        }
    }
}

impl DeepView for ProjectEnsure {
    type V = ProjectEnsureView;

    open spec fn deep_view(&self) -> ProjectEnsureView {
        self.view()
    }
}

impl Replicate for ProjectEnsure {
    fn replicate(&self) -> (r: Self) {
        ProjectEnsure {
            request: self.request.replicate(),
            engine_resources: self.engine_resources.replicate(),
            outputs: self.outputs.replicate(),
            before: self.before.replicate(),
            started: self.started.replicate(),
            phase: self.phase.replicate(),
        }
    }
}

/// What the world replied.
#[derive(Debug)]
pub enum ProjectEvent {
    EngineReady(DockerEnsureOutcome),
    Observed(DockerComposeObservation),
    Ran(ProcessOutput),
    ChecksPassed,
    ServicesStopped,
    Failed(WorkstateError),
}

/// What a `ProjectEvent` stands for.
#[verifier::ext_equal]
pub enum ProjectEventView {
    EngineReady(DockerEnsureOutcomeView),
    Observed(DockerComposeObservationView),
    Ran(ProcessOutputView),
    ChecksPassed,
    ServicesStopped,
    Failed(WorkstateErrorView),
}

impl View for ProjectEvent {
    type V = ProjectEventView;

    open spec fn view(&self) -> ProjectEventView {
        match self {
            ProjectEvent::EngineReady(value) => ProjectEventView::EngineReady(value.deep_view()),
            ProjectEvent::Observed(value) => ProjectEventView::Observed(value.deep_view()),
            ProjectEvent::Ran(value) => ProjectEventView::Ran(value.deep_view()),
            ProjectEvent::ChecksPassed => ProjectEventView::ChecksPassed,
            ProjectEvent::ServicesStopped => ProjectEventView::ServicesStopped,
            ProjectEvent::Failed(value) => ProjectEventView::Failed(value.deep_view()),
        }
    }
}

impl DeepView for ProjectEvent {
    type V = ProjectEventView;

    open spec fn deep_view(&self) -> ProjectEventView {
        self.view()
    }
}

/// What is asked of the world next.
#[derive(Debug)]
pub enum ProjectStep {
    EnsureEngine,
    Observe,
    Up,
    Run(Vec<String>),
    CheckReadiness,
    StopServices(Vec<ResourceRecord>),
    Finish(DockerEnsureOutcome),
    Fail(WorkstateError),
    Idle,
}

/// What a `ProjectStep` stands for.
#[verifier::ext_equal]
pub enum ProjectStepView {
    EnsureEngine,
    Observe,
    Up,
    Run(Seq<Seq<char>>),
    CheckReadiness,
    StopServices(Seq<ResourceRecordView>),
    Finish(DockerEnsureOutcomeView),
    Fail(WorkstateErrorView),
    Idle,
}

impl View for ProjectStep {
    type V = ProjectStepView;

    open spec fn view(&self) -> ProjectStepView {
        match self {
            ProjectStep::EnsureEngine => ProjectStepView::EnsureEngine,
            ProjectStep::Observe => ProjectStepView::Observe,
            ProjectStep::Up => ProjectStepView::Up,
            ProjectStep::Run(value) => ProjectStepView::Run(value.deep_view()),
            ProjectStep::CheckReadiness => ProjectStepView::CheckReadiness,
            ProjectStep::StopServices(value) => ProjectStepView::StopServices(value.deep_view()),
            ProjectStep::Finish(value) => ProjectStepView::Finish(value.deep_view()),
            ProjectStep::Fail(value) => ProjectStepView::Fail(value.deep_view()),
            ProjectStep::Idle => ProjectStepView::Idle,
        }
    }
}

impl DeepView for ProjectStep {
    type V = ProjectStepView;

    open spec fn deep_view(&self) -> ProjectStepView {
        self.view()
    }
}

impl Replicate for ProjectStep {
    fn replicate(&self) -> (r: Self) {
        match self {
            ProjectStep::EnsureEngine => ProjectStep::EnsureEngine,
            ProjectStep::Observe => ProjectStep::Observe,
            ProjectStep::Up => ProjectStep::Up,
            ProjectStep::Run(value) => ProjectStep::Run(value.replicate()),
            ProjectStep::CheckReadiness => ProjectStep::CheckReadiness,
            ProjectStep::StopServices(value) => ProjectStep::StopServices(value.replicate()),
            ProjectStep::Finish(value) => ProjectStep::Finish(value.replicate()),
            ProjectStep::Fail(value) => ProjectStep::Fail(value.replicate()),
            ProjectStep::Idle => ProjectStep::Idle,
        }
    }
}

/// The work and what it asks of the world.
pub type ProjectMove = (ProjectEnsureView, ProjectStepView);

/// Whether a container ran before, by what the last service that had it says; nothing where no
/// service had it.
pub open spec fn ran_before(services: Seq<DockerComposeServiceSnapshotView>, identity: Seq<char>) -> Option<
    bool,
>
    decreases services.len(),
{
    if services.len() == 0 {
        None
    } else if services.last().container_id == Some(identity) {
        Some(services.last().state == DockerContainerStateView::Running)
    } else {
        ran_before(services.drop_last(), identity)
    }
}

fn did_run_before(services: &Vec<DockerComposeServiceSnapshot>, identity: &str) -> (r: Option<bool>)
    ensures
        r == ran_before(services.deep_view(), identity@),
{
    let ghost all = services.deep_view();
    let mut i: usize = services.len();
    assert(all.take(i as int) =~= all);
    while i > 0
        invariant
            i <= services@.len(),
            all == services.deep_view(),
            ran_before(all, identity@) == ran_before(all.take(i as int), identity@),
        decreases i,
    {
        i = i - 1;
        assert(all.take(i as int + 1).last() == services@[i as int]@);
        assert(all.take(i as int + 1).drop_last() =~= all.take(i as int));
        if let Some(container) = &services[i].container_id {
            if same_text(container.as_str(), identity) {
                return Some(services[i].state.is_running());
            }
        }
    }
    None
}

/// The services that ran before the project was started.
pub open spec fn services_before(before: Option<DockerComposeSnapshotView>) -> Seq<
    DockerComposeServiceSnapshotView,
> {
    match before {
        Some(snapshot) => snapshot.services,
        None => Seq::empty(),
    }
}

/// How a service is taken down: its container is removed where it was not there before, stopped where
/// it was there and did not run, and left alone where it ran.
pub open spec fn service_take_down(
    before: Seq<DockerComposeServiceSnapshotView>,
    service: DockerComposeServiceSnapshotView,
) -> Option<PendingServiceView> {
    match service.container_id {
        None => None,
        Some(identity) => match ran_before(before, identity) {
            None => Some(
                PendingServiceView { name: service.name, identity, take_down: TakeDown::Remove },
            ),
            Some(true) => None,
            Some(false) => Some(
                PendingServiceView { name: service.name, identity, take_down: TakeDown::Stop },
            ),
        },
    }
}

/// The services that are to be taken down, in their order.
pub open spec fn pending_services(
    before: Seq<DockerComposeServiceSnapshotView>,
    after: Seq<DockerComposeServiceSnapshotView>,
) -> Seq<PendingServiceView>
    decreases after.len(),
{
    if after.len() == 0 {
        Seq::empty()
    } else {
        let earlier = pending_services(before, after.drop_last());
        match service_take_down(before, after.last()) {
            Some(pending) => earlier.push(pending),
            None => earlier,
        }
    }
}

/// The services that are to be taken down, in their order.
pub fn services_to_take_down(
    before: &Vec<DockerComposeServiceSnapshot>,
    after: &Vec<DockerComposeServiceSnapshot>,
) -> (r: Vec<PendingService>)
    ensures
        r.deep_view() == pending_services(before.deep_view(), after.deep_view()),
{
    let ghost all = after.deep_view();
    let mut pending: Vec<PendingService> = empty_list();
    let mut i: usize = 0;
    assert(all.take(0) =~= Seq::<DockerComposeServiceSnapshotView>::empty());
    while i < after.len()
        invariant
            i <= after@.len(),
            all == after.deep_view(),
            pending.deep_view() == pending_services(before.deep_view(), all.take(i as int)),
        decreases after@.len() - i,
    {
        assert(all[i as int] == after@[i as int]@);
        assert(all.take(i as int + 1).drop_last() =~= all.take(i as int));
        let service = &after[i];
        if let Some(identity) = &service.container_id {
            match did_run_before(before, identity.as_str()) {
                None => append(
                    &mut pending,
                    PendingService {
                        name: service.name.clone(),
                        identity: identity.clone(),
                        take_down: TakeDown::Remove,
                    },
                ),
                Some(true) => {},
                Some(false) => append(
                    &mut pending,
                    PendingService {
                        name: service.name.clone(),
                        identity: identity.clone(),
                        take_down: TakeDown::Stop,
                    },
                ),
            }
        }
        i = i + 1;
    }
    assert(all.take(i as int) =~= all);
    pending
}

impl ProjectEnsureView {
    pub open spec fn waiting_for(self, phase: ProjectPhaseView) -> ProjectEnsureView {
        ProjectEnsureView { phase, ..self }
    }

    /// The end of undoing: the services that were started for the engine are stopped, then the error
    /// is returned.
    pub open spec fn undone(self, error: WorkstateErrorView, diagnostics: Seq<Seq<char>>) -> ProjectMove {
        if self.engine_resources.len() == 0 {
            (
                self.waiting_for(ProjectPhaseView::Over),
                ProjectStepView::Fail(with_cleanup(error, diagnostics)),
            )
        } else {
            (
                self.waiting_for(ProjectPhaseView::CleanupEngine { error, diagnostics }),
                ProjectStepView::StopServices(self.engine_resources),
            )
        }
    }

    /// The beginning of undoing: a project that was started is looked at again.
    pub open spec fn failed(self, error: WorkstateErrorView) -> ProjectMove {
        if self.started {
            (
                self.waiting_for(ProjectPhaseView::CleanupObserve { error }),
                ProjectStepView::Observe,
            )
        } else {
            self.undone(error, Seq::empty())
        }
    }

    /// The next service that is to be taken down is looked at by the identity of its container.
    pub open spec fn take_down_next(
        self,
        error: WorkstateErrorView,
        pending: Seq<PendingServiceView>,
        said: Seq<Seq<char>>,
    ) -> ProjectMove {
        if pending.len() == 0 {
            self.undone(error, said)
        } else {
            (
                self.waiting_for(ProjectPhaseView::CleanupInspect { error, pending, said }),
                ProjectStepView::Run(
                    seq!["inspect"@, "--format"@, "{{json .}}"@, pending[0].identity],
                ),
            )
        }
    }

    /// After the first look.
    pub open spec fn after_before(self, observation: DockerComposeObservationView) -> ProjectMove {
        match observation {
            DockerComposeObservationView::Unavailable(engine) => self.failed(engine_lost(engine)),
            DockerComposeObservationView::Missing => (
                ProjectEnsureView {
                    before: None,
                    started: true,
                    phase: ProjectPhaseView::Up,
                    ..self
                },
                ProjectStepView::Up,
            ),
            DockerComposeObservationView::Present(snapshot) => (
                ProjectEnsureView {
                    before: Some(snapshot),
                    started: true,
                    phase: ProjectPhaseView::Up,
                    ..self
                },
                ProjectStepView::Up,
            ),
        }
    }

    /// After the project was started.
    pub open spec fn after_up(self, output: ProcessOutputView) -> ProjectMove {
        if output.success() {
            (
                ProjectEnsureView {
                    outputs: self.outputs.push(
                        "reconciled Docker Compose project in '"@ + self.request.working_directory
                            + "'"@,
                    ),
                    phase: ProjectPhaseView::After,
                    ..self
                },
                ProjectStepView::Observe,
            )
        } else {
            self.failed(docker_failure("start Compose project"@, output))
        }
    }

    /// After the project that was started was looked at: it is recorded, and its readiness is checked
    /// where that is asked for. A project that was there before is reused; one that was not belongs
    /// to the current run.
    pub open spec fn after_after(self, observation: DockerComposeObservationView) -> ProjectMove {
        match observation {
            DockerComposeObservationView::Unavailable(engine) => self.failed(engine_lost(engine)),
            DockerComposeObservationView::Missing => self.failed(
                crate::error::error_of(
                    ErrorCategory::Integration,
                    "Docker Compose did not expose the project after startup"@,
                ).with("working_directory"@, self.request.working_directory),
            ),
            DockerComposeObservationView::Present(snapshot) => match compose_recorded(
                self.request.context,
                snapshot,
                if self.before is Some {
                    OwnershipStatus::ReusedExisting
                } else {
                    OwnershipStatus::CreatedByCurrentRun
                },
            ) {
                Err(error) => self.failed(error),
                Ok(record) => {
                    let outcome = DockerEnsureOutcomeView {
                        status: if self.before is Some {
                            DockerOperationStatus::Repaired
                        } else {
                            DockerOperationStatus::Created
                        },
                        resources: self.engine_resources.push(record),
                        detail: None,
                        outputs: self.outputs,
                    };
                    if asks_readiness(self.request.readiness_checks) {
                        (
                            self.waiting_for(ProjectPhaseView::Checks { outcome }),
                            ProjectStepView::CheckReadiness,
                        )
                    } else {
                        (
                            self.waiting_for(ProjectPhaseView::Over),
                            ProjectStepView::Finish(outcome),
                        )
                    }
                },
            },
        }
    }

    /// After the project that is to be taken down was looked at.
    pub open spec fn after_cleanup_observe(
        self,
        error: WorkstateErrorView,
        observation: DockerComposeObservationView,
    ) -> ProjectMove {
        match observation {
            DockerComposeObservationView::Unavailable(engine) => self.undone(
                error,
                seq![rendered(engine_lost(engine))],
            ),
            DockerComposeObservationView::Missing => self.undone(error, Seq::empty()),
            DockerComposeObservationView::Present(after) => self.take_down_next(
                error,
                pending_services(services_before(self.before), after.services),
                Seq::empty(),
            ),
        }
    }

    /// After the container of a service that is to be taken down was looked at.
    pub open spec fn after_cleanup_inspect(
        self,
        error: WorkstateErrorView,
        pending: Seq<PendingServiceView>,
        said: Seq<Seq<char>>,
        output: ProcessOutputView,
    ) -> ProjectMove {
        if pending.len() == 0 {
            self.undone(error, said)
        } else {
            let service = pending[0];
            match container_found("inspect partially created container"@, output) {
                Err(failure) => self.undone(error, seq![rendered(failure)]),
                Ok(found) => match take_down_plan(
                    service.identity,
                    service.take_down,
                    None,
                    found,
                ) {
                    TakeDownPlanView::Done => self.take_down_next(
                        error,
                        pending.drop_first(),
                        said.push(
                            "partially started Compose service '"@ + service.name
                                + "' was already absent"@,
                        ),
                    ),
                    TakeDownPlanView::Keep(reason) => self.take_down_next(
                        error,
                        pending.drop_first(),
                        said.push(reason),
                    ),
                    TakeDownPlanView::Run(arguments) => (
                        self.waiting_for(ProjectPhaseView::CleanupRun { error, pending, said }),
                        ProjectStepView::Run(arguments),
                    ),
                },
            }
        }
    }

    /// After the container of a service was taken down.
    pub open spec fn after_cleanup_run(
        self,
        error: WorkstateErrorView,
        pending: Seq<PendingServiceView>,
        said: Seq<Seq<char>>,
        output: ProcessOutputView,
    ) -> ProjectMove {
        if pending.len() == 0 {
            self.undone(error, said)
        } else if is_down(pending[0].take_down, output) {
            self.take_down_next(
                error,
                pending.drop_first(),
                said.push("cleaned partially started Compose service '"@ + pending[0].name + "'"@),
            )
        } else {
            self.undone(error, seq![rendered(take_down_failure(pending[0].take_down, output))])
        }
    }

    /// What follows a reply. A reply that does not belong to what the work is waiting for changes
    /// nothing.
    pub open spec fn next(self, event: ProjectEventView) -> ProjectMove {
        match (self.phase, event) {
            (ProjectPhaseView::Engine, ProjectEventView::EngineReady(engine)) => (
                ProjectEnsureView {
                    engine_resources: engine.resources,
                    outputs: engine.outputs,
                    phase: ProjectPhaseView::Before,
                    ..self
                },
                ProjectStepView::Observe,
            ),
            (
                ProjectPhaseView::Before,
                ProjectEventView::Observed(observation),
            ) => self.after_before(observation),
            (ProjectPhaseView::Up, ProjectEventView::Ran(output)) => self.after_up(output),
            (ProjectPhaseView::After, ProjectEventView::Observed(observation)) => self.after_after(
                observation,
            ),
            (ProjectPhaseView::Checks { outcome }, ProjectEventView::ChecksPassed) => (
                self.waiting_for(ProjectPhaseView::Over),
                ProjectStepView::Finish(outcome),
            ),
            (
                ProjectPhaseView::CleanupObserve { error },
                ProjectEventView::Observed(observation),
            ) => self.after_cleanup_observe(error, observation),
            (
                ProjectPhaseView::CleanupInspect { error, pending, said },
                ProjectEventView::Ran(output),
            ) => self.after_cleanup_inspect(error, pending, said, output),
            (
                ProjectPhaseView::CleanupRun { error, pending, said },
                ProjectEventView::Ran(output),
            ) => self.after_cleanup_run(error, pending, said, output),
            (
                ProjectPhaseView::CleanupObserve { error },
                ProjectEventView::Failed(failure),
            ) => self.undone(error, seq![rendered(failure)]),
            (
                ProjectPhaseView::CleanupInspect { error, pending: _, said: _ },
                ProjectEventView::Failed(failure),
            ) => self.undone(error, seq![rendered(failure)]),
            (
                ProjectPhaseView::CleanupRun { error, pending: _, said: _ },
                ProjectEventView::Failed(failure),
            ) => self.undone(error, seq![rendered(failure)]),
            (
                ProjectPhaseView::CleanupEngine { error, diagnostics },
                ProjectEventView::ServicesStopped,
            ) => (
                self.waiting_for(ProjectPhaseView::Over),
                ProjectStepView::Fail(with_cleanup(error, diagnostics)),
            ),
            (
                ProjectPhaseView::CleanupEngine { error, diagnostics },
                ProjectEventView::Failed(failure),
            ) => (
                self.waiting_for(ProjectPhaseView::Over),
                ProjectStepView::Fail(with_cleanup(error, diagnostics.push(rendered(failure)))),
            ),
            (ProjectPhaseView::Over, _) => (self, ProjectStepView::Idle),
            (_, ProjectEventView::Failed(error)) => self.failed(error),
            _ => (self, ProjectStepView::Idle),
        }
    }
}

impl ProjectEnsure {
    /// Begins with the engine, which has to answer first.
    pub fn begin(request: DockerComposeRequest) -> (r: (ProjectEnsure, ProjectStep))
        ensures
            r.0@ == (ProjectEnsureView {
                request: request@,
                engine_resources: Seq::empty(),
                outputs: Seq::empty(),
                before: None,
                started: false,
                phase: ProjectPhaseView::Engine,
            }),
            r.1@ == ProjectStepView::EnsureEngine,
    {
        (
            ProjectEnsure {
                request,
                engine_resources: empty_list(),
                outputs: empty_list(),
                before: None,
                started: false,
                phase: ProjectPhase::Engine,
            },
            ProjectStep::EnsureEngine,
        )
    }

    fn waiting_for(self, phase: ProjectPhase) -> (r: ProjectEnsure)
        ensures
            r@ == self@.waiting_for(phase@),
    {
        ProjectEnsure {
            request: self.request,
            engine_resources: self.engine_resources,
            outputs: self.outputs,
            before: self.before,
            started: self.started,
            phase,
        }
    }

    fn undone(self, error: WorkstateError, diagnostics: Vec<String>) -> (r: (
        ProjectEnsure,
        ProjectStep,
    ))
        ensures
            (r.0@, r.1@) == self@.undone(error@, diagnostics.deep_view()),
    {
        if self.engine_resources.len() == 0 {
            (
                self.waiting_for(ProjectPhase::Over),
                ProjectStep::Fail(note_cleanup(error, &diagnostics)),
            )
        } else {
            let services = self.engine_resources.replicate();
            (
                self.waiting_for(ProjectPhase::CleanupEngine { error, diagnostics }),
                ProjectStep::StopServices(services),
            )
        }
    }

    fn failed(self, error: WorkstateError) -> (r: (ProjectEnsure, ProjectStep))
        ensures
            (r.0@, r.1@) == self@.failed(error@),
    {
        if self.started {
            (self.waiting_for(ProjectPhase::CleanupObserve { error }), ProjectStep::Observe)
        } else {
            self.undone(error, empty_list())
        }
    }

    fn take_down_next(
        self,
        error: WorkstateError,
        pending: Vec<PendingService>,
        said: Vec<String>,
    ) -> (r: (ProjectEnsure, ProjectStep))
        ensures
            (r.0@, r.1@) == self@.take_down_next(
                error@,
                pending.deep_view(),
                said.deep_view(),
            ),
    {
        if pending.len() == 0 {
            return self.undone(error, said);
        }
        assert(pending.deep_view()[0] == pending@[0]@);
        let arguments = inspect_arguments(pending[0].identity.as_str());
        (
            self.waiting_for(ProjectPhase::CleanupInspect { error, pending, said }),
            ProjectStep::Run(arguments),
        )
    }

    fn with_before(self, before: Option<DockerComposeSnapshot>) -> (r: (
        ProjectEnsure,
        ProjectStep,
    ))
        ensures
            r.0@ == (ProjectEnsureView {
                before: before.deep_view(),
                started: true,
                phase: ProjectPhaseView::Up,
                ..self@
            }),
            r.1@ == ProjectStepView::Up,
    {
        (
            ProjectEnsure {
                request: self.request,
                engine_resources: self.engine_resources,
                outputs: self.outputs,
                before,
                started: true,
                phase: ProjectPhase::Up,
            },
            ProjectStep::Up,
        )
    }

    fn after_before(self, observation: DockerComposeObservation) -> (r: (
        ProjectEnsure,
        ProjectStep,
    ))
        ensures
            (r.0@, r.1@) == self@.after_before(observation@),
    {
        match observation {
            DockerComposeObservation::Unavailable(engine) => self.failed(
                engine_unavailable_after_mutation(&engine),
            ),
            DockerComposeObservation::Missing => self.with_before(None),
            DockerComposeObservation::Present(snapshot) => self.with_before(Some(snapshot)),
        }
    }

    fn after_up(self, output: ProcessOutput) -> (r: (ProjectEnsure, ProjectStep))
        ensures
            (r.0@, r.1@) == self@.after_up(output@),
    {
        if !output.succeeded() {
            return self.failed(docker_error("start Compose project", &output));
        }
        let mut outputs = self.outputs;
        append(
            &mut outputs,
            join3(
                "reconciled Docker Compose project in '",
                self.request.working_directory.as_str(),
                "'",
            ),
        );
        (
            ProjectEnsure {
                request: self.request,
                engine_resources: self.engine_resources,
                outputs,
                before: self.before,
                started: self.started,
                phase: ProjectPhase::After,
            },
            ProjectStep::Observe,
        )
    }

    fn after_after(self, observation: DockerComposeObservation) -> (r: (
        ProjectEnsure,
        ProjectStep,
    ))
        ensures
            (r.0@, r.1@) == self@.after_after(observation@),
    {
        match observation {
            DockerComposeObservation::Unavailable(engine) => self.failed(
                engine_unavailable_after_mutation(&engine),
            ),
            DockerComposeObservation::Missing => {
                let error = WorkstateError::new(
                    ErrorCategory::Integration,
                    "Docker Compose did not expose the project after startup",
                ).with_context("working_directory", self.request.working_directory.as_str());
                self.failed(error)
            },
            DockerComposeObservation::Present(snapshot) => {
                let ownership = if self.before.is_some() {
                    OwnershipStatus::ReusedExisting
                } else {
                    OwnershipStatus::CreatedByCurrentRun
                };
                match compose_record(&self.request.context, &snapshot, ownership) {
                    Err(error) => self.failed(error),
                    Ok(record) => {
                        let mut resources = self.engine_resources.replicate();
                        append(&mut resources, record);
                        let outcome = DockerEnsureOutcome {
                            status: if self.before.is_some() {
                                DockerOperationStatus::Repaired
                            } else {
                                DockerOperationStatus::Created
                            },
                            resources,
                            detail: None,
                            outputs: self.outputs.replicate(),
                        };
                        if has_observable_readiness_checks(&self.request.readiness_checks) {
                            (
                                self.waiting_for(ProjectPhase::Checks { outcome }),
                                ProjectStep::CheckReadiness,
                            )
                        } else {
                            (self.waiting_for(ProjectPhase::Over), ProjectStep::Finish(outcome))
                        }
                    },
                }
            },
        }
    }

    fn after_cleanup_observe(
        self,
        error: WorkstateError,
        observation: DockerComposeObservation,
    ) -> (r: (ProjectEnsure, ProjectStep))
        ensures
            (r.0@, r.1@) == self@.after_cleanup_observe(error@, observation@),
    {
        match observation {
            DockerComposeObservation::Unavailable(engine) => self.undone(
                error,
                list_of(engine_unavailable_after_mutation(&engine).render()),
            ),
            DockerComposeObservation::Missing => self.undone(error, empty_list()),
            DockerComposeObservation::Present(after) => {
                let before = match &self.before {
                    Some(snapshot) => snapshot.services.replicate(),
                    None => empty_list(),
                };
                let pending = services_to_take_down(&before, &after.services);
                self.take_down_next(error, pending, empty_list())
            },
        }
    }

    fn after_cleanup_inspect(
        self,
        error: WorkstateError,
        pending: Vec<PendingService>,
        said: Vec<String>,
        output: ProcessOutput,
    ) -> (r: (ProjectEnsure, ProjectStep))
        ensures
            (r.0@, r.1@) == self@.after_cleanup_inspect(
                error@,
                pending.deep_view(),
                said.deep_view(),
                output@,
            ),
    {
        if pending.len() == 0 {
            return self.undone(error, said);
        }
        assert(pending.deep_view()[0] == pending@[0]@);
        match find_container("inspect partially created container", &output) {
            Err(failure) => self.undone(error, list_of(failure.render())),
            Ok(found) => {
                let plan = plan_take_down(
                    pending[0].identity.as_str(),
                    pending[0].take_down,
                    None,
                    &found,
                );
                match plan {
                    TakeDownPlan::Done => {
                        let mut lines = said;
                        append(
                            &mut lines,
                            join3(
                                "partially started Compose service '",
                                pending[0].name.as_str(),
                                "' was already absent",
                            ),
                        );
                        self.take_down_next(error, rest(&pending), lines)
                    },
                    TakeDownPlan::Keep(reason) => {
                        let mut lines = said;
                        append(&mut lines, reason);
                        self.take_down_next(error, rest(&pending), lines)
                    },
                    TakeDownPlan::Run(arguments) => (
                        self.waiting_for(ProjectPhase::CleanupRun { error, pending, said }),
                        ProjectStep::Run(arguments),
                    ),
                }
            },
        }
    }

    fn after_cleanup_run(
        self,
        error: WorkstateError,
        pending: Vec<PendingService>,
        said: Vec<String>,
        output: ProcessOutput,
    ) -> (r: (ProjectEnsure, ProjectStep))
        ensures
            (r.0@, r.1@) == self@.after_cleanup_run(
                error@,
                pending.deep_view(),
                said.deep_view(),
                output@,
            ),
    {
        if pending.len() == 0 {
            return self.undone(error, said);
        }
        assert(pending.deep_view()[0] == pending@[0]@);
        let take_down = pending[0].take_down;
        if was_taken_down(take_down, &output) {
            let mut lines = said;
            append(
                &mut lines,
                join3(
                    "cleaned partially started Compose service '",
                    pending[0].name.as_str(),
                    "'",
                ),
            );
            self.take_down_next(error, rest(&pending), lines)
        } else {
            self.undone(error, list_of(take_down_error(take_down, &output).render()))
        }
    }

    /// What follows a reply. A reply that does not belong to what the work is waiting for changes
    /// nothing.
    pub fn advance(self, event: ProjectEvent) -> (r: (ProjectEnsure, ProjectStep))
        ensures
            (r.0@, r.1@) == self@.next(event@),
    {
        let phase = self.phase.replicate();
        match (phase, event) {
            (ProjectPhase::Engine, ProjectEvent::EngineReady(engine)) => (
                ProjectEnsure {
                    request: self.request,
                    engine_resources: engine.resources,
                    outputs: engine.outputs,
                    before: self.before,
                    started: self.started,
                    phase: ProjectPhase::Before,
                },
                ProjectStep::Observe,
            ),
            (ProjectPhase::Before, ProjectEvent::Observed(observation)) => self.after_before(
                observation,
            ),
            (ProjectPhase::Up, ProjectEvent::Ran(output)) => self.after_up(output),
            (ProjectPhase::After, ProjectEvent::Observed(observation)) => self.after_after(
                observation,
            ),
            (ProjectPhase::Checks { outcome }, ProjectEvent::ChecksPassed) => (
                self.waiting_for(ProjectPhase::Over),
                ProjectStep::Finish(outcome),
            ),
            (
                ProjectPhase::CleanupObserve { error },
                ProjectEvent::Observed(observation),
            ) => self.after_cleanup_observe(error, observation),
            (
                ProjectPhase::CleanupInspect { error, pending, said },
                ProjectEvent::Ran(output),
            ) => self.after_cleanup_inspect(error, pending, said, output),
            (
                ProjectPhase::CleanupRun { error, pending, said },
                ProjectEvent::Ran(output),
            ) => self.after_cleanup_run(error, pending, said, output),
            (ProjectPhase::CleanupObserve { error }, ProjectEvent::Failed(failure)) => self.undone(
                error,
                list_of(failure.render()),
            ),
            (
                ProjectPhase::CleanupInspect { error, pending: _, said: _ },
                ProjectEvent::Failed(failure),
            ) => self.undone(error, list_of(failure.render())),
            (
                ProjectPhase::CleanupRun { error, pending: _, said: _ },
                ProjectEvent::Failed(failure),
            ) => self.undone(error, list_of(failure.render())),
            (
                ProjectPhase::CleanupEngine { error, diagnostics },
                ProjectEvent::ServicesStopped,
            ) => (
                self.waiting_for(ProjectPhase::Over),
                ProjectStep::Fail(note_cleanup(error, &diagnostics)),
            ),
            (ProjectPhase::CleanupEngine { error, diagnostics }, ProjectEvent::Failed(failure)) => {
                let mut said = diagnostics;
                append(&mut said, failure.render());
                (
                    self.waiting_for(ProjectPhase::Over),
                    ProjectStep::Fail(note_cleanup(error, &said)),
                )
            },
            (ProjectPhase::Over, _) => (self, ProjectStep::Idle),
            (_, ProjectEvent::Failed(error)) => self.failed(error),
            _ => (self, ProjectStep::Idle),
        }
    }
}

// ---------------------------------------------------------------------------------------------
// Laws
// ---------------------------------------------------------------------------------------------
/// What ran before a project was started is never taken down: no service whose container ran before
/// is among those that are, and one whose container was there before is at most stopped.
pub proof fn law_running_services_are_kept(
    before: Seq<DockerComposeServiceSnapshotView>,
    after: Seq<DockerComposeServiceSnapshotView>,
    i: int,
)
    requires
        0 <= i < pending_services(before, after).len(),
    ensures
        ran_before(before, pending_services(before, after)[i].identity) != Some(true),
        ran_before(before, pending_services(before, after)[i].identity) is Some ==> pending_services(
            before,
            after,
        )[i].take_down == TakeDown::Stop,
    decreases after.len(),
{
    let earlier = pending_services(before, after.drop_last());
    if i < earlier.len() {
        law_running_services_are_kept(before, after.drop_last(), i);
    }
}

/// Once the work is over, no reply brings anything about.
pub proof fn law_over_is_over(work: ProjectEnsureView, event: ProjectEventView)
    requires
        work.phase is Over,
    ensures
        work.next(event) == (work, ProjectStepView::Idle),
{
}

/// Nothing is taken down before the project was started: a failure until then stops at most the
/// services that were started for the engine.
pub proof fn law_failure_before_start_touches_no_service(
    work: ProjectEnsureView,
    error: WorkstateErrorView,
)
    requires
        !work.started,
    ensures
        work.failed(error).1 is Fail || work.failed(error).1 == ProjectStepView::StopServices(
            work.engine_resources,
        ),
{
}

/// A project is always brought up, whether it is there or not, once the engine runs and it was looked
/// at; what was there before is kept in mind.
pub proof fn law_project_is_brought_up(
    work: ProjectEnsureView,
    snapshot: DockerComposeSnapshotView,
    output: ProcessOutputView,
)
    requires
        work.phase is Before,
        output.status == Some(0i32),
    ensures
        ({
            let fresh = work.next(
                ProjectEventView::Observed(DockerComposeObservationView::Missing),
            );
            let again = work.next(
                ProjectEventView::Observed(DockerComposeObservationView::Present(snapshot)),
            );
            &&& fresh.1 == ProjectStepView::Up && fresh.0.before is None && fresh.0.started
            &&& again.1 == ProjectStepView::Up && again.0.before == Some(snapshot)
                && again.0.started
            &&& fresh.0.next(ProjectEventView::Ran(output)).1 == ProjectStepView::Observe
            &&& again.0.next(ProjectEventView::Ran(output)).1 == ProjectStepView::Observe
            &&& forall|failed: ProcessOutputView|
                failed.status != Some(0i32) ==> (#[trigger] fresh.0.next(
                    ProjectEventView::Ran(failed),
                )).0.phase is CleanupObserve
        }),
{
}

/// A project that came up is reported under its name and directory: as created by this run where it was
/// not there before, else as one that is reused. Checks that were asked for are made first.
pub proof fn law_project_that_came_up_is_reported(
    work: ProjectEnsureView,
    snapshot: DockerComposeSnapshotView,
)
    requires
        work.phase is After,
        !crate::text::is_blank(snapshot.project_name + "@"@ + snapshot.working_directory),
    ensures
        ({
            let reported = work.next(
                ProjectEventView::Observed(DockerComposeObservationView::Present(snapshot)),
            );
            let asked = exists|i: int|
                0 <= i < work.request.readiness_checks.len() && (
                #[trigger] work.request.readiness_checks[i]) !is Nothing;
            let last = if asked {
                reported.0.next(ProjectEventView::ChecksPassed)
            } else {
                reported
            };
            &&& asked ==> reported.1 == ProjectStepView::CheckReadiness
            &&& last.1 matches ProjectStepView::Finish(outcome) && outcome.resources.len()
                == work.engine_resources.len() + 1
                && outcome.resources.last().resource.stable_identity == snapshot.project_name
                + "@"@ + snapshot.working_directory && outcome.resources.last().resource.kind
                == ResourceKind::DockerCompose && outcome.resources.last().ownership == (
            if work.before is Some {
                OwnershipStatus::ReusedExisting
            } else {
                OwnershipStatus::CreatedByCurrentRun
            }) && outcome.resources.last().note("project_name"@) == Some(snapshot.project_name)
                && outcome.resources.last().note("working_directory"@) == Some(
                snapshot.working_directory,
            ) && (outcome.status == DockerOperationStatus::Created) == (work.before is None)
        }),
{
    reveal_strlit("project_name");
    reveal_strlit("working_directory");
    reveal_strlit("environment");
    assert("project_name"@.len() == 12 && "working_directory"@.len() == 17 && "environment"@.len()
        == 11);
}

/// The services before a failure are put back as they were: one that was not there is removed, one that
/// stood still is stopped, and one that ran is left alone.
pub proof fn law_services_are_put_back(
    before: Seq<DockerComposeServiceSnapshotView>,
    after: Seq<DockerComposeServiceSnapshotView>,
    i: int,
    identity: Seq<char>,
)
    requires
        0 <= i < after.len(),
        after[i].container_id == Some(identity),
    ensures
        (forall|k: int|
            0 <= k < before.len() ==> (#[trigger] before[k]).container_id != Some(identity))
            ==> pending_services(before, after).contains(
            PendingServiceView { name: after[i].name, identity, take_down: TakeDown::Remove },
        ),
        (forall|k: int|
            0 <= k < before.len() && (#[trigger] before[k]).container_id == Some(identity)
                ==> before[k].state != DockerContainerStateView::Running) && (exists|k: int|
            0 <= k < before.len() && (#[trigger] before[k]).container_id == Some(identity))
            ==> pending_services(before, after).contains(
            PendingServiceView { name: after[i].name, identity, take_down: TakeDown::Stop },
        ),
        (forall|k: int|
            0 <= k < before.len() && (#[trigger] before[k]).container_id == Some(identity)
                ==> before[k].state == DockerContainerStateView::Running) && (exists|k: int|
            0 <= k < before.len() && (#[trigger] before[k]).container_id == Some(identity))
            ==> forall|j: int|
            0 <= j < pending_services(before, after).len() ==> (#[trigger] pending_services(
                before,
                after,
            )[j]).identity != identity,
    decreases after.len(),
{
    lemma_ran_before(before, identity);
    let front = after.drop_last();
    let earlier = pending_services(before, front);
    let all = pending_services(before, after);
    assert forall|pending: PendingServiceView| earlier.contains(pending) implies all.contains(
        pending,
    ) by {
        let k = choose|k: int| 0 <= k < earlier.len() && earlier[k] == pending;
        assert(all[k] == pending);
    }
    if i < front.len() {
        assert(front[i] == after[i]);
        law_services_are_put_back(before, front, i, identity);
    } else {
        if ran_before(before, identity) != Some(true) {
            assert(all[earlier.len() as int] == service_take_down(before, after[i])->Some_0);
        }
    }
    if ran_before(before, identity) == Some(true) {
        lemma_running_is_not_pending(before, after, identity);
    }
}

proof fn lemma_running_is_not_pending(
    before: Seq<DockerComposeServiceSnapshotView>,
    after: Seq<DockerComposeServiceSnapshotView>,
    identity: Seq<char>,
)
    requires
        ran_before(before, identity) == Some(true),
    ensures
        forall|j: int|
            0 <= j < pending_services(before, after).len() ==> (#[trigger] pending_services(
                before,
                after,
            )[j]).identity != identity,
    decreases after.len(),
{
    if after.len() > 0 {
        lemma_running_is_not_pending(before, after.drop_last(), identity);
    }
}

proof fn lemma_ran_before(services: Seq<DockerComposeServiceSnapshotView>, identity: Seq<char>)
    ensures
        ran_before(services, identity) is None <==> forall|k: int|
            0 <= k < services.len() ==> (#[trigger] services[k]).container_id != Some(identity),
        ran_before(services, identity) matches Some(running) ==> exists|k: int|
            0 <= k < services.len() && (#[trigger] services[k]).container_id == Some(identity)
                && running == (services[k].state == DockerContainerStateView::Running),
    decreases services.len(),
{
    if services.len() > 0 {
        let front = services.drop_last();
        lemma_ran_before(front, identity);
        assert(forall|k: int| 0 <= k < front.len() ==> #[trigger] front[k] == services[k]);
        assert(services[services.len() - 1] == services.last());
        if services.last().container_id != Some(identity) {
            if ran_before(front, identity) is Some {
                let k = choose|k: int|
                    0 <= k < front.len() && (#[trigger] front[k]).container_id == Some(identity)
                        && ran_before(front, identity) == Some(
                        front[k].state == DockerContainerStateView::Running,
                    );
                assert(services[k] == front[k]);
            } else {
                assert forall|k: int| 0 <= k < services.len() implies (
                #[trigger] services[k]).container_id != Some(identity) by {
                    if k < front.len() {
                        assert(front[k] == services[k]);
                    }
                }
            }
        }
    }
}

/// After a failure the services that are to be put back are inspected and taken down one by one, and in
/// the end the failure is reported.
pub proof fn law_failed_project_is_undone(
    work: ProjectEnsureView,
    error: WorkstateErrorView,
    pending: Seq<PendingServiceView>,
    said: Seq<Seq<char>>,
    output: ProcessOutputView,
)
    ensures
        pending.len() > 0 ==> work.take_down_next(error, pending, said).1 == ProjectStepView::Run(
            seq!["inspect"@, "--format"@, "{{json .}}"@, pending[0].identity],
        ),
        pending.len() == 0 && work.engine_resources.len() == 0 ==> (work.take_down_next(
            error,
            pending,
            said,
        ).1 matches ProjectStepView::Fail(told) && told.message == error.message),
        pending.len() > 0 && work.phase == (ProjectPhaseView::CleanupInspect {
            error,
            pending,
            said,
        }) ==> (container_found("inspect partially created container"@, output) matches Ok(
            Some(snapshot),
        ) && snapshot.id == pending[0].identity && snapshot.state
            == DockerContainerStateView::Running ==> work.next(ProjectEventView::Ran(output)).1
            == ProjectStepView::Run(
            match pending[0].take_down {
                TakeDown::Remove => seq!["rm"@, "--force"@, pending[0].identity],
                TakeDown::Stop => seq!["stop"@, pending[0].identity],
            },
        )),
        pending.len() > 0 && work.phase == (ProjectPhaseView::CleanupRun { error, pending, said })
            && output.status == Some(0i32) ==> work.next(ProjectEventView::Ran(output)).1
            == work.take_down_next(error, pending.drop_first(), said).1 || work.next(
            ProjectEventView::Ran(output),
        ).1 is Fail,
{
}

} // verus!
