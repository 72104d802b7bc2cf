//! Taking down the Docker resources that an environment owns: what is asked of the world next, for
//! each of its replies.
use vstd::prelude::*;
use vstd::string::*;
use crate::domain::{
    law_every_owned_resource_is_taken_up, owned_of_kind, owned_resources, CleanupPolicy,
    ContainerSpecView, OwnershipStatus, ResourceKind, ResourceRecord, ResourceRecordView,
};
use crate::error::{WorkstateError, WorkstateErrorView};
use crate::integrations::docker::backend::{
    default_project_name, directory_project, engine_lost, engine_unavailable_after_mutation,
    says_already_stopped, says_missing_container,
};
use crate::integrations::docker::compose::{is_missing_project, says_missing_project};
use crate::integrations::docker::containers::{
    arguments_to_take_down, is_down, operation_name, take_down_arguments, was_taken_down, TakeDown,
};
use crate::integrations::docker::errors::{docker_error, docker_failure};
use crate::integrations::docker::models::{
    container_recorded, matches_request, record_matches_snapshot, record_tells_of,
};
use crate::ports::{
    DockerActionContextView, DockerCleanupRequest, DockerCleanupRequestView,
    DockerContainerObservation, DockerContainerObservationView, DockerContainerRequest,
    DockerContainerRequestView, DockerContainerSnapshotView, DockerContainerStateView,
    DockerEnsureOutcome, DockerEnsureOutcomeView, DockerOperationStatus, ProcessOutput,
    ProcessOutputView,
};
use crate::text::join3;
use crate::values::{append, append_all, empty_list, option_is_text, rest, Replicate};

verus! {

/// What the work is waiting for.
#[derive(Debug)]
pub enum CleanupPhase {
    Engine,
    Project { name: String },
    Look { pending: Vec<ResourceRecord> },
    TakeDown { pending: Vec<ResourceRecord>, take_down: TakeDown },
    Services,
    Over,
}

/// What a `CleanupPhase` stands for.
#[verifier::ext_equal]
pub enum CleanupPhaseView {
    Engine,
    Project { name: Seq<char> },
    Look { pending: Seq<ResourceRecordView> },
    TakeDown { pending: Seq<ResourceRecordView>, take_down: TakeDown },
    Services,
    Over,
}

impl View for CleanupPhase {
    type V = CleanupPhaseView;

    open spec fn view(&self) -> CleanupPhaseView {
        match self {
            CleanupPhase::Engine => CleanupPhaseView::Engine,
            CleanupPhase::Project { name } => CleanupPhaseView::Project { name: name.deep_view() },
            CleanupPhase::Look { pending } => CleanupPhaseView::Look { pending: pending.deep_view() },
            CleanupPhase::TakeDown { pending, take_down } => CleanupPhaseView::TakeDown { pending: pending.deep_view(), take_down: take_down.deep_view() },
            CleanupPhase::Services => CleanupPhaseView::Services,
            CleanupPhase::Over => CleanupPhaseView::Over,
        }
    }
}

impl DeepView for CleanupPhase {
    type V = CleanupPhaseView;

    open spec fn deep_view(&self) -> CleanupPhaseView {
        self.view()
    }
}

impl Replicate for CleanupPhase {
    fn replicate(&self) -> (r: Self) {
        match self {
            CleanupPhase::Engine => CleanupPhase::Engine,
            CleanupPhase::Project { name } => CleanupPhase::Project { name: name.replicate() },
            CleanupPhase::Look { pending } => CleanupPhase::Look { pending: pending.replicate() },
            CleanupPhase::TakeDown { pending, take_down } => CleanupPhase::TakeDown { pending: pending.replicate(), take_down: take_down.replicate() },
            CleanupPhase::Services => CleanupPhase::Services,
            CleanupPhase::Over => CleanupPhase::Over,
        }
    }
}

/// The work: what is asked for, what was done so far, and what it is waiting for.
#[derive(Debug)]
pub struct DockerCleanup {
    pub request: DockerCleanupRequest,
    pub engine_resources: Vec<ResourceRecord>,
    pub outputs: Vec<String>,
    pub conflict: bool,
    pub phase: CleanupPhase,
}

/// What a `DockerCleanup` stands for.
#[verifier::ext_equal]
pub struct DockerCleanupView {
    pub request: DockerCleanupRequestView,
    pub engine_resources: Seq<ResourceRecordView>,
    pub outputs: Seq<Seq<char>>,
    pub conflict: bool,
    pub phase: CleanupPhaseView,
}

impl View for DockerCleanup {
    type V = DockerCleanupView;

    open spec fn view(&self) -> DockerCleanupView {
        DockerCleanupView {
            request: self.request.deep_view(),
            engine_resources: self.engine_resources.deep_view(),
            outputs: self.outputs.deep_view(),
            conflict: self.conflict.deep_view(),
            phase: self.phase.deep_view(),
        }
    }
}

impl DeepView for DockerCleanup {
    type V = DockerCleanupView;

    open spec fn deep_view(&self) -> DockerCleanupView {
        self.view()
    }
}

impl Replicate for DockerCleanup {
    fn replicate(&self) -> (r: Self) {
        DockerCleanup {
            request: self.request.replicate(),
            engine_resources: self.engine_resources.replicate(),
            outputs: self.outputs.replicate(),
            conflict: self.conflict.replicate(),
            phase: self.phase.replicate(),
        }
    }
}

/// What the world replied.
#[derive(Debug)]
pub enum CleanupEvent {
    EngineReady(Vec<ResourceRecord>),
    Observed(DockerContainerObservation),
    Ran(ProcessOutput),
    ServicesStopped(Vec<String>),
    Failed(WorkstateError),
}

/// What a `CleanupEvent` stands for.
#[verifier::ext_equal]
pub enum CleanupEventView {
    EngineReady(Seq<ResourceRecordView>),
    Observed(DockerContainerObservationView),
    Ran(ProcessOutputView),
    ServicesStopped(Seq<Seq<char>>),
    Failed(WorkstateErrorView),
}

impl View for CleanupEvent {
    type V = CleanupEventView;

    open spec fn view(&self) -> CleanupEventView {
        match self {
            CleanupEvent::EngineReady(value) => CleanupEventView::EngineReady(value.deep_view()),
            CleanupEvent::Observed(value) => CleanupEventView::Observed(value.deep_view()),
            CleanupEvent::Ran(value) => CleanupEventView::Ran(value.deep_view()),
            CleanupEvent::ServicesStopped(value) => CleanupEventView::ServicesStopped(value.deep_view()),
            CleanupEvent::Failed(value) => CleanupEventView::Failed(value.deep_view()),
        }
    }
}

impl DeepView for CleanupEvent {
    type V = CleanupEventView;

    open spec fn deep_view(&self) -> CleanupEventView {
        self.view()
    }
}

/// What is asked of the world next.
#[derive(Debug)]
pub enum CleanupStep {
    EnsureEngine(Option<Vec<(String, String)>>),
    Down,
    Observe(DockerContainerRequest),
    Run(Vec<String>),
    StopServices(Vec<ResourceRecord>),
    Finish(DockerEnsureOutcome),
    Fail(WorkstateError),
    Idle,
}

/// What a `CleanupStep` stands for.
#[verifier::ext_equal]
pub enum CleanupStepView {
    EnsureEngine(Option<Seq<(Seq<char>, Seq<char>)>>),
    Down,
    Observe(DockerContainerRequestView),
    Run(Seq<Seq<char>>),
    StopServices(Seq<ResourceRecordView>),
    Finish(DockerEnsureOutcomeView),
    Fail(WorkstateErrorView),
    Idle,
}

impl View for CleanupStep {
    type V = CleanupStepView;

    open spec fn view(&self) -> CleanupStepView {
        match self {
            CleanupStep::EnsureEngine(value) => CleanupStepView::EnsureEngine(value.deep_view()),
            CleanupStep::Down => CleanupStepView::Down,
            CleanupStep::Observe(value) => CleanupStepView::Observe(value.deep_view()),
            CleanupStep::Run(value) => CleanupStepView::Run(value.deep_view()),
            CleanupStep::StopServices(value) => CleanupStepView::StopServices(value.deep_view()),
            CleanupStep::Finish(value) => CleanupStepView::Finish(value.deep_view()),
            CleanupStep::Fail(value) => CleanupStepView::Fail(value.deep_view()),
            CleanupStep::Idle => CleanupStepView::Idle,
        }
    }
}

impl DeepView for CleanupStep {
    type V = CleanupStepView;

    open spec fn deep_view(&self) -> CleanupStepView {
        self.view()
    }
}

impl Replicate for CleanupStep {
    fn replicate(&self) -> (r: Self) {
        match self {
            CleanupStep::EnsureEngine(value) => CleanupStep::EnsureEngine(value.replicate()),
            CleanupStep::Down => CleanupStep::Down,
            CleanupStep::Observe(value) => CleanupStep::Observe(value.replicate()),
            CleanupStep::Run(value) => CleanupStep::Run(value.replicate()),
            CleanupStep::StopServices(value) => CleanupStep::StopServices(value.replicate()),
            CleanupStep::Finish(value) => CleanupStep::Finish(value.replicate()),
            CleanupStep::Fail(value) => CleanupStep::Fail(value.replicate()),
            CleanupStep::Idle => CleanupStep::Idle,
        }
    }
}

/// The work and what it asks of the world.
pub type CleanupMove = (DockerCleanupView, CleanupStepView);

/// How a recorded container is taken down: stopped where the record says so, removed else.
pub open spec fn recorded_take_down(record: ResourceRecordView) -> TakeDown {
    if record.note("cleanup_operation"@) == Some("stop"@) {
        TakeDown::Stop
    } else {
        TakeDown::Remove
    }
}

/// How a recorded container is taken down.
pub fn take_down_of(record: &ResourceRecord) -> (r: TakeDown)
    ensures
        r == recorded_take_down(record@),
{
    if option_is_text(&record.integration_metadata.get("cleanup_operation"), "stop") {
        TakeDown::Stop
    } else {
        TakeDown::Remove
    }
}

/// A request for a container by its configuration alone.
pub open spec fn bare_request(
    context: DockerActionContextView,
    specification: ContainerSpecView,
) -> DockerContainerRequestView {
    DockerContainerRequestView {
        context,
        specification,
        working_directory: None,
        readiness_checks: Seq::empty(),
    }
}

/// The name of an owned project: the one that is recorded, else the one that its directory gives it.
pub open spec fn owned_project(
    working_directory: Seq<char>,
    resources: Seq<ResourceRecordView>,
) -> Option<Seq<char>> {
    let owned = owned_of_kind(resources, ResourceKind::DockerCompose);
    if owned.len() == 0 {
        None
    } else {
        match owned[0].note("project_name"@) {
            Some(name) => Some(name),
            None => Some(directory_project(working_directory)),
        }
    }
}

fn find_owned_project(working_directory: &str, resources: &Vec<ResourceRecord>) -> (r: Option<
    String,
>)
    ensures
        r.deep_view() == owned_project(working_directory@, resources.deep_view()),
{
    let owned = owned_resources(resources, ResourceKind::DockerCompose);
    if owned.len() == 0 {
        return None;
    }
    assert(owned.deep_view()[0] == owned@[0]@);
    match owned[0].integration_metadata.get("project_name") {
        Some(name) => Some(name),
        None => Some(default_project_name(working_directory)),
    }
}

impl DockerCleanupView {
    pub open spec fn waiting_for(self, phase: CleanupPhaseView) -> DockerCleanupView {
        DockerCleanupView { phase, ..self }
    }

    pub open spec fn saying(self, line: Seq<char>) -> DockerCleanupView {
        DockerCleanupView { outputs: self.outputs.push(line), ..self }
    }

    pub open spec fn failed(self, error: WorkstateErrorView) -> CleanupMove {
        (self.waiting_for(CleanupPhaseView::Over), CleanupStepView::Fail(error))
    }

    /// The name of the container that is meant.
    pub open spec fn name(self) -> Seq<char> {
        match self.request.specification {
            Some(specification) => specification.name,
            None => Seq::empty(),
        }
    }

    /// The last step: the services that were started are stopped, also those that this work started.
    pub open spec fn to_services(self) -> CleanupMove {
        (
            self.waiting_for(CleanupPhaseView::Services),
            CleanupStepView::StopServices(self.request.resources + self.engine_resources),
        )
    }

    /// The container of the next record is looked at.
    pub open spec fn next_container(self, pending: Seq<ResourceRecordView>) -> CleanupMove {
        match self.request.specification {
            Some(specification) if pending.len() > 0 => (
                self.waiting_for(CleanupPhaseView::Look { pending }),
                CleanupStepView::Observe(bare_request(self.request.context, specification)),
            ),
            _ => self.to_services(),
        }
    }

    /// The containers that are owned, where a container is meant.
    pub open spec fn to_containers(self) -> CleanupMove {
        self.next_container(
            owned_of_kind(self.request.resources, ResourceKind::DockerContainer),
        )
    }

    /// The owned project first, where a project is meant.
    pub open spec fn to_project(self) -> CleanupMove {
        match self.request.compose {
            Some(compose) => match owned_project(
                compose.working_directory,
                self.request.resources,
            ) {
                Some(name) => (
                    self.waiting_for(CleanupPhaseView::Project { name }),
                    CleanupStepView::Down,
                ),
                None => self.to_containers(),
            },
            None => self.to_containers(),
        }
    }

    /// After the project was stopped.
    pub open spec fn after_down(self, name: Seq<char>, output: ProcessOutputView) -> CleanupMove {
        if output.success() || says_missing_project(output) {
            self.saying("stopped owned Docker Compose project '"@ + name + "'"@).to_containers()
        } else {
            self.failed(docker_failure("stop Compose project"@, output))
        }
    }

    /// After a container was looked at. It is taken down only where it still is the recorded one: it
    /// has the recorded identity, and is what was asked for.
    pub open spec fn after_look(
        self,
        pending: Seq<ResourceRecordView>,
        observation: DockerContainerObservationView,
    ) -> CleanupMove {
        match (self.request.specification, observation) {
            (_, DockerContainerObservationView::Unavailable(engine)) => self.failed(
                engine_lost(engine),
            ),
            (Some(specification), DockerContainerObservationView::Missing) if pending.len()
                > 0 => self.saying(
                "Docker container '"@ + self.name() + "' was already absent"@,
            ).next_container(pending.drop_first()),
            (Some(specification), DockerContainerObservationView::Present(snapshot)) if pending.len()
                > 0 => {
                let record = pending[0];
                if snapshot.id != record.resource.stable_identity || !record_tells_of(
                    record,
                    bare_request(self.request.context, specification),
                    snapshot,
                ) {
                    DockerCleanupView {
                        conflict: true,
                        ..self.saying(
                            "preserved Docker container '"@ + self.name()
                                + "' because its configuration changed externally"@,
                        )
                    }.next_container(pending.drop_first())
                } else if recorded_take_down(record) == TakeDown::Stop && snapshot.state
                    != DockerContainerStateView::Running {
                    self.saying(
                        "Docker container '"@ + self.name() + "' was already stopped"@,
                    ).next_container(pending.drop_first())
                } else {
                    (
                        self.waiting_for(
                            CleanupPhaseView::TakeDown {
                                pending,
                                take_down: recorded_take_down(record),
                            },
                        ),
                        CleanupStepView::Run(
                            take_down_arguments(recorded_take_down(record), snapshot.id),
                        ),
                    )
                }
            },
            _ => self.to_services(),
        }
    }

    /// After a container was taken down.
    pub open spec fn after_take_down(
        self,
        pending: Seq<ResourceRecordView>,
        take_down: TakeDown,
        output: ProcessOutputView,
    ) -> CleanupMove {
        let left = if pending.len() > 0 {
            pending.drop_first()
        } else {
            pending
        };
        match take_down {
            TakeDown::Stop => if is_down(take_down, output) {
                self.saying(
                    "stopped Docker container '"@ + self.name() + "' started by Workstate"@,
                ).next_container(left)
            } else {
                self.failed(docker_failure("stop owned container"@, output))
            },
            TakeDown::Remove => if is_down(take_down, output) {
                self.saying(
                    "removed Docker container '"@ + self.name() + "' created by Workstate"@,
                ).next_container(left)
            } else {
                self.failed(docker_failure("remove owned container"@, output))
            },
        }
    }

    /// What the work comes to.
    pub open spec fn outcome(self, lines: Seq<Seq<char>>) -> DockerEnsureOutcomeView {
        DockerEnsureOutcomeView {
            status: if self.conflict {
                DockerOperationStatus::Conflict
            } else {
                DockerOperationStatus::Repaired
            },
            resources: Seq::empty(),
            detail: if self.conflict {
                Some(
                    "one or more Docker resources were preserved because ownership could not be proven"@,
                )
            } else {
                None
            },
            outputs: self.outputs + lines,
        }
    }

    /// What follows a reply. A reply that does not belong to what the work is waiting for changes
    /// nothing.
    pub open spec fn next(self, event: CleanupEventView) -> CleanupMove {
        match (self.phase, event) {
            (CleanupPhaseView::Engine, CleanupEventView::EngineReady(resources)) => (
                DockerCleanupView { engine_resources: resources, ..self }
            ).to_project(),
            (
                CleanupPhaseView::Project { name },
                CleanupEventView::Ran(output),
            ) => self.after_down(name, output),
            (
                CleanupPhaseView::Look { pending },
                CleanupEventView::Observed(observation),
            ) => self.after_look(pending, observation),
            (
                CleanupPhaseView::TakeDown { pending, take_down },
                CleanupEventView::Ran(output),
            ) => self.after_take_down(pending, take_down, output),
            (CleanupPhaseView::Services, CleanupEventView::ServicesStopped(lines)) => (
                self.waiting_for(CleanupPhaseView::Over),
                CleanupStepView::Finish(self.outcome(lines)),
            ),
            (CleanupPhaseView::Over, _) => (self, CleanupStepView::Idle),
            (_, CleanupEventView::Failed(error)) => self.failed(error),
            _ => (self, CleanupStepView::Idle),
        }
    }
}

/// The work that was not begun yet.
pub open spec fn cleanup_of(request: DockerCleanupRequestView) -> DockerCleanupView {
    DockerCleanupView {
        request,
        engine_resources: Seq::empty(),
        outputs: Seq::empty(),
        conflict: false,
        phase: CleanupPhaseView::Engine,
    }
}

/// The first step: the engine has to answer where a container or a project is meant, with the
/// settings of the project where it has some.
pub open spec fn cleanup_begun(request: DockerCleanupRequestView) -> CleanupMove {
    match (request.compose, request.specification) {
        (Some(compose), _) => (
            cleanup_of(request),
            CleanupStepView::EnsureEngine(Some(compose.environment)),
        ),
        (None, Some(_)) => (cleanup_of(request), CleanupStepView::EnsureEngine(None)),
        (None, None) => cleanup_of(request).to_services(),
    }
}

impl DockerCleanup {
    /// Begins: the engine has to answer where a container or a project is meant.
    pub fn begin(request: DockerCleanupRequest) -> (r: (DockerCleanup, CleanupStep))
        ensures
            (r.0@, r.1@) == cleanup_begun(request@),
    {
        let environment = match &request.compose {
            Some(compose) => Some(compose.environment.replicate()),
            None => None,
        };
        let means_container = request.specification.is_some();
        let work = DockerCleanup {
            request,
            engine_resources: empty_list(),
            outputs: empty_list(),
            conflict: false,
            phase: CleanupPhase::Engine,
        };
        if environment.is_some() || means_container {
            (work, CleanupStep::EnsureEngine(environment))
        } else {
            work.to_services()
        }
    }

    fn waiting_for(self, phase: CleanupPhase) -> (r: DockerCleanup)
        ensures
            r@ == self@.waiting_for(phase@),
    {
        DockerCleanup {
            request: self.request,
            engine_resources: self.engine_resources,
            outputs: self.outputs,
            conflict: self.conflict,
            phase,
        }
    }

    fn saying(self, line: String) -> (r: DockerCleanup)
        ensures
            r@ == self@.saying(line@),
    {
        let mut outputs = self.outputs;
        append(&mut outputs, line);
        DockerCleanup {
            request: self.request,
            engine_resources: self.engine_resources,
            outputs,
            conflict: self.conflict,
            phase: self.phase,
        }
    }

    fn in_conflict(self) -> (r: DockerCleanup)
        ensures
            r@ == (DockerCleanupView { conflict: true, ..self@ }),
    {
        DockerCleanup {
            request: self.request,
            engine_resources: self.engine_resources,
            outputs: self.outputs,
            conflict: true,
            phase: self.phase,
        }
    }

    fn failed(self, error: WorkstateError) -> (r: (DockerCleanup, CleanupStep))
        ensures
            (r.0@, r.1@) == self@.failed(error@),
    {
        (self.waiting_for(CleanupPhase::Over), CleanupStep::Fail(error))
    }

    fn name(&self) -> (r: String)
        ensures
            r@ == self@.name(),
    {
        match &self.request.specification {
            Some(specification) => specification.name.clone(),
            None => String::new(),
        }
    }

    fn to_services(self) -> (r: (DockerCleanup, CleanupStep))
        ensures
            (r.0@, r.1@) == self@.to_services(),
    {
        let mut services = self.request.resources.replicate();
        append_all(&mut services, self.engine_resources.replicate());
        (self.waiting_for(CleanupPhase::Services), CleanupStep::StopServices(services))
    }

    fn next_container(self, pending: Vec<ResourceRecord>) -> (r: (DockerCleanup, CleanupStep))
        ensures
            (r.0@, r.1@) == self@.next_container(pending.deep_view()),
    {
        if pending.len() == 0 {
            return self.to_services();
        }
        let request = match &self.request.specification {
            Some(specification) => DockerContainerRequest {
                context: self.request.context.replicate(),
                specification: specification.replicate(),
                working_directory: None,
                readiness_checks: empty_list(),
            },
            None => {
                return self.to_services();
            },
        };
        (self.waiting_for(CleanupPhase::Look { pending }), CleanupStep::Observe(request))
    }

    fn to_containers(self) -> (r: (DockerCleanup, CleanupStep))
        ensures
            (r.0@, r.1@) == self@.to_containers(),
    {
        let pending = owned_resources(&self.request.resources, ResourceKind::DockerContainer);
        self.next_container(pending)
    }

    fn to_project(self) -> (r: (DockerCleanup, CleanupStep))
        ensures
            (r.0@, r.1@) == self@.to_project(),
    {
        let found = match &self.request.compose {
            Some(compose) => find_owned_project(
                compose.working_directory.as_str(),
                &self.request.resources,
            ),
            None => None,
        };
        match found {
            Some(name) => (
                self.waiting_for(CleanupPhase::Project { name }),
                CleanupStep::Down,
            ),
            None => self.to_containers(),
        }
    }

    fn after_down(self, name: String, output: ProcessOutput) -> (r: (DockerCleanup, CleanupStep))
        ensures
            (r.0@, r.1@) == self@.after_down(name@, output@),
    {
        if output.succeeded() || is_missing_project(&output) {
            self.saying(
                join3("stopped owned Docker Compose project '", name.as_str(), "'"),
            ).to_containers()
        } else {
            self.failed(docker_error("stop Compose project", &output))
        }
    }

    fn after_look(
        self,
        pending: Vec<ResourceRecord>,
        observation: DockerContainerObservation,
    ) -> (r: (DockerCleanup, CleanupStep))
        ensures
            (r.0@, r.1@) == self@.after_look(pending.deep_view(), observation@),
    {
        let snapshot = match observation {
            DockerContainerObservation::Unavailable(engine) => {
                return self.failed(engine_unavailable_after_mutation(&engine));
            },
            DockerContainerObservation::Missing => None,
            DockerContainerObservation::Present(snapshot) => Some(snapshot),
        };
        if pending.len() == 0 {
            return self.to_services();
        }
        assert(pending.deep_view()[0] == pending@[0]@);
        let request = match &self.request.specification {
            Some(specification) => DockerContainerRequest {
                context: self.request.context.replicate(),
                specification: specification.replicate(),
                working_directory: None,
                readiness_checks: empty_list(),
            },
            None => {
                return self.to_services();
            },
        };
        let name = self.name();
        let snapshot = match snapshot {
            None => {
                return self.saying(
                    join3("Docker container '", name.as_str(), "' was already absent"),
                ).next_container(rest(&pending));
            },
            Some(snapshot) => snapshot,
        };
        if !crate::text::same_text(
            snapshot.id.as_str(),
            pending[0].resource.stable_identity.as_str(),
        ) || !record_matches_snapshot(&pending[0], &request, &snapshot) {
            return self.saying(
                join3(
                    "preserved Docker container '",
                    name.as_str(),
                    "' because its configuration changed externally",
                ),
            ).in_conflict().next_container(rest(&pending));
        }
        let take_down = take_down_of(&pending[0]);
        if take_down == TakeDown::Stop && !snapshot.state.is_running() {
            return self.saying(
                join3("Docker container '", name.as_str(), "' was already stopped"),
            ).next_container(rest(&pending));
        }
        (
            self.waiting_for(CleanupPhase::TakeDown { pending, take_down }),
            CleanupStep::Run(arguments_to_take_down(take_down, snapshot.id.as_str())),
        )
    }

    fn after_take_down(
        self,
        pending: Vec<ResourceRecord>,
        take_down: TakeDown,
        output: ProcessOutput,
    ) -> (r: (DockerCleanup, CleanupStep))
        ensures
            (r.0@, r.1@) == self@.after_take_down(pending.deep_view(), take_down, output@),
    {
        let left = if pending.len() > 0 {
            rest(&pending)
        } else {
            pending
        };
        let down = was_taken_down(take_down, &output);
        let name = self.name();
        match take_down {
            TakeDown::Stop => if down {
                self.saying(
                    join3("stopped Docker container '", name.as_str(), "' started by Workstate"),
                ).next_container(left)
            } else {
                self.failed(docker_error("stop owned container", &output))
            },
            TakeDown::Remove => if down {
                self.saying(
                    join3("removed Docker container '", name.as_str(), "' created by Workstate"),
                ).next_container(left)
            } else {
                self.failed(docker_error("remove owned container", &output))
            },
        }
    }

    fn outcome(&self, lines: Vec<String>) -> (r: DockerEnsureOutcome)
        ensures
            r@ == self@.outcome(lines.deep_view()),
    {
        let mut outputs = self.outputs.replicate();
        append_all(&mut outputs, lines);
        DockerEnsureOutcome {
            status: if self.conflict {
                DockerOperationStatus::Conflict
            } else {
                DockerOperationStatus::Repaired
            },
            resources: empty_list(),
            detail: if self.conflict {
                Some(
                    "one or more Docker resources were preserved because ownership could not be proven".to_owned(),
                )
            } else {
                None
            },
            outputs,
        }
    }

    /// What follows a reply. A reply that does not belong to what the work is waiting for changes
    /// nothing.
    pub fn advance(self, event: CleanupEvent) -> (r: (DockerCleanup, CleanupStep))
        ensures
            (r.0@, r.1@) == self@.next(event@),
    {
        let phase = self.phase.replicate();
        match (phase, event) {
            (CleanupPhase::Engine, CleanupEvent::EngineReady(resources)) => {
                let work = DockerCleanup {
                    request: self.request,
                    engine_resources: resources,
                    outputs: self.outputs,
                    conflict: self.conflict,
                    phase: self.phase,
                };
                work.to_project()
            },
            (CleanupPhase::Project { name }, CleanupEvent::Ran(output)) => self.after_down(
                name,
                output,
            ),
            (
                CleanupPhase::Look { pending },
                CleanupEvent::Observed(observation),
            ) => self.after_look(pending, observation),
            (
                CleanupPhase::TakeDown { pending, take_down },
                CleanupEvent::Ran(output),
            ) => self.after_take_down(pending, take_down, output),
            (CleanupPhase::Services, CleanupEvent::ServicesStopped(lines)) => {
                let outcome = self.outcome(lines);
                (self.waiting_for(CleanupPhase::Over), CleanupStep::Finish(outcome))
            },
            (CleanupPhase::Over, _) => (self, CleanupStep::Idle),
            (_, CleanupEvent::Failed(error)) => self.failed(error),
            _ => (self, CleanupStep::Idle),
        }
    }
}

// ---------------------------------------------------------------------------------------------
// Laws
// ---------------------------------------------------------------------------------------------
/// Only a container that the record tells of is taken down: where a look is followed by a command, the
/// command names the recorded identity, and the container still is what was asked for.
pub proof fn law_only_recorded_container_is_taken_down(
    work: DockerCleanupView,
    event: CleanupEventView,
)
    requires
        work.phase is Look,
        work.next(event).1 is Run,
    ensures
        work.phase matches CleanupPhaseView::Look { pending } && pending.len() > 0 && work.next(
            event,
        ).1 == CleanupStepView::Run(
            take_down_arguments(
                recorded_take_down(pending[0]),
                pending[0].resource.stable_identity,
            ),
        ) && (event matches CleanupEventView::Observed(
            DockerContainerObservationView::Present(snapshot),
        ) && work.request.specification is Some && record_tells_of(
            pending[0],
            bare_request(work.request.context, work.request.specification->Some_0),
            snapshot,
        )),
{
}

/// A container that was created or started is taken down as it was recorded: removed where it was
/// created, stopped where it was only started, under the identity that it had.
pub proof fn law_created_container_is_taken_down(
    work: DockerCleanupView,
    specification: ContainerSpecView,
    snapshot: DockerContainerSnapshotView,
    observed_before: bool,
    take_down: TakeDown,
    pending: Seq<ResourceRecordView>,
)
    requires
        work.request.specification == Some(specification),
        work.phase == (CleanupPhaseView::Look { pending }),
        pending.len() > 0,
        container_recorded(
            work.request.context,
            bare_request(work.request.context, specification),
            snapshot,
            OwnershipStatus::CreatedByCurrentRun,
            observed_before,
            Some(operation_name(take_down)),
        ) == Ok::<ResourceRecordView, WorkstateErrorView>(pending[0]),
        matches_request(bare_request(work.request.context, specification), snapshot),
        snapshot.state == DockerContainerStateView::Running,
    ensures
        work.next(
            CleanupEventView::Observed(DockerContainerObservationView::Present(snapshot)),
        ).1 == CleanupStepView::Run(take_down_arguments(take_down, snapshot.id)),
{
    reveal_strlit("container_name");
    reveal_strlit("configuration_key");
    reveal_strlit("environment");
    reveal_strlit("cleanup_operation");
    reveal_strlit("remove");
    reveal_strlit("stop");
    assert("container_name"@[1] != "configuration_key"@[16]);
    assert("container_name"@.len() == 14);
    assert("configuration_key"@.len() == 17);
    assert("environment"@.len() == 11);
    assert("cleanup_operation"@.len() == 17);
    assert("cleanup_operation"@[1] == 'l');
    assert("configuration_key"@[1] == 'o');
    assert("remove"@.len() == 6);
    assert("stop"@.len() == 4);
}

/// A container that is not what was recorded is never taken down, and the work then ends in a conflict.
pub proof fn law_conflict_is_kept(work: DockerCleanupView, event: CleanupEventView)
    requires
        work.conflict,
    ensures
        work.next(event).0.conflict,
        work.next(event).1 matches CleanupStepView::Finish(outcome) ==> outcome.status
            == DockerOperationStatus::Conflict,
{
}

/// Once the work is over, no reply brings anything about.
pub proof fn law_over_is_over(work: DockerCleanupView, event: CleanupEventView)
    requires
        work.phase is Over,
    ensures
        work.next(event) == (work, CleanupStepView::Idle),
{
}

/// A project that was brought up here is taken down, once the engine runs; one that was there before,
/// or is to be kept, is not.
pub proof fn law_owned_project_is_taken_down(
    work: DockerCleanupView,
    resources: Seq<ResourceRecordView>,
)
    requires
        work.phase is Engine,
        work.request.compose is Some,
    ensures
        (exists|i: int|
            0 <= i < work.request.resources.len() && (
            #[trigger] work.request.resources[i]).resource.kind == ResourceKind::DockerCompose
                && work.request.resources[i].ownership == OwnershipStatus::CreatedByCurrentRun
                && work.request.resources[i].cleanup_policy != CleanupPolicy::Preserve)
            <==> work.next(CleanupEventView::EngineReady(resources)).1 == CleanupStepView::Down,
{
    let kind = ResourceKind::DockerCompose;
    law_every_owned_resource_is_taken_up(work.request.resources, kind);
    let owned = owned_of_kind(work.request.resources, kind);
    if owned.len() > 0 {
        assert(work.request.resources.contains(owned[0]));
        let i = choose|i: int|
            0 <= i < work.request.resources.len() && work.request.resources[i] == owned[0];
        assert(work.request.resources[i].resource.kind == kind);
    } else {
        assert forall|i: int| 0 <= i < work.request.resources.len() implies !((
        #[trigger] work.request.resources[i]).resource.kind == kind
            && work.request.resources[i].ownership == OwnershipStatus::CreatedByCurrentRun
            && work.request.resources[i].cleanup_policy != CleanupPolicy::Preserve) by {}
    }
}

/// A project that is down, or was not there, lets the work go on to the containers; one that cannot be
/// taken down ends it with a failure.
pub proof fn law_project_that_stays_is_a_failure(
    work: DockerCleanupView,
    name: Seq<char>,
    output: ProcessOutputView,
)
    requires
        work.phase == (CleanupPhaseView::Project { name }),
    ensures
        output.status == Some(0i32) ==> (work.next(CleanupEventView::Ran(output)).1 is Observe
            || work.next(CleanupEventView::Ran(output)).1 is StopServices),
        output.status != Some(0i32) && !says_missing_project(output) ==> work.next(
            CleanupEventView::Ran(output),
        ).1 is Fail,
{
}

/// Each container that was made or started here is looked at under its specification, one after the
/// other; where nothing is left to look at, the services are stopped, those of the request and those
/// that were started to clean up.
pub proof fn law_owned_containers_are_looked_at(
    work: DockerCleanupView,
    pending: Seq<ResourceRecordView>,
)
    ensures
        pending.len() > 0 ==> (work.request.specification matches Some(specification) ==> (
        work.next_container(pending).1 matches CleanupStepView::Observe(request)
            && request.specification == specification && work.next_container(pending).0.phase == (
        CleanupPhaseView::Look { pending }))),
        pending.len() == 0 ==> work.next_container(pending).1 == CleanupStepView::StopServices(
            work.request.resources + work.engine_resources,
        ),
        work.request.compose is None && work.phase is Engine ==> forall|
            resources: Seq<ResourceRecordView>,
        |
            ({
                let looked = #[trigger] work.next(CleanupEventView::EngineReady(resources));
                &&& looked.0.engine_resources == resources
                &&& (looked.1 is Observe) == (work.request.specification is Some
                    && owned_of_kind(
                    work.request.resources,
                    ResourceKind::DockerContainer,
                ).len() > 0)
            }),
{
}

/// A container that was taken down leaves the rest to be looked at; one that cannot be taken down is a
/// failure. A container that is gone, or is not the recorded one any more, is passed over, and only the
/// latter is told as a conflict.
pub proof fn law_next_container_follows(
    work: DockerCleanupView,
    pending: Seq<ResourceRecordView>,
    take_down: TakeDown,
    output: ProcessOutputView,
    snapshot: DockerContainerSnapshotView,
)
    requires
        pending.len() > 0,
        work.request.specification is Some,
    ensures
        work.phase == (CleanupPhaseView::TakeDown { pending, take_down }) && output.status == Some(
            0i32,
        ) ==> ({
            let gone = work.next(CleanupEventView::Ran(output));
            &&& gone.0.conflict == work.conflict
            &&& gone.0.outputs.len() == work.outputs.len() + 1
            &&& if pending.len() == 1 {
                gone.1 is StopServices
            } else {
                gone.0.phase == (CleanupPhaseView::Look { pending: pending.drop_first() })
            }
        }),
        work.phase == (CleanupPhaseView::TakeDown { pending, take_down }) && output.status != Some(
            0i32,
        ) && !says_missing_container(output) && !says_already_stopped(output) ==> work.next(
            CleanupEventView::Ran(output),
        ).1 is Fail,
        work.phase == (CleanupPhaseView::Look { pending }) ==> ({
            let missing = work.next(
                CleanupEventView::Observed(DockerContainerObservationView::Missing),
            );
            &&& missing.0.conflict == work.conflict
            &&& !(missing.1 is Run) && !(missing.1 is Fail)
        }),
        work.phase == (CleanupPhaseView::Look { pending }) && snapshot.id
            != pending[0].resource.stable_identity ==> ({
            let other = work.next(
                CleanupEventView::Observed(DockerContainerObservationView::Present(snapshot)),
            );
            &&& other.0.conflict
            &&& !(other.1 is Run)
        }),
        work.phase == CleanupPhaseView::Services ==> forall|lines: Seq<Seq<char>>|
            (#[trigger] work.next(CleanupEventView::ServicesStopped(lines))).1
                matches CleanupStepView::Finish(outcome) && outcome.outputs == work.outputs + lines
                && (outcome.status == DockerOperationStatus::Conflict) == work.conflict,
{
}

/// Only a container that was started, not made, is stopped; every other one that is taken down is
/// removed.
pub proof fn law_recorded_operation_is_done(record: ResourceRecordView, identity: Seq<char>)
    ensures
        record.note("cleanup_operation"@) == Some("stop"@) ==> take_down_arguments(
            recorded_take_down(record),
            identity,
        ) == seq!["stop"@, identity],
        record.note("cleanup_operation"@) == Some("remove"@) ==> take_down_arguments(
            recorded_take_down(record),
            identity,
        ) == seq!["rm"@, "--force"@, identity],
{
    reveal_strlit("stop");
    reveal_strlit("remove");
    assert("stop"@.len() == 4 && "remove"@.len() == 6);
}

} // verus!
