//! The actions that start containers and Compose projects.
use vstd::prelude::*;
use vstd::string::*;
use crate::collections::{map_of, ordered, TextMap, TextPair};
use crate::domain::{
    ActionKind, ActionSpec, ActionSpecView, ComposeSpec, ComposeSpecView, ContainerSpec,
    ContainerSpecView, MountSpec, MountSpecView, OwnershipStatus, ResourceRecord,
    ResourceRecordView,
};
use crate::error::{error_of, seen, ErrorCategory, WorkstateError, WorkstateErrorView};
use crate::integrations::docker::backend::{
    asks_readiness, has_observable_readiness_checks, source_of,
};
use crate::integrations::docker::checks::poll_interval;
use crate::integrations::docker::compose::DockerComposeController;
use crate::integrations::docker::engine::{
    integration_error, DockerCliEnvironment, DockerEngineController,
};
use crate::integrations::docker::errors::compose_configuration_error;
use crate::integrations::docker::models::{
    container_matches, container_record, container_recorded, default_operation, matches_request,
};
use crate::paths::{
    has_parent_step, is_home_relative, joined_path, path_has_parent_step, path_is_home_relative,
    path_join,
};
use crate::planner::{
    log_lines, logged, observed_change, observed_correct, registering, ActionExecutionResult,
    ActionExecutionResultView, ActionHandlerRegistry, ActionObservation, ActionObservationView,
    CompensationResult, CompensationResultView, ObservationStatus,
};
use crate::platform::detection::support::{set_of, CapabilityId, CapabilitySet};
use crate::ports::{
    DockerActionContext, DockerActionContextView, DockerCheckReport, DockerCheckReportView,
    DockerCleanupRequest, DockerCleanupRequestView, DockerComposeRequest, DockerComposeRequestView,
    DockerContainerObservation, DockerContainerObservationView, DockerContainerRequest,
    DockerContainerRequestView, DockerContainerSnapshotView, DockerEngineSnapshotView,
    DockerEnsureOutcome, DockerEnsureOutcomeView, DockerOperationStatus,
};
use crate::text::{has_control, has_prefix, join3, same_text, text_has_control, text_starts_with};
use crate::time::{span_of_millis, TimeSpan};
use crate::values::{
    append, append_all, empty_list, lemma_filter_ends, lemma_filter_step, list_of, text_or,
    Replicate,
};

verus! {

// ---------------------------------------------------------------------------------------------
// The backend
// ---------------------------------------------------------------------------------------------
/// How Docker is called, how Compose is called, and how often readiness is checked.
#[derive(Debug, Clone)]
pub struct DockerProcessBackend {
    engine: DockerEngineController,
    compose: DockerComposeController,
    poll_interval: TimeSpan,
}

impl DockerProcessBackend {
    pub closed spec fn engine_controller(&self) -> DockerEngineController {
        self.engine
    }

    pub closed spec fn compose_program(&self) -> Option<Seq<char>> {
        self.compose@.standalone_executable
    }

    pub closed spec fn interval(&self) -> TimeSpan {
        self.poll_interval
    }

    /// The backend of the given programs; a Docker program without a name is refused.
    pub fn new_for_platform(
        docker_program: String,
        compose_program: Option<String>,
        environment: DockerCliEnvironment,
        linux_user_services: bool,
    ) -> (r: Result<Self, WorkstateError>)
        ensures
            match r {
                Ok(backend) => docker_program@.len() > 0 && backend.engine_controller().program()
                    == docker_program@ && backend.engine_controller().settings() == environment@
                    && backend.engine_controller().user_services() == linux_user_services
                    && backend.compose_program() == compose_program.deep_view()
                    && backend.interval() == span_of_millis(100),
                Err(error) => docker_program@.len() == 0 && error@ == integration_error(
                    "Docker executable must be non-empty"@,
                ),
            },
    {
        match DockerEngineController::new_for_platform(
            docker_program,
            environment,
            linux_user_services,
        ) {
            Err(error) => Err(error),
            Ok(engine) => Ok(
                DockerProcessBackend {
                    engine,
                    compose: DockerComposeController::new(compose_program),
                    poll_interval: TimeSpan::from_millis(100),
                },
            ),
        }
    }

    /// The backend that checks readiness at the given interval; an empty one is replaced.
    pub fn with_poll_interval(self, interval: TimeSpan) -> (r: Self)
        ensures
            r.engine_controller() == self.engine_controller(),
            r.compose_program() == self.compose_program(),
            r.interval() == (if interval.nanoseconds == 0 {
                span_of_millis(100)
            } else {
                interval
            }),
    {
        DockerProcessBackend {
            engine: self.engine,
            compose: self.compose,
            poll_interval: poll_interval(interval),
        }
    }

    /// How Docker is called.
    pub fn engine(&self) -> (r: &DockerEngineController)
        ensures
            *r == self.engine_controller(),
    {
        &self.engine
    }

    /// How Compose is called.
    pub fn compose(&self) -> (r: &DockerComposeController)
        ensures
            r@.standalone_executable == self.compose_program(),
    {
        &self.compose
    }
}

// ---------------------------------------------------------------------------------------------
// Requests
// ---------------------------------------------------------------------------------------------
/// The handler of one kind of Docker actions.
#[derive(Debug, Clone, PartialEq, Eq)]
pub struct DockerActionHandler {
    pub key: String,
}

/// What a `DockerActionHandler` stands for.
#[verifier::ext_equal]
pub struct DockerActionHandlerView {
    pub key: Seq<char>,
}

impl View for DockerActionHandler {
    type V = DockerActionHandlerView;

    open spec fn view(&self) -> DockerActionHandlerView {
        DockerActionHandlerView {
            key: self.key.deep_view(),
        }
    }
}

impl DeepView for DockerActionHandler {
    type V = DockerActionHandlerView;

    open spec fn deep_view(&self) -> DockerActionHandlerView {
        self.view()
    }
}

impl Replicate for DockerActionHandler {
    fn replicate(&self) -> (r: Self) {
        DockerActionHandler {
            key: self.key.replicate(),
        }
    }
}

/// A key that a Docker handler can have.
pub open spec fn is_docker_action_key(key: Seq<char>) -> bool {
    key == "start_container"@ || key == "start_compose"@
}

/// The action and the environment that a Docker request belongs to.
pub open spec fn docker_context(action: ActionSpecView) -> Result<
    DockerActionContextView,
    WorkstateErrorView,
> {
    match action.resolved_environment {
        None => Err(
            error_of(
                ErrorCategory::Runtime,
                "Docker action '"@ + action.id
                    + "' was executed without an environment context"@,
            ),
        ),
        Some(environment) => Ok(
            DockerActionContextView {
                action_id: action.id,
                environment,
                cleanup_policy: action.cleanup_policy,
            },
        ),
    }
}

/// The mounts with their resolved sources.
pub open spec fn with_sources(mounts: Seq<MountSpecView>, sources: Seq<Seq<char>>) -> Seq<
    MountSpecView,
> {
    Seq::new(
        mounts.len(),
        |i: int| MountSpecView { source: source_of(mounts, sources, i), ..mounts[i] },
    )
}

fn mounts_with_sources(mounts: &Vec<MountSpec>, sources: &Vec<String>) -> (r: Vec<MountSpec>)
    ensures
        r.deep_view() == with_sources(mounts.deep_view(), sources.deep_view()),
{
    let ghost all = mounts.deep_view();
    let ghost expected = with_sources(all, sources.deep_view());
    let mut resolved: Vec<MountSpec> = empty_list();
    let mut i: usize = 0;
    assert(expected.take(0) =~= Seq::<MountSpecView>::empty());
    while i < mounts.len()
        invariant
            i <= mounts@.len(),
            all == mounts.deep_view(),
            expected == with_sources(all, sources.deep_view()),
            resolved.deep_view() == expected.take(i as int),
        decreases mounts@.len() - i,
    {
        assert(all[i as int] == mounts@[i as int]@);
        let source = if i < sources.len() {
            assert(sources.deep_view()[i as int] == sources@[i as int]@);
            sources[i].clone()
        } else {
            mounts[i].source.clone()
        };
        append(
            &mut resolved,
            MountSpec {
                source,
                target: mounts[i].target.clone(),
                read_only: mounts[i].read_only,
            },
        );
        assert(expected.take(i as int + 1) =~= expected.take(i as int).push(expected[i as int]));
        i = i + 1;
    }
    assert(expected.take(i as int) =~= expected);
    resolved
}

/// The container that an action asks for. `sources` are the resolved sources of its mounts and
/// `directory` its resolved working directory, each where there is any.
pub open spec fn container_requested(
    action: ActionSpecView,
    sources: Result<Seq<Seq<char>>, WorkstateErrorView>,
    directory: Result<Seq<char>, WorkstateErrorView>,
) -> Result<DockerContainerRequestView, WorkstateErrorView> {
    match action.parameters.container {
        None => Err(
            error_of(
                ErrorCategory::Domain,
                "Docker container action '"@ + action.id + "' is missing its configuration"@,
            ),
        ),
        Some(specification) => {
            let mounts = if specification.mounts.len() == 0 {
                Ok(specification.mounts)
            } else {
                match sources {
                    Err(error) => Err(error),
                    Ok(sources) => Ok(with_sources(specification.mounts, sources)),
                }
            };
            match (mounts, docker_context(action)) {
                (Err(error), _) => Err(error),
                (Ok(_), Err(error)) => Err(error),
                (Ok(mounts), Ok(context)) => match (action.working_directory, directory) {
                    (Some(_), Err(error)) => Err(error),
                    (working_directory, directory) => Ok(
                        DockerContainerRequestView {
                            context,
                            specification: ContainerSpecView { mounts, ..specification },
                            working_directory: match (working_directory, directory) {
                                (Some(_), Ok(directory)) => Some(directory),
                                _ => None,
                            },
                            readiness_checks: action.readiness_checks,
                        },
                    ),
                },
            }
        },
    }
}

/// The settings of a command that are meant for Docker.
pub open spec fn docker_pairs(environment: Map<Seq<char>, Seq<char>>) -> Seq<TextPair> {
    ordered(environment).filter(|pair: TextPair| has_prefix(pair.0, "DOCKER_"@))
}

/// The settings of an optional command that are meant for Docker.
pub open spec fn command_pairs(command: Option<crate::domain::CommandSpecView>) -> Seq<TextPair> {
    match command {
        Some(command) => docker_pairs(command.environment),
        None => Seq::empty(),
    }
}

/// The settings of the commands of a project that are meant for Docker; those of the second command
/// count where both have one.
pub open spec fn project_settings(specification: ComposeSpecView) -> Seq<TextPair> {
    ordered(
        map_of(
            command_pairs(specification.up_command) + command_pairs(specification.down_command),
        ),
    )
}

fn read_docker_pairs(environment: &TextMap) -> (r: Vec<(String, String)>)
    ensures
        r.deep_view() == docker_pairs(environment@),
{
    let entries = environment.entries();
    let ghost all = entries.deep_view();
    let ghost keep = |pair: TextPair| has_prefix(pair.0, "DOCKER_"@);
    let mut pairs: Vec<(String, String)> = empty_list();
    let mut i: usize = 0;
    proof {
        lemma_filter_ends(all, keep);
    }
    while i < entries.len()
        invariant
            i <= entries@.len(),
            all == entries.deep_view(),
            keep == (|pair: TextPair| has_prefix(pair.0, "DOCKER_"@)),
            pairs.deep_view() == all.take(i as int).filter(keep),
        decreases entries@.len() - i,
    {
        proof {
            lemma_filter_step(all, i as int, keep);
        }
        assert(all[i as int] == entries@[i as int].deep_view());
        if text_starts_with(entries[i].0.as_str(), "DOCKER_") {
            append(&mut pairs, entries[i].replicate());
        }
        i = i + 1;
    }
    pairs
}

/// The settings of the commands of a project that are meant for Docker.
pub fn compose_environment(specification: &ComposeSpec) -> (r: Vec<(String, String)>)
    ensures
        r.deep_view() == project_settings(specification@),
{
    let mut pairs = match &specification.up_command {
        Some(command) => read_docker_pairs(&command.environment),
        None => empty_list(),
    };
    let others = match &specification.down_command {
        Some(command) => read_docker_pairs(&command.environment),
        None => empty_list(),
    };
    append_all(&mut pairs, others);
    TextMap::from_pairs(&pairs).entries()
}

/// The project that an action asks for. `directory` is its resolved working directory, and `file` its
/// resolved Compose file, where it names one.
pub open spec fn compose_requested(
    action: ActionSpecView,
    directory: Result<Seq<char>, WorkstateErrorView>,
    file: Result<Seq<char>, WorkstateErrorView>,
) -> Result<DockerComposeRequestView, WorkstateErrorView> {
    match action.parameters.compose {
        None => Err(
            error_of(
                ErrorCategory::Domain,
                "Docker Compose action '"@ + action.id + "' is missing its configuration"@,
            ),
        ),
        Some(specification) => if action.working_directory is None {
            Err(
                integration_error(
                    "Docker Compose actions require an explicit working directory"@,
                ),
            )
        } else {
            match directory {
                Err(error) => Err(error),
                Ok(working_directory) => if specification.compose_file is None
                    && specification.up_command is None {
                    Err(
                        integration_error(
                            "Docker Compose actions require a compose file or an explicit up command"@,
                        ),
                    )
                } else {
                    match (specification.compose_file, file, docker_context(action)) {
                        (Some(_), Err(error), _) => Err(error),
                        (_, _, Err(error)) => Err(error),
                        (compose_file, file, Ok(context)) => Ok(
                            DockerComposeRequestView {
                                context,
                                specification: ComposeSpecView {
                                    compose_file: match (compose_file, file) {
                                        (Some(_), Ok(file)) => Some(file),
                                        _ => None,
                                    },
                                    ..specification
                                },
                                working_directory,
                                readiness_checks: action.readiness_checks,
                                environment: project_settings(specification),
                            },
                        ),
                    }
                },
            }
        },
    }
}

/// Where the Compose file that an action names is looked for. `expanded` is its path where it is
/// relative to the home directory.
pub open spec fn compose_file_candidate(
    working_directory: Seq<char>,
    raw: Seq<char>,
    expanded: Result<Seq<char>, WorkstateErrorView>,
) -> Result<Seq<char>, WorkstateErrorView> {
    if raw.len() == 0 || has_control(raw) {
        Err(
            integration_error(
                "Compose file paths must be non-empty and contain no control characters"@,
            ),
        )
    } else {
        let candidate = if is_home_relative(raw) {
            expanded
        } else {
            Ok(joined_path(working_directory, raw))
        };
        match candidate {
            Err(error) => Err(error),
            Ok(path) => if has_parent_step(path) {
                Err(
                    integration_error(
                        "Compose file paths must not contain parent-directory traversal"@,
                    ),
                )
            } else {
                Ok(path)
            },
        }
    }
}

/// A Compose file has to be there, and has to be a file.
pub open spec fn compose_file_checked(candidate: Seq<char>, exists_there: bool, is_directory: bool) -> Result<
    (),
    WorkstateErrorView,
> {
    if !exists_there {
        Err(
            integration_error("configured Compose file does not exist"@).with("path"@, candidate),
        )
    } else if is_directory {
        Err(
            integration_error("configured Compose file must not be a directory"@).with(
                "path"@,
                candidate,
            ),
        )
    } else {
        Ok(())
    }
}

/// The resources that an action may take down.
pub open spec fn cleanup_requested(
    action: ActionSpecView,
    resources: Seq<ResourceRecordView>,
    container: Result<DockerContainerRequestView, WorkstateErrorView>,
    compose: Result<DockerComposeRequestView, WorkstateErrorView>,
) -> Result<DockerCleanupRequestView, WorkstateErrorView> {
    match docker_context(action) {
        Err(error) => Err(error),
        Ok(context) => match action.kind {
            ActionKind::StartContainer => match container {
                Err(error) => Err(error),
                Ok(request) => Ok(
                    DockerCleanupRequestView {
                        context,
                        specification: Some(request.specification),
                        compose: None,
                        resources,
                    },
                ),
            },
            ActionKind::StartCompose => match compose {
                Err(error) => Err(error),
                Ok(request) => Ok(
                    DockerCleanupRequestView {
                        context,
                        specification: None,
                        compose: Some(request),
                        resources,
                    },
                ),
            },
            _ => Err(integration_error("Docker cleanup received an incompatible action"@)),
        },
    }
}

/// What is observed of a container that an action asks for. It is correct where it runs as it should
/// and asks for no further checks.
pub open spec fn container_action_observed(
    request: DockerContainerRequestView,
    observation: DockerContainerObservationView,
) -> Result<ActionObservationView, WorkstateErrorView> {
    match observation {
        DockerContainerObservationView::Missing => Ok(
            observed_change().explained("the Docker container is missing"@),
        ),
        DockerContainerObservationView::Unavailable(engine) => Ok(
            observed_change().explained(
                match engine.detail {
                    Some(detail) => detail,
                    None => "Docker Engine is unavailable"@,
                },
            ),
        ),
        DockerContainerObservationView::Present(snapshot) => if !matches_request(
            request,
            snapshot,
        ) {
            Ok(
                observed_change().explained(
                    "the Docker container exists with incompatible configuration"@,
                ),
            )
        } else {
            match container_recorded(
                request.context,
                request,
                snapshot,
                OwnershipStatus::ReusedExisting,
                true,
                default_operation(OwnershipStatus::ReusedExisting),
            ) {
                Err(error) => Err(error),
                Ok(record) => if crate::integrations::docker::models::container_ready(snapshot)
                    && !asks_readiness(request.readiness_checks) {
                    Ok(observed_correct().holding(seq![record]))
                } else {
                    Ok(observed_change().holding(seq![record]))
                },
            }
        },
    }
}

/// What an action asks Docker for.
#[derive(Debug)]
pub enum DockerTask {
    Container(DockerContainerRequest),
    Compose(DockerComposeRequest),
}

/// What a `DockerTask` stands for.
#[verifier::ext_equal]
pub enum DockerTaskView {
    Container(DockerContainerRequestView),
    Compose(DockerComposeRequestView),
}

impl View for DockerTask {
    type V = DockerTaskView;

    open spec fn view(&self) -> DockerTaskView {
        match self {
            DockerTask::Container(value) => DockerTaskView::Container(value.deep_view()),
            DockerTask::Compose(value) => DockerTaskView::Compose(value.deep_view()),
        }
    }
}

impl DeepView for DockerTask {
    type V = DockerTaskView;

    open spec fn deep_view(&self) -> DockerTaskView {
        self.view()
    }
}

/// What is known of an action before Docker is asked: all that there is to say, or the container to look at.
#[derive(Debug)]
pub enum DockerLook {
    Settled(ActionObservation),
    LookAt(DockerContainerRequest),
}

/// What a `DockerLook` stands for.
#[verifier::ext_equal]
pub enum DockerLookView {
    Settled(ActionObservationView),
    LookAt(DockerContainerRequestView),
}

impl View for DockerLook {
    type V = DockerLookView;

    open spec fn view(&self) -> DockerLookView {
        match self {
            DockerLook::Settled(value) => DockerLookView::Settled(value.deep_view()),
            DockerLook::LookAt(value) => DockerLookView::LookAt(value.deep_view()),
        }
    }
}

impl DeepView for DockerLook {
    type V = DockerLookView;

    open spec fn deep_view(&self) -> DockerLookView {
        self.view()
    }
}

/// What an action asks Docker for.
pub open spec fn docker_task(
    action: ActionSpecView,
    container: Result<DockerContainerRequestView, WorkstateErrorView>,
    compose: Result<DockerComposeRequestView, WorkstateErrorView>,
) -> Result<DockerTaskView, WorkstateErrorView> {
    match action.kind {
        ActionKind::StartContainer => match container {
            Ok(request) => Ok(DockerTaskView::Container(request)),
            Err(error) => Err(error),
        },
        ActionKind::StartCompose => match compose {
            Ok(request) => Ok(DockerTaskView::Compose(request)),
            Err(error) => Err(error),
        },
        _ => Err(
            integration_error(
                "Docker handler '"@ + action.id + "' received an incompatible action"@,
            ),
        ),
    }
}

/// What is known of an action before Docker is asked: a project is always brought up again.
pub open spec fn docker_looked(
    action: ActionSpecView,
    container: Result<DockerContainerRequestView, WorkstateErrorView>,
    compose: Result<DockerComposeRequestView, WorkstateErrorView>,
) -> Result<DockerLookView, WorkstateErrorView> {
    match action.kind {
        ActionKind::StartContainer => match container {
            Ok(request) => Ok(DockerLookView::LookAt(request)),
            Err(error) => Err(error),
        },
        ActionKind::StartCompose => match compose {
            Ok(_) => Ok(
                DockerLookView::Settled(
                    observed_change().explained("Docker Compose will reconcile the project"@),
                ),
            ),
            Err(error) => Err(error),
        },
        _ => Err(integration_error("Docker handler received an incompatible action"@)),
    }
}

/// What came of an action. Nothing was changed where what it asks for was there already.
pub open spec fn docker_result(outcome: DockerEnsureOutcomeView) -> ActionExecutionResultView {
    ActionExecutionResultView {
        changed: outcome.status != DockerOperationStatus::Reused && outcome.status
            != DockerOperationStatus::Healthy && outcome.status
            != DockerOperationStatus::Unchanged,
        resources: outcome.resources,
        mutations: Seq::empty(),
        outputs: log_lines(outcome.outputs),
    }
}

/// What came of taking resources down: a conflict is an error.
pub open spec fn docker_compensated(outcome: DockerEnsureOutcomeView) -> Result<
    CompensationResultView,
    WorkstateErrorView,
> {
    if outcome.status == DockerOperationStatus::Conflict {
        Err(
            integration_error(
                "Docker cleanup preserved resources because their ownership could not be proven"@,
            ).with(
                "detail"@,
                match outcome.detail {
                    Some(detail) => detail,
                    None => "no additional cleanup detail was returned"@,
                },
            ),
        )
    } else {
        Ok(CompensationResultView { outputs: log_lines(outcome.outputs) })
    }
}

/// What came of taking resources down: a conflict is an error.
pub fn docker_compensation_result(outcome: DockerEnsureOutcome) -> (r: Result<
    CompensationResult,
    WorkstateError,
>)
    ensures
        seen(r) == docker_compensated(outcome@),
{
    if outcome.status == DockerOperationStatus::Conflict {
        return Err(
            WorkstateError::new(
                ErrorCategory::Integration,
                "Docker cleanup preserved resources because their ownership could not be proven",
            ).with_context(
                "detail",
                text_or(
                    &outcome.detail,
                    "no additional cleanup detail was returned",
                ).as_str(),
            ),
        );
    }
    Ok(CompensationResult { outputs: logged(&outcome.outputs) })
}

impl DockerActionHandlerView {
    /// An action that the handler is for.
    pub open spec fn is_for(self, action: ActionSpecView) -> bool {
        (action.kind == ActionKind::StartContainer && self.key == "start_container"@) || (
        action.kind == ActionKind::StartCompose && self.key == "start_compose"@)
    }

    /// An action can be run where it is of the right kind, is well formed (`checked`), belongs to an
    /// environment, and asks for something that can be requested.
    pub open spec fn validated(
        self,
        action: ActionSpecView,
        checked: Result<(), WorkstateErrorView>,
        container: Result<DockerContainerRequestView, WorkstateErrorView>,
        compose: Result<DockerComposeRequestView, WorkstateErrorView>,
    ) -> Result<(), WorkstateErrorView> {
        if !self.is_for(action) {
            Err(
                integration_error(
                    "handler '"@ + self.key + "' received an incompatible action"@,
                ),
            )
        } else if checked is Err {
            checked
        } else if action.resolved_environment is None {
            Err(
                error_of(
                    ErrorCategory::Runtime,
                    "Docker actions require an environment context"@,
                ),
            )
        } else if self.key == "start_compose"@ {
            match compose {
                Err(error) => Err(error),
                Ok(_) => Ok(()),
            }
        } else {
            match container {
                Err(error) => Err(error),
                Ok(_) => Ok(()),
            }
        }
    }
}

impl DockerActionHandler {
    /// The handler of a key; one that is none of Docker's is refused.
    pub fn new(key: &str) -> (r: Result<Self, WorkstateError>)
        ensures
            seen(r) == (if is_docker_action_key(key@) {
                Ok::<DockerActionHandlerView, WorkstateErrorView>(
                    DockerActionHandlerView { key: key@ },
                )
            } else {
                Err(
                    integration_error("unsupported Docker action handler key '"@ + key@ + "'"@),
                )
            }),
    {
        if !same_text(key, "start_container") && !same_text(key, "start_compose") {
            return Err(
                WorkstateError::new(
                    ErrorCategory::Integration,
                    join3("unsupported Docker action handler key '", key, "'").as_str(),
                ),
            );
        }
        Ok(DockerActionHandler { key: key.to_owned() })
    }

    /// The key that the handler is registered under.
    pub fn action_key(&self) -> (r: &str)
        ensures
            r@ == self@.key,
    {
        self.key.as_str()
    }

    fn action_matches(&self, action: &ActionSpec) -> (r: bool)
        ensures
            r == self@.is_for(action@),
    {
        match action.kind {
            ActionKind::StartContainer => same_text(self.key.as_str(), "start_container"),
            ActionKind::StartCompose => same_text(self.key.as_str(), "start_compose"),
            _ => false,
        }
    }

    /// The capabilities that the handler needs.
    pub fn required_capabilities(&self) -> (r: CapabilitySet)
        ensures
            r@ == (if self@.key == "start_container"@ {
                set_of(seq![CapabilityId::DockerEngine])
            } else if self@.key == "start_compose"@ {
                set_of(seq![CapabilityId::DockerEngine, CapabilityId::DockerCompose])
            } else {
                set_of(Seq::empty())
            }),
    {
        let mut required: Vec<CapabilityId> = Vec::new();
        if same_text(self.key.as_str(), "start_container") {
            required.push(CapabilityId::DockerEngine);
            assert(required@ =~= seq![CapabilityId::DockerEngine]);
        } else if same_text(self.key.as_str(), "start_compose") {
            required.push(CapabilityId::DockerEngine);
            required.push(CapabilityId::DockerCompose);
            assert(required@ =~= seq![CapabilityId::DockerEngine, CapabilityId::DockerCompose]);
        } else {
            assert(required@ =~= Seq::empty());
        }
        CapabilitySet::of(&required)
    }

    /// The time that an action may take, where it names one.
    pub fn execution_timeout(&self, action: &ActionSpec) -> (r: Option<TimeSpan>)
        ensures
            r == (match action@.timeout {
                Some(timeout) => Some(span_of_millis(timeout.milliseconds)),
                None => None,
            }),
    {
        match &action.timeout {
            Some(timeout) => Some(TimeSpan::from_millis(timeout.milliseconds)),
            None => None,
        }
    }

    /// The action and the environment that a request belongs to.
    pub fn context(&self, action: &ActionSpec) -> (r: Result<DockerActionContext, WorkstateError>)
        ensures
            seen(r) == docker_context(action@),
    {
        match &action.resolved_environment {
            None => Err(
                WorkstateError::new(
                    ErrorCategory::Runtime,
                    join3(
                        "Docker action '",
                        action.id.as_str(),
                        "' was executed without an environment context",
                    ).as_str(),
                ),
            ),
            Some(environment) => Ok(
                DockerActionContext {
                    action_id: action.id.clone(),
                    environment: environment.clone(),
                    cleanup_policy: action.cleanup_policy,
                },
            ),
        }
    }

    /// The container that an action asks for.
    pub fn container_request(
        &self,
        action: &ActionSpec,
        sources: Result<Vec<String>, WorkstateError>,
        directory: Result<String, WorkstateError>,
    ) -> (r: Result<DockerContainerRequest, WorkstateError>)
        ensures
            seen(r) == container_requested(action@, seen(sources), seen(directory)),
    {
        let specification = match &action.parameters.container {
            None => {
                return Err(
                    WorkstateError::new(
                        ErrorCategory::Domain,
                        join3(
                            "Docker container action '",
                            action.id.as_str(),
                            "' is missing its configuration",
                        ).as_str(),
                    ),
                );
            },
            Some(specification) => specification,
        };
        let mounts = if specification.mounts.len() == 0 {
            specification.mounts.replicate()
        } else {
            match sources {
                Err(error) => {
                    return Err(error);
                },
                Ok(sources) => mounts_with_sources(&specification.mounts, &sources),
            }
        };
        let context = match self.context(action) {
            Err(error) => {
                return Err(error);
            },
            Ok(context) => context,
        };
        let working_directory = if action.working_directory.is_some() {
            match directory {
                Err(error) => {
                    return Err(error);
                },
                Ok(directory) => Some(directory),
            }
        } else {
            None
        };
        Ok(
            DockerContainerRequest {
                context,
                specification: ContainerSpec {
                    name: specification.name.clone(),
                    image: specification.image.replicate(),
                    command: specification.command.replicate(),
                    environment: specification.environment.replicate(),
                    mounts,
                    ports: specification.ports.replicate(),
                },
                working_directory,
                readiness_checks: action.readiness_checks.replicate(),
            },
        )
    }

    /// The project that an action asks for.
    pub fn compose_request(
        &self,
        action: &ActionSpec,
        directory: Result<String, WorkstateError>,
        file: Result<String, WorkstateError>,
    ) -> (r: Result<DockerComposeRequest, WorkstateError>)
        ensures
            seen(r) == compose_requested(action@, seen(directory), seen(file)),
    {
        let specification = match &action.parameters.compose {
            None => {
                return Err(
                    WorkstateError::new(
                        ErrorCategory::Domain,
                        join3(
                            "Docker Compose action '",
                            action.id.as_str(),
                            "' is missing its configuration",
                        ).as_str(),
                    ),
                );
            },
            Some(specification) => specification,
        };
        if action.working_directory.is_none() {
            return Err(
                compose_configuration_error(
                    "Docker Compose actions require an explicit working directory",
                ),
            );
        }
        let working_directory = match directory {
            Err(error) => {
                return Err(error);
            },
            Ok(directory) => directory,
        };
        if specification.compose_file.is_none() && specification.up_command.is_none() {
            return Err(
                compose_configuration_error(
                    "Docker Compose actions require a compose file or an explicit up command",
                ),
            );
        }
        let compose_file = if specification.compose_file.is_some() {
            match file {
                Err(error) => {
                    return Err(error);
                },
                Ok(file) => Some(file),
            }
        } else {
            None
        };
        let environment = compose_environment(specification);
        let mut resolved = specification.replicate();
        resolved.compose_file = compose_file;
        match self.context(action) {
            Err(error) => Err(error),
            Ok(context) => Ok(
                DockerComposeRequest {
                    context,
                    specification: resolved,
                    working_directory,
                    readiness_checks: action.readiness_checks.replicate(),
                    environment,
                },
            ),
        }
    }

    /// Where the Compose file that an action names is looked for.
    pub fn resolve_compose_file(
        &self,
        working_directory: &str,
        raw: &str,
        expanded: Result<String, WorkstateError>,
    ) -> (r: Result<String, WorkstateError>)
        ensures
            seen(r) == compose_file_candidate(working_directory@, raw@, seen(expanded)),
    {
        if raw.is_empty() || text_has_control(raw) {
            return Err(
                compose_configuration_error(
                    "Compose file paths must be non-empty and contain no control characters",
                ),
            );
        }
        let path = if path_is_home_relative(raw) {
            match expanded {
                Err(error) => {
                    return Err(error);
                },
                Ok(path) => path,
            }
        } else {
            path_join(working_directory, raw)
        };
        if path_has_parent_step(path.as_str()) {
            return Err(
                compose_configuration_error(
                    "Compose file paths must not contain parent-directory traversal",
                ),
            );
        }
        Ok(path)
    }

    /// Refuses a Compose file that is not there, or is a directory.
    pub fn check_compose_file(&self, candidate: &str, exists_there: bool, is_directory: bool) -> (r:
        Result<(), WorkstateError>)
        ensures
            seen(r) == compose_file_checked(candidate@, exists_there, is_directory),
    {
        if !exists_there {
            return Err(
                compose_configuration_error(
                    "configured Compose file does not exist",
                ).with_context("path", candidate),
            );
        }
        if is_directory {
            return Err(
                compose_configuration_error(
                    "configured Compose file must not be a directory",
                ).with_context("path", candidate),
            );
        }
        Ok(())
    }

    /// What came of an action.
    pub fn result(&self, outcome: DockerEnsureOutcome) -> (r: ActionExecutionResult)
        ensures
            r@ == docker_result(outcome@),
    {
        ActionExecutionResult {
            changed: outcome.status != DockerOperationStatus::Reused && outcome.status
                != DockerOperationStatus::Healthy && outcome.status
                != DockerOperationStatus::Unchanged,
            outputs: logged(&outcome.outputs),
            resources: outcome.resources,
            mutations: empty_list(),
        }
    }

    /// The resources that an action may take down.
    pub fn cleanup_request(
        &self,
        action: &ActionSpec,
        resources: Vec<ResourceRecord>,
        container: Result<DockerContainerRequest, WorkstateError>,
        compose: Result<DockerComposeRequest, WorkstateError>,
    ) -> (r: Result<DockerCleanupRequest, WorkstateError>)
        ensures
            seen(r) == cleanup_requested(
                action@,
                resources.deep_view(),
                seen(container),
                seen(compose),
            ),
    {
        let context = match self.context(action) {
            Err(error) => {
                return Err(error);
            },
            Ok(context) => context,
        };
        match action.kind {
            ActionKind::StartContainer => match container {
                Err(error) => Err(error),
                Ok(request) => Ok(
                    DockerCleanupRequest {
                        context,
                        specification: Some(request.specification),
                        compose: None,
                        resources,
                    },
                ),
            },
            ActionKind::StartCompose => match compose {
                Err(error) => Err(error),
                Ok(request) => Ok(
                    DockerCleanupRequest {
                        context,
                        specification: None,
                        compose: Some(request),
                        resources,
                    },
                ),
            },
            _ => Err(
                WorkstateError::new(
                    ErrorCategory::Integration,
                    "Docker cleanup received an incompatible action",
                ),
            ),
        }
    }

    /// What is observed of a container that an action asks for.
    pub fn observe_container_action(
        &self,
        request: &DockerContainerRequest,
        observation: DockerContainerObservation,
    ) -> (r: Result<ActionObservation, WorkstateError>)
        ensures
            seen(r) == container_action_observed(request@, observation@),
    {
        match observation {
            DockerContainerObservation::Missing => Ok(
                ActionObservation::requires_change().with_detail(
                    "the Docker container is missing",
                ),
            ),
            DockerContainerObservation::Unavailable(engine) => Ok(
                ActionObservation::requires_change().with_detail(
                    text_or(&engine.detail, "Docker Engine is unavailable").as_str(),
                ),
            ),
            DockerContainerObservation::Present(snapshot) => {
                if !container_matches(request, &snapshot) {
                    return Ok(
                        ActionObservation::requires_change().with_detail(
                            "the Docker container exists with incompatible configuration",
                        ),
                    );
                }
                match container_record(
                    &request.context,
                    request,
                    &snapshot,
                    OwnershipStatus::ReusedExisting,
                    true,
                ) {
                    Err(error) => Err(error),
                    Ok(record) => if crate::integrations::docker::models::healthy_container(
                        &snapshot,
                    ) && !has_observable_readiness_checks(&request.readiness_checks) {
                        Ok(ActionObservation::already_correct().with_resources(list_of(record)))
                    } else {
                        Ok(ActionObservation::requires_change().with_resources(list_of(record)))
                    },
                }
            },
        }
    }

    /// What is known of an action before Docker is asked. `container` and `compose` are the requests that
    /// the action makes, or why it makes none.
    pub fn observe(
        &self,
        action: &ActionSpec,
        container: Result<DockerContainerRequest, WorkstateError>,
        compose: Result<DockerComposeRequest, WorkstateError>,
    ) -> (r: Result<DockerLook, WorkstateError>)
        ensures
            seen(r) == docker_looked(action@, seen(container), seen(compose)),
    {
        match action.kind {
            ActionKind::StartContainer => match container {
                Ok(request) => Ok(DockerLook::LookAt(request)),
                Err(error) => Err(error),
            },
            ActionKind::StartCompose => match compose {
                Ok(_) => Ok(
                    DockerLook::Settled(
                        ActionObservation::requires_change().with_detail(
                            "Docker Compose will reconcile the project",
                        ),
                    ),
                ),
                Err(error) => Err(error),
            },
            _ => Err(
                WorkstateError::new(
                    ErrorCategory::Integration,
                    "Docker handler received an incompatible action",
                ),
            ),
        }
    }

    /// What an action asks Docker for. `container` and `compose` are the requests that the action makes,
    /// or why it makes none.
    pub fn apply(
        &self,
        action: &ActionSpec,
        container: Result<DockerContainerRequest, WorkstateError>,
        compose: Result<DockerComposeRequest, WorkstateError>,
    ) -> (r: Result<DockerTask, WorkstateError>)
        ensures
            seen(r) == docker_task(action@, seen(container), seen(compose)),
    {
        match action.kind {
            ActionKind::StartContainer => match container {
                Ok(request) => Ok(DockerTask::Container(request)),
                Err(error) => Err(error),
            },
            ActionKind::StartCompose => match compose {
                Ok(request) => Ok(DockerTask::Compose(request)),
                Err(error) => Err(error),
            },
            _ => Err(
                WorkstateError::new(
                    ErrorCategory::Integration,
                    join3(
                        "Docker handler '",
                        action.id.as_str(),
                        "' received an incompatible action",
                    ).as_str(),
                ),
            ),
        }
    }

    /// What the wait after an action reports: its readiness was checked while it was applied, so
    /// nothing is left to be checked.
    pub fn wait_for_readiness(&self) -> (r: DockerCheckReport)
        ensures
            r@ == (DockerCheckReportView { checks_run: 0, last_detail: None }),
    {
        DockerCheckReport { checks_run: 0, last_detail: None }
    }

    /// What is observed before cleanup: what was recorded is taken as it is.
    pub fn observe_for_cleanup(&self, resources: Vec<ResourceRecord>) -> (r: ActionObservation)
        ensures
            r@ == observed_correct().holding(resources.deep_view()),
    {
        ActionObservation::already_correct().with_resources(resources)
    }

    /// Refuses an action that cannot be run.
    pub fn validate(
        &self,
        action: &ActionSpec,
        checked: Result<(), WorkstateError>,
        container: Result<DockerContainerRequest, WorkstateError>,
        compose: Result<DockerComposeRequest, WorkstateError>,
    ) -> (r: Result<(), WorkstateError>)
        ensures
            seen(r) == self@.validated(action@, seen(checked), seen(container), seen(compose)),
    {
        if !self.action_matches(action) {
            return Err(
                WorkstateError::new(
                    ErrorCategory::Integration,
                    join3(
                        "handler '",
                        self.key.as_str(),
                        "' received an incompatible action",
                    ).as_str(),
                ),
            );
        }
        if let Err(error) = checked {
            return Err(error);
        }
        if action.resolved_environment.is_none() {
            return Err(
                WorkstateError::new(
                    ErrorCategory::Runtime,
                    "Docker actions require an environment context",
                ),
            );
        }
        if same_text(self.key.as_str(), "start_compose") {
            match compose {
                Err(error) => Err(error),
                Ok(_) => Ok(()),
            }
        } else {
            match container {
                Err(error) => Err(error),
                Ok(_) => Ok(()),
            }
        }
    }
}

/// Registers the handlers of containers and projects.
pub fn register_handlers(registry: &mut ActionHandlerRegistry) -> (r: Result<(), WorkstateError>)
    ensures
        (final(registry)@.keys, seen(r)) == registering(
            old(registry)@.keys,
            seq!["start_container"@, "start_compose"@],
        ),
{
    registry.register_two("start_container", "start_compose")
}

// ---------------------------------------------------------------------------------------------
// Laws
// ---------------------------------------------------------------------------------------------
/// An action on a container that is correct already changes nothing: what is observed of it is what
/// applying it would reuse.
pub proof fn law_correct_container_needs_no_change(
    request: DockerContainerRequestView,
    observation: DockerContainerObservationView,
    observed: ActionObservationView,
)
    requires
        container_action_observed(request, observation) == Ok::<
            ActionObservationView,
            WorkstateErrorView,
        >(observed),
        observed.status == crate::planner::ObservationStatus::AlreadyCorrect,
    ensures
        observation matches DockerContainerObservationView::Present(snapshot) && matches_request(
            request,
            snapshot,
        ) && crate::integrations::docker::models::container_ready(snapshot) && !asks_readiness(
            request.readiness_checks,
        ),
        observed.resources.len() == 1,
        !observed.resources[0].cleanup_candidate(),
{
}

/// The request for a container is the specification of the action, with the sources of its mounts as they
/// were resolved, under the name, environment and policy of the action, in its directory, and with its
/// checks.
pub proof fn law_container_request_is_that_of_the_action(
    action: ActionSpecView,
    sources: Seq<Seq<char>>,
    directory: Seq<char>,
    specification: ContainerSpecView,
    environment: Seq<char>,
)
    requires
        action.parameters.container == Some(specification),
        action.resolved_environment == Some(environment),
        sources.len() == specification.mounts.len(),
    ensures
        container_requested(action, Ok(sources), Ok(directory)) matches Ok(request)
            && request.context.action_id == action.id && request.context.environment == environment
            && request.context.cleanup_policy == action.cleanup_policy && request.readiness_checks
            == action.readiness_checks && request.working_directory == (
        if action.working_directory is Some {
            Some(directory)
        } else {
            None
        }) && request.specification.name == specification.name && request.specification.image
            == specification.image && request.specification.command == specification.command
            && request.specification.environment == specification.environment
            && request.specification.ports == specification.ports
            && request.specification.mounts.len() == specification.mounts.len() && forall|i: int|
            0 <= i < specification.mounts.len() ==> (
            #[trigger] request.specification.mounts[i]).source == sources[i]
                && request.specification.mounts[i].target == specification.mounts[i].target
                && request.specification.mounts[i].read_only == specification.mounts[i].read_only,
        container_requested(
            (ActionSpecView { resolved_environment: None, ..action }),
            Ok(sources),
            Ok(directory),
        ) is Err,
{
}

/// The request for a project is the specification of the action in its directory, with the file as it was
/// resolved; a project without a directory, or without a file and a command, is refused.
pub proof fn law_project_request_is_that_of_the_action(
    action: ActionSpecView,
    directory: Seq<char>,
    file: Seq<char>,
    specification: ComposeSpecView,
    environment: Seq<char>,
)
    requires
        action.parameters.compose == Some(specification),
        action.resolved_environment == Some(environment),
    ensures
        action.working_directory is Some && (specification.compose_file is Some
            || specification.up_command is Some) ==> (compose_requested(
            action,
            Ok(directory),
            Ok(file),
        ) matches Ok(request) && request.working_directory == directory
            && request.context.action_id == action.id && request.context.environment == environment
            && request.context.cleanup_policy == action.cleanup_policy && request.readiness_checks
            == action.readiness_checks && request.specification.services == specification.services
            && request.specification.up_command == specification.up_command
            && request.specification.down_command == specification.down_command
            && request.specification.compose_file == (if specification.compose_file is Some {
            Some(file)
        } else {
            None
        })),
        action.working_directory is None ==> compose_requested(action, Ok(directory), Ok(file))
            is Err,
        specification.compose_file is None && specification.up_command is None
            ==> compose_requested(action, Ok(directory), Ok(file)) is Err,
{
}

/// A container that is there, as it should be, ready and without checks of its own needs nothing; any
/// other one needs a change. A project is always reconciled.
pub proof fn law_only_a_ready_container_is_correct(
    request: DockerContainerRequestView,
    snapshot: DockerContainerSnapshotView,
    engine: DockerEngineSnapshotView,
)
    ensures
        container_action_observed(request, DockerContainerObservationView::Present(snapshot))
            matches Ok(observed) ==> (observed.status == ObservationStatus::AlreadyCorrect <==> matches_request(
            request,
            snapshot,
        ) && snapshot.state is Running && (snapshot.health is Healthy || snapshot.health
            is Unreported) && forall|i: int|
            0 <= i < request.readiness_checks.len() ==> (#[trigger] request.readiness_checks[i])
                is Nothing),
        container_action_observed(request, DockerContainerObservationView::Missing) matches Ok(
            observed,
        ) && observed.status != ObservationStatus::AlreadyCorrect,
        container_action_observed(request, DockerContainerObservationView::Unavailable(engine))
            matches Ok(observed) && observed.status != ObservationStatus::AlreadyCorrect,
{
}

/// An action is handled by the handler of its kind alone: containers by the one, projects by the other.
pub proof fn law_actions_go_to_their_handler(
    action: ActionSpecView,
    container: DockerContainerRequestView,
    compose: DockerComposeRequestView,
)
    ensures
        action.kind == ActionKind::StartContainer ==> docker_task(
            action,
            Ok(container),
            Ok(compose),
        ) == Ok::<DockerTaskView, WorkstateErrorView>(DockerTaskView::Container(container))
            && docker_looked(action, Ok(container), Ok(compose)) == Ok::<DockerLookView, WorkstateErrorView>(
            DockerLookView::LookAt(container),
        ),
        action.kind == ActionKind::StartCompose ==> docker_task(action, Ok(container), Ok(compose))
            == Ok::<DockerTaskView, WorkstateErrorView>(DockerTaskView::Compose(compose)) && (
        docker_looked(action, Ok(container), Ok(compose)) matches Ok(
            DockerLookView::Settled(observed),
        ) && observed.status != ObservationStatus::AlreadyCorrect),
        action.kind != ActionKind::StartContainer && action.kind != ActionKind::StartCompose
            ==> docker_task(action, Ok(container), Ok(compose)) is Err,
        (DockerActionHandlerView { key: "start_container"@ }).is_for(action) <==> action.kind
            == ActionKind::StartContainer,
        (DockerActionHandlerView { key: "start_compose"@ }).is_for(action) <==> action.kind
            == ActionKind::StartCompose,
{
    reveal_strlit("start_container");
    reveal_strlit("start_compose");
    assert("start_container"@.len() == 15 && "start_compose"@.len() == 13);
}

/// What was done is told as it was: something changed unless everything was as it should be, the
/// resources are those of the work, and a cleanup that had to leave something is a failure.
pub proof fn law_outcome_is_told(outcome: DockerEnsureOutcomeView)
    ensures
        docker_result(outcome).resources == outcome.resources,
        docker_result(outcome).changed <==> !(outcome.status == DockerOperationStatus::Reused
            || outcome.status == DockerOperationStatus::Healthy || outcome.status
            == DockerOperationStatus::Unchanged),
        docker_result(outcome).outputs.len() == outcome.outputs.len(),
        docker_compensated(outcome) is Err <==> outcome.status == DockerOperationStatus::Conflict,
{
}

/// What is cleaned up is what the action described: its container, or its project, with the resources
/// that were recorded.
pub proof fn law_cleanup_is_for_the_action(
    action: ActionSpecView,
    resources: Seq<ResourceRecordView>,
    container: DockerContainerRequestView,
    compose: DockerComposeRequestView,
)
    ensures
        cleanup_requested(action, resources, Ok(container), Ok(compose)) matches Ok(request)
            ==> request.resources == resources && request.context.action_id == action.id && (
        action.kind == ActionKind::StartContainer ==> request.specification == Some(
            container.specification,
        ) && request.compose is None) && (action.kind == ActionKind::StartCompose
            ==> request.compose == Some(compose) && request.specification is None),
        (action.kind == ActionKind::StartContainer || action.kind == ActionKind::StartCompose)
            && action.resolved_environment is Some ==> cleanup_requested(
            action,
            resources,
            Ok(container),
            Ok(compose),
        ) is Ok,
{
}

} // verus!
