//! Bringing the Docker Engine to answer: what is asked of the world next, for each of its replies.
use vstd::prelude::*;
use vstd::string::*;
use crate::collections::{law_pairs_have_an_order, ordered};
use crate::domain::{CleanupPolicy, OwnershipStatus, ResourceRecord, ResourceRecordView};
use crate::encoding::{lenient_text, text_from_utf8_lossy};
use crate::error::{rendered, seen, WorkstateError, WorkstateErrorView};
use crate::integrations::docker::checks::{cancelled, cancelled_error};
use crate::integrations::docker::engine::{
    arguments_of_probe, classify_endpoint, cli_missing_error, context_command_error,
    context_failure, docker_cli_missing_error, docker_settings, endpoint_kind_name, endpoint_of,
    engine_output, engine_timeout_error, engine_unavailable_error, global_inspection_error,
    global_permission_error, global_stopped_error, inspected_address, inspection_error,
    invalid_context, invalid_context_error, is_docker_setting, is_missing_executable,
    is_permission_denied, kind_name, kind_of_endpoint, law_setting_is_found, local_service_error,
    local_service_unavailable_error, parse_context_endpoint, permission_error, probe_arguments,
    probe_error, probe_failure, probe_output, probed, remote_engine_error, remote_error,
    says_missing_executable, says_permission_denied, setting, stopped_error, timeout_error,
    unavailable_error, unknown_engine_error, unknown_error, validate_wait_bounds, wait_bounds,
    DockerCliEnvironment, DockerEndpoint, DockerEndpointKind, DockerEndpointView, EngineProbe,
    EngineProbeView,
};
use crate::ports::{
    DockerEnsureOutcome, DockerEnsureOutcomeView, DockerOperationStatus, ProcessOutputView,
    ProcessRequest, ProcessRequestView, ProcessRun, ProcessRunView,
};
use crate::text::{has_control, text_has_control, text_trim, trim};
use crate::time::TimeSpan;
use crate::values::{append_text, empty_list, list_of, text_list2, text_list3, Replicate};

verus! {

/// The state of a system service.
#[derive(Debug, Clone, Copy, PartialEq, Eq, Structural)]
pub enum SystemServiceStatus {
    Active,
    Starting,
    Inactive,
}

impl DeepView for SystemServiceStatus {
    type V = SystemServiceStatus;

    open spec fn deep_view(&self) -> SystemServiceStatus {
        *self
    }
}

impl Replicate for SystemServiceStatus {
    fn replicate(&self) -> (r: Self) {
        *self
    }
}

/// What the wait for the engine is waiting for.
#[derive(Debug)]
pub enum EnginePhase {
    FirstProbe,
    Detection { detail: String, limit: TimeSpan },
    ContextName { detail: String },
    ContextDetails { detail: String, context: String },
    SystemService { detail: String, endpoint: DockerEndpoint },
    LocalService { detail: String, endpoint: DockerEndpoint },
    Probe { detail: String, endpoint: DockerEndpoint, resource: Option<ResourceRecord> },
    Pause { detail: String, endpoint: DockerEndpoint, resource: Option<ResourceRecord> },
    Cleanup { error: WorkstateError },
    Over,
}

/// What a `EnginePhase` stands for.
#[verifier::ext_equal]
pub enum EnginePhaseView {
    FirstProbe,
    Detection { detail: Seq<char>, limit: TimeSpan },
    ContextName { detail: Seq<char> },
    ContextDetails { detail: Seq<char>, context: Seq<char> },
    SystemService { detail: Seq<char>, endpoint: DockerEndpointView },
    LocalService { detail: Seq<char>, endpoint: DockerEndpointView },
    Probe { detail: Seq<char>, endpoint: DockerEndpointView, resource: Option<ResourceRecordView> },
    Pause { detail: Seq<char>, endpoint: DockerEndpointView, resource: Option<ResourceRecordView> },
    Cleanup { error: WorkstateErrorView },
    Over,
}

impl View for EnginePhase {
    type V = EnginePhaseView;

    open spec fn view(&self) -> EnginePhaseView {
        match self {
            EnginePhase::FirstProbe => EnginePhaseView::FirstProbe,
            EnginePhase::Detection { detail, limit } => EnginePhaseView::Detection { detail: detail.deep_view(), limit: limit.deep_view() },
            EnginePhase::ContextName { detail } => EnginePhaseView::ContextName { detail: detail.deep_view() },
            EnginePhase::ContextDetails { detail, context } => EnginePhaseView::ContextDetails { detail: detail.deep_view(), context: context.deep_view() },
            EnginePhase::SystemService { detail, endpoint } => EnginePhaseView::SystemService { detail: detail.deep_view(), endpoint: endpoint.deep_view() },
            EnginePhase::LocalService { detail, endpoint } => EnginePhaseView::LocalService { detail: detail.deep_view(), endpoint: endpoint.deep_view() },
            EnginePhase::Probe { detail, endpoint, resource } => EnginePhaseView::Probe { detail: detail.deep_view(), endpoint: endpoint.deep_view(), resource: resource.deep_view() },
            EnginePhase::Pause { detail, endpoint, resource } => EnginePhaseView::Pause { detail: detail.deep_view(), endpoint: endpoint.deep_view(), resource: resource.deep_view() },
            EnginePhase::Cleanup { error } => EnginePhaseView::Cleanup { error: error.deep_view() },
            EnginePhase::Over => EnginePhaseView::Over,
        }
    }
}

impl DeepView for EnginePhase {
    type V = EnginePhaseView;

    open spec fn deep_view(&self) -> EnginePhaseView {
        self.view()
    }
}

impl Replicate for EnginePhase {
    fn replicate(&self) -> (r: Self) {
        match self {
            EnginePhase::FirstProbe => EnginePhase::FirstProbe,
            EnginePhase::Detection { detail, limit } => EnginePhase::Detection { detail: detail.replicate(), limit: limit.replicate() },
            EnginePhase::ContextName { detail } => EnginePhase::ContextName { detail: detail.replicate() },
            EnginePhase::ContextDetails { detail, context } => EnginePhase::ContextDetails { detail: detail.replicate(), context: context.replicate() },
            EnginePhase::SystemService { detail, endpoint } => EnginePhase::SystemService { detail: detail.replicate(), endpoint: endpoint.replicate() },
            EnginePhase::LocalService { detail, endpoint } => EnginePhase::LocalService { detail: detail.replicate(), endpoint: endpoint.replicate() },
            EnginePhase::Probe { detail, endpoint, resource } => EnginePhase::Probe { detail: detail.replicate(), endpoint: endpoint.replicate(), resource: resource.replicate() },
            EnginePhase::Pause { detail, endpoint, resource } => EnginePhase::Pause { detail: detail.replicate(), endpoint: endpoint.replicate(), resource: resource.replicate() },
            EnginePhase::Cleanup { error } => EnginePhase::Cleanup { error: error.replicate() },
            EnginePhase::Over => EnginePhase::Over,
        }
    }
}

/// A wait for the engine: its bounds, whether a service may be launched, the variables of the Docker
/// program, and what it is waiting for.
#[derive(Debug)]
pub struct EngineEnsure {
    pub timeout: TimeSpan,
    pub poll_interval: TimeSpan,
    pub launch: bool,
    pub environment: Vec<(String, String)>,
    pub linux_user_services: bool,
    pub phase: EnginePhase,
}

/// What a `EngineEnsure` stands for.
#[verifier::ext_equal]
pub struct EngineEnsureView {
    pub timeout: TimeSpan,
    pub poll_interval: TimeSpan,
    pub launch: bool,
    pub environment: Seq<(Seq<char>, Seq<char>)>,
    pub linux_user_services: bool,
    pub phase: EnginePhaseView,
}

impl View for EngineEnsure {
    type V = EngineEnsureView;

    open spec fn view(&self) -> EngineEnsureView {
        EngineEnsureView {
            timeout: self.timeout.deep_view(),
            poll_interval: self.poll_interval.deep_view(),
            launch: self.launch.deep_view(),
            environment: self.environment.deep_view(),
            linux_user_services: self.linux_user_services.deep_view(),
            phase: self.phase.deep_view(),
        }
    }
}

impl DeepView for EngineEnsure {
    type V = EngineEnsureView;

    open spec fn deep_view(&self) -> EngineEnsureView {
        self.view()
    }
}

impl Replicate for EngineEnsure {
    fn replicate(&self) -> (r: Self) {
        EngineEnsure {
            timeout: self.timeout.replicate(),
            poll_interval: self.poll_interval.replicate(),
            launch: self.launch.replicate(),
            environment: self.environment.replicate(),
            linux_user_services: self.linux_user_services.replicate(),
            phase: self.phase.replicate(),
        }
    }
}

/// What the world replied. Times are counted from the start of the wait.
#[derive(Debug)]
pub enum EngineEvent {
    Ran { run: ProcessRun, elapsed: TimeSpan },
    Checked(Option<WorkstateError>),
    ServiceInspected(SystemServiceStatus),
    ServiceInspectionFailed(WorkstateError),
    ServiceStarted(Option<ResourceRecord>),
    ServiceStartFailed(WorkstateError),
    Resumed { cancelled: Option<WorkstateError>, elapsed: TimeSpan },
    PauseCancelled,
    ServiceStopped,
    ServiceStopFailed(WorkstateError),
}

/// What a `EngineEvent` stands for.
#[verifier::ext_equal]
pub enum EngineEventView {
    Ran { run: ProcessRunView, elapsed: TimeSpan },
    Checked(Option<WorkstateErrorView>),
    ServiceInspected(SystemServiceStatus),
    ServiceInspectionFailed(WorkstateErrorView),
    ServiceStarted(Option<ResourceRecordView>),
    ServiceStartFailed(WorkstateErrorView),
    Resumed { cancelled: Option<WorkstateErrorView>, elapsed: TimeSpan },
    PauseCancelled,
    ServiceStopped,
    ServiceStopFailed(WorkstateErrorView),
}

impl View for EngineEvent {
    type V = EngineEventView;

    open spec fn view(&self) -> EngineEventView {
        match self {
            EngineEvent::Ran { run, elapsed } => EngineEventView::Ran { run: run.deep_view(), elapsed: elapsed.deep_view() },
            EngineEvent::Checked(value) => EngineEventView::Checked(value.deep_view()),
            EngineEvent::ServiceInspected(value) => EngineEventView::ServiceInspected(value.deep_view()),
            EngineEvent::ServiceInspectionFailed(value) => EngineEventView::ServiceInspectionFailed(value.deep_view()),
            EngineEvent::ServiceStarted(value) => EngineEventView::ServiceStarted(value.deep_view()),
            EngineEvent::ServiceStartFailed(value) => EngineEventView::ServiceStartFailed(value.deep_view()),
            EngineEvent::Resumed { cancelled, elapsed } => EngineEventView::Resumed { cancelled: cancelled.deep_view(), elapsed: elapsed.deep_view() },
            EngineEvent::PauseCancelled => EngineEventView::PauseCancelled,
            EngineEvent::ServiceStopped => EngineEventView::ServiceStopped,
            EngineEvent::ServiceStopFailed(value) => EngineEventView::ServiceStopFailed(value.deep_view()),
        }
    }
}

impl DeepView for EngineEvent {
    type V = EngineEventView;

    open spec fn deep_view(&self) -> EngineEventView {
        self.view()
    }
}

/// What is asked of the world next.
#[derive(Debug)]
pub enum EngineStep {
    Probe { limit: TimeSpan },
    CheckCancelled,
    ShowContext { limit: TimeSpan },
    InspectContext { context: String, limit: TimeSpan },
    InspectSystemService,
    StartDesktop,
    StartRootless,
    Pause { span: TimeSpan },
    Resume,
    StopService(ResourceRecord),
    Finish(DockerEnsureOutcome),
    Fail(WorkstateError),
    Idle,
}

/// What a `EngineStep` stands for.
#[verifier::ext_equal]
pub enum EngineStepView {
    Probe { limit: TimeSpan },
    CheckCancelled,
    ShowContext { limit: TimeSpan },
    InspectContext { context: Seq<char>, limit: TimeSpan },
    InspectSystemService,
    StartDesktop,
    StartRootless,
    Pause { span: TimeSpan },
    Resume,
    StopService(ResourceRecordView),
    Finish(DockerEnsureOutcomeView),
    Fail(WorkstateErrorView),
    Idle,
}

impl View for EngineStep {
    type V = EngineStepView;

    open spec fn view(&self) -> EngineStepView {
        match self {
            EngineStep::Probe { limit } => EngineStepView::Probe { limit: limit.deep_view() },
            EngineStep::CheckCancelled => EngineStepView::CheckCancelled,
            EngineStep::ShowContext { limit } => EngineStepView::ShowContext { limit: limit.deep_view() },
            EngineStep::InspectContext { context, limit } => EngineStepView::InspectContext { context: context.deep_view(), limit: limit.deep_view() },
            EngineStep::InspectSystemService => EngineStepView::InspectSystemService,
            EngineStep::StartDesktop => EngineStepView::StartDesktop,
            EngineStep::StartRootless => EngineStepView::StartRootless,
            EngineStep::Pause { span } => EngineStepView::Pause { span: span.deep_view() },
            EngineStep::Resume => EngineStepView::Resume,
            EngineStep::StopService(value) => EngineStepView::StopService(value.deep_view()),
            EngineStep::Finish(value) => EngineStepView::Finish(value.deep_view()),
            EngineStep::Fail(value) => EngineStepView::Fail(value.deep_view()),
            EngineStep::Idle => EngineStepView::Idle,
        }
    }
}

impl DeepView for EngineStep {
    type V = EngineStepView;

    open spec fn deep_view(&self) -> EngineStepView {
        self.view()
    }
}

impl Replicate for EngineStep {
    fn replicate(&self) -> (r: Self) {
        match self {
            EngineStep::Probe { limit } => EngineStep::Probe { limit: limit.replicate() },
            EngineStep::CheckCancelled => EngineStep::CheckCancelled,
            EngineStep::ShowContext { limit } => EngineStep::ShowContext { limit: limit.replicate() },
            EngineStep::InspectContext { context, limit } => EngineStep::InspectContext { context: context.replicate(), limit: limit.replicate() },
            EngineStep::InspectSystemService => EngineStep::InspectSystemService,
            EngineStep::StartDesktop => EngineStep::StartDesktop,
            EngineStep::StartRootless => EngineStep::StartRootless,
            EngineStep::Pause { span } => EngineStep::Pause { span: span.replicate() },
            EngineStep::Resume => EngineStep::Resume,
            EngineStep::StopService(value) => EngineStep::StopService(value.replicate()),
            EngineStep::Finish(value) => EngineStep::Finish(value.replicate()),
            EngineStep::Fail(value) => EngineStep::Fail(value.replicate()),
            EngineStep::Idle => EngineStep::Idle,
        }
    }
}

/// A wait and what it asks of the world.
pub type EngineMove = (EngineEnsureView, EngineStepView);

impl EngineEnsureView {
    pub open spec fn waiting_for(self, phase: EnginePhaseView) -> EngineEnsureView {
        EngineEnsureView { phase, ..self }
    }

    /// The wait is over.
    pub open spec fn over(self, step: EngineStepView) -> EngineMove {
        (self.waiting_for(EnginePhaseView::Over), step)
    }

    /// The wait is over with an error.
    pub open spec fn failed(self, error: WorkstateErrorView) -> EngineMove {
        self.over(EngineStepView::Fail(error))
    }

    /// What is left of the time limit.
    pub open spec fn remaining(self, elapsed: TimeSpan) -> TimeSpan {
        TimeSpan {
            nanoseconds: if elapsed.nanoseconds >= self.timeout.nanoseconds {
                0
            } else {
                (self.timeout.nanoseconds - elapsed.nanoseconds) as u128
            },
        }
    }

    /// The engine that the variables select without asking Docker: a host that no context stands
    /// over.
    pub open spec fn selected_host(self) -> Option<Seq<char>> {
        let settings = ordered(docker_settings(self.environment));
        if setting(settings, "DOCKER_CONTEXT"@) is None {
            setting(settings, "DOCKER_HOST"@)
        } else {
            None
        }
    }

    /// What follows once the selected engine is known and known not to answer: a remote engine and
    /// one of no known kind are left alone, the engine of the system is inspected, and a service of
    /// the user is started.
    pub open spec fn selected(
        self,
        selection: Result<DockerEndpointView, WorkstateErrorView>,
        detail: Seq<char>,
    ) -> EngineMove {
        match selection {
            Err(error) => self.failed(error),
            Ok(endpoint) => match endpoint.kind {
                DockerEndpointKind::Remote => self.failed(remote_error(endpoint, detail)),
                DockerEndpointKind::Unknown => self.failed(unknown_error(endpoint, detail)),
                DockerEndpointKind::Global => (
                    self.waiting_for(EnginePhaseView::SystemService { detail, endpoint }),
                    EngineStepView::InspectSystemService,
                ),
                DockerEndpointKind::Desktop => (
                    self.waiting_for(EnginePhaseView::LocalService { detail, endpoint }),
                    EngineStepView::StartDesktop,
                ),
                DockerEndpointKind::Rootless => (
                    self.waiting_for(EnginePhaseView::LocalService { detail, endpoint }),
                    EngineStepView::StartRootless,
                ),
            },
        }
    }

    /// After an error: a service that was started for this wait is stopped first.
    pub open spec fn cleaning(
        self,
        resource: Option<ResourceRecordView>,
        error: WorkstateErrorView,
    ) -> EngineMove {
        match resource {
            Some(record) if record.cleanup_candidate() => (
                self.waiting_for(EnginePhaseView::Cleanup { error }),
                EngineStepView::StopService(record),
            ),
            _ => self.failed(error),
        }
    }

    /// After the first probe.
    pub open spec fn after_first_probe(self, run: ProcessRunView, elapsed: TimeSpan) -> EngineMove {
        match run {
            ProcessRunView::Cancelled => self.failed(
                cancelled_error("operation was cancelled while inspecting Docker Engine"@),
            ),
            ProcessRunView::TimedOut => self.failed(
                timeout_error("Docker Engine inspection timed out"@, self.timeout),
            ),
            ProcessRunView::Failed(error) => self.failed(probe_error(error)),
            ProcessRunView::Finished(output) => match probed(output) {
                EngineProbeView::Ready { version } => self.over(
                    EngineStepView::Finish(
                        ready_outcome(None, version),
                    ),
                ),
                EngineProbeView::Unavailable { detail } => if !self.launch {
                    self.failed(
                        unavailable_error(
                            detail,
                            "Docker Engine launch was disabled for this operation"@,
                        ),
                    )
                } else if self.remaining(elapsed).nanoseconds == 0 {
                    self.failed(detection_timeout(self.timeout))
                } else {
                    (
                        self.waiting_for(
                            EnginePhaseView::Detection { detail, limit: self.remaining(elapsed) },
                        ),
                        EngineStepView::CheckCancelled,
                    )
                },
            },
        }
    }

    /// Before the engine that is selected is looked for: the wait ends where it was cancelled.
    pub open spec fn detecting(
        self,
        detail: Seq<char>,
        limit: TimeSpan,
        cancelled: Option<WorkstateErrorView>,
    ) -> EngineMove {
        match cancelled {
            Some(error) => self.failed(error),
            None => match self.selected_host() {
                Some(host) => self.selected(
                    endpoint_of(None, Some(host), self.linux_user_services),
                    detail,
                ),
                None => (
                    self.waiting_for(EnginePhaseView::ContextName { detail }),
                    EngineStepView::ShowContext { limit },
                ),
            },
        }
    }

    /// After the name of the context was asked for.
    pub open spec fn after_context_name(
        self,
        detail: Seq<char>,
        run: ProcessRunView,
        elapsed: TimeSpan,
    ) -> EngineMove {
        match run {
            ProcessRunView::Cancelled => self.failed(
                cancelled_error("operation was cancelled while inspecting Docker Engine"@),
            ),
            ProcessRunView::TimedOut => self.failed(detection_timeout(self.timeout)),
            ProcessRunView::Failed(error) => self.failed(
                if says_missing_executable(error) {
                    cli_missing_error()
                } else {
                    error.with("operation"@, "inspect Docker context"@).with(
                        "docker_command"@,
                        "docker context show"@,
                    )
                },
            ),
            ProcessRunView::Finished(output) => {
                let context = trim(lenient_text(output.stdout));
                if !output.success() {
                    self.failed(context_failure("docker context show"@, output))
                } else if context.len() == 0 || has_control(context) {
                    self.failed(
                        invalid_context(
                            context,
                            "Docker context discovery returned an empty or invalid name"@,
                        ),
                    )
                } else {
                    (
                        self.waiting_for(EnginePhaseView::ContextDetails { detail, context }),
                        EngineStepView::InspectContext { context, limit: self.remaining(elapsed) },
                    )
                }
            },
        }
    }

    /// After the context was inspected.
    pub open spec fn after_context_details(
        self,
        detail: Seq<char>,
        context: Seq<char>,
        run: ProcessRunView,
    ) -> EngineMove {
        match run {
            ProcessRunView::Cancelled => self.failed(
                cancelled_error("operation was cancelled while inspecting Docker Engine"@),
            ),
            ProcessRunView::TimedOut => self.failed(detection_timeout(self.timeout)),
            ProcessRunView::Failed(error) => self.failed(
                if says_missing_executable(error) {
                    cli_missing_error()
                } else {
                    error.with("operation"@, "inspect Docker context"@).with("context"@, context)
                },
            ),
            ProcessRunView::Finished(output) => if !output.success() {
                self.failed(
                    context_failure("docker context inspect"@, output).with("context"@, context),
                )
            } else {
                match inspected_address(output.stdout) {
                    Err(error) => self.failed(error),
                    Ok(address) => self.selected(
                        endpoint_of(Some(context), address, self.linux_user_services),
                        detail,
                    ),
                }
            },
        }
    }

    /// Before each further probe: the wait ends where it was cancelled or its time is up.
    pub open spec fn resumed(
        self,
        detail: Seq<char>,
        endpoint: DockerEndpointView,
        resource: Option<ResourceRecordView>,
        cancelled: Option<WorkstateErrorView>,
        elapsed: TimeSpan,
    ) -> EngineMove {
        match cancelled {
            Some(error) => self.cleaning(resource, error),
            None => if elapsed.nanoseconds >= self.timeout.nanoseconds {
                self.cleaning(resource, self.not_ready(detail, endpoint))
            } else {
                (
                    self.waiting_for(EnginePhaseView::Probe { detail, endpoint, resource }),
                    EngineStepView::Probe { limit: self.remaining(elapsed) },
                )
            },
        }
    }

    /// The error of an engine that did not answer in time.
    pub open spec fn not_ready(self, detail: Seq<char>, endpoint: DockerEndpointView) -> WorkstateErrorView {
        timeout_error(detail, self.timeout).with("endpoint_kind"@, kind_name(endpoint.kind))
    }

    /// After a further probe.
    pub open spec fn after_probe(
        self,
        detail: Seq<char>,
        endpoint: DockerEndpointView,
        resource: Option<ResourceRecordView>,
        run: ProcessRunView,
        elapsed: TimeSpan,
    ) -> EngineMove {
        match run {
            ProcessRunView::Cancelled => self.cleaning(
                resource,
                cancelled_error("operation was cancelled while waiting for Docker Engine"@),
            ),
            ProcessRunView::TimedOut => self.cleaning(resource, self.not_ready(detail, endpoint)),
            ProcessRunView::Failed(error) => self.cleaning(resource, probe_error(error)),
            ProcessRunView::Finished(output) => match probed(output) {
                EngineProbeView::Ready { version } => self.over(
                    EngineStepView::Finish(ready_outcome(resource, version)),
                ),
                EngineProbeView::Unavailable { detail: latest } => {
                    let rest = self.remaining(elapsed);
                    (
                        self.waiting_for(
                            EnginePhaseView::Pause { detail: latest, endpoint, resource },
                        ),
                        if rest.nanoseconds == 0 {
                            EngineStepView::Resume
                        } else if self.poll_interval.nanoseconds <= rest.nanoseconds {
                            EngineStepView::Pause { span: self.poll_interval }
                        } else {
                            EngineStepView::Pause { span: rest }
                        },
                    )
                },
            },
        }
    }

    /// What follows a reply. A reply that does not belong to what the wait is waiting for changes
    /// nothing.
    pub open spec fn next(self, event: EngineEventView) -> EngineMove {
        match (self.phase, event) {
            (
                EnginePhaseView::FirstProbe,
                EngineEventView::Ran { run, elapsed },
            ) => self.after_first_probe(run, elapsed),
            (
                EnginePhaseView::Detection { detail, limit },
                EngineEventView::Checked(cancelled),
            ) => self.detecting(detail, limit, cancelled),
            (
                EnginePhaseView::ContextName { detail },
                EngineEventView::Ran { run, elapsed },
            ) => self.after_context_name(detail, run, elapsed),
            (
                EnginePhaseView::ContextDetails { detail, context },
                EngineEventView::Ran { run, elapsed: _ },
            ) => self.after_context_details(detail, context, run),
            (
                EnginePhaseView::SystemService { detail, endpoint },
                EngineEventView::ServiceInspected(status),
            ) => if says_permission_denied(detail) {
                self.failed(permission_error(endpoint, detail))
            } else if status == SystemServiceStatus::Inactive {
                self.failed(stopped_error(endpoint, detail))
            } else {
                (
                    self.waiting_for(EnginePhaseView::Pause { detail, endpoint, resource: None }),
                    EngineStepView::Resume,
                )
            },
            (
                EnginePhaseView::SystemService { detail, endpoint },
                EngineEventView::ServiceInspectionFailed(error),
            ) => if says_permission_denied(detail) {
                self.failed(permission_error(endpoint, detail))
            } else {
                self.failed(inspection_error(endpoint, detail, error))
            },
            (
                EnginePhaseView::LocalService { detail, endpoint },
                EngineEventView::ServiceStarted(resource),
            ) => match resource {
                None => self.failed(local_service_error(endpoint, detail)),
                Some(_) => (
                    self.waiting_for(EnginePhaseView::Pause { detail, endpoint, resource }),
                    EngineStepView::Resume,
                ),
            },
            (
                EnginePhaseView::LocalService { .. },
                EngineEventView::ServiceStartFailed(error),
            ) => self.failed(error),
            (
                EnginePhaseView::Pause { detail, endpoint, resource },
                EngineEventView::Resumed { cancelled, elapsed },
            ) => self.resumed(detail, endpoint, resource, cancelled, elapsed),
            (
                EnginePhaseView::Pause { detail: _, endpoint: _, resource },
                EngineEventView::PauseCancelled,
            ) => self.cleaning(
                resource,
                cancelled_error("operation was cancelled while waiting for Docker Engine"@),
            ),
            (
                EnginePhaseView::Probe { detail, endpoint, resource },
                EngineEventView::Ran { run, elapsed },
            ) => self.after_probe(detail, endpoint, resource, run, elapsed),
            (EnginePhaseView::Cleanup { error }, EngineEventView::ServiceStopped) => self.failed(
                error.with("service_cleanup"@, "completed"@),
            ),
            (
                EnginePhaseView::Cleanup { error },
                EngineEventView::ServiceStopFailed(cleanup),
            ) => self.failed(error.with("service_cleanup_error"@, rendered(cleanup))),
            _ => (self, EngineStepView::Idle),
        }
    }
}

/// The outcome once the engine answers: it was brought up where a service was started for it.
pub open spec fn ready_outcome(resource: Option<ResourceRecordView>, version: Seq<char>) -> DockerEnsureOutcomeView {
    DockerEnsureOutcomeView {
        status: match resource {
            Some(record) if record.ownership == OwnershipStatus::CreatedByCurrentRun => {
                DockerOperationStatus::Created
            },
            _ => DockerOperationStatus::Reused,
        },
        resources: match resource {
            Some(record) => seq![record],
            None => Seq::empty(),
        },
        detail: None,
        outputs: seq!["Docker Engine is ready ("@ + version + ")"@],
    }
}

/// The error of an engine that could not be told in time.
pub open spec fn detection_timeout(timeout: TimeSpan) -> WorkstateErrorView {
    timeout_error("Docker endpoint detection did not finish before the timeout"@, timeout)
}

/// The error of a wait that was cancelled before it had begun.
pub open spec fn wait_cancelled() -> WorkstateErrorView {
    cancelled_error("operation was cancelled while waiting for Docker readiness"@)
}

/// The error of a wait that was cancelled before it had begun.
pub fn cancelled_before_start() -> (r: WorkstateError)
    ensures
        r@ == wait_cancelled(),
{
    cancelled("operation was cancelled while waiting for Docker readiness")
}

fn outcome_of(resource: Option<ResourceRecord>, version: &str) -> (r: DockerEnsureOutcome)
    ensures
        r@ == ready_outcome(resource.deep_view(), version@),
{
    let outputs = list_of(engine_output(version));
    match resource {
        Some(record) => {
            let status = if record.ownership == OwnershipStatus::CreatedByCurrentRun {
                DockerOperationStatus::Created
            } else {
                DockerOperationStatus::Reused
            };
            DockerEnsureOutcome { status, resources: list_of(record), detail: None, outputs }
        },
        None => DockerEnsureOutcome {
            status: DockerOperationStatus::Reused,
            resources: empty_list(),
            detail: None,
            outputs,
        },
    }
}

impl EngineEnsureView {
    /// The arguments of the Docker command that a step asks for, where it asks for one.
    pub open spec fn command(self, step: EngineStepView) -> Option<Seq<Seq<char>>> {
        match step {
            EngineStepView::Probe { limit } => Some(probe_arguments()),
            EngineStepView::ShowContext { limit } => Some(seq!["context"@, "show"@]),
            EngineStepView::InspectContext { context, limit } => Some(
                seq!["context"@, "inspect"@, context, "--format"@, "{{json .}}"@],
            ),
            _ => None,
        }
    }
}

impl EngineEnsure {
    /// The Docker command that a step asks for, where it asks for one.
    pub fn request(&self, docker_program: &str, step: &EngineStep) -> (r: Option<ProcessRequest>)
        ensures
            r.deep_view() == (match self@.command(step@) {
                Some(arguments) => Some(
                    ProcessRequestView {
                        program: docker_program@,
                        arguments,
                        working_directory: None,
                        environment: self@.environment,
                    },
                ),
                None => None,
            }),
    {
        let arguments = match step {
            EngineStep::Probe { limit: _ } => arguments_of_probe(),
            EngineStep::ShowContext { limit: _ } => text_list2("context", "show"),
            EngineStep::InspectContext { context, limit: _ } => {
                let mut arguments = text_list3("context", "inspect", context.as_str());
                append_text(&mut arguments, "--format");
                append_text(&mut arguments, "{{json .}}");
                assert(arguments.deep_view() =~= self@.command(step@)->Some_0);
                arguments
            },
            _ => {
                return None;
            },
        };
        Some(
            ProcessRequest {
                program: docker_program.to_owned(),
                arguments,
                working_directory: None,
                environment: self.environment.replicate(),
            },
        )
    }

    /// Begins a wait with the first probe; a wait with empty bounds is refused.
    pub fn begin(
        timeout: TimeSpan,
        poll_interval: TimeSpan,
        launch: bool,
        environment: Vec<(String, String)>,
        linux_user_services: bool,
    ) -> (r: Result<(EngineEnsure, EngineStep), WorkstateError>)
        ensures
            match (r, wait_bounds(timeout, poll_interval)) {
                (Ok(begun), Ok(())) => begun.0@ == (EngineEnsureView {
                    timeout,
                    poll_interval,
                    launch,
                    environment: environment.deep_view(),
                    linux_user_services,
                    phase: EnginePhaseView::FirstProbe,
                }) && begun.1@ == (EngineStepView::Probe { limit: timeout }),
                (Err(error), Err(wanted)) => error@ == wanted,
                _ => false,
            },
    {
        match validate_wait_bounds(timeout, poll_interval) {
            Err(error) => Err(error),
            Ok(()) => Ok(
                (
                    EngineEnsure {
                        timeout,
                        poll_interval,
                        launch,
                        environment,
                        linux_user_services,
                        phase: EnginePhase::FirstProbe,
                    },
                    EngineStep::Probe { limit: timeout },
                ),
            ),
        }
    }

    fn waiting_for(self, phase: EnginePhase) -> (r: EngineEnsure)
        ensures
            r@ == self@.waiting_for(phase@),
    {
        EngineEnsure {
            timeout: self.timeout,
            poll_interval: self.poll_interval,
            launch: self.launch,
            environment: self.environment,
            linux_user_services: self.linux_user_services,
            phase,
        }
    }

    fn failed(self, error: WorkstateError) -> (r: (EngineEnsure, EngineStep))
        ensures
            (r.0@, r.1@) == self@.failed(error@),
    {
        (self.waiting_for(EnginePhase::Over), EngineStep::Fail(error))
    }

    fn remaining(&self, elapsed: TimeSpan) -> (r: TimeSpan)
        ensures
            r == self@.remaining(elapsed),
    {
        if elapsed.nanoseconds >= self.timeout.nanoseconds {
            TimeSpan { nanoseconds: 0 }
        } else {
            TimeSpan { nanoseconds: self.timeout.nanoseconds - elapsed.nanoseconds }
        }
    }

    fn selected_host(&self) -> (r: Option<String>)
        ensures
            r.deep_view() == self@.selected_host(),
    {
        let settings = DockerCliEnvironment::from_variables(self.environment.replicate());
        if settings.get("DOCKER_CONTEXT").is_none() {
            match settings.get("DOCKER_HOST") {
                Some(host) => Some(host.to_owned()),
                None => None,
            }
        } else {
            None
        }
    }

    fn selected(self, selection: Result<DockerEndpoint, WorkstateError>, detail: String) -> (r: (
        EngineEnsure,
        EngineStep,
    ))
        ensures
            (r.0@, r.1@) == self@.selected(seen(selection), detail@),
    {
        match selection {
            Err(error) => self.failed(error),
            Ok(endpoint) => match endpoint.kind {
                DockerEndpointKind::Remote => {
                    let error = remote_engine_error(&endpoint, detail.as_str());
                    self.failed(error)
                },
                DockerEndpointKind::Unknown => {
                    let error = unknown_engine_error(&endpoint, detail.as_str());
                    self.failed(error)
                },
                DockerEndpointKind::Global => (
                    self.waiting_for(EnginePhase::SystemService { detail, endpoint }),
                    EngineStep::InspectSystemService,
                ),
                DockerEndpointKind::Desktop => (
                    self.waiting_for(EnginePhase::LocalService { detail, endpoint }),
                    EngineStep::StartDesktop,
                ),
                DockerEndpointKind::Rootless => (
                    self.waiting_for(EnginePhase::LocalService { detail, endpoint }),
                    EngineStep::StartRootless,
                ),
            },
        }
    }

    fn cleaning(self, resource: Option<ResourceRecord>, error: WorkstateError) -> (r: (
        EngineEnsure,
        EngineStep,
    ))
        ensures
            (r.0@, r.1@) == self@.cleaning(resource.deep_view(), error@),
    {
        match resource {
            Some(record) => if record.is_cleanup_candidate() {
                (
                    self.waiting_for(EnginePhase::Cleanup { error }),
                    EngineStep::StopService(record),
                )
            } else {
                self.failed(error)
            },
            None => self.failed(error),
        }
    }

    fn after_first_probe(self, run: ProcessRun, elapsed: TimeSpan) -> (r: (
        EngineEnsure,
        EngineStep,
    ))
        ensures
            (r.0@, r.1@) == self@.after_first_probe(run@, elapsed),
    {
        let timeout = self.timeout;
        match run {
            ProcessRun::Cancelled => self.failed(
                cancelled("operation was cancelled while inspecting Docker Engine"),
            ),
            ProcessRun::TimedOut => self.failed(
                engine_timeout_error("Docker Engine inspection timed out", timeout),
            ),
            ProcessRun::Failed(error) => self.failed(probe_failure(error)),
            ProcessRun::Finished(output) => match probe_output(&output) {
                EngineProbe::Ready { version } => (
                    self.waiting_for(EnginePhase::Over),
                    EngineStep::Finish(outcome_of(None, version.as_str())),
                ),
                EngineProbe::Unavailable { detail } => {
                    if !self.launch {
                        return self.failed(
                            engine_unavailable_error(
                                detail.as_str(),
                                "Docker Engine launch was disabled for this operation",
                            ),
                        );
                    }
                    let limit = self.remaining(elapsed);
                    if limit.is_zero() {
                        return self.failed(
                            engine_timeout_error(
                                "Docker endpoint detection did not finish before the timeout",
                                timeout,
                            ),
                        );
                    }
                    (
                        self.waiting_for(EnginePhase::Detection { detail, limit }),
                        EngineStep::CheckCancelled,
                    )
                },
            },
        }
    }

    fn detecting(self, detail: String, limit: TimeSpan, cancelled: Option<WorkstateError>) -> (r: (
        EngineEnsure,
        EngineStep,
    ))
        ensures
            (r.0@, r.1@) == self@.detecting(detail@, limit, cancelled.deep_view()),
    {
        if let Some(error) = cancelled {
            return self.failed(error);
        }
        match self.selected_host() {
            Some(host) => {
                let selection = classify_endpoint(None, Some(host), self.linux_user_services);
                self.selected(selection, detail)
            },
            None => (
                self.waiting_for(EnginePhase::ContextName { detail }),
                EngineStep::ShowContext { limit },
            ),
        }
    }

    fn after_context_name(self, detail: String, run: ProcessRun, elapsed: TimeSpan) -> (r: (
        EngineEnsure,
        EngineStep,
    ))
        ensures
            (r.0@, r.1@) == self@.after_context_name(detail@, run@, elapsed),
    {
        let timeout = self.timeout;
        match run {
            ProcessRun::Cancelled => self.failed(
                cancelled("operation was cancelled while inspecting Docker Engine"),
            ),
            ProcessRun::TimedOut => self.failed(
                engine_timeout_error(
                    "Docker endpoint detection did not finish before the timeout",
                    timeout,
                ),
            ),
            ProcessRun::Failed(error) => {
                let failure = if is_missing_executable(&error) {
                    docker_cli_missing_error()
                } else {
                    error.with_context("operation", "inspect Docker context").with_context(
                        "docker_command",
                        "docker context show",
                    )
                };
                self.failed(failure)
            },
            ProcessRun::Finished(output) => {
                if !output.succeeded() {
                    return self.failed(context_command_error("docker context show", &output));
                }
                assert(output.stdout.deep_view() =~= output.stdout@);
                let context = text_trim(text_from_utf8_lossy(output.stdout.as_slice()).as_str());
                if context.as_str().is_empty() || text_has_control(context.as_str()) {
                    return self.failed(
                        invalid_context_error(
                            context.as_str(),
                            "Docker context discovery returned an empty or invalid name",
                        ),
                    );
                }
                let limit = self.remaining(elapsed);
                let name = context.clone();
                (
                    self.waiting_for(EnginePhase::ContextDetails { detail, context }),
                    EngineStep::InspectContext { context: name, limit },
                )
            },
        }
    }

    fn after_context_details(self, detail: String, context: String, run: ProcessRun) -> (r: (
        EngineEnsure,
        EngineStep,
    ))
        ensures
            (r.0@, r.1@) == self@.after_context_details(detail@, context@, run@),
    {
        let timeout = self.timeout;
        match run {
            ProcessRun::Cancelled => self.failed(
                cancelled("operation was cancelled while inspecting Docker Engine"),
            ),
            ProcessRun::TimedOut => self.failed(
                engine_timeout_error(
                    "Docker endpoint detection did not finish before the timeout",
                    timeout,
                ),
            ),
            ProcessRun::Failed(error) => {
                let failure = if is_missing_executable(&error) {
                    docker_cli_missing_error()
                } else {
                    error.with_context("operation", "inspect Docker context").with_context(
                        "context",
                        context.as_str(),
                    )
                };
                self.failed(failure)
            },
            ProcessRun::Finished(output) => {
                if !output.succeeded() {
                    return self.failed(
                        context_command_error("docker context inspect", &output).with_context(
                            "context",
                            context.as_str(),
                        ),
                    );
                }
                assert(output.stdout.deep_view() =~= output.stdout@);
                match parse_context_endpoint(output.stdout.as_slice()) {
                    Err(error) => self.failed(error),
                    Ok(address) => {
                        let selection = classify_endpoint(
                            Some(context),
                            address,
                            self.linux_user_services,
                        );
                        self.selected(selection, detail)
                    },
                }
            },
        }
    }

    fn not_ready(&self, detail: &str, endpoint: &DockerEndpoint) -> (r: WorkstateError)
        ensures
            r@ == self@.not_ready(detail@, endpoint@),
    {
        engine_timeout_error(detail, self.timeout).with_context(
            "endpoint_kind",
            endpoint_kind_name(endpoint.kind),
        )
    }

    fn resumed(
        self,
        detail: String,
        endpoint: DockerEndpoint,
        resource: Option<ResourceRecord>,
        cancelled: Option<WorkstateError>,
        elapsed: TimeSpan,
    ) -> (r: (EngineEnsure, EngineStep))
        ensures
            (r.0@, r.1@) == self@.resumed(
                detail@,
                endpoint@,
                resource.deep_view(),
                cancelled.deep_view(),
                elapsed,
            ),
    {
        if let Some(error) = cancelled {
            return self.cleaning(resource, error);
        }
        if elapsed.nanoseconds >= self.timeout.nanoseconds {
            let error = self.not_ready(detail.as_str(), &endpoint);
            return self.cleaning(resource, error);
        }
        let limit = self.remaining(elapsed);
        (
            self.waiting_for(EnginePhase::Probe { detail, endpoint, resource }),
            EngineStep::Probe { limit },
        )
    }

    fn after_probe(
        self,
        detail: String,
        endpoint: DockerEndpoint,
        resource: Option<ResourceRecord>,
        run: ProcessRun,
        elapsed: TimeSpan,
    ) -> (r: (EngineEnsure, EngineStep))
        ensures
            (r.0@, r.1@) == self@.after_probe(
                detail@,
                endpoint@,
                resource.deep_view(),
                run@,
                elapsed,
            ),
    {
        match run {
            ProcessRun::Cancelled => self.cleaning(
                resource,
                cancelled("operation was cancelled while waiting for Docker Engine"),
            ),
            ProcessRun::TimedOut => {
                let error = self.not_ready(detail.as_str(), &endpoint);
                self.cleaning(resource, error)
            },
            ProcessRun::Failed(error) => self.cleaning(resource, probe_failure(error)),
            ProcessRun::Finished(output) => match probe_output(&output) {
                EngineProbe::Ready { version } => (
                    self.waiting_for(EnginePhase::Over),
                    EngineStep::Finish(outcome_of(resource, version.as_str())),
                ),
                EngineProbe::Unavailable { detail: latest } => {
                    let rest = self.remaining(elapsed);
                    let step = if rest.is_zero() {
                        EngineStep::Resume
                    } else {
                        EngineStep::Pause { span: self.poll_interval.shorter(rest) }
                    };
                    (
                        self.waiting_for(EnginePhase::Pause { detail: latest, endpoint, resource }),
                        step,
                    )
                },
            },
        }
    }

    /// What follows a reply. A reply that does not belong to what the wait is waiting for changes
    /// nothing.
    pub fn advance(self, event: EngineEvent) -> (r: (EngineEnsure, EngineStep))
        ensures
            (r.0@, r.1@) == self@.next(event@),
    {
        let phase = self.phase.replicate();
        match (phase, event) {
            (
                EnginePhase::FirstProbe,
                EngineEvent::Ran { run, elapsed },
            ) => self.after_first_probe(run, elapsed),
            (
                EnginePhase::Detection { detail, limit },
                EngineEvent::Checked(cancelled),
            ) => self.detecting(detail, limit, cancelled),
            (
                EnginePhase::ContextName { detail },
                EngineEvent::Ran { run, elapsed },
            ) => self.after_context_name(detail, run, elapsed),
            (
                EnginePhase::ContextDetails { detail, context },
                EngineEvent::Ran { run, elapsed: _ },
            ) => self.after_context_details(detail, context, run),
            (
                EnginePhase::SystemService { detail, endpoint },
                EngineEvent::ServiceInspected(status),
            ) => {
                if is_permission_denied(detail.as_str()) {
                    let error = global_permission_error(&endpoint, detail.as_str());
                    return self.failed(error);
                }
                if status == SystemServiceStatus::Inactive {
                    let error = global_stopped_error(&endpoint, detail.as_str());
                    return self.failed(error);
                }
                (
                    self.waiting_for(EnginePhase::Pause { detail, endpoint, resource: None }),
                    EngineStep::Resume,
                )
            },
            (
                EnginePhase::SystemService { detail, endpoint },
                EngineEvent::ServiceInspectionFailed(error),
            ) => {
                let failure = if is_permission_denied(detail.as_str()) {
                    global_permission_error(&endpoint, detail.as_str())
                } else {
                    global_inspection_error(&endpoint, detail.as_str(), &error)
                };
                self.failed(failure)
            },
            (
                EnginePhase::LocalService { detail, endpoint },
                EngineEvent::ServiceStarted(resource),
            ) => {
                if resource.is_none() {
                    let error = local_service_unavailable_error(&endpoint, detail.as_str());
                    return self.failed(error);
                }
                (
                    self.waiting_for(EnginePhase::Pause { detail, endpoint, resource }),
                    EngineStep::Resume,
                )
            },
            (
                EnginePhase::LocalService { .. },
                EngineEvent::ServiceStartFailed(error),
            ) => self.failed(error),
            (
                EnginePhase::Pause { detail, endpoint, resource },
                EngineEvent::Resumed { cancelled, elapsed },
            ) => self.resumed(detail, endpoint, resource, cancelled, elapsed),
            (
                EnginePhase::Pause { detail: _, endpoint: _, resource },
                EngineEvent::PauseCancelled,
            ) => self.cleaning(
                resource,
                cancelled("operation was cancelled while waiting for Docker Engine"),
            ),
            (
                EnginePhase::Probe { detail, endpoint, resource },
                EngineEvent::Ran { run, elapsed },
            ) => self.after_probe(detail, endpoint, resource, run, elapsed),
            (EnginePhase::Cleanup { error }, EngineEvent::ServiceStopped) => self.failed(
                error.with_context("service_cleanup", "completed"),
            ),
            (EnginePhase::Cleanup { error }, EngineEvent::ServiceStopFailed(cleanup)) => self.failed(
                error.with_context("service_cleanup_error", cleanup.render().as_str()),
            ),
            _ => (self, EngineStep::Idle),
        }
    }
}

// ---------------------------------------------------------------------------------------------
// Laws
// ---------------------------------------------------------------------------------------------
/// Once a wait is over, no reply brings anything about.
pub proof fn law_over_is_over(wait: EngineEnsureView, event: EngineEventView)
    requires
        wait.phase is Over,
    ensures
        wait.next(event) == (wait, EngineStepView::Idle),
{
}

/// A service is started only where the engine of the user was selected; the wait for a remote engine,
/// or for one of no known kind, fails without starting anything.
pub proof fn law_only_local_services_are_started(
    wait: EngineEnsureView,
    endpoint: DockerEndpointView,
    detail: Seq<char>,
)
    ensures
        wait.selected(Ok(endpoint), detail).1 is StartDesktop <==> endpoint.kind
            == DockerEndpointKind::Desktop,
        wait.selected(Ok(endpoint), detail).1 is StartRootless <==> endpoint.kind
            == DockerEndpointKind::Rootless,
        endpoint.kind == DockerEndpointKind::Remote || endpoint.kind == DockerEndpointKind::Unknown
            ==> wait.selected(Ok(endpoint), detail).1 is Fail,
{
}

impl EngineEventView {
    /// Whether the reply says that the wait was cancelled.
    pub open spec fn cancels(self) -> bool {
        match self {
            EngineEventView::Ran { run, elapsed: _ } => run is Cancelled,
            EngineEventView::Checked(cancelled) => cancelled is Some,
            EngineEventView::Resumed { cancelled, elapsed: _ } => cancelled is Some,
            EngineEventView::PauseCancelled => true,
            _ => false,
        }
    }
}

impl EngineEnsureView {
    /// Whether a reply belongs to what the wait is waiting for.
    pub open spec fn awaits(self, event: EngineEventView) -> bool {
        match self.phase {
            EnginePhaseView::FirstProbe
            | EnginePhaseView::ContextName { .. }
            | EnginePhaseView::ContextDetails { .. }
            | EnginePhaseView::Probe { .. } => event is Ran,
            EnginePhaseView::Detection { .. } => event is Checked,
            EnginePhaseView::SystemService { .. } => event is ServiceInspected
                || event is ServiceInspectionFailed,
            EnginePhaseView::LocalService { .. } => event is ServiceStarted
                || event is ServiceStartFailed,
            EnginePhaseView::Pause { .. } => event is Resumed || event is PauseCancelled,
            EnginePhaseView::Cleanup { .. } => event is ServiceStopped
                || event is ServiceStopFailed,
            EnginePhaseView::Over => false,
        }
    }

    /// Whether the wait goes on with a service that was started for it.
    pub open spec fn holds(self, record: ResourceRecordView) -> bool {
        match self.phase {
            EnginePhaseView::Probe { detail: _, endpoint: _, resource } => resource == Some(record),
            EnginePhaseView::Pause { detail: _, endpoint: _, resource } => resource == Some(record),
            _ => false,
        }
    }
}

/// Every reply that a wait is waiting for takes it further, and no other changes anything.
pub proof fn law_awaited_reply_takes_the_wait_further(
    wait: EngineEnsureView,
    event: EngineEventView,
)
    ensures
        wait.awaits(event) ==> wait.next(event).1 !is Idle,
        !wait.awaits(event) ==> wait.next(event) == (wait, EngineStepView::Idle),
{
}

/// A cancelled wait ends: with an error at once, or, where a service was started for it, by stopping
/// that service.
pub proof fn law_cancellation_ends_the_wait(wait: EngineEnsureView, event: EngineEventView)
    requires
        wait.awaits(event),
        event.cancels(),
    ensures
        wait.next(event).1 is Fail || wait.next(event).1 is StopService,
        forall|record: ResourceRecordView|
            record.cleanup_candidate() && #[trigger] wait.holds(record) ==> wait.next(event).1
                == EngineStepView::StopService(record),
{
}

/// A wait that has started a service of its own never loses it: after every reply it still holds the
/// service, or the engine answers and the service is part of the outcome, or the service is being
/// stopped. It fails only after that, with the error that it was stopped for.
pub proof fn law_owned_service_is_stopped_before_failing(
    wait: EngineEnsureView,
    event: EngineEventView,
    record: ResourceRecordView,
)
    requires
        record.cleanup_candidate(),
        wait.holds(record),
    ensures
        wait.next(event).1 !is Fail,
        match wait.next(event).1 {
            EngineStepView::StopService(stopped) => stopped == record
                && wait.next(event).0.phase is Cleanup,
            EngineStepView::Finish(outcome) => outcome.resources == seq![record],
            _ => wait.next(event).0.holds(record),
        },
        forall|stopped: EngineEventView|
            wait.next(event).0.phase is Cleanup && (stopped is ServiceStopped
                || stopped is ServiceStopFailed) ==> (#[trigger] wait.next(event).0.next(
                stopped,
            )).1 is Fail,
{
}

/// No wait probes, or pauses for longer than, what is left of its time.
pub proof fn law_wait_stays_within_its_time(wait: EngineEnsureView, run: ProcessRunView, elapsed: TimeSpan)
    requires
        elapsed.nanoseconds <= wait.timeout.nanoseconds,
    ensures
        wait.next((EngineEventView::Ran { run, elapsed })).1 matches EngineStepView::Pause { span }
            ==> span.nanoseconds + elapsed.nanoseconds <= wait.timeout.nanoseconds,
        wait.next((EngineEventView::Resumed { cancelled: None, elapsed })).1
            matches EngineStepView::Probe { limit } ==> limit.nanoseconds + elapsed.nanoseconds
            <= wait.timeout.nanoseconds,
{
}

/// An engine that answers is used as it is: nothing is started, and nothing is owned.
pub proof fn law_answering_engine_is_used(
    wait: EngineEnsureView,
    output: ProcessOutputView,
    elapsed: TimeSpan,
)
    requires
        wait.phase is FirstProbe,
        output.status == Some(0i32),
    ensures
        wait.next(EngineEventView::Ran { run: ProcessRunView::Finished(output), elapsed }).1
            matches EngineStepView::Finish(outcome) && outcome.resources.len() == 0
            && outcome.status == DockerOperationStatus::Reused,
{
}

/// An engine that does not answer is given up where nothing may be launched or no time is left; else it
/// is found out which one is meant: the host that is set, or else the context that Docker shows.
pub proof fn law_silent_engine_is_looked_for(
    wait: EngineEnsureView,
    output: ProcessOutputView,
    elapsed: TimeSpan,
)
    requires
        wait.phase is FirstProbe,
        output.status != Some(0i32),
    ensures
        ({
            let looked = wait.next(
                EngineEventView::Ran { run: ProcessRunView::Finished(output), elapsed },
            );
            let found = looked.0.next(EngineEventView::Checked(None));
            &&& (!wait.launch || elapsed.nanoseconds >= wait.timeout.nanoseconds) ==> looked.1 is Fail
            &&& wait.launch && elapsed.nanoseconds < wait.timeout.nanoseconds ==> looked.1
                == EngineStepView::CheckCancelled
            &&& wait.launch && elapsed.nanoseconds < wait.timeout.nanoseconds && !docker_settings(
                wait.environment,
            ).contains_key("DOCKER_HOST"@) ==> (found.1 matches EngineStepView::ShowContext {
                limit,
            } && limit.nanoseconds == wait.timeout.nanoseconds - elapsed.nanoseconds)
            &&& wait.launch && elapsed.nanoseconds < wait.timeout.nanoseconds && docker_settings(
                wait.environment,
            ).contains_key("DOCKER_CONTEXT"@) ==> found.1 is ShowContext
            &&& wait.launch && elapsed.nanoseconds < wait.timeout.nanoseconds && !docker_settings(
                wait.environment,
            ).contains_key("DOCKER_CONTEXT"@) && docker_settings(wait.environment).contains_key(
                "DOCKER_HOST"@,
            ) ==> !(found.1 is ShowContext) && (endpoint_of(
                None,
                Some(docker_settings(wait.environment)["DOCKER_HOST"@]),
                wait.linux_user_services,
            ) matches Ok(endpoint) && endpoint.kind == DockerEndpointKind::Desktop ==> found.1
                == EngineStepView::StartDesktop)
        }),
{
    let settings = ordered(docker_settings(wait.environment));
    let kept = wait.environment.filter(
        |variable: (Seq<char>, Seq<char>)| is_docker_setting(variable),
    );
    law_pairs_have_an_order(kept);
    law_setting_is_found(settings, "DOCKER_CONTEXT"@);
    law_setting_is_found(settings, "DOCKER_HOST"@);
}

/// The context that Docker shows is inspected under its name, and its address decides: Docker Desktop
/// and a rootless engine are started, the engine of the system is only looked at, and a remote one is
/// never touched.
pub proof fn law_context_decides(
    wait: EngineEnsureView,
    detail: Seq<char>,
    context: Seq<char>,
    shown: ProcessOutputView,
    inspected: ProcessOutputView,
    address: Option<Seq<char>>,
    elapsed: TimeSpan,
    kind: DockerEndpointKind,
)
    requires
        wait.phase == (EnginePhaseView::ContextName { detail }),
        shown.status == Some(0i32),
        inspected.status == Some(0i32),
        trim(lenient_text(shown.stdout)) == context,
        context.len() > 0,
        !has_control(context),
        inspected_address(inspected.stdout) == Ok::<Option<Seq<char>>, WorkstateErrorView>(address),
        kind_of_endpoint(Some(context), address, wait.linux_user_services) == Some(kind),
    ensures
        ({
            let named = wait.next(
                EngineEventView::Ran { run: ProcessRunView::Finished(shown), elapsed },
            );
            let decided = named.0.next(
                EngineEventView::Ran { run: ProcessRunView::Finished(inspected), elapsed },
            );
            &&& named.1 matches EngineStepView::InspectContext { context: asked, limit } && asked
                == context && named.0.command(named.1) == Some(
                seq!["context"@, "inspect"@, context, "--format"@, "{{json .}}"@],
            )
            &&& match kind {
                DockerEndpointKind::Desktop => decided.1 == EngineStepView::StartDesktop,
                DockerEndpointKind::Rootless => decided.1 == EngineStepView::StartRootless,
                DockerEndpointKind::Global => decided.1 == EngineStepView::InspectSystemService,
                DockerEndpointKind::Remote => decided.1 is Fail,
                DockerEndpointKind::Unknown => decided.1 is Fail,
            }
        }),
{
}

/// A service that was started is waited for: the engine is asked again and again, with the pause that was
/// set between two questions, until it answers or the time is over. When it answers, the service is
/// handed on; when it does not, a service that was started here is stopped.
pub proof fn law_started_service_is_awaited(
    wait: EngineEnsureView,
    detail: Seq<char>,
    endpoint: DockerEndpointView,
    record: ResourceRecordView,
    output: ProcessOutputView,
    elapsed: TimeSpan,
)
    requires
        wait.phase == (EnginePhaseView::LocalService { detail, endpoint }),
        elapsed.nanoseconds < wait.timeout.nanoseconds,
    ensures
        ({
            let started = wait.next(EngineEventView::ServiceStarted(Some(record)));
            let asked = started.0.next(EngineEventView::Resumed { cancelled: None, elapsed });
            let answered = asked.0.next(
                EngineEventView::Ran { run: ProcessRunView::Finished(output), elapsed },
            );
            let late = started.0.next(
                EngineEventView::Resumed { cancelled: None, elapsed: wait.timeout },
            );
            &&& started.1 == EngineStepView::Resume
            &&& asked.1 matches EngineStepView::Probe { limit } && limit.nanoseconds
                == wait.timeout.nanoseconds - elapsed.nanoseconds && asked.0.command(asked.1)
                == Some(seq!["info"@, "--format"@, "{{.ServerVersion}}"@])
            &&& output.status == Some(0i32) ==> (answered.1 matches EngineStepView::Finish(outcome)
                && outcome.resources == seq![record] && (outcome.status
                == DockerOperationStatus::Created) == (record.ownership
                == OwnershipStatus::CreatedByCurrentRun))
            &&& output.status != Some(0i32) ==> (answered.1 matches EngineStepView::Pause { span }
                && span.nanoseconds <= wait.poll_interval.nanoseconds && (span.nanoseconds
                == wait.poll_interval.nanoseconds || span.nanoseconds == wait.timeout.nanoseconds
                - elapsed.nanoseconds) && answered.0.phase is Pause)
            &&& record.ownership == OwnershipStatus::CreatedByCurrentRun && record.cleanup_policy
                == CleanupPolicy::OwnedOnly ==> late.1 == EngineStepView::StopService(record)
            &&& record.ownership != OwnershipStatus::CreatedByCurrentRun ==> late.1 is Fail
            &&& wait.next(EngineEventView::ServiceStarted(None)).1 is Fail
        }),
{
}

/// The engine of the system is waited for where its service runs or starts; where it stands still, or the
/// user may not use it, that is a failure with advice, and nothing is started.
pub proof fn law_system_engine_is_not_started(
    wait: EngineEnsureView,
    detail: Seq<char>,
    endpoint: DockerEndpointView,
    status: SystemServiceStatus,
)
    requires
        wait.phase == (EnginePhaseView::SystemService { detail, endpoint }),
    ensures
        ({
            let looked = wait.next(EngineEventView::ServiceInspected(status));
            &&& looked.1 is Resume || looked.1 is Fail
            &&& looked.1 is Resume <==> status != SystemServiceStatus::Inactive
                && !says_permission_denied(detail)
            &&& looked.1 is Resume ==> (looked.0.phase matches EnginePhaseView::Pause {
                detail: _,
                endpoint: _,
                resource,
            } && resource is None)
        }),
{
}

} // verus!
