//! Readiness checks of containers and projects: in what order they are run and for how long, what each
//! of them asks of the world, and what the replies say.
use vstd::prelude::*;
use vstd::string::*;
use crate::domain::{
    CommandSpec, CommandSpecView, ContainerSpec, ContainerSpecView, ReadinessCheck,
    ReadinessCheckView,
};
use crate::error::{seen, WorkstateError, WorkstateErrorView};
use crate::collections::TextMap;
use crate::integrations::docker::backend::{
    check_limit, check_timeout, compose_state_detail, container_failure_detail, container_logs,
    failure_detail, has_service, logs_found, project_detail, project_healthy, project_is_healthy,
    readiness_timeout, readiness_timeout_error,
};
use crate::integrations::docker::checks::{
    cancelled, cancelled_error, curl_arguments, http_request,
};
use crate::integrations::docker::models::{container_ready, healthy_container};
use crate::planner::{
    check_failed, check_passed, ReadinessCheckResult, ReadinessCheckResultView,
};
use crate::ports::{
    DockerCheckReport, DockerCheckReportView, DockerComposeObservation,
    DockerComposeObservationView, DockerComposeRequest, DockerComposeRequestView,
    DockerComposeSnapshotView, DockerContainerObservation, DockerContainerObservationView,
    DockerContainerRequest, DockerContainerRequestView, DockerContainerSnapshot,
    DockerContainerSnapshotView, DockerEngineSnapshot, DockerEngineSnapshotView, ProcessOutput,
    ProcessRequest, ProcessRequestView,
};
use crate::time::{span_of_millis, TimeSpan};
use crate::values::{empty_list, rest, text_or, Replicate};

verus! {

// ---------------------------------------------------------------------------------------------
// One check
// ---------------------------------------------------------------------------------------------
/// What a check asks of the world.
#[derive(Debug)]
pub enum Probe {
    Container(DockerContainerRequest),
    Project { services: Vec<String> },
    Tcp { host: String, port: u16, timeout: TimeSpan },
    Http { url: String, expected_status: Option<u16>, request: ProcessRequest, timeout: TimeSpan },
    Command { command: CommandSpec, working_directory: Option<String>, timeout: TimeSpan },
    Delay { milliseconds: u64 },
    Answered(ReadinessCheckResult),
}

/// What a `Probe` stands for.
#[verifier::ext_equal]
pub enum ProbeView {
    Container(DockerContainerRequestView),
    Project { services: Seq<Seq<char>> },
    Tcp { host: Seq<char>, port: u16, timeout: TimeSpan },
    Http { url: Seq<char>, expected_status: Option<u16>, request: ProcessRequestView, timeout: TimeSpan },
    Command { command: CommandSpecView, working_directory: Option<Seq<char>>, timeout: TimeSpan },
    Delay { milliseconds: u64 },
    Answered(ReadinessCheckResultView),
}

impl View for Probe {
    type V = ProbeView;

    open spec fn view(&self) -> ProbeView {
        match self {
            Probe::Container(value) => ProbeView::Container(value.deep_view()),
            Probe::Project { services } => ProbeView::Project { services: services.deep_view() },
            Probe::Tcp { host, port, timeout } => ProbeView::Tcp { host: host.deep_view(), port: port.deep_view(), timeout: timeout.deep_view() },
            Probe::Http { url, expected_status, request, timeout } => ProbeView::Http { url: url.deep_view(), expected_status: expected_status.deep_view(), request: request.deep_view(), timeout: timeout.deep_view() },
            Probe::Command { command, working_directory, timeout } => ProbeView::Command { command: command.deep_view(), working_directory: working_directory.deep_view(), timeout: timeout.deep_view() },
            Probe::Delay { milliseconds } => ProbeView::Delay { milliseconds: milliseconds.deep_view() },
            Probe::Answered(value) => ProbeView::Answered(value.deep_view()),
        }
    }
}

impl DeepView for Probe {
    type V = ProbeView;

    open spec fn deep_view(&self) -> ProbeView {
        self.view()
    }
}

/// What a look at a container says of a check.
#[derive(Debug)]
pub enum ContainerVerdict {
    Answered(ReadinessCheckResult),
    ReadLogs(DockerContainerSnapshot),
}

/// What a `ContainerVerdict` stands for.
#[verifier::ext_equal]
pub enum ContainerVerdictView {
    Answered(ReadinessCheckResultView),
    ReadLogs(DockerContainerSnapshotView),
}

impl View for ContainerVerdict {
    type V = ContainerVerdictView;

    open spec fn view(&self) -> ContainerVerdictView {
        match self {
            ContainerVerdict::Answered(value) => ContainerVerdictView::Answered(value.deep_view()),
            ContainerVerdict::ReadLogs(value) => ContainerVerdictView::ReadLogs(value.deep_view()),
        }
    }
}

impl DeepView for ContainerVerdict {
    type V = ContainerVerdictView;

    open spec fn deep_view(&self) -> ContainerVerdictView {
        self.view()
    }
}

/// What a check that neither looks at a container nor at a project asks of the world.
pub open spec fn common_probe(check: ReadinessCheckView, working_directory: Option<Seq<char>>) -> ProbeView {
    match check {
        ReadinessCheckView::Tcp { host, port, timeout } => ProbeView::Tcp {
            host,
            port,
            timeout: span_of_millis(timeout.milliseconds),
        },
        ReadinessCheckView::Http { url, expected_status, timeout } => ProbeView::Http {
            url,
            expected_status,
            request: ProcessRequestView {
                program: "curl"@,
                arguments: curl_arguments(url, span_of_millis(timeout.milliseconds)),
                working_directory,
                environment: Seq::empty(),
            },
            timeout: span_of_millis(timeout.milliseconds),
        },
        ReadinessCheckView::Command { command, timeout } => ProbeView::Command {
            command,
            working_directory,
            timeout: span_of_millis(timeout.milliseconds),
        },
        ReadinessCheckView::Delay { milliseconds } => ProbeView::Delay { milliseconds },
        _ => ProbeView::Answered(
            check_failed("the readiness check does not target a direct Docker container"@),
        ),
    }
}

fn probe_in(check: &ReadinessCheck, working_directory: Option<String>) -> (r: Probe)
    ensures
        r@ == common_probe(check@, working_directory.deep_view()),
{
    match check {
        ReadinessCheck::Tcp { host, port, timeout } => Probe::Tcp {
            host: host.clone(),
            port: *port,
            timeout: TimeSpan::from_millis(timeout.milliseconds),
        },
        ReadinessCheck::Http { url, expected_status, timeout } => Probe::Http {
            url: url.clone(),
            expected_status: *expected_status,
            request: http_request(
                url.as_str(),
                TimeSpan::from_millis(timeout.milliseconds),
                working_directory,
            ),
            timeout: TimeSpan::from_millis(timeout.milliseconds),
        },
        ReadinessCheck::Command { command, timeout } => Probe::Command {
            command: command.replicate(),
            working_directory,
            timeout: TimeSpan::from_millis(timeout.milliseconds),
        },
        ReadinessCheck::Delay { milliseconds } => Probe::Delay { milliseconds: *milliseconds },
        _ => Probe::Answered(
            ReadinessCheckResult::failed(
                "the readiness check does not target a direct Docker container",
            ),
        ),
    }
}

/// What a check of a container asks of the world. It may look at another container than the one that
/// it belongs to.
pub open spec fn container_probe(
    request: DockerContainerRequestView,
    check: ReadinessCheckView,
) -> ProbeView {
    match check {
        ReadinessCheckView::Container { name, timeout } => ProbeView::Container(
            DockerContainerRequestView {
                specification: ContainerSpecView { name, ..request.specification },
                ..request
            },
        ),
        _ => common_probe(check, request.working_directory),
    }
}

/// What a check of a container asks of the world.
pub fn check_container_once(request: &DockerContainerRequest, check: &ReadinessCheck) -> (r: Probe)
    ensures
        r@ == container_probe(request@, check@),
{
    if let ReadinessCheck::Container { name, timeout: _ } = check {
        let mut asked = request.replicate();
        asked.specification.name = name.clone();
        return Probe::Container(asked);
    }
    probe_in(check, request.working_directory.replicate())
}

/// What a check of a project asks of the world.
pub open spec fn project_probe(
    request: DockerComposeRequestView,
    check: ReadinessCheckView,
) -> ProbeView {
    match check {
        ReadinessCheckView::Compose { services, timeout } => ProbeView::Project { services },
        ReadinessCheckView::Container { name, timeout } => ProbeView::Container(
            DockerContainerRequestView {
                context: request.context,
                specification: ContainerSpecView {
                    name,
                    image: None,
                    command: None,
                    environment: Map::empty(),
                    mounts: Seq::empty(),
                    ports: Seq::empty(),
                },
                working_directory: Some(request.working_directory),
                readiness_checks: Seq::empty(),
            },
        ),
        ReadinessCheckView::Nothing => ProbeView::Answered(check_passed()),
        _ => common_probe(check, Some(request.working_directory)),
    }
}

/// What a check of a project asks of the world.
pub fn check_compose_once(request: &DockerComposeRequest, check: &ReadinessCheck) -> (r: Probe)
    ensures
        r@ == project_probe(request@, check@),
{
    match check {
        ReadinessCheck::Compose { services, timeout: _ } => Probe::Project {
            services: services.replicate(),
        },
        ReadinessCheck::Container { name, timeout: _ } => Probe::Container(
            DockerContainerRequest {
                context: request.context.replicate(),
                specification: ContainerSpec {
                    name: name.clone(),
                    image: None,
                    command: None,
                    environment: TextMap::new(),
                    mounts: empty_list(),
                    ports: empty_list(),
                },
                working_directory: Some(request.working_directory.clone()),
                readiness_checks: empty_list(),
            },
        ),
        ReadinessCheck::Nothing => Probe::Answered(ReadinessCheckResult::passed()),
        _ => probe_in(check, Some(request.working_directory.clone())),
    }
}

/// The check fails while the engine does not answer.
pub open spec fn engine_missing(engine: DockerEngineSnapshotView) -> ReadinessCheckResultView {
    check_failed(
        match engine.detail {
            Some(detail) => detail,
            None => "Docker Engine is unavailable"@,
        },
    )
}

fn without_engine(engine: &DockerEngineSnapshot) -> (r: ReadinessCheckResult)
    ensures
        r@ == engine_missing(engine@),
{
    ReadinessCheckResult::failed(
        text_or(&engine.detail, "Docker Engine is unavailable").as_str(),
    )
}

/// What a look at a container says of the check: it passes where the container runs and is healthy;
/// else the end of its log is read.
pub open spec fn container_judged(observation: DockerContainerObservationView) -> ContainerVerdictView {
    match observation {
        DockerContainerObservationView::Present(snapshot) => if container_ready(snapshot) {
            ContainerVerdictView::Answered(check_passed())
        } else {
            ContainerVerdictView::ReadLogs(snapshot)
        },
        DockerContainerObservationView::Missing => ContainerVerdictView::Answered(
            check_failed("the expected Docker container is missing"@),
        ),
        DockerContainerObservationView::Unavailable(engine) => ContainerVerdictView::Answered(
            engine_missing(engine),
        ),
    }
}

/// What a look at a container says of the check.
pub fn judge_container(observation: DockerContainerObservation) -> (r: ContainerVerdict)
    ensures
        r@ == container_judged(observation@),
{
    match observation {
        DockerContainerObservation::Present(snapshot) => if healthy_container(&snapshot) {
            ContainerVerdict::Answered(ReadinessCheckResult::passed())
        } else {
            ContainerVerdict::ReadLogs(snapshot)
        },
        DockerContainerObservation::Missing => ContainerVerdict::Answered(
            ReadinessCheckResult::failed("the expected Docker container is missing"),
        ),
        DockerContainerObservation::Unavailable(engine) => ContainerVerdict::Answered(
            without_engine(&engine),
        ),
    }
}

/// The check fails with the state of the container and the end of its log, where it could be read.
pub fn judge_logs(
    snapshot: &DockerContainerSnapshot,
    logs: Result<ProcessOutput, WorkstateError>,
) -> (r: ReadinessCheckResult)
    ensures
        r@ == check_failed(
            failure_detail(
                snapshot@,
                match seen(logs) {
                    Ok(output) => logs_found(output),
                    Err(error) => Err(error),
                },
            ),
        ),
{
    let read = match logs {
        Ok(output) => container_logs(&output),
        Err(error) => Err(error),
    };
    ReadinessCheckResult::failed(container_failure_detail(snapshot, read).as_str())
}

/// What a look at a project says of the check.
pub open spec fn project_judged(
    observation: DockerComposeObservationView,
    services: Seq<Seq<char>>,
) -> ReadinessCheckResultView {
    match observation {
        DockerComposeObservationView::Present(snapshot) => if project_healthy(snapshot, services) {
            check_passed()
        } else {
            check_failed(project_detail(snapshot, services))
        },
        DockerComposeObservationView::Missing => check_failed(
            "the expected Docker Compose project is missing"@,
        ),
        DockerComposeObservationView::Unavailable(engine) => engine_missing(engine),
    }
}

/// What a look at a project says of the check.
pub fn judge_project(observation: &DockerComposeObservation, services: &Vec<String>) -> (r:
    ReadinessCheckResult)
    ensures
        r@ == project_judged(observation@, services.deep_view()),
{
    match observation {
        DockerComposeObservation::Present(snapshot) => if project_is_healthy(snapshot, services) {
            ReadinessCheckResult::passed()
        } else {
            ReadinessCheckResult::failed(compose_state_detail(snapshot, services).as_str())
        },
        DockerComposeObservation::Missing => ReadinessCheckResult::failed(
            "the expected Docker Compose project is missing",
        ),
        DockerComposeObservation::Unavailable(engine) => without_engine(engine),
    }
}

// ---------------------------------------------------------------------------------------------
// All checks
// ---------------------------------------------------------------------------------------------
/// What the run is waiting for.
#[derive(Debug, Clone, Copy, PartialEq, Eq, Structural)]
pub enum ChecksPhase {
    Ready,
    Checking,
    Missed,
    Sleeping,
    Over,
}

impl DeepView for ChecksPhase {
    type V = ChecksPhase;

    open spec fn deep_view(&self) -> ChecksPhase {
        *self
    }
}

impl Replicate for ChecksPhase {
    fn replicate(&self) -> (r: Self) {
        *self
    }
}

/// A run of checks: those that are left, the one in front first, and what was found so far.
#[derive(Debug)]
pub struct ChecksRun {
    pub pending: Vec<ReadinessCheck>,
    pub poll_interval: TimeSpan,
    pub checks_run: usize,
    pub last_detail: Option<String>,
    pub phase: ChecksPhase,
}

/// What a `ChecksRun` stands for.
#[verifier::ext_equal]
pub struct ChecksRunView {
    pub pending: Seq<ReadinessCheckView>,
    pub poll_interval: TimeSpan,
    pub checks_run: usize,
    pub last_detail: Option<Seq<char>>,
    pub phase: ChecksPhase,
}

impl View for ChecksRun {
    type V = ChecksRunView;

    open spec fn view(&self) -> ChecksRunView {
        ChecksRunView {
            pending: self.pending.deep_view(),
            poll_interval: self.poll_interval.deep_view(),
            checks_run: self.checks_run.deep_view(),
            last_detail: self.last_detail.deep_view(),
            phase: self.phase.deep_view(),
        }
    }
}

impl DeepView for ChecksRun {
    type V = ChecksRunView;

    open spec fn deep_view(&self) -> ChecksRunView {
        self.view()
    }
}

impl Replicate for ChecksRun {
    fn replicate(&self) -> (r: Self) {
        ChecksRun {
            pending: self.pending.replicate(),
            poll_interval: self.poll_interval.replicate(),
            checks_run: self.checks_run.replicate(),
            last_detail: self.last_detail.replicate(),
            phase: self.phase.replicate(),
        }
    }
}

/// What the world replied. `Left` is the time that is left of the one that the current check has.
#[derive(Debug)]
pub enum ChecksEvent {
    Left(TimeSpan),
    Checked(ReadinessCheckResult),
    TimedOut,
    Slept,
    Cancelled,
    Failed(WorkstateError),
}

/// What a `ChecksEvent` stands for.
#[verifier::ext_equal]
pub enum ChecksEventView {
    Left(TimeSpan),
    Checked(ReadinessCheckResultView),
    TimedOut,
    Slept,
    Cancelled,
    Failed(WorkstateErrorView),
}

impl View for ChecksEvent {
    type V = ChecksEventView;

    open spec fn view(&self) -> ChecksEventView {
        match self {
            ChecksEvent::Left(value) => ChecksEventView::Left(value.deep_view()),
            ChecksEvent::Checked(value) => ChecksEventView::Checked(value.deep_view()),
            ChecksEvent::TimedOut => ChecksEventView::TimedOut,
            ChecksEvent::Slept => ChecksEventView::Slept,
            ChecksEvent::Cancelled => ChecksEventView::Cancelled,
            ChecksEvent::Failed(value) => ChecksEventView::Failed(value.deep_view()),
        }
    }
}

impl DeepView for ChecksEvent {
    type V = ChecksEventView;

    open spec fn deep_view(&self) -> ChecksEventView {
        self.view()
    }
}

/// What is asked of the world next. `Watch` starts the clock of a check.
#[derive(Debug)]
pub enum ChecksStep {
    Watch { limit: TimeSpan },
    AskTime,
    Check { check: ReadinessCheck, within: TimeSpan },
    Sleep(TimeSpan),
    Finish(DockerCheckReport),
    Fail(WorkstateError),
    Idle,
}

/// What a `ChecksStep` stands for.
#[verifier::ext_equal]
pub enum ChecksStepView {
    Watch { limit: TimeSpan },
    AskTime,
    Check { check: ReadinessCheckView, within: TimeSpan },
    Sleep(TimeSpan),
    Finish(DockerCheckReportView),
    Fail(WorkstateErrorView),
    Idle,
}

impl View for ChecksStep {
    type V = ChecksStepView;

    open spec fn view(&self) -> ChecksStepView {
        match self {
            ChecksStep::Watch { limit } => ChecksStepView::Watch { limit: limit.deep_view() },
            ChecksStep::AskTime => ChecksStepView::AskTime,
            ChecksStep::Check { check, within } => ChecksStepView::Check { check: check.deep_view(), within: within.deep_view() },
            ChecksStep::Sleep(value) => ChecksStepView::Sleep(value.deep_view()),
            ChecksStep::Finish(value) => ChecksStepView::Finish(value.deep_view()),
            ChecksStep::Fail(value) => ChecksStepView::Fail(value.deep_view()),
            ChecksStep::Idle => ChecksStepView::Idle,
        }
    }
}

impl DeepView for ChecksStep {
    type V = ChecksStepView;

    open spec fn deep_view(&self) -> ChecksStepView {
        self.view()
    }
}

/// The run and what it asks of the world.
pub type ChecksMove = (ChecksRunView, ChecksStepView);

/// One more, as far as the machine counts.
pub open spec fn one_more(count: usize) -> usize {
    if count < usize::MAX {
        (count + 1) as usize
    } else {
        count
    }
}

/// The shorter of two spans.
pub open spec fn shorter_span(a: TimeSpan, b: TimeSpan) -> TimeSpan {
    if a.nanoseconds <= b.nanoseconds {
        a
    } else {
        b
    }
}

impl ChecksRunView {
    pub open spec fn waiting_for(self, phase: ChecksPhase) -> ChecksRunView {
        ChecksRunView { phase, ..self }
    }

    pub open spec fn failed(self, error: WorkstateErrorView) -> ChecksMove {
        (self.waiting_for(ChecksPhase::Over), ChecksStepView::Fail(error))
    }

    /// The clock of the check in front is started. A check that asks for nothing counts as run.
    pub open spec fn to_front(self) -> ChecksMove
        decreases self.pending.len(),
    {
        if self.pending.len() == 0 {
            (
                self.waiting_for(ChecksPhase::Over),
                ChecksStepView::Finish(
                    DockerCheckReportView {
                        checks_run: self.checks_run,
                        last_detail: self.last_detail,
                    },
                ),
            )
        } else if self.pending[0] is Nothing {
            ChecksRunView {
                pending: self.pending.drop_first(),
                checks_run: one_more(self.checks_run),
                ..self
            }.to_front()
        } else {
            (
                self.waiting_for(ChecksPhase::Ready),
                ChecksStepView::Watch { limit: check_limit(self.pending[0]) },
            )
        }
    }

    /// After a check gave an answer: the next one where it passed; else the time is looked at.
    pub open spec fn after_check(self, result: ReadinessCheckResultView) -> ChecksMove {
        let told = ChecksRunView {
            checks_run: one_more(self.checks_run),
            last_detail: result.detail,
            ..self
        };
        if result.passed {
            ChecksRunView { pending: self.pending.drop_first(), ..told }.to_front()
        } else {
            (told.waiting_for(ChecksPhase::Missed), ChecksStepView::AskTime)
        }
    }

    /// What follows a reply. A reply that does not belong to what the run is waiting for changes
    /// nothing.
    pub open spec fn next(self, event: ChecksEventView) -> ChecksMove {
        if self.phase == ChecksPhase::Over {
            (self, ChecksStepView::Idle)
        } else {
            match event {
                ChecksEventView::Failed(error) => self.failed(error),
                ChecksEventView::Cancelled => self.failed(
                    cancelled_error("operation was cancelled during Docker readiness checks"@),
                ),
                _ => if self.pending.len() == 0 {
                    (self, ChecksStepView::Idle)
                } else {
                    match (self.phase, event) {
                        (
                            ChecksPhase::Ready,
                            ChecksEventView::Left(left),
                        ) => if left.nanoseconds == 0 {
                            self.failed(check_timeout(self.pending[0], self.last_detail))
                        } else {
                            (
                                self.waiting_for(ChecksPhase::Checking),
                                ChecksStepView::Check { check: self.pending[0], within: left },
                            )
                        },
                        (
                            ChecksPhase::Checking,
                            ChecksEventView::Checked(result),
                        ) => self.after_check(result),
                        (ChecksPhase::Checking, ChecksEventView::TimedOut) => self.failed(
                            check_timeout(self.pending[0], self.last_detail),
                        ),
                        (
                            ChecksPhase::Missed,
                            ChecksEventView::Left(left),
                        ) => if left.nanoseconds == 0 {
                            self.failed(check_timeout(self.pending[0], self.last_detail))
                        } else {
                            (
                                self.waiting_for(ChecksPhase::Sleeping),
                                ChecksStepView::Sleep(shorter_span(self.poll_interval, left)),
                            )
                        },
                        (ChecksPhase::Sleeping, ChecksEventView::Slept) => (
                            self.waiting_for(ChecksPhase::Ready),
                            ChecksStepView::AskTime,
                        ),
                        _ => (self, ChecksStepView::Idle),
                    }
                },
            }
        }
    }
}

/// The run before its first check.
pub open spec fn checks_begun(checks: Seq<ReadinessCheckView>, poll_interval: TimeSpan) -> ChecksMove {
    ChecksRunView {
        pending: checks,
        poll_interval,
        checks_run: 0,
        last_detail: None,
        phase: ChecksPhase::Ready,
    }.to_front()
}

impl ChecksRun {
    /// Begins with the first check.
    pub fn begin(checks: Vec<ReadinessCheck>, poll_interval: TimeSpan) -> (r: (
        ChecksRun,
        ChecksStep,
    ))
        ensures
            (r.0@, r.1@) == checks_begun(checks.deep_view(), poll_interval),
    {
        ChecksRun {
            pending: checks,
            poll_interval,
            checks_run: 0,
            last_detail: None,
            phase: ChecksPhase::Ready,
        }.to_front()
    }

    fn waiting_for(self, phase: ChecksPhase) -> (r: ChecksRun)
        ensures
            r@ == self@.waiting_for(phase),
    {
        ChecksRun {
            pending: self.pending,
            poll_interval: self.poll_interval,
            checks_run: self.checks_run,
            last_detail: self.last_detail,
            phase,
        }
    }

    fn failed(self, error: WorkstateError) -> (r: (ChecksRun, ChecksStep))
        ensures
            (r.0@, r.1@) == self@.failed(error@),
    {
        (self.waiting_for(ChecksPhase::Over), ChecksStep::Fail(error))
    }

    fn to_front(self) -> (r: (ChecksRun, ChecksStep))
        ensures
            (r.0@, r.1@) == self@.to_front(),
    {
        let ghost goal = self@.to_front();
        let mut work = self;
        while work.pending.len() > 0
            invariant
                goal == self@.to_front(),
                work@.to_front() == goal,
            ensures
                work@.to_front() == goal,
                work.pending@.len() == 0,
            decreases work.pending@.len(),
        {
            assert(work.pending.deep_view()[0] == work.pending@[0]@);
            if let ReadinessCheck::Nothing = work.pending[0] {
                let pending = rest(&work.pending);
                assert(pending.deep_view().len() == pending@.len());
                work = ChecksRun {
                    pending,
                    poll_interval: work.poll_interval,
                    checks_run: if work.checks_run < usize::MAX {
                        work.checks_run + 1
                    } else {
                        work.checks_run
                    },
                    last_detail: work.last_detail,
                    phase: work.phase,
                };
            } else {
                let limit = readiness_timeout(&work.pending[0]);
                return (work.waiting_for(ChecksPhase::Ready), ChecksStep::Watch { limit });
            }
        }
        let report = DockerCheckReport {
            checks_run: work.checks_run,
            last_detail: work.last_detail.replicate(),
        };
        (work.waiting_for(ChecksPhase::Over), ChecksStep::Finish(report))
    }

    fn after_check(self, result: ReadinessCheckResult) -> (r: (ChecksRun, ChecksStep))
        requires
            self.pending@.len() > 0,
        ensures
            (r.0@, r.1@) == self@.after_check(result@),
    {
        let checks_run = if self.checks_run < usize::MAX {
            self.checks_run + 1
        } else {
            self.checks_run
        };
        if result.passed {
            let pending = rest(&self.pending);
            ChecksRun {
                pending,
                poll_interval: self.poll_interval,
                checks_run,
                last_detail: result.detail,
                phase: self.phase,
            }.to_front()
        } else {
            (
                ChecksRun {
                    pending: self.pending,
                    poll_interval: self.poll_interval,
                    checks_run,
                    last_detail: result.detail,
                    phase: ChecksPhase::Missed,
                },
                ChecksStep::AskTime,
            )
        }
    }

    /// What follows a reply. A reply that does not belong to what the run is waiting for changes
    /// nothing.
    pub fn advance(self, event: ChecksEvent) -> (r: (ChecksRun, ChecksStep))
        ensures
            (r.0@, r.1@) == self@.next(event@),
    {
        if self.phase == ChecksPhase::Over {
            return (self, ChecksStep::Idle);
        }
        let event = match event {
            ChecksEvent::Failed(error) => {
                return self.failed(error);
            },
            ChecksEvent::Cancelled => {
                return self.failed(
                    cancelled("operation was cancelled during Docker readiness checks"),
                );
            },
            event => event,
        };
        if self.pending.len() == 0 {
            return (self, ChecksStep::Idle);
        }
        assert(self.pending.deep_view()[0] == self.pending@[0]@);
        match (self.phase, event) {
            (ChecksPhase::Ready, ChecksEvent::Left(left)) => if left.is_zero() {
                let error = readiness_timeout_error(&self.pending[0], &self.last_detail);
                self.failed(error)
            } else {
                let check = self.pending[0].replicate();
                (
                    self.waiting_for(ChecksPhase::Checking),
                    ChecksStep::Check { check, within: left },
                )
            },
            (ChecksPhase::Checking, ChecksEvent::Checked(result)) => self.after_check(result),
            (ChecksPhase::Checking, ChecksEvent::TimedOut) => {
                let error = readiness_timeout_error(&self.pending[0], &self.last_detail);
                self.failed(error)
            },
            (ChecksPhase::Missed, ChecksEvent::Left(left)) => if left.is_zero() {
                let error = readiness_timeout_error(&self.pending[0], &self.last_detail);
                self.failed(error)
            } else {
                let pause = self.poll_interval.shorter(left);
                (self.waiting_for(ChecksPhase::Sleeping), ChecksStep::Sleep(pause))
            },
            (ChecksPhase::Sleeping, ChecksEvent::Slept) => (
                self.waiting_for(ChecksPhase::Ready),
                ChecksStep::AskTime,
            ),
            _ => (self, ChecksStep::Idle),
        }
    }
}

// ---------------------------------------------------------------------------------------------
// Laws
// ---------------------------------------------------------------------------------------------
/// A check is never given more time than is left of its own, and no pause is longer than that either.
pub proof fn law_check_stays_within_its_time(work: ChecksRunView, event: ChecksEventView)
    ensures
        work.next(event).1 matches ChecksStepView::Check { check, within } ==> event
            == ChecksEventView::Left(within) && within.nanoseconds > 0,
        work.next(event).1 matches ChecksStepView::Sleep(pause) ==> (event
            matches ChecksEventView::Left(left) && pause.nanoseconds <= left.nanoseconds
            && pause.nanoseconds <= work.poll_interval.nanoseconds),
{
    if work.phase != ChecksPhase::Over && work.pending.len() > 0 {
        if let ChecksEventView::Checked(result) = event {
            let told = ChecksRunView {
                checks_run: one_more(work.checks_run),
                last_detail: result.detail,
                ..work
            };
            lemma_front(ChecksRunView { pending: work.pending.drop_first(), ..told });
        }
    }
}

proof fn lemma_front(work: ChecksRunView)
    ensures
        work.to_front().1 is Finish || work.to_front().1 is Watch,
    decreases work.pending.len(),
{
    if work.pending.len() > 0 && work.pending[0] is Nothing {
        lemma_front(
            ChecksRunView {
                pending: work.pending.drop_first(),
                checks_run: one_more(work.checks_run),
                ..work
            },
        );
    }
}

/// Success is reported only when no check is left: the last one that was run has passed.
pub proof fn law_success_needs_every_check(work: ChecksRunView, event: ChecksEventView)
    requires
        work.next(event).1 is Finish,
    ensures
        work.next(event).0.pending.len() == 0,
        event matches ChecksEventView::Checked(result) && result.passed,
{
    if let ChecksEventView::Checked(result) = event {
        let told = ChecksRunView {
            checks_run: one_more(work.checks_run),
            last_detail: result.detail,
            ..work
        };
        lemma_finished(ChecksRunView { pending: work.pending.drop_first(), ..told });
    }
}

proof fn lemma_finished(work: ChecksRunView)
    ensures
        work.to_front().1 is Finish ==> work.to_front().0.pending.len() == 0,
    decreases work.pending.len(),
{
    if work.pending.len() > 0 && work.pending[0] is Nothing {
        lemma_finished(
            ChecksRunView {
                pending: work.pending.drop_first(),
                checks_run: one_more(work.checks_run),
                ..work
            },
        );
    }
}

/// Once the run is over, no reply brings anything about.
pub proof fn law_over_is_over(work: ChecksRunView, event: ChecksEventView)
    requires
        work.phase == ChecksPhase::Over,
    ensures
        work.next(event) == (work, ChecksStepView::Idle),
{
}

/// What a check asks for is what is asked of the world: a connection to its host and port, a request
/// for its address with `curl`, its command in the directory of the action, a pause of its length, its
/// container under its name, or its services.
pub proof fn law_probe_asks_what_the_check_asks(
    container: DockerContainerRequestView,
    project: DockerComposeRequestView,
    check: ReadinessCheckView,
)
    ensures
        check matches ReadinessCheckView::Tcp { host, port, timeout } ==> ({
            let probe = ProbeView::Tcp {
                host,
                port,
                timeout: span_of_millis(timeout.milliseconds),
            };
            container_probe(container, check) == probe && project_probe(project, check) == probe
        }),
        check matches ReadinessCheckView::Http { url, expected_status, timeout } ==> (
        container_probe(container, check) matches ProbeView::Http {
            url: asked,
            expected_status: expected,
            request,
            timeout: limit,
        } && asked == url && expected == expected_status && request.program == "curl"@
            && request.arguments.last() == url && request.arguments.contains("%{http_code}"@)
            && limit == span_of_millis(timeout.milliseconds)) && (project_probe(project, check)
            matches ProbeView::Http {
            url: asked,
            expected_status: expected,
            request,
            timeout: limit,
        } && asked == url && expected == expected_status && request.program == "curl"@
            && request.arguments.last() == url && limit == span_of_millis(timeout.milliseconds)),
        check matches ReadinessCheckView::Command { command, timeout } ==> container_probe(
            container,
            check,
        ) == (ProbeView::Command {
            command,
            working_directory: container.working_directory,
            timeout: span_of_millis(timeout.milliseconds),
        }) && project_probe(project, check) == (ProbeView::Command {
            command,
            working_directory: Some(project.working_directory),
            timeout: span_of_millis(timeout.milliseconds),
        }),
        check matches ReadinessCheckView::Delay { milliseconds } ==> container_probe(
            container,
            check,
        ) == (ProbeView::Delay { milliseconds }) && project_probe(project, check) == (
        ProbeView::Delay { milliseconds }),
        check matches ReadinessCheckView::Container { name, timeout } ==> (container_probe(
            container,
            check,
        ) matches ProbeView::Container(request) && request.specification.name == name) && (
        project_probe(project, check) matches ProbeView::Container(request)
            && request.specification.name == name),
        check matches ReadinessCheckView::Compose { services, timeout } ==> project_probe(
            project,
            check,
        ) == (ProbeView::Project { services }),
{
    if let ReadinessCheckView::Http { url, expected_status, timeout } = check {
        let arguments = curl_arguments(url, span_of_millis(timeout.milliseconds));
        assert(arguments[10] == "%{http_code}"@);
    }
}

/// A container that runs and is healthy passes, one that does not is looked at closer, and one that is
/// not there fails; a project passes where every service that is asked for is there and ready.
pub proof fn law_only_what_is_ready_passes(
    snapshot: DockerContainerSnapshotView,
    project: DockerComposeSnapshotView,
    services: Seq<Seq<char>>,
    engine: DockerEngineSnapshotView,
)
    ensures
        snapshot.state is Running && (snapshot.health is Healthy || snapshot.health is Unreported)
            ==> (container_judged(DockerContainerObservationView::Present(snapshot))
            matches ContainerVerdictView::Answered(result) && result.passed),
        !(snapshot.state is Running) || !(snapshot.health is Healthy || snapshot.health
            is Unreported) ==> container_judged(DockerContainerObservationView::Present(snapshot))
            == ContainerVerdictView::ReadLogs(snapshot),
        container_judged(DockerContainerObservationView::Missing)
            matches ContainerVerdictView::Answered(result) && !result.passed,
        container_judged(DockerContainerObservationView::Unavailable(engine))
            matches ContainerVerdictView::Answered(result) && !result.passed,
        project_judged(DockerComposeObservationView::Present(project), services).passed <==> (
        project.services.len() > 0 && (forall|i: int|
            0 <= i < services.len() ==> exists|j: int|
                0 <= j < project.services.len() && (#[trigger] project.services[j]).name
                    == #[trigger] services[i]) && forall|j: int|
            0 <= j < project.services.len() && (services.len() == 0 || services.contains(
                (#[trigger] project.services[j]).name,
            )) ==> project.services[j].state is Running && (project.services[j].health is Healthy
                || project.services[j].health is Unreported)),
        !project_judged(DockerComposeObservationView::Missing, services).passed,
        !project_judged(DockerComposeObservationView::Unavailable(engine), services).passed,
{
    if project.services.len() > 0 && (forall|i: int|
        0 <= i < services.len() ==> exists|j: int|
            0 <= j < project.services.len() && (#[trigger] project.services[j]).name
                == #[trigger] services[i]) {
        assert forall|i: int| 0 <= i < services.len() implies has_service(
            project.services,
            #[trigger] services[i],
        ) by {}
    }
    if project_healthy(project, services) {
        assert forall|i: int| 0 <= i < services.len() implies exists|j: int|
            0 <= j < project.services.len() && (#[trigger] project.services[j]).name
                == #[trigger] services[i] by {
            assert(has_service(project.services, services[i]));
        }
    }
}

/// Checks are made one after the other: the first that asks for something is made first, within its own
/// time; one that passes makes way for the next; one that does not is made again after a pause, as long
/// as there is time.
pub proof fn law_checks_are_made_in_turn(
    work: ChecksRunView,
    left: TimeSpan,
    result: ReadinessCheckResultView,
)
    requires
        work.pending.len() > 0,
        left.nanoseconds > 0,
    ensures
        work.phase == ChecksPhase::Ready ==> work.next(ChecksEventView::Left(left)).1 == (
        ChecksStepView::Check { check: work.pending[0], within: left }) && work.next(
            ChecksEventView::Left(left),
        ).0 == (ChecksRunView { phase: ChecksPhase::Checking, ..work }),
        work.phase == ChecksPhase::Checking && !result.passed ==> work.next(
            ChecksEventView::Checked(result),
        ).0.pending == work.pending && work.next(ChecksEventView::Checked(result)).1
            == ChecksStepView::AskTime,
        work.phase == ChecksPhase::Checking && result.passed && work.pending.len() > 1
            && !(work.pending[1] is Nothing) ==> work.next(ChecksEventView::Checked(result)).1 == (
        ChecksStepView::Watch { limit: check_limit(work.pending[1]) }) && work.next(
            ChecksEventView::Checked(result),
        ).0.pending == work.pending.drop_first(),
        work.phase == ChecksPhase::Checking && result.passed && work.pending.len() == 1
            ==> work.next(ChecksEventView::Checked(result)).1 is Finish,
        work.phase == ChecksPhase::Missed ==> (work.next(ChecksEventView::Left(left)).1
            matches ChecksStepView::Sleep(pause) && pause.nanoseconds
            <= work.poll_interval.nanoseconds && pause.nanoseconds <= left.nanoseconds && (
        pause.nanoseconds == work.poll_interval.nanoseconds || pause.nanoseconds
            == left.nanoseconds)),
        work.phase == ChecksPhase::Sleeping ==> work.next(ChecksEventView::Slept) == (
            ChecksRunView { phase: ChecksPhase::Ready, ..work },
            ChecksStepView::AskTime,
        ),
        work.phase == ChecksPhase::Ready || work.phase == ChecksPhase::Missed ==> work.next(
            ChecksEventView::Left(TimeSpan { nanoseconds: 0 }),
        ).1 is Fail,
        work.phase == ChecksPhase::Checking ==> work.next(ChecksEventView::TimedOut).1 is Fail,
        !(work.phase == ChecksPhase::Over) ==> work.next(ChecksEventView::Cancelled).1 is Fail,
{
    if work.phase == ChecksPhase::Checking && result.passed {
        let rest = work.pending.drop_first();
        if rest.len() > 0 {
            assert(rest[0] == work.pending[1]);
        }
        reveal_with_fuel(ChecksRunView::to_front, 2);
    }
}

/// Checks that ask for something begin with the first of them; where none does, there is nothing to
/// wait for. A check has the time that it states.
pub proof fn law_checks_begin_with_the_first(
    checks: Seq<ReadinessCheckView>,
    poll_interval: TimeSpan,
)
    ensures
        checks.len() == 0 ==> checks_begun(checks, poll_interval).1 is Finish,
        checks.len() > 0 && !(checks[0] is Nothing) ==> checks_begun(checks, poll_interval).1 == (
        ChecksStepView::Watch { limit: check_limit(checks[0]) }) && checks_begun(
            checks,
            poll_interval,
        ).0.pending == checks,
        forall|i: int|
            0 <= i < checks.len() ==> (#[trigger] checks[i] matches ReadinessCheckView::Tcp {
                host,
                port,
                timeout,
            } ==> check_limit(checks[i]).nanoseconds == timeout.milliseconds as int * 1_000_000),
        forall|i: int|
            0 <= i < checks.len() ==> (#[trigger] checks[i] matches ReadinessCheckView::Http {
                url,
                expected_status,
                timeout,
            } ==> check_limit(checks[i]).nanoseconds == timeout.milliseconds as int * 1_000_000),
        forall|i: int|
            0 <= i < checks.len() ==> (#[trigger] checks[i] matches ReadinessCheckView::Command {
                command,
                timeout,
            } ==> check_limit(checks[i]).nanoseconds == timeout.milliseconds as int * 1_000_000),
{
}

} // verus!
