//! Docker commands: the arguments that they are called with, and what their output says.
use vstd::prelude::*;
use vstd::string::*;
use crate::collections::{law_ordered, lemma_map_of, map_of, ordered, TextMap, TextPair};
use crate::domain::{
    CommandSpecView, ContainerSpec, ContainerSpecView, MountSpecView, PortSpecView,
    ReadinessCheck, ReadinessCheckView,
};
use crate::encoding::{lenient_text, text_from_utf8_lossy};
use crate::error::{error_of, seen, ErrorCategory, WorkstateError, WorkstateErrorView};
use crate::integrations::docker::errors::{
    docker_error, docker_failure, sanitized, sanitized_output,
};
use crate::integrations::docker::models::{service_ready, setting_line};
use crate::integrations::docker::snapshot::{inspected_container, parse_container_snapshot};
use crate::paths::{file_name, path_file_name};
use crate::ports::{
    DockerCleanupRequest, DockerCleanupRequestView, DockerComposeRequest, DockerComposeRequestView,
    DockerComposeServiceSnapshot, DockerComposeServiceSnapshotView, DockerComposeSnapshot,
    DockerComposeSnapshotView, DockerContainerObservation, DockerContainerObservationView,
    DockerContainerSnapshot, DockerContainerSnapshotView, DockerContainerStateView,
    DockerEngineSnapshot, DockerEngineSnapshotView, ProcessOutput, ProcessOutputView,
};
use crate::text::{
    contains_text, decimal, digits_value, has_control, is_ascii_digit, join2, join3, join4, joined,
    law_decimal_reads_back, law_halves_are_found_again, law_joined_parts_are_split_again,
    law_split_once_cuts_at_the_first, lower, occurs_at, same_text, signed_decimal, split_on,
    split_once, text_contains, text_decimal, text_has_control, text_join, text_lower,
    text_signed_decimal, text_words, words,
};
use crate::time::{span_of_millis, TimeSpan};
use crate::values::{append, append_all, append_text, empty_list, list_holds, text_or, Agree, Replicate};

verus! {

// ---------------------------------------------------------------------------------------------
// Creating containers
// ---------------------------------------------------------------------------------------------
/// The protocol behind a port, where it is not the usual one.
pub open spec fn protocol_text(protocol: Seq<char>) -> Seq<char> {
    if protocol == "tcp"@ {
        ""@
    } else {
        "/"@ + protocol
    }
}

/// The protocol behind a port, where it is not the usual one.
pub fn protocol_suffix(protocol: &str) -> (r: String)
    ensures
        r@ == protocol_text(protocol@),
{
    if same_text(protocol, "tcp") {
        "".to_owned()
    } else {
        join2("/", protocol)
    }
}

/// The flags of the settings.
pub open spec fn setting_flags(settings: Seq<TextPair>) -> Seq<Seq<char>>
    decreases settings.len(),
{
    if settings.len() == 0 {
        Seq::empty()
    } else {
        setting_flags(settings.drop_last()).push("--env"@).push(setting_line(settings.last()))
    }
}

/// The resolved source of the mount at a position.
pub open spec fn source_of(mounts: Seq<MountSpecView>, sources: Seq<Seq<char>>, i: int) -> Seq<char> {
    if i < sources.len() {
        sources[i]
    } else {
        mounts[i].source
    }
}

/// A mount with its resolved source.
pub open spec fn mount_flag(mount: MountSpecView, source: Seq<char>) -> Seq<char> {
    let value = "type=bind,source="@ + source + ",destination="@ + mount.target;
    if mount.read_only {
        value + ",readonly"@
    } else {
        value
    }
}

/// The flags of the first mounts, with their resolved sources.
pub open spec fn mount_flags(
    mounts: Seq<MountSpecView>,
    sources: Seq<Seq<char>>,
    count: int,
) -> Seq<Seq<char>>
    decreases count,
{
    if count <= 0 {
        Seq::empty()
    } else {
        mount_flags(mounts, sources, count - 1).push("--mount"@).push(
            mount_flag(mounts[count - 1], source_of(mounts, sources, count - 1)),
        )
    }
}

/// The flags of the published ports.
pub open spec fn port_flags(ports: Seq<PortSpecView>) -> Seq<Seq<char>>
    decreases ports.len(),
{
    if ports.len() == 0 {
        Seq::empty()
    } else {
        port_flags(ports.drop_last()).push("--publish"@).push(
            decimal(ports.last().host as nat) + ":"@ + decimal(ports.last().container as nat)
                + protocol_text(ports.last().protocol),
        )
    }
}

/// The words of the command that a container runs.
pub open spec fn command_words(command: Option<CommandSpecView>) -> Seq<Seq<char>> {
    match command {
        None => Seq::empty(),
        Some(command) => if command.shell {
            seq!["/bin/sh"@, "-c"@, command.program]
        } else {
            seq![command.program] + command.arguments
        },
    }
}

/// The arguments that create a container from an image.
pub open spec fn create_arguments(
    specification: ContainerSpecView,
    image: Seq<char>,
    sources: Seq<Seq<char>>,
) -> Seq<Seq<char>> {
    (seq!["create"@, "--name"@, specification.name] + setting_flags(
        ordered(specification.environment),
    ) + mount_flags(specification.mounts, sources, specification.mounts.len() as int)
        + port_flags(specification.ports)).push(image) + command_words(specification.command)
}

fn setting_flags_of(settings: &TextMap) -> (r: Vec<String>)
    ensures
        r.deep_view() == setting_flags(ordered(settings@)),
{
    let entries = settings.entries();
    let ghost all = entries.deep_view();
    let mut r: Vec<String> = empty_list();
    let mut i: usize = 0;
    assert(all.take(0) =~= Seq::<TextPair>::empty());
    while i < entries.len()
        invariant
            i <= entries@.len(),
            all == entries.deep_view(),
            r.deep_view() == setting_flags(all.take(i as int)),
        decreases entries@.len() - i,
    {
        assert(all[i as int] == (entries@[i as int].0@, entries@[i as int].1@));
        assert(all.take(i as int + 1).drop_last() =~= all.take(i as int));
        append_text(&mut r, "--env");
        append(&mut r, join3(entries[i].0.as_str(), "=", entries[i].1.as_str()));
        i = i + 1;
    }
    assert(all.take(i as int) =~= all);
    r
}

/// The arguments that create a container from an image, with the resolved sources of its mounts.
pub fn container_arguments(specification: &ContainerSpec, image: &str, sources: &Vec<String>) -> (r:
    Vec<String>)
    ensures
        r.deep_view() == create_arguments(specification@, image@, sources.deep_view()),
{
    let mut arguments = crate::values::text_list3("create", "--name", specification.name.as_str());
    append_all(&mut arguments, setting_flags_of(&specification.environment));
    let ghost start = arguments.deep_view();
    let ghost mounts = specification@.mounts;
    let ghost resolved = sources.deep_view();
    let mut i: usize = 0;
    assert(start + mount_flags(mounts, resolved, 0) =~= start);
    while i < specification.mounts.len()
        invariant
            i <= specification.mounts@.len(),
            mounts == specification@.mounts,
            resolved == sources.deep_view(),
            arguments.deep_view() == start + mount_flags(mounts, resolved, i as int),
        decreases specification.mounts@.len() - i,
    {
        let mount = &specification.mounts[i];
        assert(mounts[i as int] == mount@);
        let source = if i < sources.len() {
            assert(resolved[i as int] == sources@[i as int]@);
            sources[i].as_str()
        } else {
            mount.source.as_str()
        };
        let mut value = join4("type=bind,source=", source, ",destination=", mount.target.as_str());
        if mount.read_only {
            value.append(",readonly");
        }
        append_text(&mut arguments, "--mount");
        append(&mut arguments, value);
        i = i + 1;
        assert(arguments.deep_view() =~= start + mount_flags(mounts, resolved, i as int));
    }
    let ghost middle = arguments.deep_view();
    let ghost ports = specification@.ports;
    let mut j: usize = 0;
    assert(ports.take(0) =~= Seq::<PortSpecView>::empty());
    assert(middle + port_flags(ports.take(0)) =~= middle);
    while j < specification.ports.len()
        invariant
            j <= specification.ports@.len(),
            ports == specification@.ports,
            arguments.deep_view() == middle + port_flags(ports.take(j as int)),
        decreases specification.ports@.len() - j,
    {
        let port = &specification.ports[j];
        assert(ports[j as int] == port@);
        assert(ports.take(j as int + 1).drop_last() =~= ports.take(j as int));
        append_text(&mut arguments, "--publish");
        append(
            &mut arguments,
            join4(
                text_decimal(port.host as u128).as_str(),
                ":",
                text_decimal(port.container as u128).as_str(),
                protocol_suffix(port.protocol.as_str()).as_str(),
            ),
        );
        j = j + 1;
        assert(arguments.deep_view() =~= middle + port_flags(ports.take(j as int)));
    }
    assert(ports.take(j as int) =~= ports);
    append_text(&mut arguments, image);
    let ghost before_command = arguments.deep_view();
    if let Some(command) = &specification.command {
        if command.shell {
            append_text(&mut arguments, "/bin/sh");
            append_text(&mut arguments, "-c");
            append(&mut arguments, command.program.clone());
            assert(arguments.deep_view() =~= before_command + command_words(
                specification@.command,
            ));
        } else {
            append(&mut arguments, command.program.clone());
            append_all(&mut arguments, command.arguments.replicate());
            assert(arguments.deep_view() =~= before_command + command_words(
                specification@.command,
            ));
        }
    }
    assert(arguments.deep_view() =~= create_arguments(
        specification@,
        image@,
        sources.deep_view(),
    ));
    arguments
}

/// The identity that the output of a creation names: its first word, where it has one without control
/// characters.
pub open spec fn printed_identity(bytes: Seq<u8>) -> Option<Seq<char>> {
    let all = words(lenient_text(bytes));
    if all.len() == 0 || all[0].len() == 0 || has_control(all[0]) {
        None
    } else {
        Some(all[0])
    }
}

/// The identity that the output of a creation names.
pub fn docker_identity_from_output(bytes: &[u8]) -> (r: Option<String>)
    ensures
        r.deep_view() == printed_identity(bytes@),
{
    let all = text_words(text_from_utf8_lossy(bytes).as_str());
    if all.len() == 0 {
        return None;
    }
    assert(all.deep_view()[0] == all@[0]@);
    if all[0].as_str().is_empty() || text_has_control(all[0].as_str()) {
        return None;
    }
    Some(all[0].clone())
}

// ---------------------------------------------------------------------------------------------
// What output says
// ---------------------------------------------------------------------------------------------
/// A failure that says that there is no such container.
pub open spec fn says_missing_container(output: ProcessOutputView) -> bool {
    let text = lower(lenient_text(output.stderr));
    ||| contains_text(text, "no such object"@)
    ||| contains_text(text, "no such container"@)
    ||| contains_text(text, "not found"@)
    ||| contains_text(text, "does not exist"@)
}

/// Whether a failure says that there is no such container.
pub fn is_missing_container(output: &ProcessOutput) -> (r: bool)
    ensures
        r == says_missing_container(output@),
{
    assert(output.stderr.deep_view() =~= output.stderr@);
    let lowered = text_lower(text_from_utf8_lossy(output.stderr.as_slice()).as_str());
    let text = lowered.as_str();
    text_contains(text, "no such object") || text_contains(text, "no such container")
        || text_contains(text, "not found") || text_contains(text, "does not exist")
}

/// A failure that says that the container was stopped already.
pub open spec fn says_already_stopped(output: ProcessOutputView) -> bool {
    let text = lower(lenient_text(output.stderr));
    ||| contains_text(text, "is not running"@)
    ||| contains_text(text, "not running"@)
    ||| contains_text(text, "already stopped"@)
}

/// Whether a failure says that the container was stopped already.
pub fn is_already_stopped(output: &ProcessOutput) -> (r: bool)
    ensures
        r == says_already_stopped(output@),
{
    assert(output.stderr.deep_view() =~= output.stderr@);
    let lowered = text_lower(text_from_utf8_lossy(output.stderr.as_slice()).as_str());
    let text = lowered.as_str();
    text_contains(text, "is not running") || text_contains(text, "not running") || text_contains(
        text,
        "already stopped",
    )
}

/// What `docker inspect` says of a container; `operation` stands in the error of a failure.
pub open spec fn container_found(operation: Seq<char>, output: ProcessOutputView) -> Result<
    Option<DockerContainerSnapshotView>,
    WorkstateErrorView,
> {
    if !output.success() {
        if says_missing_container(output) {
            Ok(None)
        } else {
            Err(docker_failure(operation, output))
        }
    } else {
        match inspected_container(output.stdout) {
            Ok(snapshot) => Ok(Some(snapshot)),
            Err(error) => Err(error),
        }
    }
}

/// What `docker inspect` says of a container.
pub fn find_container(operation: &str, output: &ProcessOutput) -> (r: Result<
    Option<DockerContainerSnapshot>,
    WorkstateError,
>)
    ensures
        seen(r) == container_found(operation@, output@),
{
    if !output.succeeded() {
        return if is_missing_container(output) {
            Ok(None)
        } else {
            Err(docker_error(operation, output))
        };
    }
    assert(output.stdout.deep_view() =~= output.stdout@);
    match parse_container_snapshot(output.stdout.as_slice()) {
        Ok(snapshot) => Ok(Some(snapshot)),
        Err(error) => Err(error),
    }
}

/// The observation that the output of `docker inspect` makes.
pub open spec fn container_observed(output: ProcessOutputView) -> Result<
    DockerContainerObservationView,
    WorkstateErrorView,
> {
    match container_found("inspect container"@, output) {
        Err(error) => Err(error),
        Ok(None) => Ok(DockerContainerObservationView::Missing),
        Ok(Some(snapshot)) => Ok(DockerContainerObservationView::Present(snapshot)),
    }
}

/// The observation that the output of `docker inspect` makes.
pub fn observe_container(output: &ProcessOutput) -> (r: Result<
    DockerContainerObservation,
    WorkstateError,
>)
    ensures
        seen(r) == container_observed(output@),
{
    match find_container("inspect container", output) {
        Err(error) => Err(error),
        Ok(None) => Ok(DockerContainerObservation::Missing),
        Ok(Some(snapshot)) => Ok(DockerContainerObservation::Present(snapshot)),
    }
}

/// The arguments that inspect a container.
pub fn inspect_arguments(container: &str) -> (r: Vec<String>)
    ensures
        r.deep_view() == seq!["inspect"@, "--format"@, "{{json .}}"@, container@],
{
    crate::values::text_list4("inspect", "--format", "{{json .}}", container)
}

/// The arguments that read the last lines of the log of a container.
pub fn log_arguments(container: &str) -> (r: Vec<String>)
    ensures
        r.deep_view() == seq!["logs"@, "--tail"@, "20"@, container@],
{
    crate::values::text_list4("logs", "--tail", "20", container)
}

/// The last lines of the log of a container, where it holds any.
pub open spec fn logs_found(output: ProcessOutputView) -> Result<
    Option<Seq<char>>,
    WorkstateErrorView,
> {
    if !output.success() {
        Err(docker_failure("read container logs"@, output))
    } else {
        match sanitized(lenient_text(output.stdout)) {
            Some(text) => Ok(Some(text)),
            None => Ok(sanitized(lenient_text(output.stderr))),
        }
    }
}

/// The last lines of the log of a container.
pub fn container_logs(output: &ProcessOutput) -> (r: Result<Option<String>, WorkstateError>)
    ensures
        seen(r) == logs_found(output@),
{
    if !output.succeeded() {
        return Err(docker_error("read container logs", output));
    }
    assert(output.stdout.deep_view() =~= output.stdout@);
    assert(output.stderr.deep_view() =~= output.stderr@);
    match sanitized_output(output.stdout.as_slice()) {
        Some(text) => Ok(Some(text)),
        None => Ok(sanitized_output(output.stderr.as_slice())),
    }
}

/// The error of an engine that went away while it was needed.
pub open spec fn engine_lost(engine: DockerEngineSnapshotView) -> WorkstateErrorView {
    error_of(
        ErrorCategory::Integration,
        "Docker Engine became unavailable while applying a Docker action"@,
    ).with(
        "detail"@,
        match engine.detail {
            Some(detail) => detail,
            None => "no diagnostic was returned"@,
        },
    )
}

/// The error of an engine that went away while it was needed.
pub fn engine_unavailable_after_mutation(engine: &DockerEngineSnapshot) -> (r: WorkstateError)
    ensures
        r@ == engine_lost(engine@),
{
    WorkstateError::new(
        ErrorCategory::Integration,
        "Docker Engine became unavailable while applying a Docker action",
    ).with_context("detail", text_or(&engine.detail, "no diagnostic was returned").as_str())
}

/// The state of a container in messages.
pub open spec fn state_detail(snapshot: DockerContainerSnapshotView) -> Seq<char> {
    let state = match snapshot.status {
        Some(status) => status,
        None => "unknown"@,
    };
    match snapshot.exit_code {
        Some(code) => "container state is "@ + state + " with exit status "@ + signed_decimal(
            code as int,
        ),
        None => "container state is "@ + state,
    }
}

/// The state of a container in messages.
pub fn container_state_detail(snapshot: &DockerContainerSnapshot) -> (r: String)
    ensures
        r@ == state_detail(snapshot@),
{
    let state = text_or(&snapshot.status, "unknown");
    match snapshot.exit_code {
        Some(code) => join4(
            "container state is ",
            state.as_str(),
            " with exit status ",
            text_signed_decimal(code as i64).as_str(),
        ),
        None => join2("container state is ", state.as_str()),
    }
}

/// The state of a container with the end of its log, where it was read and holds anything.
pub open spec fn failure_detail(
    snapshot: DockerContainerSnapshotView,
    logs: Result<Option<Seq<char>>, WorkstateErrorView>,
) -> Seq<char> {
    match logs {
        Ok(Some(logs)) => state_detail(snapshot) + "; log tail: "@ + logs,
        _ => state_detail(snapshot),
    }
}

/// The state of a container with the end of its log.
pub fn container_failure_detail(
    snapshot: &DockerContainerSnapshot,
    logs: Result<Option<String>, WorkstateError>,
) -> (r: String)
    ensures
        r@ == failure_detail(snapshot@, seen(logs)),
{
    let state = container_state_detail(snapshot);
    match logs {
        Ok(Some(logs)) => join3(state.as_str(), "; log tail: ", logs.as_str()),
        _ => state,
    }
}

/// The error of a container that runs but is not ready.
pub open spec fn not_ready_error(
    container_name: Seq<char>,
    snapshot: DockerContainerSnapshotView,
    logs: Result<Option<Seq<char>>, WorkstateErrorView>,
) -> WorkstateErrorView {
    error_of(
        ErrorCategory::Integration,
        "Docker container '"@ + container_name + "' is running but not ready: "@ + failure_detail(
            snapshot,
            logs,
        ),
    ).with("container_name"@, container_name).with("container_id"@, snapshot.id)
}

/// The error of a container that runs but is not ready.
pub fn container_not_ready_error(
    container_name: &str,
    snapshot: &DockerContainerSnapshot,
    logs: Result<Option<String>, WorkstateError>,
) -> (r: WorkstateError)
    ensures
        r@ == not_ready_error(container_name@, snapshot@, seen(logs)),
{
    let detail = container_failure_detail(snapshot, logs);
    WorkstateError::new(
        ErrorCategory::Integration,
        join4(
            "Docker container '",
            container_name,
            "' is running but not ready: ",
            detail.as_str(),
        ).as_str(),
    ).with_context("container_name", container_name).with_context(
        "container_id",
        snapshot.id.as_str(),
    )
}

// ---------------------------------------------------------------------------------------------
// Readiness
// ---------------------------------------------------------------------------------------------
/// Some check asks for something.
pub open spec fn asks_readiness(checks: Seq<ReadinessCheckView>) -> bool {
    exists|i: int| 0 <= i < checks.len() && (#[trigger] checks[i]) !is Nothing
}

/// Whether some check asks for something.
pub fn has_observable_readiness_checks(checks: &Vec<ReadinessCheck>) -> (r: bool)
    ensures
        r == asks_readiness(checks.deep_view()),
{
    let ghost all = checks.deep_view();
    let mut i: usize = 0;
    while i < checks.len()
        invariant
            i <= checks@.len(),
            all == checks.deep_view(),
            forall|k: int| 0 <= k < i ==> (#[trigger] all[k]) is Nothing,
        decreases checks@.len() - i,
    {
        assert(all[i as int] == checks@[i as int]@);
        match &checks[i] {
            ReadinessCheck::Nothing => {},
            _ => {
                assert(all[i as int] !is Nothing);
                return true;
            },
        }
        i = i + 1;
    }
    false
}

/// The time that a check may take.
pub open spec fn check_limit(check: ReadinessCheckView) -> TimeSpan {
    match check {
        ReadinessCheckView::Tcp { host, port, timeout } => span_of_millis(timeout.milliseconds),
        ReadinessCheckView::Http { url, expected_status, timeout } => span_of_millis(
            timeout.milliseconds,
        ),
        ReadinessCheckView::Command { command, timeout } => span_of_millis(timeout.milliseconds),
        ReadinessCheckView::Container { name, timeout } => span_of_millis(timeout.milliseconds),
        ReadinessCheckView::Compose { services, timeout } => span_of_millis(timeout.milliseconds),
        ReadinessCheckView::Delay { milliseconds } => span_of_millis(milliseconds),
        ReadinessCheckView::Nothing => span_of_millis(1000),
    }
}

/// The time that a check may take.
pub fn readiness_timeout(check: &ReadinessCheck) -> (r: TimeSpan)
    ensures
        r == check_limit(check@),
{
    match check {
        ReadinessCheck::Tcp { timeout, .. } => TimeSpan::from_millis(timeout.milliseconds),
        ReadinessCheck::Http { timeout, .. } => TimeSpan::from_millis(timeout.milliseconds),
        ReadinessCheck::Command { timeout, .. } => TimeSpan::from_millis(timeout.milliseconds),
        ReadinessCheck::Container { timeout, .. } => TimeSpan::from_millis(timeout.milliseconds),
        ReadinessCheck::Compose { timeout, .. } => TimeSpan::from_millis(timeout.milliseconds),
        ReadinessCheck::Delay { milliseconds } => TimeSpan::from_millis(*milliseconds),
        ReadinessCheck::Nothing => TimeSpan::from_millis(1000),
    }
}

pub open spec fn check_label(check: ReadinessCheckView) -> Seq<char> {
    match check {
        ReadinessCheckView::Nothing => "none"@,
        ReadinessCheckView::Tcp { .. } => "tcp"@,
        ReadinessCheckView::Http { .. } => "http"@,
        ReadinessCheckView::Command { .. } => "command"@,
        ReadinessCheckView::Delay { .. } => "delay"@,
        ReadinessCheckView::Container { .. } => "container"@,
        ReadinessCheckView::Compose { .. } => "compose"@,
    }
}

/// The name of a check in messages.
pub fn readiness_label(check: &ReadinessCheck) -> (r: &'static str)
    ensures
        r@ == check_label(check@),
{
    match check {
        ReadinessCheck::Nothing => "none",
        ReadinessCheck::Tcp { .. } => "tcp",
        ReadinessCheck::Http { .. } => "http",
        ReadinessCheck::Command { .. } => "command",
        ReadinessCheck::Delay { .. } => "delay",
        ReadinessCheck::Container { .. } => "container",
        ReadinessCheck::Compose { .. } => "compose",
    }
}

/// The error of a check that was not met in time.
pub open spec fn check_timeout(check: ReadinessCheckView, last_observed: Option<Seq<char>>) -> WorkstateErrorView {
    error_of(
        ErrorCategory::Runtime,
        "Docker readiness check '"@ + check_label(check) + "' timed out"@,
    ).with(
        "last_observed"@,
        match last_observed {
            Some(detail) => detail,
            None => "no value was observed"@,
        },
    ).with("timeout_milliseconds"@, decimal(check_limit(check).millis()))
}

/// The error of a check that was not met in time.
pub fn readiness_timeout_error(check: &ReadinessCheck, last_observed: &Option<String>) -> (r:
    WorkstateError)
    ensures
        r@ == check_timeout(check@, last_observed.deep_view()),
{
    WorkstateError::new(
        ErrorCategory::Runtime,
        join3("Docker readiness check '", readiness_label(check), "' timed out").as_str(),
    ).with_context(
        "last_observed",
        text_or(last_observed, "no value was observed").as_str(),
    ).with_context(
        "timeout_milliseconds",
        text_decimal(readiness_timeout(check).as_millis()).as_str(),
    )
}

/// The state of a service in messages.
pub open spec fn service_state_text(service: DockerComposeServiceSnapshotView) -> Seq<char> {
    if service.state != DockerContainerStateView::Running {
        "not running"@
    } else if !service.health.ready() {
        "not healthy"@
    } else {
        "ready"@
    }
}

/// The state of a service in messages.
pub fn service_state(service: &DockerComposeServiceSnapshot) -> (r: &'static str)
    ensures
        r@ == service_state_text(service@),
{
    if !service.state.is_running() {
        "not running"
    } else if !service.health.satisfies_readiness() {
        "not healthy"
    } else {
        "ready"
    }
}

/// A service that is asked for: one of those that are named, or any where none is.
pub open spec fn is_requested(requested: Seq<Seq<char>>, name: Seq<char>) -> bool {
    requested.len() == 0 || requested.contains(name)
}

/// The states of the services that are asked for.
pub open spec fn requested_states(
    services: Seq<DockerComposeServiceSnapshotView>,
    requested: Seq<Seq<char>>,
) -> Seq<Seq<char>>
    decreases services.len(),
{
    if services.len() == 0 {
        Seq::empty()
    } else {
        let front = requested_states(services.drop_last(), requested);
        let last = services.last();
        if is_requested(requested, last.name) {
            front.push(last.name + ":"@ + service_state_text(last))
        } else {
            front
        }
    }
}

/// The state of a project in messages.
pub open spec fn project_detail(
    snapshot: DockerComposeSnapshotView,
    requested: Seq<Seq<char>>,
) -> Seq<char> {
    let states = requested_states(snapshot.services, requested);
    if states.len() == 0 {
        "no requested Compose services were observed"@
    } else {
        joined(states, ", "@)
    }
}

/// The state of a project in messages.
pub fn compose_state_detail(snapshot: &DockerComposeSnapshot, requested: &Vec<String>) -> (r: String)
    ensures
        r@ == project_detail(snapshot@, requested.deep_view()),
{
    let ghost all = snapshot@.services;
    let mut states: Vec<String> = empty_list();
    let mut i: usize = 0;
    assert(all.take(0) =~= Seq::<DockerComposeServiceSnapshotView>::empty());
    while i < snapshot.services.len()
        invariant
            i <= snapshot.services@.len(),
            all == snapshot@.services,
            states.deep_view() == requested_states(all.take(i as int), requested.deep_view()),
        decreases snapshot.services@.len() - i,
    {
        let service = &snapshot.services[i];
        assert(all[i as int] == service@);
        assert(all.take(i as int + 1).drop_last() =~= all.take(i as int));
        if requested.len() == 0 || list_holds(requested, &service.name) {
            append(&mut states, join3(service.name.as_str(), ":", service_state(service)));
        }
        i = i + 1;
    }
    assert(all.take(i as int) =~= all);
    if states.len() == 0 {
        "no requested Compose services were observed".to_owned()
    } else {
        text_join(&states, ", ")
    }
}

/// One of the services has the name.
pub open spec fn has_service(services: Seq<DockerComposeServiceSnapshotView>, name: Seq<char>) -> bool {
    exists|j: int| 0 <= j < services.len() && (#[trigger] services[j]).name == name
}

/// A project is healthy where it has services, those that are asked for are there, and each of them
/// is ready.
pub open spec fn project_healthy(
    snapshot: DockerComposeSnapshotView,
    requested: Seq<Seq<char>>,
) -> bool {
    &&& snapshot.services.len() > 0
    &&& forall|i: int|
        0 <= i < requested.len() ==> has_service(snapshot.services, #[trigger] requested[i])
    &&& forall|j: int|
        0 <= j < snapshot.services.len() && is_requested(
            requested,
            (#[trigger] snapshot.services[j]).name,
        ) ==> service_ready(snapshot.services[j])
}

fn service_is_there(services: &Vec<DockerComposeServiceSnapshot>, name: &String) -> (r: bool)
    ensures
        r == has_service(services.deep_view(), name@),
{
    let ghost all = services.deep_view();
    let mut j: usize = 0;
    while j < services.len()
        invariant
            j <= services@.len(),
            all == services.deep_view(),
            forall|k: int| 0 <= k < j ==> (#[trigger] all[k]).name != name@,
        decreases services@.len() - j,
    {
        assert(all[j as int] == services@[j as int]@);
        if services[j].name.agrees(name) {
            assert(all[j as int].name == name@);
            return true;
        }
        j = j + 1;
    }
    false
}

/// Whether a project is healthy.
pub fn project_is_healthy(snapshot: &DockerComposeSnapshot, requested: &Vec<String>) -> (r: bool)
    ensures
        r == project_healthy(snapshot@, requested.deep_view()),
{
    let ghost services = snapshot@.services;
    let ghost wanted = requested.deep_view();
    if snapshot.services.len() == 0 {
        return false;
    }
    let mut i: usize = 0;
    while i < requested.len()
        invariant
            i <= requested@.len(),
            services == snapshot@.services,
            wanted == requested.deep_view(),
            forall|k: int|
                0 <= k < i ==> has_service(services, #[trigger] wanted[k]),
        decreases requested@.len() - i,
    {
        assert(wanted[i as int] == requested@[i as int]@);
        if !service_is_there(&snapshot.services, &requested[i]) {
            return false;
        }
        i = i + 1;
    }
    let mut j: usize = 0;
    while j < snapshot.services.len()
        invariant
            j <= snapshot.services@.len(),
            services == snapshot@.services,
            wanted == requested.deep_view(),
            forall|k: int|
                0 <= k < j && is_requested(wanted, (#[trigger] services[k]).name) ==> service_ready(
                    services[k],
                ),
        decreases snapshot.services@.len() - j,
    {
        assert(services[j as int] == snapshot.services@[j as int]@);
        let service = &snapshot.services[j];
        if (requested.len() == 0 || list_holds(requested, &service.name))
            && !crate::integrations::docker::models::compose_service_is_ready(service) {
            assert(is_requested(wanted, services[j as int].name));
            return false;
        }
        j = j + 1;
    }
    true
}

// ---------------------------------------------------------------------------------------------
// Locks
// ---------------------------------------------------------------------------------------------
/// The name that a directory gives to a project.
pub open spec fn directory_project(working_directory: Seq<char>) -> Seq<char> {
    match file_name(working_directory) {
        Some(name) => name,
        None => "compose-project"@,
    }
}

/// The name that a directory gives to a project.
pub fn default_project_name(working_directory: &str) -> (r: String)
    ensures
        r@ == directory_project(working_directory@),
{
    match path_file_name(working_directory) {
        Some(name) => name,
        None => "compose-project".to_owned(),
    }
}

pub open spec fn compose_lock(request: DockerComposeRequestView) -> Seq<char> {
    "compose:"@ + (directory_project(request.working_directory) + "@"@ + request.working_directory)
}

/// The key of the lock under which a project is changed.
pub fn compose_lock_key(request: &DockerComposeRequest) -> (r: String)
    ensures
        r@ == compose_lock(request@),
{
    join2("compose:", compose_lock_identity(request).as_str())
}

/// The identity of a project before it is known to Docker.
pub fn compose_lock_identity(request: &DockerComposeRequest) -> (r: String)
    ensures
        r@ == directory_project(request@.working_directory) + "@"@ + request@.working_directory,
{
    let name = default_project_name(request.working_directory.as_str());
    crate::integrations::docker::models::compose_project_identity(
        name.as_str(),
        request.working_directory.as_str(),
    )
}

/// The key of the lock under which a container is changed.
pub fn container_lock_key(name: &str) -> (r: String)
    ensures
        r@ == "container:"@ + name@,
{
    join2("container:", name)
}

/// The key of the lock under which resources are taken down.
pub open spec fn cleanup_lock(request: DockerCleanupRequestView) -> Seq<char> {
    match (request.compose, request.specification) {
        (Some(compose), _) => compose_lock(compose),
        (None, Some(specification)) => "container:"@ + specification.name,
        (None, None) => "cleanup:"@ + request.context.action_id,
    }
}

/// The key of the lock under which resources are taken down.
pub fn cleanup_lock_key(request: &DockerCleanupRequest) -> (r: String)
    ensures
        r@ == cleanup_lock(request@),
{
    if let Some(compose) = &request.compose {
        return compose_lock_key(compose);
    }
    match &request.specification {
        Some(specification) => container_lock_key(specification.name.as_str()),
        None => join2("cleanup:", request.context.action_id.as_str()),
    }
}

/// A container is changed and taken down under one lock.
pub proof fn law_container_lock_is_shared(request: DockerCleanupRequestView)
    requires
        request.compose is None,
        request.specification is Some,
    ensures
        cleanup_lock(request) == "container:"@ + request.specification->Some_0.name,
{
}

// ---------------------------------------------------------------------------------------------
// What Docker reads in the arguments
// ---------------------------------------------------------------------------------------------
/// What the words behind `create` say: the values of the flags, each kind in their order, the image,
/// and the command that stands behind it.
#[verifier::ext_equal]
pub struct CreateRead {
    pub name: Option<Seq<char>>,
    pub settings: Seq<Seq<char>>,
    pub mounts: Seq<Seq<char>>,
    pub ports: Seq<Seq<char>>,
    pub image: Option<Seq<char>>,
    pub command: Seq<Seq<char>>,
}

/// Reads the words behind `create`, as the command line of Docker does: a flag takes the word behind
/// it, the first word that is no flag is the image, and what follows is the command.
pub open spec fn create_read(arguments: Seq<Seq<char>>) -> CreateRead
    decreases arguments.len(),
{
    if arguments.len() == 0 {
        CreateRead {
            name: None,
            settings: Seq::empty(),
            mounts: Seq::empty(),
            ports: Seq::empty(),
            image: None,
            command: Seq::empty(),
        }
    } else if arguments.len() > 1 && arguments[0] == "--name"@ {
        CreateRead { name: Some(arguments[1]), ..create_read(arguments.skip(2)) }
    } else if arguments.len() > 1 && arguments[0] == "--env"@ {
        let rest = create_read(arguments.skip(2));
        CreateRead { settings: seq![arguments[1]] + rest.settings, ..rest }
    } else if arguments.len() > 1 && arguments[0] == "--mount"@ {
        let rest = create_read(arguments.skip(2));
        CreateRead { mounts: seq![arguments[1]] + rest.mounts, ..rest }
    } else if arguments.len() > 1 && arguments[0] == "--publish"@ {
        let rest = create_read(arguments.skip(2));
        CreateRead { ports: seq![arguments[1]] + rest.ports, ..rest }
    } else {
        CreateRead {
            name: None,
            settings: Seq::empty(),
            mounts: Seq::empty(),
            ports: Seq::empty(),
            image: Some(arguments[0]),
            command: arguments.skip(1),
        }
    }
}

/// A published port as Docker reads it, `HOST:CONTAINER` with `/PROTOCOL` behind it where it is not tcp.
pub open spec fn port_read(text: Seq<char>) -> Option<(nat, nat, Seq<char>)> {
    match split_once(text, ":"@) {
        None => None,
        Some((host, rest)) => match split_once(rest, "/"@) {
            None => Some((digits_value(host), digits_value(rest), "tcp"@)),
            Some((container, protocol)) => Some(
                (digits_value(host), digits_value(container), protocol),
            ),
        },
    }
}

proof fn lemma_flag_words()
    ensures
        "--name"@ != "--env"@,
        "--name"@ != "--mount"@,
        "--name"@ != "--publish"@,
        "--env"@ != "--mount"@,
        "--env"@ != "--publish"@,
        "--mount"@ != "--publish"@,
        "--name"@[0] == '-',
        "--env"@[0] == '-',
        "--mount"@[0] == '-',
        "--publish"@[0] == '-',
        "--name"@.len() == 6,
        "--env"@.len() == 5,
        "--mount"@.len() == 7,
        "--publish"@.len() == 9,
{
    reveal_strlit("--name");
    reveal_strlit("--env");
    reveal_strlit("--mount");
    reveal_strlit("--publish");
    assert("--name"@.len() == 6 && "--env"@.len() == 5 && "--mount"@.len() == 7
        && "--publish"@.len() == 9);
}

proof fn lemma_settings_read(settings: Seq<TextPair>, rest: Seq<Seq<char>>)
    ensures
        create_read(setting_flags(settings) + rest) == (CreateRead {
            settings: settings.map_values(|entry: TextPair| setting_line(entry)) + create_read(
                rest,
            ).settings,
            ..create_read(rest)
        }),
    decreases settings.len(),
{
    lemma_flag_words();
    let shown = settings.map_values(|entry: TextPair| setting_line(entry));
    if settings.len() == 0 {
        assert(setting_flags(settings) + rest =~= rest);
        assert(shown + create_read(rest).settings =~= create_read(rest).settings);
    } else {
        let front = settings.drop_last();
        let line = setting_line(settings.last());
        let tail = seq!["--env"@, line] + rest;
        lemma_settings_read(front, tail);
        assert(setting_flags(settings) + rest =~= setting_flags(front) + tail);
        assert(tail.skip(2) =~= rest);
        assert(tail[0] == "--env"@ && tail[1] == line);
        assert(front.map_values(|entry: TextPair| setting_line(entry)) + (seq![line] + create_read(
            rest,
        ).settings) =~= shown + create_read(rest).settings);
    }
}

proof fn lemma_mounts_read(
    mounts: Seq<MountSpecView>,
    sources: Seq<Seq<char>>,
    count: int,
    rest: Seq<Seq<char>>,
)
    requires
        0 <= count <= mounts.len(),
    ensures
        create_read(mount_flags(mounts, sources, count) + rest) == (CreateRead {
            mounts: Seq::new(
                count as nat,
                |i: int| mount_flag(mounts[i], source_of(mounts, sources, i)),
            ) + create_read(rest).mounts,
            ..create_read(rest)
        }),
    decreases count,
{
    lemma_flag_words();
    let shown = Seq::new(
        count as nat,
        |i: int| mount_flag(mounts[i], source_of(mounts, sources, i)),
    );
    if count == 0 {
        assert(mount_flags(mounts, sources, count) + rest =~= rest);
        assert(shown + create_read(rest).mounts =~= create_read(rest).mounts);
    } else {
        let line = mount_flag(mounts[count - 1], source_of(mounts, sources, count - 1));
        let tail = seq!["--mount"@, line] + rest;
        lemma_mounts_read(mounts, sources, count - 1, tail);
        assert(mount_flags(mounts, sources, count) + rest =~= mount_flags(
            mounts,
            sources,
            count - 1,
        ) + tail);
        assert(tail.skip(2) =~= rest);
        assert(tail[0] == "--mount"@ && tail[1] == line);
        assert(Seq::new(
            (count - 1) as nat,
            |i: int| mount_flag(mounts[i], source_of(mounts, sources, i)),
        ) + (seq![line] + create_read(rest).mounts) =~= shown + create_read(rest).mounts);
    }
}

spec fn port_text(port: PortSpecView) -> Seq<char> {
    decimal(port.host as nat) + ":"@ + decimal(port.container as nat) + protocol_text(
        port.protocol,
    )
}

proof fn lemma_ports_read(ports: Seq<PortSpecView>, rest: Seq<Seq<char>>)
    ensures
        create_read(port_flags(ports) + rest) == (CreateRead {
            ports: ports.map_values(|port: PortSpecView| port_text(port)) + create_read(rest).ports,
            ..create_read(rest)
        }),
    decreases ports.len(),
{
    lemma_flag_words();
    let shown = ports.map_values(|port: PortSpecView| port_text(port));
    if ports.len() == 0 {
        assert(port_flags(ports) + rest =~= rest);
        assert(shown + create_read(rest).ports =~= create_read(rest).ports);
    } else {
        let front = ports.drop_last();
        let line = port_text(ports.last());
        let tail = seq!["--publish"@, line] + rest;
        lemma_ports_read(front, tail);
        assert(port_flags(ports) + rest =~= port_flags(front) + tail);
        assert(tail.skip(2) =~= rest);
        assert(tail[0] == "--publish"@ && tail[1] == line);
        assert(front.map_values(|port: PortSpecView| port_text(port)) + (seq![line] + create_read(
            rest,
        ).ports) =~= shown + create_read(rest).ports);
    }
}

proof fn lemma_port_reads_back(port: PortSpecView)
    ensures
        port_read(port_text(port)) == Some(
            (port.host as nat, port.container as nat, port.protocol),
        ),
{
    reveal_strlit(":");
    reveal_strlit("/");
    reveal_strlit("");
    assert(":"@ =~= seq![':']);
    assert("/"@ =~= seq!['/']);
    let host = decimal(port.host as nat);
    let container = decimal(port.container as nat);
    law_decimal_reads_back(port.host as nat);
    law_decimal_reads_back(port.container as nat);
    assert(!host.contains(':')) by {
        if host.contains(':') {
            let k = choose|k: int| 0 <= k < host.len() && host[k] == ':';
            assert(is_ascii_digit(host[k]));
        }
    }
    assert(!container.contains('/')) by {
        if container.contains('/') {
            let k = choose|k: int| 0 <= k < container.len() && container[k] == '/';
            assert(is_ascii_digit(container[k]));
        }
    }
    let rest = container + protocol_text(port.protocol);
    assert(port_text(port) =~= host + seq![':'] + rest);
    law_halves_are_found_again(host, ':', rest);
    if port.protocol == "tcp"@ {
        assert(rest =~= container);
        law_split_once_cuts_at_the_first(container, seq!['/']);
        if contains_text(container, seq!['/']) {
            let i = choose|i: int| #[trigger] occurs_at(container, seq!['/'], i);
            assert(container.subrange(i, i + 1)[0] == container[i]);
        }
    } else {
        assert(rest =~= container + seq!['/'] + port.protocol);
        law_halves_are_found_again(container, '/', port.protocol);
    }
}

/// The container that Docker is told to create is the one that the specification describes. It has
/// that name and is made from that image; each setting is passed under its key with its value; each
/// mount binds its source to its target, read-only where it is to be; each port of the host leads to
/// its port of the container, over its protocol; and it runs that command.
pub proof fn law_described_container_is_created(
    specification: ContainerSpecView,
    image: Seq<char>,
    sources: Seq<Seq<char>>,
)
    requires
        specification.environment.dom().finite(),
        image.len() == 0 || image[0] != '-',
    ensures
        ({
            let arguments = create_arguments(specification, image, sources);
            let read = create_read(arguments.skip(1));
            &&& arguments[0] == "create"@
            &&& read.name == Some(specification.name)
            &&& read.image == Some(image)
            &&& (forall|key: Seq<char>|
                specification.environment.contains_key(key) ==> read.settings.contains(
                    key + "="@ + #[trigger] specification.environment[key],
                ))
            &&& (forall|i: int|
                0 <= i < read.settings.len() ==> exists|key: Seq<char>|
                    specification.environment.contains_key(key) && #[trigger] read.settings[i]
                        == key + "="@ + #[trigger] specification.environment[key])
            &&& read.mounts.len() == specification.mounts.len()
            &&& (forall|i: int|
                0 <= i < specification.mounts.len() ==> mount_is_bound(
                    #[trigger] read.mounts[i],
                    if i < sources.len() {
                        sources[i]
                    } else {
                        specification.mounts[i].source
                    },
                    specification.mounts[i].target,
                    specification.mounts[i].read_only,
                ))
            &&& read.ports.len() == specification.ports.len()
            &&& (forall|i: int|
                0 <= i < specification.ports.len() ==> port_read(#[trigger] read.ports[i]) == Some(
                    (
                        specification.ports[i].host as nat,
                        specification.ports[i].container as nat,
                        specification.ports[i].protocol,
                    ),
                ))
            &&& specification.command is None ==> read.command.len() == 0
            &&& specification.command matches Some(command) ==> if command.shell {
                read.command.len() == 3 && read.command[1] == "-c"@ && read.command[2]
                    == command.program && read.command[0] == "/bin/sh"@
            } else {
                read.command.len() == command.arguments.len() + 1 && read.command[0]
                    == command.program && forall|i: int|
                    0 <= i < command.arguments.len() ==> #[trigger] read.command[i + 1]
                        == command.arguments[i]
            }
        }),
{
    lemma_flag_words();
    let arguments = create_arguments(specification, image, sources);
    let settings = ordered(specification.environment);
    let words = command_words(specification.command);
    let last = seq![image] + words;
    let count = specification.mounts.len() as int;
    let ports = port_flags(specification.ports) + last;
    let mounts = mount_flags(specification.mounts, sources, count) + ports;
    let flags = setting_flags(settings) + mounts;
    let named = seq!["--name"@, specification.name] + flags;
    assert(arguments.skip(1) =~= named);
    assert(named.skip(2) =~= flags);
    assert(named[0] == "--name"@ && named[1] == specification.name);
    lemma_settings_read(settings, mounts);
    lemma_mounts_read(specification.mounts, sources, count, ports);
    lemma_ports_read(specification.ports, last);
    assert(last[0] == image);
    assert(image != "--name"@ && image != "--env"@ && image != "--mount"@ && image
        != "--publish"@);
    assert(last.skip(1) =~= words);
    let read = create_read(arguments.skip(1));
    assert(create_read(last).settings =~= Seq::empty());
    assert(read.settings =~= settings.map_values(|entry: TextPair| setting_line(entry)));
    law_ordered(specification.environment);
    lemma_map_of(settings);
    assert forall|key: Seq<char>|
        specification.environment.contains_key(key) implies read.settings.contains(
        key + "="@ + #[trigger] specification.environment[key],
    ) by {
        let i = choose|i: int| 0 <= i < settings.len() && #[trigger] settings[i].0 == key;
        assert(map_of(settings)[settings[i].0] == settings[i].1);
        assert(read.settings[i] == setting_line(settings[i]));
    }
    assert forall|i: int| 0 <= i < read.settings.len() implies exists|key: Seq<char>|
        specification.environment.contains_key(key) && #[trigger] read.settings[i] == key + "="@
            + #[trigger] specification.environment[key] by {
        assert(read.settings[i] == setting_line(settings[i]));
        assert(map_of(settings).contains_key(settings[i].0));
        assert(read.settings[i] == settings[i].0 + "="@
            + specification.environment[settings[i].0]);
    }
    assert forall|i: int| 0 <= i < specification.mounts.len() implies mount_is_bound(
        #[trigger] read.mounts[i],
        if i < sources.len() {
            sources[i]
        } else {
            specification.mounts[i].source
        },
        specification.mounts[i].target,
        specification.mounts[i].read_only,
    ) by {
        assert(read.mounts[i] == mount_flag(
            specification.mounts[i],
            source_of(specification.mounts, sources, i),
        ));
        lemma_mount_is_bound(
            specification.mounts[i],
            source_of(specification.mounts, sources, i),
        );
    }
    assert forall|i: int| 0 <= i < specification.ports.len() implies port_read(
        #[trigger] read.ports[i],
    ) == Some(
        (
            specification.ports[i].host as nat,
            specification.ports[i].container as nat,
            specification.ports[i].protocol,
        ),
    ) by {
        assert(read.ports[i] == port_text(specification.ports[i]));
        lemma_port_reads_back(specification.ports[i]);
    }
}

/// A bind mount as Docker reads it: fields that commas part, each a key and a value, or a word alone.
/// Docker cannot tell a comma of a path from one that parts the fields.
pub open spec fn mount_is_bound(
    text: Seq<char>,
    source: Seq<char>,
    target: Seq<char>,
    read_only: bool,
) -> bool {
    !source.contains(',') && !target.contains(',') ==> ({
        let fields = split_on(text, ',');
        &&& fields.len() == if read_only {
            4int
        } else {
            3int
        }
        &&& split_once(fields[0], "="@) == Some(("type"@, "bind"@))
        &&& split_once(fields[1], "="@) == Some(("source"@, source))
        &&& split_once(fields[2], "="@) == Some(("destination"@, target))
        &&& read_only ==> fields[3] == "readonly"@
    })
}

proof fn lemma_mount_words()
    ensures
        "="@ == seq!['='],
        "type=bind,source="@ == "type"@ + seq!['='] + "bind"@ + seq![','] + "source"@ + seq!['='],
        ",destination="@ == seq![','] + "destination"@ + seq!['='],
        ",readonly"@ == seq![','] + "readonly"@,
        forall|k: int| 0 <= k < "type"@.len() ==> "type"@[k] != ',' && "type"@[k] != '=',
        forall|k: int| 0 <= k < "bind"@.len() ==> "bind"@[k] != ',' && "bind"@[k] != '=',
        forall|k: int| 0 <= k < "source"@.len() ==> "source"@[k] != ',' && "source"@[k] != '=',
        forall|k: int|
            0 <= k < "destination"@.len() ==> "destination"@[k] != ',' && "destination"@[k] != '=',
        forall|k: int| 0 <= k < "readonly"@.len() ==> "readonly"@[k] != ',',
{
    reveal_strlit("=");
    assert("="@ =~= seq!['=']);
    assert("type=bind,source="@ == "type"@ + seq!['='] + "bind"@ + seq![','] + "source"@ + seq![
        '=',
    ]) by {
        reveal_strlit("type=bind,source=");
        reveal_strlit("type");
        reveal_strlit("bind");
        reveal_strlit("source");
        assert("type=bind,source="@ =~= "type"@ + seq!['='] + "bind"@ + seq![','] + "source"@
            + seq!['=']);
    }
    assert(",destination="@ == seq![','] + "destination"@ + seq!['=']) by {
        reveal_strlit(",destination=");
        reveal_strlit("destination");
        assert(",destination="@ =~= seq![','] + "destination"@ + seq!['=']);
    }
    assert(",readonly"@ == seq![','] + "readonly"@) by {
        reveal_strlit(",readonly");
        reveal_strlit("readonly");
        assert(",readonly"@ =~= seq![','] + "readonly"@);
    }
    reveal_strlit("type");
    reveal_strlit("bind");
    reveal_strlit("source");
    reveal_strlit("destination");
    reveal_strlit("readonly");
}

proof fn lemma_mount_is_bound(mount: MountSpecView, source: Seq<char>)
    ensures
        mount_is_bound(mount_flag(mount, source), source, mount.target, mount.read_only),
{
    if !source.contains(',') && !mount.target.contains(',') {
        lemma_mount_words();
        let kind = "type"@ + seq!['='] + "bind"@;
        let from = "source"@ + seq!['='] + source;
        let to = "destination"@ + seq!['='] + mount.target;
        let bound = seq![kind, from, to];
        let fields = if mount.read_only {
            bound.push("readonly"@)
        } else {
            bound
        };
        lemma_no_comma("type"@, "bind"@);
        lemma_no_comma("source"@, source);
        lemma_no_comma("destination"@, mount.target);
        let comma = seq![','];
        assert(bound.drop_last() =~= seq![kind, from]);
        assert(seq![kind, from].drop_last() =~= seq![kind]);
        assert(joined(seq![kind], comma) == kind);
        assert(joined(seq![kind, from], comma) == kind + comma + from);
        assert(joined(bound, comma) == kind + comma + from + comma + to);
        let value = "type=bind,source="@ + source + ",destination="@ + mount.target;
        assert(value =~= kind + comma + from + comma + to);
        if mount.read_only {
            assert(fields.drop_last() =~= bound);
            assert(mount_flag(mount, source) =~= value + comma + "readonly"@);
        }
        assert(mount_flag(mount, source) == joined(fields, comma));
        law_joined_parts_are_split_again(fields, ',');
        law_halves_are_found_again("type"@, '=', "bind"@);
        law_halves_are_found_again("source"@, '=', source);
        law_halves_are_found_again("destination"@, '=', mount.target);
    }
}

proof fn lemma_no_comma(key: Seq<char>, value: Seq<char>)
    requires
        !key.contains(','),
        !value.contains(','),
    ensures
        !(key + seq!['='] + value).contains(','),
{
    let all = key + seq!['='] + value;
    if all.contains(',') {
        let k = choose|k: int| 0 <= k < all.len() && all[k] == ',';
        if k < key.len() {
            assert(key[k] == ',');
        } else if k > key.len() {
            assert(value[k - key.len() - 1] == ',');
        }
    }
}

} // verus!
