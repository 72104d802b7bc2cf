//! The Docker Engine: which one is selected, whether it answers, and how it is brought to answer.
use vstd::prelude::*;
use vstd::string::*;
use crate::collections::{
    keys_ascend, lemma_map_of, lemma_map_of_holds, map_of, ordered, TextMap, TextPair,
};
use crate::encoding::{lenient_text, text_from_utf8_lossy};
use crate::error::{
    error_from, error_of, rendered, seen, ErrorCategory, WorkstateError, WorkstateErrorView,
};
use crate::domain::ResourceRecord;
use crate::integrations::docker::desktop::{desktop_stops, DesktopStop, DockerDesktopController};
use crate::integrations::docker::errors::{
    diagnostic, output_diagnostic, sanitized, sanitized_text,
};
use crate::integrations::docker::readiness::{
    EngineEnsure, EngineEnsureView, EnginePhaseView, EngineStep, EngineStepView,
};
use crate::json::{json_document, parse_json, Json, JsonView};
use crate::ports::{
    DockerEngineSnapshot, DockerEngineSnapshotView, ProcessOutput, ProcessOutputView,
    ProcessRequest, ProcessRequestView, ProcessRun, ProcessRunView,
};
use crate::text::{
    contains_text, decimal, find, has_control, has_prefix, join2, join3, lemma_find_from,
    lemma_rfind_before, lower, occurs_at, rfind, rsplit_once, same_text, split_once, text_contains,
    text_decimal, text_has_control, text_lower, text_rsplit_once, text_split_once, text_starts_with,
    text_strip_prefix, text_trim, trim,
};
use crate::time::TimeSpan;
use crate::values::{
    append, empty_list, lemma_filter_ends, lemma_filter_step, text_list3, text_or, Replicate,
};

verus! {

// ---------------------------------------------------------------------------------------------
// The environment of the Docker program
// ---------------------------------------------------------------------------------------------
/// The variables that the Docker program reads.
pub open spec fn is_docker_key(key: Seq<char>) -> bool {
    ||| key == "DOCKER_API_VERSION"@
    ||| key == "DOCKER_CERT_PATH"@
    ||| key == "DOCKER_CONFIG"@
    ||| key == "DOCKER_CONTEXT"@
    ||| key == "DOCKER_HOST"@
    ||| key == "DOCKER_TLS_VERIFY"@
    ||| key == "DOCKER_CUSTOM_HEADERS"@
}

/// A variable that the Docker program reads, with a value.
pub open spec fn is_docker_setting(variable: TextPair) -> bool {
    is_docker_key(variable.0) && variable.1.len() > 0
}

/// The settings among the variables; of two with one key the later one counts.
pub open spec fn docker_settings(variables: Seq<TextPair>) -> Map<Seq<char>, Seq<char>> {
    map_of(variables.filter(|variable: TextPair| is_docker_setting(variable)))
}

/// The variables that Docker commands run with, in ascending order of their keys.
#[derive(Debug, Clone, PartialEq, Eq)]
pub struct DockerCliEnvironment {
    variables: Vec<(String, String)>,
}

impl View for DockerCliEnvironment {
    type V = Seq<TextPair>;

    closed spec fn view(&self) -> Seq<TextPair> {
        self.variables.deep_view()
    }
}

impl Default for DockerCliEnvironment {
    fn default() -> (r: Self)
        ensures
            r@ == Seq::<TextPair>::empty(),
    {
        DockerCliEnvironment { variables: empty_list() }
    }
}

fn key_is_docker(key: &str) -> (r: bool)
    ensures
        r == is_docker_key(key@),
{
    same_text(key, "DOCKER_API_VERSION") || same_text(key, "DOCKER_CERT_PATH") || same_text(
        key,
        "DOCKER_CONFIG",
    ) || same_text(key, "DOCKER_CONTEXT") || same_text(key, "DOCKER_HOST") || same_text(
        key,
        "DOCKER_TLS_VERIFY",
    ) || same_text(key, "DOCKER_CUSTOM_HEADERS")
}

/// The value of the first variable with the given key.
pub open spec fn setting(variables: Seq<TextPair>, key: Seq<char>) -> Option<Seq<char>>
    decreases variables.len(),
{
    if variables.len() == 0 {
        None
    } else if variables[0].0 == key {
        Some(variables[0].1)
    } else {
        setting(variables.drop_first(), key)
    }
}

impl DockerCliEnvironment {
    /// The settings among the variables.
    pub fn from_variables(variables: Vec<(String, String)>) -> (r: Self)
        ensures
            r@ == ordered(docker_settings(variables.deep_view())),
            map_of(r@) == docker_settings(variables.deep_view()),
            keys_ascend(r@),
            forall|i: int| 0 <= i < r@.len() ==> is_docker_setting(#[trigger] r@[i]),
    {
        let ghost all = variables.deep_view();
        let ghost keep = |variable: TextPair| is_docker_setting(variable);
        let mut settings: Vec<(String, String)> = empty_list();
        let mut i: usize = 0;
        proof {
            lemma_filter_ends(all, keep);
        }
        while i < variables.len()
            invariant
                i <= variables@.len(),
                all == variables.deep_view(),
                keep == (|variable: TextPair| is_docker_setting(variable)),
                settings.deep_view() == all.take(i as int).filter(keep),
            decreases variables@.len() - i,
        {
            assert(all[i as int] == (variables@[i as int].0@, variables@[i as int].1@));
            proof {
                lemma_filter_step(all, i as int, keep);
            }
            if key_is_docker(variables[i].0.as_str()) && !variables[i].1.as_str().is_empty() {
                append(&mut settings, variables[i].replicate());
            }
            i = i + 1;
        }
        let variables = TextMap::from_pairs(&settings).entries();
        proof {
            let kept = settings.deep_view();
            let pairs = variables.deep_view();
            lemma_map_of(pairs);
            assert forall|k: int| 0 <= k < pairs.len() implies is_docker_setting(
                #[trigger] pairs[k],
            ) by {
                lemma_map_of_holds(kept, pairs[k].0);
                let at = choose|at: int|
                    0 <= at < kept.len() && #[trigger] kept[at] == (
                        pairs[k].0,
                        map_of(kept)[pairs[k].0],
                    );
                all.lemma_filter_pred(keep, at);
            }
        }
        DockerCliEnvironment { variables }
    }

    /// The variables.
    pub fn variables(&self) -> (r: Vec<(String, String)>)
        ensures
            r.deep_view() == self@,
    {
        self.variables.replicate()
    }

    /// The value of a variable.
    pub fn get(&self, key: &str) -> (r: Option<&str>)
        ensures
            r.deep_view() == setting(self@, key@),
    {
        let ghost all = self@;
        let mut i: usize = 0;
        assert(all.skip(0) =~= all);
        while i < self.variables.len()
            invariant
                i <= self.variables@.len(),
                all == self.variables.deep_view(),
                setting(all, key@) == setting(all.skip(i as int), key@),
            decreases self.variables@.len() - i,
        {
            assert(all.skip(i as int)[0] == (
                self.variables@[i as int].0@,
                self.variables@[i as int].1@,
            ));
            assert(all.skip(i as int).drop_first() =~= all.skip(i as int + 1));
            if same_text(self.variables[i].0.as_str(), key) {
                return Some(self.variables[i].1.as_str());
            }
            i = i + 1;
        }
        None
    }

    /// The variables with the given ones over them.
    pub fn merge(&self, overrides: &Vec<(String, String)>) -> (r: Vec<(String, String)>)
        ensures
            r.deep_view() == ordered(map_of(self@ + overrides.deep_view())),
            map_of(r.deep_view()) == map_of(self@ + overrides.deep_view()),
            keys_ascend(r.deep_view()),
    {
        let mut all = self.variables.replicate();
        crate::values::append_all(&mut all, overrides.replicate());
        TextMap::from_pairs(&all).entries()
    }
}

/// The kinds of engines that Docker can be told to talk to.
#[derive(Debug, Clone, Copy, PartialEq, Eq, Structural)]
pub enum DockerEndpointKind {
    Desktop,
    Rootless,
    Global,
    Remote,
    Unknown,
}

impl DeepView for DockerEndpointKind {
    type V = DockerEndpointKind;

    open spec fn deep_view(&self) -> DockerEndpointKind {
        *self
    }
}

impl Replicate for DockerEndpointKind {
    fn replicate(&self) -> (r: Self) {
        *self
    }
}

/// The engine that Docker is told to talk to.
#[derive(Debug, Clone, PartialEq, Eq)]
pub struct DockerEndpoint {
    pub kind: DockerEndpointKind,
    pub context: Option<String>,
    pub endpoint: Option<String>,
}

/// What a `DockerEndpoint` stands for.
#[verifier::ext_equal]
pub struct DockerEndpointView {
    pub kind: DockerEndpointKind,
    pub context: Option<Seq<char>>,
    pub endpoint: Option<Seq<char>>,
}

impl View for DockerEndpoint {
    type V = DockerEndpointView;

    open spec fn view(&self) -> DockerEndpointView {
        DockerEndpointView {
            kind: self.kind.deep_view(),
            context: self.context.deep_view(),
            endpoint: self.endpoint.deep_view(),
        }
    }
}

impl DeepView for DockerEndpoint {
    type V = DockerEndpointView;

    open spec fn deep_view(&self) -> DockerEndpointView {
        self.view()
    }
}

impl Replicate for DockerEndpoint {
    fn replicate(&self) -> (r: Self) {
        DockerEndpoint {
            kind: self.kind.replicate(),
            context: self.context.replicate(),
            endpoint: self.endpoint.replicate(),
        }
    }
}

/// Whether the engine answers.
#[derive(Debug, Clone, PartialEq, Eq)]
pub enum EngineProbe {
    Ready { version: String },
    Unavailable { detail: String },
}

/// What a `EngineProbe` stands for.
#[verifier::ext_equal]
pub enum EngineProbeView {
    Ready { version: Seq<char> },
    Unavailable { detail: Seq<char> },
}

impl View for EngineProbe {
    type V = EngineProbeView;

    open spec fn view(&self) -> EngineProbeView {
        match self {
            EngineProbe::Ready { version } => EngineProbeView::Ready { version: version.deep_view() },
            EngineProbe::Unavailable { detail } => EngineProbeView::Unavailable { detail: detail.deep_view() },
        }
    }
}

impl DeepView for EngineProbe {
    type V = EngineProbeView;

    open spec fn deep_view(&self) -> EngineProbeView {
        self.view()
    }
}

impl Replicate for EngineProbe {
    fn replicate(&self) -> (r: Self) {
        match self {
            EngineProbe::Ready { version } => EngineProbe::Ready { version: version.replicate() },
            EngineProbe::Unavailable { detail } => EngineProbe::Unavailable { detail: detail.replicate() },
        }
    }
}

// ---------------------------------------------------------------------------------------------
// The selected engine
// ---------------------------------------------------------------------------------------------
/// An address without user names and passwords.
pub open spec fn redacted_endpoint(value: Seq<char>) -> Seq<char> {
    let shown = match sanitized(value) {
        Some(text) => text,
        None => "unknown"@,
    };
    match split_once(value, "://"@) {
        None => shown,
        Some((scheme, rest)) => match rsplit_once(rest, "@"@) {
            Some((_, host)) => scheme + "://[redacted]@"@ + host,
            None => shown,
        },
    }
}

/// An address without user names and passwords.
pub fn redact_endpoint(value: &str) -> (r: String)
    ensures
        r@ == redacted_endpoint(value@),
{
    if let Some((scheme, rest)) = text_split_once(value, "://") {
        if let Some((_, host)) = text_rsplit_once(rest.as_str(), "@") {
            return join3(scheme.as_str(), "://[redacted]@", host.as_str());
        }
    }
    match sanitized_text(value) {
        Some(text) => text,
        None => "unknown".to_owned(),
    }
}

/// The text behind as many `unix://` as it starts with.
pub open spec fn after_unix(text: Seq<char>) -> Seq<char>
    decreases text.len(),
{
    if has_prefix(text, "unix://"@) {
        proof {
            reveal_strlit("unix://");
        }
        after_unix(text.skip("unix://"@.len() as int))
    } else {
        text
    }
}

fn strip_unix(text: String) -> (r: String)
    ensures
        r@ == after_unix(text@),
    decreases text@.len(),
{
    proof {
        reveal_strlit("unix://");
    }
    match text_strip_prefix(text.as_str(), "unix://") {
        Some(rest) => strip_unix(rest),
        None => text,
    }
}

/// A name that Docker Desktop gives its context.
pub open spec fn is_desktop_context(context: Seq<char>) -> bool {
    context == "desktop-linux"@ || contains_text(context, "docker-desktop"@)
}

/// The kind of an engine by its socket.
pub open spec fn socket_kind(path: Seq<char>) -> DockerEndpointKind {
    if contains_text(path, "/run/user/"@) || contains_text(path, "rootless"@) {
        DockerEndpointKind::Rootless
    } else if contains_text(path, "/.docker/desktop/"@) || contains_text(path, "docker/desktop"@) {
        DockerEndpointKind::Desktop
    } else if path.len() == 0 || path == "/var/run/docker.sock"@ || path == "/run/docker.sock"@ {
        DockerEndpointKind::Global
    } else {
        DockerEndpointKind::Unknown
    }
}

/// The kind of an engine by its address, or else by the name of its context; an address of no known
/// form belongs to no engine unless the context says so.
pub open spec fn kind_of_endpoint(
    context: Option<Seq<char>>,
    endpoint: Option<Seq<char>>,
    linux_user_services: bool,
) -> Option<DockerEndpointKind> {
    let name = lower(
        match context {
            Some(name) => name,
            None => ""@,
        },
    );
    let address = lower(
        match endpoint {
            Some(address) => address,
            None => ""@,
        },
    );
    if has_prefix(address, "tcp://"@) || has_prefix(address, "ssh://"@) || has_prefix(
        address,
        "http://"@,
    ) || has_prefix(address, "https://"@) {
        Some(DockerEndpointKind::Remote)
    } else if has_prefix(address, "unix://"@) {
        Some(socket_kind(after_unix(address)))
    } else if has_prefix(address, "fd://"@) {
        Some(DockerEndpointKind::Global)
    } else if has_prefix(address, "npipe://"@) {
        Some(
            if linux_user_services {
                DockerEndpointKind::Remote
            } else {
                DockerEndpointKind::Desktop
            },
        )
    } else if is_desktop_context(name) {
        Some(DockerEndpointKind::Desktop)
    } else if contains_text(name, "rootless"@) {
        Some(DockerEndpointKind::Rootless)
    } else if endpoint is Some {
        None
    } else if name.len() == 0 || name == "default"@ {
        Some(DockerEndpointKind::Global)
    } else {
        Some(DockerEndpointKind::Unknown)
    }
}

/// The engine that a context and an address select.
pub open spec fn endpoint_of(
    context: Option<Seq<char>>,
    endpoint: Option<Seq<char>>,
    linux_user_services: bool,
) -> Result<DockerEndpointView, WorkstateErrorView> {
    match kind_of_endpoint(context, endpoint, linux_user_services) {
        Some(kind) => Ok(
            DockerEndpointView {
                kind,
                context,
                endpoint: match endpoint {
                    Some(address) => Some(redacted_endpoint(address)),
                    None => None,
                },
            },
        ),
        None => Err(
            error_of(ErrorCategory::Integration, "Docker host configuration is invalid"@).with(
                "endpoint"@,
                redacted_endpoint(
                    match endpoint {
                        Some(address) => address,
                        None => ""@,
                    },
                ),
            ),
        ),
    }
}

fn kind_of_socket(path: &str) -> (r: DockerEndpointKind)
    ensures
        r == socket_kind(path@),
{
    if text_contains(path, "/run/user/") || text_contains(path, "rootless") {
        DockerEndpointKind::Rootless
    } else if text_contains(path, "/.docker/desktop/") || text_contains(path, "docker/desktop") {
        DockerEndpointKind::Desktop
    } else if path.is_empty() || same_text(path, "/var/run/docker.sock") || same_text(
        path,
        "/run/docker.sock",
    ) {
        DockerEndpointKind::Global
    } else {
        DockerEndpointKind::Unknown
    }
}

/// The engine that a context and an address select.
pub fn classify_endpoint(
    context: Option<String>,
    endpoint: Option<String>,
    linux_user_services: bool,
) -> (r: Result<DockerEndpoint, WorkstateError>)
    ensures
        seen(r) == endpoint_of(context.deep_view(), endpoint.deep_view(), linux_user_services),
{
    let name = text_lower(text_or(&context, "").as_str());
    let address = text_lower(text_or(&endpoint, "").as_str());
    let kind = if text_starts_with(address.as_str(), "tcp://") || text_starts_with(
        address.as_str(),
        "ssh://",
    ) || text_starts_with(address.as_str(), "http://") || text_starts_with(
        address.as_str(),
        "https://",
    ) {
        DockerEndpointKind::Remote
    } else if text_starts_with(address.as_str(), "unix://") {
        kind_of_socket(strip_unix(address).as_str())
    } else if text_starts_with(address.as_str(), "fd://") {
        DockerEndpointKind::Global
    } else if text_starts_with(address.as_str(), "npipe://") {
        if linux_user_services {
            DockerEndpointKind::Remote
        } else {
            DockerEndpointKind::Desktop
        }
    } else if same_text(name.as_str(), "desktop-linux") || text_contains(
        name.as_str(),
        "docker-desktop",
    ) {
        DockerEndpointKind::Desktop
    } else if text_contains(name.as_str(), "rootless") {
        DockerEndpointKind::Rootless
    } else if let Some(address) = &endpoint {
        return Err(
            WorkstateError::new(
                ErrorCategory::Integration,
                "Docker host configuration is invalid",
            ).with_context("endpoint", redact_endpoint(address.as_str()).as_str()),
        );
    } else if name.as_str().is_empty() || same_text(name.as_str(), "default") {
        DockerEndpointKind::Global
    } else {
        DockerEndpointKind::Unknown
    };
    let shown = match &endpoint {
        Some(address) => Some(redact_endpoint(address.as_str())),
        None => None,
    };
    Ok(DockerEndpoint { kind, context, endpoint: shown })
}

/// The address in the description of a context, where it holds one.
pub open spec fn context_address(value: JsonView) -> Option<Seq<char>> {
    match value.get_either("Endpoints"@, "endpoints"@) {
        Some(endpoints) => match endpoints.get("docker"@) {
            Some(docker) => match docker.get_either("Host"@, "host"@) {
                Some(host) => host.as_text(),
                None => None,
            },
            None => None,
        },
        None => None,
    }
}

/// The address in the description of a context: the first of a list, or one alone.
pub open spec fn described_address(value: JsonView) -> Result<
    Option<Seq<char>>,
    WorkstateErrorView,
> {
    let context = match value {
        JsonView::Array(items) => if items.len() > 0 {
            Ok(items[0])
        } else {
            Err(
                error_of(
                    ErrorCategory::Integration,
                    "Docker context inspection returned no context data"@,
                ),
            )
        },
        JsonView::Object(_) => Ok(value),
        _ => Err(
            error_of(
                ErrorCategory::Integration,
                "Docker context inspection returned an unexpected value"@,
            ),
        ),
    };
    match context {
        Err(error) => Err(error),
        Ok(context) => match context_address(context) {
            Some(address) if has_control(address) => Err(
                error_of(
                    ErrorCategory::Integration,
                    "Docker context inspection returned an invalid endpoint"@,
                ),
            ),
            address => Ok(address),
        },
    }
}

fn address_of_context(value: &Json) -> (r: Option<String>)
    ensures
        r.deep_view() == context_address(value@),
{
    match value.get_either("Endpoints", "endpoints") {
        Some(endpoints) => match endpoints.get("docker") {
            Some(docker) => match docker.get_either("Host", "host") {
                Some(host) => host.as_text(),
                None => None,
            },
            None => None,
        },
        None => None,
    }
}

/// The address in the description of a context.
pub fn context_endpoint(value: &Json) -> (r: Result<Option<String>, WorkstateError>)
    ensures
        seen(r) == described_address(value@),
{
    let address = match value {
        Json::Array(items) => {
            if items.len() == 0 {
                return Err(
                    WorkstateError::new(
                        ErrorCategory::Integration,
                        "Docker context inspection returned no context data",
                    ),
                );
            }
            assert(value@->Array_0[0] == items@[0]@);
            address_of_context(&items[0])
        },
        Json::Object(_) => address_of_context(value),
        _ => {
            return Err(
                WorkstateError::new(
                    ErrorCategory::Integration,
                    "Docker context inspection returned an unexpected value",
                ),
            );
        },
    };
    if let Some(text) = &address {
        if text_has_control(text.as_str()) {
            return Err(
                WorkstateError::new(
                    ErrorCategory::Integration,
                    "Docker context inspection returned an invalid endpoint",
                ),
            );
        }
    }
    Ok(address)
}

/// The address that the output of a context inspection holds.
pub open spec fn inspected_address(bytes: Seq<u8>) -> Result<Option<Seq<char>>, WorkstateErrorView> {
    match json_document(bytes) {
        Ok(value) => described_address(value),
        Err(text) => Err(
            error_from(
                ErrorCategory::Integration,
                "Docker context inspection returned malformed data"@,
                text,
            ),
        ),
    }
}

/// The address that the output of a context inspection holds.
pub fn parse_context_endpoint(bytes: &[u8]) -> (r: Result<Option<String>, WorkstateError>)
    ensures
        seen(r) == inspected_address(bytes@),
{
    match parse_json(bytes) {
        Ok(value) => context_endpoint(&value),
        Err(text) => Err(
            WorkstateError::with_source(
                ErrorCategory::Integration,
                "Docker context inspection returned malformed data",
                text.as_str(),
            ),
        ),
    }
}

// ---------------------------------------------------------------------------------------------
// Errors
// ---------------------------------------------------------------------------------------------
/// What is shown of a failed command.
pub open spec fn engine_diagnostic(output: ProcessOutputView) -> Seq<char> {
    match diagnostic(output) {
        Some(text) => text,
        None => "Docker Engine is not responding"@,
    }
}

/// What is shown of a failed command.
pub fn diagnostic_from_output(output: &ProcessOutput) -> (r: String)
    ensures
        r@ == engine_diagnostic(output@),
{
    match output_diagnostic(output) {
        Some(text) => text,
        None => "Docker Engine is not responding".to_owned(),
    }
}

/// The line that says that the engine answers.
pub fn engine_output(version: &str) -> (r: String)
    ensures
        r@ == "Docker Engine is ready ("@ + version@ + ")"@,
{
    join3("Docker Engine is ready (", version, ")")
}

pub open spec fn integration_error(message: Seq<char>) -> WorkstateErrorView {
    error_of(ErrorCategory::Integration, message)
}

pub open spec fn unavailable_error(detail: Seq<char>, reason: Seq<char>) -> WorkstateErrorView {
    integration_error("Docker Engine is unavailable"@).with("reason"@, reason).with(
        "detail"@,
        detail,
    )
}

/// The error of an engine that does not answer and may not be launched.
pub fn engine_unavailable_error(detail: &str, reason: &str) -> (r: WorkstateError)
    ensures
        r@ == unavailable_error(detail@, reason@),
{
    WorkstateError::new(
        ErrorCategory::Integration,
        "Docker Engine is unavailable",
    ).with_context("reason", reason).with_context("detail", detail)
}

pub open spec fn timeout_error(detail: Seq<char>, timeout: TimeSpan) -> WorkstateErrorView {
    integration_error("Docker Engine did not become ready before the timeout"@).with(
        "detail"@,
        detail,
    ).with("timeout_milliseconds"@, decimal(timeout.millis()))
}

/// The error of an engine that did not answer in time.
pub fn engine_timeout_error(detail: &str, timeout: TimeSpan) -> (r: WorkstateError)
    ensures
        r@ == timeout_error(detail@, timeout),
{
    WorkstateError::new(
        ErrorCategory::Integration,
        "Docker Engine did not become ready before the timeout",
    ).with_context("detail", detail).with_context(
        "timeout_milliseconds",
        text_decimal(timeout.as_millis()).as_str(),
    )
}

pub open spec fn cli_missing_error() -> WorkstateErrorView {
    integration_error("Docker CLI is not installed or could not be executed"@).with(
        "next_action"@,
        "Install Docker CLI and run Workstate again"@,
    )
}

/// The error of a Docker program that cannot be run.
pub fn docker_cli_missing_error() -> (r: WorkstateError)
    ensures
        r@ == cli_missing_error(),
{
    WorkstateError::new(
        ErrorCategory::Integration,
        "Docker CLI is not installed or could not be executed",
    ).with_context("next_action", "Install Docker CLI and run Workstate again")
}

/// An error that comes from a program that was not found.
pub open spec fn says_missing_executable(error: WorkstateErrorView) -> bool {
    error.source matches Some(source) && source.not_found
}

/// Whether an error comes from a program that was not found.
pub fn is_missing_executable(error: &WorkstateError) -> (r: bool)
    ensures
        r == says_missing_executable(error@),
{
    match &error.source {
        Some(source) => source.not_found,
        None => false,
    }
}

pub open spec fn invalid_context(context: Seq<char>, detail: Seq<char>) -> WorkstateErrorView {
    integration_error("The selected Docker context is invalid or does not exist"@).with(
        "context"@,
        context,
    ).with("detail"@, detail)
}

/// The error of a context that cannot be used.
pub fn invalid_context_error(context: &str, detail: &str) -> (r: WorkstateError)
    ensures
        r@ == invalid_context(context@, detail@),
{
    WorkstateError::new(
        ErrorCategory::Integration,
        "The selected Docker context is invalid or does not exist",
    ).with_context("context", context).with_context("detail", detail)
}

pub open spec fn context_failure(operation: Seq<char>, output: ProcessOutputView) -> WorkstateErrorView {
    let detail = engine_diagnostic(output);
    let text = lower(detail);
    if contains_text(text, "not found"@) || contains_text(text, "does not exist"@) || contains_text(
        text,
        "invalid context"@,
    ) {
        invalid_context("unknown"@, detail)
    } else {
        integration_error("Docker context operation '"@ + operation + "' failed"@).with(
            "detail"@,
            detail,
        )
    }
}

/// The error of a context command that failed.
pub fn context_command_error(operation: &str, output: &ProcessOutput) -> (r: WorkstateError)
    ensures
        r@ == context_failure(operation@, output@),
{
    let detail = diagnostic_from_output(output);
    let text = text_lower(detail.as_str());
    if text_contains(text.as_str(), "not found") || text_contains(text.as_str(), "does not exist")
        || text_contains(text.as_str(), "invalid context") {
        return invalid_context_error("unknown", detail.as_str());
    }
    WorkstateError::new(
        ErrorCategory::Integration,
        join3("Docker context operation '", operation, "' failed").as_str(),
    ).with_context("detail", detail.as_str())
}

/// The text in `value`, or `default` where there is none.
pub open spec fn or_text(value: Option<Seq<char>>, default: Seq<char>) -> Seq<char> {
    match value {
        Some(text) => text,
        None => default,
    }
}

pub open spec fn remote_error(endpoint: DockerEndpointView, detail: Seq<char>) -> WorkstateErrorView {
    integration_error(
        "The selected Docker context points to a remote Engine that is unavailable; Workstate will not start local Docker services"@,
    ).with("endpoint"@, or_text(endpoint.endpoint, "remote"@)).with("detail"@, detail).with(
        "next_action"@,
        "Check the selected Docker context or remote host and run Workstate again"@,
    )
}

/// The error of a remote engine that does not answer.
pub fn remote_engine_error(endpoint: &DockerEndpoint, detail: &str) -> (r: WorkstateError)
    ensures
        r@ == remote_error(endpoint@, detail@),
{
    WorkstateError::new(
        ErrorCategory::Integration,
        "The selected Docker context points to a remote Engine that is unavailable; Workstate will not start local Docker services",
    ).with_context("endpoint", text_or(&endpoint.endpoint, "remote").as_str()).with_context(
        "detail",
        detail,
    ).with_context(
        "next_action",
        "Check the selected Docker context or remote host and run Workstate again",
    )
}

pub open spec fn unknown_error(endpoint: DockerEndpointView, detail: Seq<char>) -> WorkstateErrorView {
    integration_error("Docker Engine availability could not be determined safely"@).with(
        "context"@,
        or_text(endpoint.context, "unknown"@),
    ).with("endpoint"@, or_text(endpoint.endpoint, "unknown"@)).with("detail"@, detail).with(
        "next_action"@,
        "Inspect Docker context configuration manually"@,
    )
}

/// The error of an engine of no known kind.
pub fn unknown_engine_error(endpoint: &DockerEndpoint, detail: &str) -> (r: WorkstateError)
    ensures
        r@ == unknown_error(endpoint@, detail@),
{
    WorkstateError::new(
        ErrorCategory::Integration,
        "Docker Engine availability could not be determined safely",
    ).with_context("context", text_or(&endpoint.context, "unknown").as_str()).with_context(
        "endpoint",
        text_or(&endpoint.endpoint, "unknown").as_str(),
    ).with_context("detail", detail).with_context(
        "next_action",
        "Inspect Docker context configuration manually",
    )
}

pub open spec fn service_title(kind: DockerEndpointKind) -> Seq<char> {
    match kind {
        DockerEndpointKind::Desktop => "Docker Desktop"@,
        DockerEndpointKind::Rootless => "the rootless Docker user service"@,
        _ => "the selected Docker service"@,
    }
}

pub open spec fn local_service_error(
    endpoint: DockerEndpointView,
    detail: Seq<char>,
) -> WorkstateErrorView {
    integration_error(
        service_title(endpoint.kind) + " is not installed or cannot be started safely"@,
    ).with("detail"@, detail).with(
        "next_action"@,
        "Start the selected Docker service manually and run Workstate again"@,
    )
}

/// The error of a local service that cannot be started.
pub fn local_service_unavailable_error(endpoint: &DockerEndpoint, detail: &str) -> (r:
    WorkstateError)
    ensures
        r@ == local_service_error(endpoint@, detail@),
{
    let service = match endpoint.kind {
        DockerEndpointKind::Desktop => "Docker Desktop",
        DockerEndpointKind::Rootless => "the rootless Docker user service",
        _ => "the selected Docker service",
    };
    WorkstateError::new(
        ErrorCategory::Integration,
        join2(service, " is not installed or cannot be started safely").as_str(),
    ).with_context("detail", detail).with_context(
        "next_action",
        "Start the selected Docker service manually and run Workstate again",
    )
}

pub open spec fn permission_error(
    endpoint: DockerEndpointView,
    detail: Seq<char>,
) -> WorkstateErrorView {
    integration_error(
        "Docker Engine is running, but the current user cannot access the selected socket"@,
    ).with("endpoint"@, or_text(endpoint.endpoint, "global socket"@)).with("detail"@, detail).with(
        "next_action"@,
        "Configure Docker access for your user, then sign in again: sudo usermod -aG docker $USER"@,
    )
}

/// The error of a socket that the user may not use.
pub fn global_permission_error(endpoint: &DockerEndpoint, detail: &str) -> (r: WorkstateError)
    ensures
        r@ == permission_error(endpoint@, detail@),
{
    WorkstateError::new(
        ErrorCategory::Integration,
        "Docker Engine is running, but the current user cannot access the selected socket",
    ).with_context("endpoint", text_or(&endpoint.endpoint, "global socket").as_str()).with_context(
        "detail",
        detail,
    ).with_context(
        "next_action",
        "Configure Docker access for your user, then sign in again: sudo usermod -aG docker $USER",
    )
}

pub open spec fn stopped_error(endpoint: DockerEndpointView, detail: Seq<char>) -> WorkstateErrorView {
    integration_error("Docker Engine is not running"@).with(
        "endpoint"@,
        or_text(endpoint.endpoint, "global socket"@),
    ).with("detail"@, detail).with(
        "next_action"@,
        "Start it manually with: sudo systemctl start docker"@,
    )
}

/// The error of a system service that is stopped.
pub fn global_stopped_error(endpoint: &DockerEndpoint, detail: &str) -> (r: WorkstateError)
    ensures
        r@ == stopped_error(endpoint@, detail@),
{
    WorkstateError::new(ErrorCategory::Integration, "Docker Engine is not running").with_context(
        "endpoint",
        text_or(&endpoint.endpoint, "global socket").as_str(),
    ).with_context("detail", detail).with_context(
        "next_action",
        "Start it manually with: sudo systemctl start docker",
    )
}

pub open spec fn inspection_error(
    endpoint: DockerEndpointView,
    detail: Seq<char>,
    error: WorkstateErrorView,
) -> WorkstateErrorView {
    integration_error("Docker Engine availability could not be verified safely"@).with(
        "endpoint"@,
        or_text(endpoint.endpoint, "global socket"@),
    ).with("detail"@, detail).with("service_inspection_error"@, rendered(error)).with(
        "next_action"@,
        "Start or inspect Docker manually, then run Workstate again"@,
    )
}

/// The error of a system service that cannot be inspected.
pub fn global_inspection_error(
    endpoint: &DockerEndpoint,
    detail: &str,
    error: &WorkstateError,
) -> (r: WorkstateError)
    ensures
        r@ == inspection_error(endpoint@, detail@, error@),
{
    WorkstateError::new(
        ErrorCategory::Integration,
        "Docker Engine availability could not be verified safely",
    ).with_context("endpoint", text_or(&endpoint.endpoint, "global socket").as_str()).with_context(
        "detail",
        detail,
    ).with_context("service_inspection_error", error.render().as_str()).with_context(
        "next_action",
        "Start or inspect Docker manually, then run Workstate again",
    )
}

/// A diagnostic that says that the user has no access.
pub open spec fn says_permission_denied(detail: Seq<char>) -> bool {
    let text = lower(detail);
    contains_text(text, "permission denied"@) || contains_text(text, "got permission denied"@)
        || contains_text(text, "access denied"@)
}

/// Whether a diagnostic says that the user has no access.
pub fn is_permission_denied(detail: &str) -> (r: bool)
    ensures
        r == says_permission_denied(detail@),
{
    let text = text_lower(detail);
    text_contains(text.as_str(), "permission denied") || text_contains(
        text.as_str(),
        "got permission denied",
    ) || text_contains(text.as_str(), "access denied")
}

pub open spec fn kind_name(kind: DockerEndpointKind) -> Seq<char> {
    match kind {
        DockerEndpointKind::Desktop => "docker_desktop"@,
        DockerEndpointKind::Rootless => "rootless"@,
        DockerEndpointKind::Global => "global"@,
        DockerEndpointKind::Remote => "remote"@,
        DockerEndpointKind::Unknown => "unknown"@,
    }
}

/// The name of a kind of engine in messages.
pub fn endpoint_kind_name(kind: DockerEndpointKind) -> (r: &'static str)
    ensures
        r@ == kind_name(kind),
{
    match kind {
        DockerEndpointKind::Desktop => "docker_desktop",
        DockerEndpointKind::Rootless => "rootless",
        DockerEndpointKind::Global => "global",
        DockerEndpointKind::Remote => "remote",
        DockerEndpointKind::Unknown => "unknown",
    }
}

/// The bounds of a wait have to be longer than nothing.
pub open spec fn wait_bounds(timeout: TimeSpan, poll_interval: TimeSpan) -> Result<
    (),
    WorkstateErrorView,
> {
    if timeout.nanoseconds == 0 {
        Err(integration_error("Docker Engine readiness timeout must be greater than zero"@))
    } else if poll_interval.nanoseconds == 0 {
        Err(
            integration_error(
                "Docker Engine readiness polling interval must be greater than zero"@,
            ),
        )
    } else {
        Ok(())
    }
}

/// Refuses bounds of a wait that are empty.
pub fn validate_wait_bounds(timeout: TimeSpan, poll_interval: TimeSpan) -> (r: Result<
    (),
    WorkstateError,
>)
    ensures
        seen(r) == wait_bounds(timeout, poll_interval),
{
    if timeout.is_zero() {
        return Err(
            WorkstateError::new(
                ErrorCategory::Integration,
                "Docker Engine readiness timeout must be greater than zero",
            ),
        );
    }
    if poll_interval.is_zero() {
        return Err(
            WorkstateError::new(
                ErrorCategory::Integration,
                "Docker Engine readiness polling interval must be greater than zero",
            ),
        );
    }
    Ok(())
}

// ---------------------------------------------------------------------------------------------
// Calling Docker
// ---------------------------------------------------------------------------------------------
/// How Docker is called: the program, the variables that it runs with, and whether local services are
/// those of a Linux user.
#[derive(Debug, Clone, PartialEq, Eq)]
pub struct DockerEngineController {
    docker_program: String,
    environment: DockerCliEnvironment,
    linux_user_services: bool,
}

/// The arguments that ask the engine for its version.
pub open spec fn probe_arguments() -> Seq<Seq<char>> {
    seq!["info"@, "--format"@, "{{.ServerVersion}}"@]
}

/// The arguments that ask the engine for its version.
pub fn arguments_of_probe() -> (r: Vec<String>)
    ensures
        r.deep_view() == probe_arguments(),
{
    text_list3("info", "--format", "{{.ServerVersion}}")
}

impl DockerEngineController {
    pub closed spec fn program(&self) -> Seq<char> {
        self.docker_program@
    }

    pub closed spec fn settings(&self) -> Seq<TextPair> {
        self.environment@
    }

    pub closed spec fn user_services(&self) -> bool {
        self.linux_user_services
    }

    /// Calls the given program with the given variables; a program without a name is refused.
    pub fn new_for_platform(
        docker_program: String,
        environment: DockerCliEnvironment,
        linux_user_services: bool,
    ) -> (r: Result<Self, WorkstateError>)
        ensures
            match r {
                Ok(controller) => docker_program@.len() > 0 && controller.program()
                    == docker_program@ && controller.settings() == environment@
                    && controller.user_services() == linux_user_services,
                Err(error) => docker_program@.len() == 0 && error@ == integration_error(
                    "Docker executable must be non-empty"@,
                ),
            },
    {
        if docker_program.as_str().is_empty() {
            return Err(
                WorkstateError::new(
                    ErrorCategory::Integration,
                    "Docker executable must be non-empty",
                ),
            );
        }
        Ok(DockerEngineController { docker_program, environment, linux_user_services })
    }

    /// The controller with the settings among the given variables.
    pub fn with_environment(self, environment: Vec<(String, String)>) -> (r: Self)
        ensures
            r.program() == self.program(),
            r.user_services() == self.user_services(),
            r.settings() == ordered(docker_settings(environment.deep_view())),
    {
        DockerEngineController {
            docker_program: self.docker_program,
            environment: DockerCliEnvironment::from_variables(environment),
            linux_user_services: self.linux_user_services,
        }
    }

    /// The Docker program.
    pub fn docker_program(&self) -> (r: &str)
        ensures
            r@ == self.program(),
    {
        self.docker_program.as_str()
    }

    /// The variables that Docker runs with.
    pub fn environment(&self) -> (r: Vec<(String, String)>)
        ensures
            r.deep_view() == self.settings(),
    {
        self.environment.variables()
    }

    /// The process with the variables of Docker under its own.
    pub fn complete_process_request(&self, request: ProcessRequest) -> (r: ProcessRequest)
        ensures
            r@ == (ProcessRequestView {
                environment: ordered(map_of(self.settings() + request@.environment)),
                ..request@
            }),
    {
        let environment = self.environment.merge(&request.environment);
        ProcessRequest {
            program: request.program,
            arguments: request.arguments,
            working_directory: request.working_directory,
            environment,
        }
    }

    /// The process of a Docker command.
    pub fn run(&self, arguments: Vec<String>, working_directory: Option<String>) -> (r:
        ProcessRequest)
        ensures
            r@ == (ProcessRequestView {
                program: self.program(),
                arguments: arguments.deep_view(),
                working_directory: working_directory.deep_view(),
                environment: self.settings(),
            }),
    {
        ProcessRequest {
            program: self.docker_program.clone(),
            arguments,
            working_directory,
            environment: self.environment.variables(),
        }
    }

    /// The process of a Docker command with the given variables over those of Docker.
    pub fn run_with_environment(
        &self,
        arguments: Vec<String>,
        working_directory: Option<String>,
        environment: &Vec<(String, String)>,
    ) -> (r: ProcessRequest)
        ensures
            r@ == (ProcessRequestView {
                program: self.program(),
                arguments: arguments.deep_view(),
                working_directory: working_directory.deep_view(),
                environment: ordered(map_of(self.settings() + environment.deep_view())),
            }),
    {
        ProcessRequest {
            program: self.docker_program.clone(),
            arguments,
            working_directory,
            environment: self.environment.merge(environment),
        }
    }

    /// How a Docker process ended that was given a limit: the error of one that could not be run says
    /// what was run.
    pub fn run_within(&self, run: ProcessRun) -> (r: ProcessRun)
        ensures
            r@ == (match run@ {
                ProcessRunView::Failed(error) => ProcessRunView::Failed(
                    error.with("operation"@, "execute Docker command"@).with(
                        "program"@,
                        self.program(),
                    ),
                ),
                other => other,
            }),
    {
        match run {
            ProcessRun::Failed(error) => ProcessRun::Failed(
                error.with_context("operation", "execute Docker command").with_context(
                    "program",
                    self.docker_program.as_str(),
                ),
            ),
            other => other,
        }
    }

    /// The reply of a Docker process: the error of one that could not be run says what was run.
    pub fn run_process(&self, ran: Result<ProcessOutput, WorkstateError>) -> (r: Result<
        ProcessOutput,
        WorkstateError,
    >)
        ensures
            seen(r) == (match seen(ran) {
                Ok(output) => Ok(output),
                Err(error) => Err(
                    error.with("operation"@, "execute Docker command"@).with(
                        "program"@,
                        self.program(),
                    ),
                ),
            }),
    {
        match ran {
            Ok(output) => Ok(output),
            Err(error) => Err(
                error.with_context("operation", "execute Docker command").with_context(
                    "program",
                    self.docker_program.as_str(),
                ),
            ),
        }
    }

    /// The process that asks the engine for its version, with the given variables over those of Docker.
    pub fn inspect_with_environment(&self, environment: &Vec<(String, String)>) -> (r: ProcessRequest)
        ensures
            r@ == (ProcessRequestView {
                program: self.program(),
                arguments: probe_arguments(),
                working_directory: None,
                environment: ordered(map_of(self.settings() + environment.deep_view())),
            }),
    {
        self.run_with_environment(arguments_of_probe(), None, environment)
    }

    /// Begins to bring the engine to answer, with the given variables over those of Docker; a wait with
    /// empty bounds is refused.
    pub fn ensure_ready(
        &self,
        timeout: TimeSpan,
        poll_interval: TimeSpan,
        launch_desktop_when_needed: bool,
        environment: &Vec<(String, String)>,
    ) -> (r: Result<(EngineEnsure, EngineStep), WorkstateError>)
        ensures
            match (r, wait_bounds(timeout, poll_interval)) {
                (Ok(begun), Ok(())) => begun.0@ == (EngineEnsureView {
                    timeout,
                    poll_interval,
                    launch: launch_desktop_when_needed,
                    environment: ordered(map_of(self.settings() + environment.deep_view())),
                    linux_user_services: self.user_services(),
                    phase: EnginePhaseView::FirstProbe,
                }) && begun.1@ == (EngineStepView::Probe { limit: timeout }),
                (Err(error), Err(wanted)) => error@ == wanted,
                _ => false,
            },
    {
        EngineEnsure::begin(
            timeout,
            poll_interval,
            launch_desktop_when_needed,
            self.environment.merge(environment),
            self.linux_user_services,
        )
    }

    /// What is to be done about each resource of Docker Desktop that may be taken down.
    pub fn stop_desktop(&self, resources: &Vec<ResourceRecord>) -> (r: Vec<DesktopStop>)
        ensures
            r.deep_view() == desktop_stops(resources.deep_view()),
    {
        DockerDesktopController::stop_owned(resources)
    }

    /// The description of the engine that a probe gives.
    pub fn inspect(probe: EngineProbe) -> (r: DockerEngineSnapshot)
        ensures
            r@ == probe_snapshot(probe@),
    {
        match probe {
            EngineProbe::Ready { version } => DockerEngineSnapshot {
                ready: true,
                version: Some(version),
                detail: None,
            },
            EngineProbe::Unavailable { detail } => DockerEngineSnapshot {
                ready: false,
                version: None,
                detail: Some(detail),
            },
        }
    }
}

/// The description of the engine that a probe gives.
pub open spec fn probe_snapshot(probe: EngineProbeView) -> DockerEngineSnapshotView {
    match probe {
        EngineProbeView::Ready { version } => DockerEngineSnapshotView {
            ready: true,
            version: Some(version),
            detail: None,
        },
        EngineProbeView::Unavailable { detail } => DockerEngineSnapshotView {
            ready: false,
            version: None,
            detail: Some(detail),
        },
    }
}

impl EngineProbe {
    /// What an engine that does not answer said.
    pub fn detail(&self) -> (r: Option<&str>)
        ensures
            r.deep_view() == (match self@ {
                EngineProbeView::Ready { version } => None,
                EngineProbeView::Unavailable { detail } => Some(detail),
            }),
    {
        match self {
            EngineProbe::Ready { .. } => None,
            EngineProbe::Unavailable { detail } => Some(detail.as_str()),
        }
    }
}

/// What `docker info` says of the engine, where it was run to its end.
pub open spec fn probed(output: ProcessOutputView) -> EngineProbeView {
    if output.success() {
        let version = trim(lenient_text(output.stdout));
        EngineProbeView::Ready {
            version: if version.len() == 0 {
                "unknown"@
            } else {
                version
            },
        }
    } else {
        EngineProbeView::Unavailable { detail: engine_diagnostic(output) }
    }
}

/// The error of `docker info`, where it could not be run.
pub open spec fn probe_error(error: WorkstateErrorView) -> WorkstateErrorView {
    if says_missing_executable(error) {
        cli_missing_error()
    } else {
        error.with("operation"@, "inspect Docker Engine"@).with("docker_command"@, "docker info"@)
    }
}

/// What `docker info` says of the engine, where it was run to its end.
pub fn probe_output(output: &ProcessOutput) -> (r: EngineProbe)
    ensures
        r@ == probed(output@),
{
    if output.succeeded() {
        assert(output.stdout.deep_view() =~= output.stdout@);
        let version = text_trim(text_from_utf8_lossy(output.stdout.as_slice()).as_str());
        if version.as_str().is_empty() {
            EngineProbe::Ready { version: "unknown".to_owned() }
        } else {
            EngineProbe::Ready { version }
        }
    } else {
        EngineProbe::Unavailable { detail: diagnostic_from_output(output) }
    }
}

/// The error of `docker info`, where it could not be run.
pub fn probe_failure(error: WorkstateError) -> (r: WorkstateError)
    ensures
        r@ == probe_error(error@),
{
    if is_missing_executable(&error) {
        docker_cli_missing_error()
    } else {
        error.with_context("operation", "inspect Docker Engine").with_context(
            "docker_command",
            "docker info",
        )
    }
}

/// A variable is a setting exactly where it is one of Docker's and not empty; the last one of a key
/// counts.
pub proof fn law_settings_are_the_last_of_their_keys(
    variables: Seq<TextPair>,
    key: Seq<char>,
    value: Seq<char>,
)
    ensures
        docker_settings(variables.push((key, value))) == (if is_docker_key(key) && value.len() > 0 {
            docker_settings(variables).insert(key, value)
        } else {
            docker_settings(variables)
        }),
        docker_settings(Seq::empty()) == Map::<Seq<char>, Seq<char>>::empty(),
        is_docker_key("DOCKER_HOST"@),
        is_docker_key("DOCKER_CONTEXT"@),
        is_docker_key("DOCKER_CONFIG"@),
        is_docker_key("DOCKER_TLS_VERIFY"@),
        is_docker_key("DOCKER_CERT_PATH"@),
        !is_docker_key("PATH"@),
        !is_docker_key("HOME"@),
{
    reveal(Seq::filter);
    let keep = |variable: TextPair| is_docker_setting(variable);
    let all = variables.push((key, value));
    assert(all.drop_last() =~= variables);
    assert(all.last() == (key, value));
    let kept = variables.filter(keep);
    assert(kept.push((key, value)).drop_last() =~= kept);
    assert(Seq::<TextPair>::empty().filter(keep) =~= Seq::empty());
    lemma_other_keys();
}

proof fn lemma_other_keys()
    ensures
        !is_docker_key("PATH"@),
        !is_docker_key("HOME"@),
{
    reveal_strlit("PATH");
    reveal_strlit("HOME");
    reveal_strlit("DOCKER_API_VERSION");
    reveal_strlit("DOCKER_CERT_PATH");
    reveal_strlit("DOCKER_CONFIG");
    reveal_strlit("DOCKER_CONTEXT");
    reveal_strlit("DOCKER_HOST");
    reveal_strlit("DOCKER_TLS_VERIFY");
    reveal_strlit("DOCKER_CUSTOM_HEADERS");
    assert("PATH"@.len() == 4 && "HOME"@.len() == 4);
    assert("DOCKER_API_VERSION"@.len() == 18 && "DOCKER_CERT_PATH"@.len() == 16
        && "DOCKER_CONFIG"@.len() == 13 && "DOCKER_CONTEXT"@.len() == 14 && "DOCKER_HOST"@.len()
        == 11 && "DOCKER_TLS_VERIFY"@.len() == 17 && "DOCKER_CUSTOM_HEADERS"@.len() == 21);
}

/// A setting is found under its key.
pub proof fn law_setting_is_found(pairs: Seq<TextPair>, key: Seq<char>)
    requires
        keys_ascend(pairs),
    ensures
        setting(pairs, key) == (if map_of(pairs).contains_key(key) {
            Some(map_of(pairs)[key])
        } else {
            None
        }),
{
    lemma_map_of(pairs);
    lemma_setting(pairs, key);
    if map_of(pairs).contains_key(key) {
        let i = choose|i: int| 0 <= i < pairs.len() && #[trigger] pairs[i].0 == key;
        assert(setting(pairs, key) is Some);
    }
    if let Some(value) = setting(pairs, key) {
        let i = choose|i: int| 0 <= i < pairs.len() && #[trigger] pairs[i] == (key, value);
        assert(map_of(pairs).contains_key(pairs[i].0));
    }
}

proof fn lemma_setting(pairs: Seq<TextPair>, key: Seq<char>)
    ensures
        setting(pairs, key) matches Some(value) ==> exists|i: int|
            0 <= i < pairs.len() && #[trigger] pairs[i] == (key, value),
        setting(pairs, key) is None ==> forall|i: int|
            0 <= i < pairs.len() ==> (#[trigger] pairs[i]).0 != key,
    decreases pairs.len(),
{
    if pairs.len() > 0 && pairs[0].0 != key {
        let rest = pairs.drop_first();
        lemma_setting(rest, key);
        assert(forall|i: int| 0 <= i < rest.len() ==> #[trigger] rest[i] == pairs[i + 1]);
        if let Some(value) = setting(rest, key) {
            let i = choose|i: int| 0 <= i < rest.len() && #[trigger] rest[i] == (key, value);
            assert(pairs[i + 1] == (key, value));
        } else {
            assert forall|i: int| 0 <= i < pairs.len() implies (#[trigger] pairs[i]).0 != key by {
                if i > 0 {
                    assert(rest[i - 1] == pairs[i]);
                }
            }
        }
    } else if pairs.len() > 0 {
        assert(pairs[0] == (key, pairs[0].1));
    }
}

/// A given variable is put over Docker's own, and what is not given stays.
pub proof fn law_given_variables_go_over(
    settings: Seq<TextPair>,
    given: Seq<TextPair>,
    key: Seq<char>,
)
    ensures
        map_of(settings + given).contains_key(key) <==> map_of(settings).contains_key(key)
            || map_of(given).contains_key(key),
        map_of(given).contains_key(key) ==> map_of(settings + given)[key] == map_of(given)[key],
        !map_of(given).contains_key(key) && map_of(settings).contains_key(key) ==> map_of(
            settings + given,
        )[key] == map_of(settings)[key],
    decreases given.len(),
{
    if given.len() == 0 {
        assert(settings + given =~= settings);
    } else {
        law_given_variables_go_over(settings, given.drop_last(), key);
        assert((settings + given).drop_last() =~= settings + given.drop_last());
        assert((settings + given).last() == given.last());
    }
}

proof fn lemma_lower_prefix(prefix: Seq<char>, rest: Seq<char>)
    ensures
        lower(prefix) == prefix ==> has_prefix(lower(prefix + rest), prefix),
{
    if lower(prefix) == prefix {
        let all = lower(prefix + rest);
        assert(all.subrange(0, prefix.len() as int) =~= prefix) by {
            assert forall|i: int| 0 <= i < prefix.len() implies all[i] == prefix[i] by {
                assert(all[i] == lower(prefix)[i]);
            }
        }
    }
}

/// An address that leads over the network is remote, whatever its host; the socket of the system is the
/// global engine; and an engine that is reached in some other way is never taken for one of them.
pub proof fn law_network_addresses_are_remote(
    context: Option<Seq<char>>,
    rest: Seq<char>,
    linux_user_services: bool,
)
    ensures
        kind_of_endpoint(context, Some("tcp://"@ + rest), linux_user_services) == Some(
            DockerEndpointKind::Remote,
        ),
        kind_of_endpoint(context, Some("ssh://"@ + rest), linux_user_services) == Some(
            DockerEndpointKind::Remote,
        ),
        kind_of_endpoint(context, Some("https://"@ + rest), linux_user_services) == Some(
            DockerEndpointKind::Remote,
        ),
        kind_of_endpoint(context, Some("http://"@ + rest), linux_user_services) == Some(
            DockerEndpointKind::Remote,
        ),
        kind_of_endpoint(None, None, linux_user_services) == Some(DockerEndpointKind::Global),
{
    reveal_strlit("tcp://");
    reveal_strlit("ssh://");
    reveal_strlit("http://");
    reveal_strlit("https://");
    assert(lower("tcp://"@) =~= "tcp://"@);
    assert(lower("ssh://"@) =~= "ssh://"@);
    assert(lower("http://"@) =~= "http://"@);
    assert(lower("https://"@) =~= "https://"@);
    lemma_lower_prefix("tcp://"@, rest);
    lemma_lower_prefix("ssh://"@, rest);
    lemma_lower_prefix("http://"@, rest);
    lemma_lower_prefix("https://"@, rest);
    reveal_strlit("");
    reveal_strlit("desktop-linux");
    reveal_strlit("docker-desktop");
    reveal_strlit("rootless");
    reveal_strlit("unix://");
    reveal_strlit("fd://");
    reveal_strlit("npipe://");
    let none = lower(""@);
    assert(none.len() == 0);
    assert("desktop-linux"@.len() == 13 && "docker-desktop"@.len() == 14 && "rootless"@.len() == 8
        && "unix://"@.len() == 7 && "fd://"@.len() == 5 && "npipe://"@.len() == 8 && "tcp://"@.len()
        == 6 && "ssh://"@.len() == 6 && "http://"@.len() == 7 && "https://"@.len() == 8);
    assert(!contains_text(none, "docker-desktop"@));
    assert(!contains_text(none, "rootless"@));
}

/// Of an address with a user in it neither the user nor the password is told, only the host.
pub proof fn law_users_of_addresses_are_not_told(
    scheme: Seq<char>,
    user: Seq<char>,
    host: Seq<char>,
)
    requires
        !scheme.contains(':'),
        !host.contains('@'),
    ensures
        redacted_endpoint(scheme + "://"@ + user + "@"@ + host) == scheme + "://[redacted]@"@
            + host,
{
    let rest = user + "@"@ + host;
    let value = scheme + "://"@ + user + "@"@ + host;
    assert(value =~= scheme + "://"@ + rest);
    lemma_scheme_is_cut_off(scheme, rest);
    lemma_host_is_cut_off(user, host);
}

proof fn lemma_scheme_is_cut_off(scheme: Seq<char>, rest: Seq<char>)
    requires
        !scheme.contains(':'),
    ensures
        split_once(scheme + "://"@ + rest, "://"@) == Some((scheme, rest)),
{
    reveal_strlit("://");
    assert("://"@.len() == 3 && "://"@[0] == ':');
    lemma_first_mark_cuts(scheme, "://"@, rest);
}

#[verifier::spinoff_prover]
proof fn lemma_first_mark_cuts(front: Seq<char>, mark: Seq<char>, rest: Seq<char>)
    requires
        mark.len() == 3,
        !front.contains(mark[0]),
    ensures
        split_once(front + mark + rest, mark) == Some((front, rest)),
{
    let value = front + mark + rest;
    let at = front.len() as int;
    lemma_find_from(value, mark, 0);
    assert(value.subrange(at, at + 3) =~= mark);
    assert(occurs_at(value, mark, at));
    assert(find(value, mark) is Some);
    let i = find(value, mark)->Some_0;
    assert(i >= at) by {
        if i < at {
            assert(value.subrange(i, i + 3)[0] == value[i]);
            assert(front[i] == mark[0]);
        }
    }
    assert(i == at);
    assert(value.take(at) =~= front);
    assert(value.skip(at + 3) =~= rest);
}

proof fn lemma_host_is_cut_off(user: Seq<char>, host: Seq<char>)
    requires
        !host.contains('@'),
    ensures
        rsplit_once(user + "@"@ + host, "@"@) == Some((user, host)),
{
    reveal_strlit("@");
    assert("@"@ =~= seq!['@']);
    let rest = user + "@"@ + host;
    let mark = user.len() as int;
    lemma_rfind_before(rest, "@"@, rest.len() as int + 1);
    assert(rest.subrange(mark, mark + 1) =~= "@"@);
    assert(occurs_at(rest, "@"@, mark));
    let j = rfind(rest, "@"@)->Some_0;
    if j > mark {
        assert(rest.subrange(j, j + 1)[0] == rest[j]);
        assert(host[j - mark - 1] == '@');
    }
    assert(rest.take(mark) =~= user);
    assert(rest.skip(mark + 1) =~= host);
}

/// An engine that answers is ready, in the version that it prints; one that does not is unavailable.
pub proof fn law_answering_engine_is_ready(output: ProcessOutputView)
    ensures
        output.status == Some(0i32) <==> probed(output) is Ready,
        probed(output) matches EngineProbeView::Ready { version } ==> (if trim(
            lenient_text(output.stdout),
        ).len() > 0 {
            version == trim(lenient_text(output.stdout))
        } else {
            version == "unknown"@
        }),
        probe_snapshot(probed(output)).ready == (output.status == Some(0i32)),
{
}

/// The host of a context is the address under `Endpoints`, `docker`, `Host`.
pub proof fn law_context_address_is_its_docker_host(
    endpoints: JsonView,
    docker: JsonView,
    context: JsonView,
    host: Seq<char>,
)
    requires
        context is Object,
        context.get("Endpoints"@) == Some(endpoints),
        endpoints.get("docker"@) == Some(docker),
        docker.get("Host"@) == Some(JsonView::Text(host)),
    ensures
        !has_control(host) ==> described_address(context) == Ok::<
            Option<Seq<char>>,
            WorkstateErrorView,
        >(Some(host)),
        !has_control(host) ==> described_address(JsonView::Array(seq![context])) == Ok::<
            Option<Seq<char>>,
            WorkstateErrorView,
        >(Some(host)),
        has_control(host) ==> described_address(context) is Err,
{
}

} // verus!
