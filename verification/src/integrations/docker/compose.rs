//! Compose projects: the commands that bring them up and down, and what Docker says of them.
use vstd::prelude::*;
use vstd::string::*;
use vstd::utf8::encode_utf8;
use crate::domain::{CommandSpec, CommandSpecView};
use crate::encoding::{lenient_text, text_from_utf8_lossy};
use crate::error::{error_from, error_of, seen, ErrorCategory, WorkstateError, WorkstateErrorView};
use crate::integrations::docker::errors::{
    compose_configuration_error, compose_failure, docker_failure,
};
use crate::integrations::docker::models::{health_from_label, health_of_label};
use crate::json::{json_document, parse_json, Json, JsonView};
use crate::paths::{
    file_name, has_parent_step, joined_path, law_path_goes_on_from_its_directory, path_file_name,
    path_has_parent_step, path_join, path_names,
};
use crate::ports::{
    DockerComposeObservation, DockerComposeObservationView, DockerComposeRequest,
    DockerComposeRequestView, DockerComposeServiceSnapshot, DockerComposeServiceSnapshotView,
    DockerComposeSnapshot, DockerComposeSnapshotView, DockerContainerState,
    DockerContainerStateView, ProcessOutput, ProcessOutputView, ProcessRequest, ProcessRequestView,
};
use crate::text::{
    contains_text, has_control, has_prefix, is_blank, lines, lower, same_text, text_contains,
    text_has_control, text_lines, text_lower, text_starts_with, text_trim, trim,
};
use crate::values::{append, append_all, append_text, empty_list, list_of, Replicate};

verus! {

// ---------------------------------------------------------------------------------------------
// Commands
// ---------------------------------------------------------------------------------------------
/// How a Compose operation is run: by a command of its own, by the Docker program with these arguments, or by a process of the standalone program.
#[derive(Debug)]
pub enum ComposeInvocation {
    Custom(CommandSpec),
    Docker(Vec<String>),
    Standalone(ProcessRequest),
}

/// What a `ComposeInvocation` stands for.
#[verifier::ext_equal]
pub enum ComposeInvocationView {
    Custom(CommandSpecView),
    Docker(Seq<Seq<char>>),
    Standalone(ProcessRequestView),
}

impl View for ComposeInvocation {
    type V = ComposeInvocationView;

    open spec fn view(&self) -> ComposeInvocationView {
        match self {
            ComposeInvocation::Custom(value) => ComposeInvocationView::Custom(value.deep_view()),
            ComposeInvocation::Docker(value) => ComposeInvocationView::Docker(value.deep_view()),
            ComposeInvocation::Standalone(value) => ComposeInvocationView::Standalone(value.deep_view()),
        }
    }
}

impl DeepView for ComposeInvocation {
    type V = ComposeInvocationView;

    open spec fn deep_view(&self) -> ComposeInvocationView {
        self.view()
    }
}

impl Replicate for ComposeInvocation {
    fn replicate(&self) -> (r: Self) {
        match self {
            ComposeInvocation::Custom(value) => ComposeInvocation::Custom(value.replicate()),
            ComposeInvocation::Docker(value) => ComposeInvocation::Docker(value.replicate()),
            ComposeInvocation::Standalone(value) => ComposeInvocation::Standalone(value.replicate()),
        }
    }
}

/// How Compose is called: through the Docker program, or through a program of its own.
#[derive(Debug, Clone, PartialEq, Eq)]
pub struct DockerComposeController {
    pub standalone_executable: Option<String>,
}

/// What a `DockerComposeController` stands for.
#[verifier::ext_equal]
pub struct DockerComposeControllerView {
    pub standalone_executable: Option<Seq<char>>,
}

impl View for DockerComposeController {
    type V = DockerComposeControllerView;

    open spec fn view(&self) -> DockerComposeControllerView {
        DockerComposeControllerView {
            standalone_executable: self.standalone_executable.deep_view(),
        }
    }
}

impl DeepView for DockerComposeController {
    type V = DockerComposeControllerView;

    open spec fn deep_view(&self) -> DockerComposeControllerView {
        self.view()
    }
}

impl Replicate for DockerComposeController {
    fn replicate(&self) -> (r: Self) {
        DockerComposeController {
            standalone_executable: self.standalone_executable.replicate(),
        }
    }
}

/// The path of the Compose file of a request: no control characters, not relative to the home
/// directory, and no step up.
pub open spec fn compose_file_path(working_directory: Seq<char>, file: Seq<char>) -> Result<
    Seq<char>,
    WorkstateErrorView,
> {
    let candidate = joined_path(working_directory, file);
    if file.len() == 0 || has_control(file) {
        Err(
            error_of(
                ErrorCategory::Integration,
                "Compose file paths must be non-empty and contain no control characters"@,
            ),
        )
    } else if has_prefix(file, "~/"@) || has_prefix(file, "$HOME/"@) || file == "~"@ {
        Err(
            error_of(
                ErrorCategory::Integration,
                "home-relative Compose file paths must be resolved before building the Docker request"@,
            ),
        )
    } else if has_parent_step(candidate) {
        Err(
            error_of(
                ErrorCategory::Integration,
                "Compose file paths must not contain parent-directory traversal"@,
            ),
        )
    } else {
        Ok(candidate)
    }
}

/// The path of the Compose file of a request.
pub fn resolve_compose_file(working_directory: &str, file: &str) -> (r: Result<
    String,
    WorkstateError,
>)
    ensures
        seen(r) == compose_file_path(working_directory@, file@),
{
    if file.is_empty() || text_has_control(file) {
        return Err(
            compose_configuration_error(
                "Compose file paths must be non-empty and contain no control characters",
            ),
        );
    }
    if text_starts_with(file, "~/") || text_starts_with(file, "$HOME/") || same_text(file, "~") {
        return Err(
            compose_configuration_error(
                "home-relative Compose file paths must be resolved before building the Docker request",
            ),
        );
    }
    let candidate = path_join(working_directory, file);
    if path_has_parent_step(candidate.as_str()) {
        return Err(
            compose_configuration_error(
                "Compose file paths must not contain parent-directory traversal",
            ),
        );
    }
    Ok(candidate)
}

/// A flag that would destroy what `down` is not asked to destroy.
pub open spec fn is_destructive_flag(text: Seq<char>) -> bool {
    text == "--volumes"@ || text == "-v"@ || text == "--rmi"@ || text == "--remove-orphans"@
}

/// A command that holds such a flag, as an argument or anywhere in its program.
pub open spec fn is_destructive(command: CommandSpecView) -> bool {
    ||| exists|i: int|
        0 <= i < command.arguments.len() && is_destructive_flag(#[trigger] command.arguments[i])
    ||| contains_text(command.program, "--volumes"@)
    ||| contains_text(command.program, "-v"@)
    ||| contains_text(command.program, "--rmi"@)
    ||| contains_text(command.program, "--remove-orphans"@)
}

/// The error of a `down` command that would destroy more than the project.
pub open spec fn destructive_error() -> WorkstateErrorView {
    error_of(
        ErrorCategory::Integration,
        "destructive Docker Compose cleanup flags are not allowed"@,
    )
}

/// Refuses a `down` command that would destroy more than the project.
pub fn reject_destructive_down_command(command: &CommandSpec) -> (r: Result<(), WorkstateError>)
    ensures
        seen(r) == (if is_destructive(command@) {
            Err(destructive_error())
        } else {
            Ok(())
        }),
{
    let mut found = false;
    let mut i: usize = 0;
    while i < command.arguments.len()
        invariant
            i <= command.arguments@.len(),
            found == (exists|k: int|
                0 <= k < i && is_destructive_flag(#[trigger] command@.arguments[k])),
        decreases command.arguments@.len() - i,
    {
        let argument = command.arguments[i].as_str();
        assert(command@.arguments[i as int] == argument@);
        if same_text(argument, "--volumes") || same_text(argument, "-v") || same_text(
            argument,
            "--rmi",
        ) || same_text(argument, "--remove-orphans") {
            assert(is_destructive_flag(command@.arguments[i as int]));
            found = true;
        }
        i = i + 1;
    }
    let program = command.program.as_str();
    if found || text_contains(program, "--volumes") || text_contains(program, "-v") || text_contains(
        program,
        "--rmi",
    ) || text_contains(program, "--remove-orphans") {
        Err(
            WorkstateError::new(
                ErrorCategory::Integration,
                "destructive Docker Compose cleanup flags are not allowed",
            ),
        )
    } else {
        Ok(())
    }
}

impl DockerComposeControllerView {
    /// The arguments of a Compose operation.
    pub open spec fn arguments(
        self,
        request: DockerComposeRequestView,
        operation: Seq<Seq<char>>,
    ) -> Result<Seq<Seq<char>>, WorkstateErrorView> {
        let prefix = if self.standalone_executable is Some {
            Seq::empty()
        } else {
            seq!["compose"@]
        };
        match request.specification.compose_file {
            None => Ok(prefix + operation),
            Some(file) => match compose_file_path(request.working_directory, file) {
                Err(error) => Err(error),
                Ok(path) => Ok(prefix + seq!["--file"@, path] + operation),
            },
        }
    }

    /// How a Compose operation with these arguments is run.
    pub open spec fn invocation(
        self,
        working_directory: Seq<char>,
        arguments: Seq<Seq<char>>,
    ) -> ComposeInvocationView {
        match self.standalone_executable {
            None => ComposeInvocationView::Docker(arguments),
            Some(program) => ComposeInvocationView::Standalone(
                ProcessRequestView {
                    program,
                    arguments,
                    working_directory: Some(working_directory),
                    environment: Seq::empty(),
                },
            ),
        }
    }

    /// How an operation that is given by its words is run.
    pub open spec fn operation(
        self,
        request: DockerComposeRequestView,
        words: Seq<Seq<char>>,
    ) -> Result<ComposeInvocationView, WorkstateErrorView> {
        match self.arguments(request, words) {
            Err(error) => Err(error),
            Ok(arguments) => Ok(self.invocation(request.working_directory, arguments)),
        }
    }

    /// What lists the services of a project, the stopped ones too.
    pub open spec fn list(self, request: DockerComposeRequestView) -> Result<
        ComposeInvocationView,
        WorkstateErrorView,
    > {
        self.operation(request, seq!["ps"@, "--all"@, "--format"@, "json"@])
    }

    /// How a project is brought up.
    pub open spec fn up(self, request: DockerComposeRequestView) -> Result<
        ComposeInvocationView,
        WorkstateErrorView,
    > {
        match request.specification.up_command {
            Some(command) => Ok(ComposeInvocationView::Custom(command)),
            None => self.operation(
                request,
                seq!["up"@, "--detach"@] + request.specification.services,
            ),
        }
    }

    /// How a project is taken down.
    pub open spec fn down(self, request: DockerComposeRequestView) -> Result<
        ComposeInvocationView,
        WorkstateErrorView,
    > {
        match request.specification.down_command {
            Some(command) => if is_destructive(command) {
                Err(destructive_error())
            } else {
                Ok(ComposeInvocationView::Custom(command))
            },
            None => self.operation(request, seq!["down"@]),
        }
    }
}

impl DockerComposeController {
    /// Calls Compose through the given program, or through the Docker program.
    pub fn new(standalone_executable: Option<String>) -> (r: Self)
        ensures
            r@.standalone_executable == standalone_executable.deep_view(),
    {
        DockerComposeController { standalone_executable }
    }

    fn operation(&self, request: &DockerComposeRequest, words: Vec<String>) -> (r: Result<
        ComposeInvocation,
        WorkstateError,
    >)
        ensures
            seen(r) == self@.operation(request@, words.deep_view()),
    {
        let mut arguments: Vec<String> = empty_list();
        if self.standalone_executable.is_none() {
            append_text(&mut arguments, "compose");
        }
        let ghost prefix = arguments.deep_view();
        assert(prefix =~= if self@.standalone_executable is Some {
            Seq::empty()
        } else {
            seq!["compose"@]
        });
        if let Some(file) = &request.specification.compose_file {
            match resolve_compose_file(request.working_directory.as_str(), file.as_str()) {
                Err(error) => {
                    return Err(error);
                },
                Ok(path) => {
                    append_text(&mut arguments, "--file");
                    append(&mut arguments, path);
                    assert(arguments.deep_view() =~= prefix + seq!["--file"@, path@]);
                },
            }
        }
        append_all(&mut arguments, words);
        match &self.standalone_executable {
            None => Ok(ComposeInvocation::Docker(arguments)),
            Some(program) => Ok(
                ComposeInvocation::Standalone(
                    ProcessRequest {
                        program: program.clone(),
                        arguments,
                        working_directory: Some(request.working_directory.clone()),
                        environment: empty_list(),
                    },
                ),
            ),
        }
    }

    /// How the services of a project are listed.
    pub fn list(&self, request: &DockerComposeRequest) -> (r: Result<
        ComposeInvocation,
        WorkstateError,
    >)
        ensures
            seen(r) == self@.list(request@),
    {
        self.operation(request, crate::values::text_list4("ps", "--all", "--format", "json"))
    }

    /// How a project is brought up.
    pub fn up(&self, request: &DockerComposeRequest) -> (r: Result<
        ComposeInvocation,
        WorkstateError,
    >)
        ensures
            seen(r) == self@.up(request@),
    {
        if let Some(command) = &request.specification.up_command {
            return Ok(ComposeInvocation::Custom(command.replicate()));
        }
        let mut words = crate::values::text_list2("up", "--detach");
        append_all(&mut words, request.specification.services.replicate());
        self.operation(request, words)
    }

    /// How a project is taken down.
    pub fn down(&self, request: &DockerComposeRequest) -> (r: Result<
        ComposeInvocation,
        WorkstateError,
    >)
        ensures
            seen(r) == self@.down(request@),
    {
        if let Some(command) = &request.specification.down_command {
            return match reject_destructive_down_command(command) {
                Err(error) => Err(error),
                Ok(()) => Ok(ComposeInvocation::Custom(command.replicate())),
            };
        }
        self.operation(request, crate::values::text_list("down"))
    }

    /// What the list of the services says of a project.
    pub fn observe(&self, request: &DockerComposeRequest, output: &ProcessOutput) -> (r: Result<
        DockerComposeObservation,
        WorkstateError,
    >)
        ensures
            seen(r) == project_observed(request@.working_directory, output@),
    {
        if !output.succeeded() {
            return if is_missing_project(output) {
                Ok(DockerComposeObservation::Missing)
            } else {
                Err(compose_failure("inspect Compose project", output))
            };
        }
        assert(output.stdout.deep_view() =~= output.stdout@);
        match parse_services(output.stdout.as_slice()) {
            Err(error) => Err(error),
            Ok(parsed) => {
                if parsed.services.len() == 0 {
                    return Ok(DockerComposeObservation::Missing);
                }
                match project_name(request.working_directory.as_str(), &parsed.project_name) {
                    Err(error) => Err(error),
                    Ok(name) => Ok(
                        DockerComposeObservation::Present(
                            DockerComposeSnapshot {
                                project_name: name,
                                working_directory: request.working_directory.clone(),
                                services: parsed.services,
                            },
                        ),
                    ),
                }
            },
        }
    }
}

/// Whatever takes a project down, it holds no flag that would destroy more than the project.
pub proof fn law_down_is_not_destructive(
    controller: DockerComposeControllerView,
    request: DockerComposeRequestView,
)
    ensures
        controller.down(request) matches Ok(invocation) ==> match invocation {
            ComposeInvocationView::Custom(command) => !is_destructive(command),
            ComposeInvocationView::Docker(arguments) => arguments.last() == "down"@,
            ComposeInvocationView::Standalone(process) => process.arguments.last() == "down"@,
        },
{
}

// ---------------------------------------------------------------------------------------------
// What Docker says of a project
// ---------------------------------------------------------------------------------------------
/// A failure that says that there is nothing to be found.
pub open spec fn says_missing_project(output: ProcessOutputView) -> bool {
    let text = lower(lenient_text(output.stderr));
    ||| contains_text(text, "no such service"@)
    ||| contains_text(text, "no container"@)
    ||| contains_text(text, "not found"@)
    ||| contains_text(text, "does not exist"@)
}

/// Whether a failure says that there is nothing to be found.
pub fn is_missing_project(output: &ProcessOutput) -> (r: bool)
    ensures
        r == says_missing_project(output@),
{
    assert(output.stderr.deep_view() =~= output.stderr@);
    let lowered = text_lower(text_from_utf8_lossy(output.stderr.as_slice()).as_str());
    let text = lowered.as_str();
    text_contains(text, "no such service") || text_contains(text, "no container") || text_contains(
        text,
        "not found",
    ) || text_contains(text, "does not exist")
}

/// The name of a project: the one that was observed, else the name of its directory.
pub open spec fn named_project(working_directory: Seq<char>, observed: Option<Seq<char>>) -> Result<
    Seq<char>,
    WorkstateErrorView,
> {
    if observed matches Some(name) && name.len() > 0 {
        Ok(observed->Some_0)
    } else {
        match file_name(working_directory) {
            Some(name) => Ok(name),
            None => Err(
                error_of(
                    ErrorCategory::Integration,
                    "the Compose working directory does not provide a default project name"@,
                ),
            ),
        }
    }
}

/// The name of a project.
pub fn project_name(working_directory: &str, observed: &Option<String>) -> (r: Result<
    String,
    WorkstateError,
>)
    ensures
        seen(r) == named_project(working_directory@, observed.deep_view()),
{
    if let Some(name) = observed {
        if !name.as_str().is_empty() {
            return Ok(name.clone());
        }
    }
    match path_file_name(working_directory) {
        Some(name) => Ok(name),
        None => Err(
            compose_configuration_error(
                "the Compose working directory does not provide a default project name",
            ),
        ),
    }
}

/// The state that a label stands for, whatever the case of its letters.
pub open spec fn state_of_label(label: Option<Seq<char>>) -> DockerContainerStateView {
    let text = lower(
        match label {
            Some(text) => text,
            None => ""@,
        },
    );
    if text == "created"@ {
        DockerContainerStateView::Created
    } else if text == "running"@ {
        DockerContainerStateView::Running
    } else if text == "paused"@ {
        DockerContainerStateView::Paused
    } else if text == "restarting"@ {
        DockerContainerStateView::Restarting
    } else if text == "exited"@ {
        DockerContainerStateView::Exited
    } else if text == "dead"@ {
        DockerContainerStateView::Dead
    } else {
        DockerContainerStateView::Unknown(text)
    }
}

/// The state that a label stands for, whatever the case of its letters.
pub fn parse_container_state(value: &Option<String>) -> (r: DockerContainerState)
    ensures
        r@ == state_of_label(value.deep_view()),
{
    let text = match value {
        Some(text) => text_lower(text.as_str()),
        None => text_lower(""),
    };
    if same_text(text.as_str(), "created") {
        DockerContainerState::Created
    } else if same_text(text.as_str(), "running") {
        DockerContainerState::Running
    } else if same_text(text.as_str(), "paused") {
        DockerContainerState::Paused
    } else if same_text(text.as_str(), "restarting") {
        DockerContainerState::Restarting
    } else if same_text(text.as_str(), "exited") {
        DockerContainerState::Exited
    } else if same_text(text.as_str(), "dead") {
        DockerContainerState::Dead
    } else {
        DockerContainerState::Unknown(text)
    }
}

/// The text under the first of the keys that holds one without control characters.
pub open spec fn clean_text_under(value: JsonView, keys: Seq<Seq<char>>) -> Option<Seq<char>>
    decreases keys.len(),
{
    if keys.len() == 0 {
        None
    } else {
        match value.get(keys[0]) {
            Some(JsonView::Text(text)) if !has_control(text) => Some(text),
            _ => clean_text_under(value, keys.drop_first()),
        }
    }
}

fn json_string_optional(value: &Json, keys: &Vec<String>) -> (r: Option<String>)
    ensures
        r.deep_view() == clean_text_under(value@, keys.deep_view()),
{
    let ghost all = keys.deep_view();
    let mut i: usize = 0;
    assert(all.skip(0) =~= all);
    while i < keys.len()
        invariant
            i <= keys@.len(),
            all == keys.deep_view(),
            clean_text_under(value@, all) == clean_text_under(value@, all.skip(i as int)),
        decreases keys@.len() - i,
    {
        assert(all.skip(i as int)[0] == keys@[i as int]@);
        assert(all.skip(i as int).drop_first() =~= all.skip(i as int + 1));
        if let Some(found) = value.get(keys[i].as_str()) {
            if let Some(text) = found.as_text() {
                if !text_has_control(text.as_str()) {
                    return Some(text);
                }
            }
        }
        i = i + 1;
    }
    None
}

/// The services that a list holds, and the project that it names.
#[derive(Debug, Clone, PartialEq, Eq)]
pub struct ParsedComposeServices {
    pub services: Vec<DockerComposeServiceSnapshot>,
    pub project_name: Option<String>,
}

/// What a `ParsedComposeServices` stands for.
#[verifier::ext_equal]
pub struct ParsedComposeServicesView {
    pub services: Seq<DockerComposeServiceSnapshotView>,
    pub project_name: Option<Seq<char>>,
}

impl View for ParsedComposeServices {
    type V = ParsedComposeServicesView;

    open spec fn view(&self) -> ParsedComposeServicesView {
        ParsedComposeServicesView {
            services: self.services.deep_view(),
            project_name: self.project_name.deep_view(),
        }
    }
}

impl DeepView for ParsedComposeServices {
    type V = ParsedComposeServicesView;

    open spec fn deep_view(&self) -> ParsedComposeServicesView {
        self.view()
    }
}

impl Replicate for ParsedComposeServices {
    fn replicate(&self) -> (r: Self) {
        ParsedComposeServices {
            services: self.services.replicate(),
            project_name: self.project_name.replicate(),
        }
    }
}

/// The error of a service without a name.
pub open spec fn unnamed_service() -> WorkstateErrorView {
    error_of(
        ErrorCategory::Integration,
        "Docker Compose service data omitted its service name"@,
    )
}

/// The service that a JSON object describes.
pub open spec fn service_of(value: JsonView) -> Result<
    DockerComposeServiceSnapshotView,
    WorkstateErrorView,
> {
    match clean_text_under(value, seq!["Service"@, "service"@, "Name"@, "name"@]) {
        Some(name) if name.len() > 0 => Ok(
            DockerComposeServiceSnapshotView {
                name,
                container_id: clean_text_under(
                    value,
                    seq!["ID"@, "id"@, "ContainerID"@, "container_id"@],
                ),
                state: state_of_label(clean_text_under(value, seq!["State"@, "state"@])),
                health: health_of_label(clean_text_under(value, seq!["Health"@, "health"@])),
            },
        ),
        _ => Err(unnamed_service()),
    }
}

/// The service that a JSON object describes.
pub fn parse_service(value: &Json) -> (r: Result<DockerComposeServiceSnapshot, WorkstateError>)
    ensures
        seen(r) == service_of(value@),
{
    let name_keys = crate::values::text_list4("Service", "service", "Name", "name");
    let id_keys = crate::values::text_list4("ID", "id", "ContainerID", "container_id");
    let state_keys = crate::values::text_list2("State", "state");
    let health_keys = crate::values::text_list2("Health", "health");
    if let Some(name) = json_string_optional(value, &name_keys) {
        if !name.as_str().is_empty() {
            let health_label = json_string_optional(value, &health_keys);
            let health = match &health_label {
                Some(text) => health_from_label(Some(text.as_str())),
                None => health_from_label(None),
            };
            return Ok(
                DockerComposeServiceSnapshot {
                    name,
                    container_id: json_string_optional(value, &id_keys),
                    state: parse_container_state(&json_string_optional(value, &state_keys)),
                    health,
                },
            );
        }
    }
    Err(
        compose_configuration_error("Docker Compose service data omitted its service name"),
    )
}

/// The services that the values describe, up to the first that describes none.
pub open spec fn services_of(values: Seq<JsonView>) -> Result<
    Seq<DockerComposeServiceSnapshotView>,
    WorkstateErrorView,
>
    decreases values.len(),
{
    if values.len() == 0 {
        Ok(Seq::empty())
    } else {
        match services_of(values.drop_last()) {
            Err(error) => Err(error),
            Ok(services) => match service_of(values.last()) {
                Err(error) => Err(error),
                Ok(service) => Ok(services.push(service)),
            },
        }
    }
}

/// The first project that one of the values names.
pub open spec fn project_of(values: Seq<JsonView>) -> Option<Seq<char>>
    decreases values.len(),
{
    if values.len() == 0 {
        None
    } else {
        match project_of(values.drop_last()) {
            Some(name) => Some(name),
            None => clean_text_under(values.last(), seq!["Project"@, "project"@]),
        }
    }
}

/// The values of a list; an object is a list of one.
pub open spec fn listed_values(value: JsonView) -> Result<Seq<JsonView>, WorkstateErrorView> {
    match value {
        JsonView::Array(items) => Ok(items),
        JsonView::Object(_) => Ok(seq![value]),
        _ => Err(
            error_of(
                ErrorCategory::Integration,
                "Docker Compose returned an unexpected JSON value"@,
            ),
        ),
    }
}

/// The services and the project of a list.
pub open spec fn list_parsed(value: JsonView) -> Result<
    ParsedComposeServicesView,
    WorkstateErrorView,
> {
    match listed_values(value) {
        Err(error) => Err(error),
        Ok(values) => match services_of(values) {
            Err(error) => Err(error),
            Ok(services) => Ok(
                ParsedComposeServicesView { services, project_name: project_of(values) },
            ),
        },
    }
}

/// The services and the project of a list.
pub fn parse_service_value(value: &Json) -> (r: Result<ParsedComposeServices, WorkstateError>)
    ensures
        seen(r) == list_parsed(value@),
{
    let project_keys = crate::values::text_list2("Project", "project");
    match value {
        Json::Array(items) => {
            let ghost all = value@->Array_0;
            let mut services: Vec<DockerComposeServiceSnapshot> = empty_list();
            let mut project: Option<String> = None;
            let mut failure: Option<WorkstateError> = None;
            let mut i: usize = 0;
            assert(all.take(0) =~= Seq::<JsonView>::empty());
            while i < items.len()
                invariant
                    i <= items@.len(),
                    value@ == JsonView::Array(all),
                    all.len() == items@.len(),
                    forall|k: int| 0 <= k < items@.len() ==> #[trigger] all[k] == items@[k]@,
                    project_keys.deep_view() == seq!["Project"@, "project"@],
                    project.deep_view() == project_of(all.take(i as int)),
                    services_of(all.take(i as int)) == (match failure {
                        Some(error) => Err::<
                            Seq<DockerComposeServiceSnapshotView>,
                            WorkstateErrorView,
                        >(error@),
                        None => Ok::<
                            Seq<DockerComposeServiceSnapshotView>,
                            WorkstateErrorView,
                        >(services.deep_view()),
                    }),
                decreases items@.len() - i,
            {
                assert(all.take(i as int + 1).drop_last() =~= all.take(i as int));
                assert(all[i as int] == items@[i as int]@);
                if project.is_none() {
                    project = json_string_optional(&items[i], &project_keys);
                }
                if failure.is_none() {
                    match parse_service(&items[i]) {
                        Err(error) => {
                            failure = Some(error);
                        },
                        Ok(service) => {
                            append(&mut services, service);
                        },
                    }
                }
                i = i + 1;
            }
            assert(all.take(i as int) =~= all);
            match failure {
                Some(error) => Err(error),
                None => Ok(ParsedComposeServices { services, project_name: project }),
            }
        },
        Json::Object(_) => {
            proof {
                reveal_with_fuel(services_of, 2);
                reveal_with_fuel(project_of, 2);
                assert(seq![value@].drop_last() =~= Seq::<JsonView>::empty());
                assert(Seq::<DockerComposeServiceSnapshotView>::empty().push(
                    service_of(value@)->Ok_0,
                ) =~= seq![service_of(value@)->Ok_0]);
            }
            let project = json_string_optional(value, &project_keys);
            match parse_service(value) {
                Err(error) => Err(error),
                Ok(service) => Ok(
                    ParsedComposeServices { services: list_of(service), project_name: project },
                ),
            }
        },
        _ => Err(
            compose_configuration_error("Docker Compose returned an unexpected JSON value"),
        ),
    }
}

/// The documents that stand on the lines, up to the first line that holds none, and the text of the
/// error of that line.
pub open spec fn line_documents(all: Seq<Seq<char>>) -> (Seq<JsonView>, Option<Seq<char>>)
    decreases all.len(),
{
    if all.len() == 0 {
        (Seq::empty(), None)
    } else {
        let (documents, failure) = line_documents(all.drop_last());
        if failure is Some || is_blank(all.last()) {
            (documents, failure)
        } else {
            match json_document(encode_utf8(all.last())) {
                Ok(value) => (documents.push(value), None),
                Err(text) => (documents, Some(text)),
            }
        }
    }
}

/// The services of several lists together, and the first project that one of them names; the first
/// list that cannot be read ends it.
pub open spec fn lists_parsed(documents: Seq<JsonView>) -> Result<
    ParsedComposeServicesView,
    WorkstateErrorView,
>
    decreases documents.len(),
{
    if documents.len() == 0 {
        Ok(ParsedComposeServicesView { services: Seq::empty(), project_name: None })
    } else {
        match lists_parsed(documents.drop_last()) {
            Err(error) => Err(error),
            Ok(before) => match list_parsed(documents.last()) {
                Err(error) => Err(error),
                Ok(parsed) => Ok(
                    ParsedComposeServicesView {
                        services: before.services + parsed.services,
                        project_name: if before.project_name is Some {
                            before.project_name
                        } else {
                            parsed.project_name
                        },
                    },
                ),
            },
        }
    }
}

/// The services of several lists, where the line behind them may have held no document.
pub open spec fn documents_parsed(documents: Seq<JsonView>, failure: Option<Seq<char>>) -> Result<
    ParsedComposeServicesView,
    WorkstateErrorView,
> {
    match lists_parsed(documents) {
        Err(error) => Err(error),
        Ok(parsed) => match failure {
            None => Ok(parsed),
            Some(text) => Err(
                error_from(
                    ErrorCategory::Integration,
                    "Docker Compose returned malformed service data"@,
                    text,
                ),
            ),
        },
    }
}

/// The services of several lists, where the line behind them may have held no document.
pub fn parse_documents(documents: &Vec<Json>, failure: &Option<String>) -> (r: Result<
    ParsedComposeServices,
    WorkstateError,
>)
    ensures
        seen(r) == documents_parsed(documents.deep_view(), failure.deep_view()),
{
    let ghost all = documents.deep_view();
    let mut services: Vec<DockerComposeServiceSnapshot> = empty_list();
    let mut project: Option<String> = None;
    let mut failed: Option<WorkstateError> = None;
    let mut i: usize = 0;
    assert(all.take(0) =~= Seq::<JsonView>::empty());
    while i < documents.len()
        invariant
            i <= documents@.len(),
            all == documents.deep_view(),
            lists_parsed(all.take(i as int)) == (match failed {
                Some(error) => Err::<ParsedComposeServicesView, WorkstateErrorView>(error@),
                None => Ok::<ParsedComposeServicesView, WorkstateErrorView>(
                    ParsedComposeServicesView {
                        services: services.deep_view(),
                        project_name: project.deep_view(),
                    },
                ),
            }),
        decreases documents@.len() - i,
    {
        assert(all.take(i as int + 1).drop_last() =~= all.take(i as int));
        assert(all[i as int] == documents@[i as int]@);
        if failed.is_none() {
            match parse_service_value(&documents[i]) {
                Err(error) => {
                    failed = Some(error);
                },
                Ok(parsed) => {
                    append_all(&mut services, parsed.services);
                    if project.is_none() {
                        project = parsed.project_name;
                    }
                },
            }
        }
        i = i + 1;
    }
    assert(all.take(i as int) =~= all);
    if let Some(error) = failed {
        return Err(error);
    }
    match failure {
        Some(text) => Err(
            WorkstateError::with_source(
                ErrorCategory::Integration,
                "Docker Compose returned malformed service data",
                text.as_str(),
            ),
        ),
        None => Ok(ParsedComposeServices { services, project_name: project }),
    }
}

/// The services that the output of the list holds: nothing, one document, or one on each line.
pub open spec fn output_parsed(bytes: Seq<u8>) -> Result<
    ParsedComposeServicesView,
    WorkstateErrorView,
> {
    let text = trim(lenient_text(bytes));
    if text.len() == 0 {
        Ok(ParsedComposeServicesView { services: Seq::empty(), project_name: None })
    } else {
        match json_document(encode_utf8(text)) {
            Ok(value) => list_parsed(value),
            Err(_) => documents_parsed(
                line_documents(lines(text)).0,
                line_documents(lines(text)).1,
            ),
        }
    }
}

/// The services that the output of the list holds.
pub fn parse_services(bytes: &[u8]) -> (r: Result<ParsedComposeServices, WorkstateError>)
    ensures
        seen(r) == output_parsed(bytes@),
{
    let text = text_trim(text_from_utf8_lossy(bytes).as_str());
    if text.as_str().is_empty() {
        return Ok(ParsedComposeServices { services: empty_list(), project_name: None });
    }
    if let Ok(value) = parse_json(text.as_str().as_bytes()) {
        return parse_service_value(&value);
    }
    let all = text_lines(text.as_str());
    let ghost view = all.deep_view();
    let mut documents: Vec<Json> = empty_list();
    let mut failure: Option<String> = None;
    let mut i: usize = 0;
    assert(view.take(0) =~= Seq::<Seq<char>>::empty());
    while i < all.len()
        invariant
            i <= all@.len(),
            view == all.deep_view(),
            line_documents(view.take(i as int)) == (documents.deep_view(), failure.deep_view()),
        decreases all@.len() - i,
    {
        assert(view.take(i as int + 1).drop_last() =~= view.take(i as int));
        assert(view[i as int] == all@[i as int]@);
        if failure.is_none() && !text_trim(all[i].as_str()).as_str().is_empty() {
            match parse_json(all[i].as_str().as_bytes()) {
                Ok(value) => {
                    append(&mut documents, value);
                },
                Err(text) => {
                    failure = Some(text);
                },
            }
        }
        i = i + 1;
    }
    assert(view.take(i as int) =~= view);
    parse_documents(&documents, &failure)
}

/// What the list of the services says of a project.
pub open spec fn project_observed(working_directory: Seq<char>, output: ProcessOutputView) -> Result<
    DockerComposeObservationView,
    WorkstateErrorView,
> {
    if !output.success() {
        if says_missing_project(output) {
            Ok(DockerComposeObservationView::Missing)
        } else {
            Err(docker_failure("inspect Compose project"@, output))
        }
    } else {
        match output_parsed(output.stdout) {
            Err(error) => Err(error),
            Ok(parsed) => if parsed.services.len() == 0 {
                Ok(DockerComposeObservationView::Missing)
            } else {
                match named_project(working_directory, parsed.project_name) {
                    Err(error) => Err(error),
                    Ok(project_name) => Ok(
                        DockerComposeObservationView::Present(
                            DockerComposeSnapshotView {
                                project_name,
                                working_directory,
                                services: parsed.services,
                            },
                        ),
                    ),
                }
            },
        }
    }
}

/// The words that an invocation of Compose is made with, where it is no command of its own.
pub open spec fn compose_words(invocation: ComposeInvocationView) -> Seq<Seq<char>> {
    match invocation {
        ComposeInvocationView::Custom(_) => Seq::empty(),
        ComposeInvocationView::Docker(arguments) => arguments,
        ComposeInvocationView::Standalone(process) => process.arguments,
    }
}

/// The invocation is of the program that stands for Compose, in the directory of the project: of the
/// separate executable where there is one, else of the `compose` command of Docker.
pub open spec fn runs_compose(
    controller: DockerComposeControllerView,
    request: DockerComposeRequestView,
    invocation: ComposeInvocationView,
) -> bool {
    match controller.standalone_executable {
        Some(program) => invocation matches ComposeInvocationView::Standalone(process)
            && process.program == program && process.working_directory == Some(
            request.working_directory,
        ) && process.environment.len() == 0,
        None => invocation is Docker && compose_words(invocation).len() > 0 && compose_words(
            invocation,
        )[0] == "compose"@,
    }
}

/// The words of an invocation name the file of the project, where it has one, and end with what is to
/// be done.
pub open spec fn asks_of_project(
    controller: DockerComposeControllerView,
    request: DockerComposeRequestView,
    invocation: ComposeInvocationView,
    ending: Seq<Seq<char>>,
) -> bool {
    let words = compose_words(invocation);
    let start = if controller.standalone_executable is Some {
        0int
    } else {
        1int
    };
    match request.specification.compose_file {
        None => words.len() == start + ending.len() && words.skip(start) == ending,
        Some(file) => words.len() == start + 2 + ending.len() && words[start] == "--file"@
            && leads_to(request.working_directory, file, words[start + 1]) && words.skip(start + 2)
            == ending,
    }
}

/// A path that leads to a file, seen from a directory.
pub open spec fn leads_to(directory: Seq<char>, file: Seq<char>, path: Seq<char>) -> bool {
    if file[0] == '/' {
        path == file
    } else {
        directory.len() > 0 ==> path_names(path) == path_names(directory) + path_names(file)
            && path[0] == directory[0]
    }
}

/// A project that has no command of its own is brought up by asking Compose for exactly the services
/// that are named, in their order, in the background; one that has such a command, by that command.
pub proof fn law_named_services_are_brought_up(
    controller: DockerComposeControllerView,
    request: DockerComposeRequestView,
)
    ensures
        request.specification.up_command matches Some(command) ==> controller.up(request) == Ok::<
            ComposeInvocationView,
            WorkstateErrorView,
        >(ComposeInvocationView::Custom(command)),
        request.specification.up_command is None ==> (controller.up(request) matches Ok(invocation)
            ==> runs_compose(controller, request, invocation) && asks_of_project(
            controller,
            request,
            invocation,
            seq!["up"@, "--detach"@] + request.specification.services,
        ) && forall|i: int|
            0 <= i < request.specification.services.len() ==> compose_words(invocation).contains(
                #[trigger] request.specification.services[i],
            )),
        request.specification.up_command is None && request.specification.compose_file is None
            ==> controller.up(request) is Ok,
{
    if request.specification.up_command is None {
        let ending = seq!["up"@, "--detach"@] + request.specification.services;
        lemma_asks_of_project(controller, request, ending);
        if let Ok(invocation) = controller.up(request) {
            let words = compose_words(invocation);
            assert forall|i: int|
                0 <= i < request.specification.services.len() implies words.contains(
                #[trigger] request.specification.services[i],
            ) by {
                assert(ending[i + 2] == request.specification.services[i]);
                let from = words.len() - ending.len();
                assert(words.skip(from)[i + 2] == words[from + i + 2]);
            }
        }
    }
}

/// A project that has no command of its own is taken down by asking Compose for that and nothing more.
pub proof fn law_project_is_taken_down(
    controller: DockerComposeControllerView,
    request: DockerComposeRequestView,
)
    ensures
        request.specification.down_command matches Some(command) ==> (controller.down(request)
            matches Ok(invocation) ==> invocation == ComposeInvocationView::Custom(command)),
        request.specification.down_command is None ==> (controller.down(request) matches Ok(
            invocation,
        ) ==> runs_compose(controller, request, invocation) && asks_of_project(
            controller,
            request,
            invocation,
            seq!["down"@],
        )),
        request.specification.down_command is None && request.specification.compose_file is None
            ==> controller.down(request) is Ok,
{
    lemma_asks_of_project(controller, request, seq!["down"@]);
}

/// What is taken down is what was brought up, and what is listed: the same program is asked, of the same
/// file, in the same directory.
pub proof fn law_one_project_is_meant(
    controller: DockerComposeControllerView,
    request: DockerComposeRequestView,
)
    requires
        request.specification.up_command is None,
        request.specification.down_command is None,
    ensures
        controller.up(request) is Ok <==> controller.down(request) is Ok,
        controller.up(request) is Ok <==> controller.list(request) is Ok,
        controller.up(request) matches Ok(up) ==> (controller.down(request) matches Ok(down) && (
        controller.list(request) matches Ok(list) && ({
            let start = compose_words(down).len() - 1;
            &&& compose_words(up).take(start) == compose_words(down).take(start)
            &&& compose_words(list).take(start) == compose_words(down).take(start)
            &&& compose_words(down).skip(start) == seq!["down"@]
            &&& compose_words(list).skip(start) == seq!["ps"@, "--all"@, "--format"@, "json"@]
        }))),
{
    lemma_asks_of_project(controller, request, seq!["down"@]);
    lemma_asks_of_project(controller, request, seq!["ps"@, "--all"@, "--format"@, "json"@]);
    lemma_asks_of_project(
        controller,
        request,
        seq!["up"@, "--detach"@] + request.specification.services,
    );
    if controller.up(request) is Ok {
        let up = compose_words(controller.up(request)->Ok_0);
        let down = compose_words(controller.down(request)->Ok_0);
        let list = compose_words(controller.list(request)->Ok_0);
        let start = down.len() - 1;
        assert(up.take(start) =~= down.take(start));
        assert(list.take(start) =~= down.take(start));
    }
}

proof fn lemma_asks_of_project(
    controller: DockerComposeControllerView,
    request: DockerComposeRequestView,
    ending: Seq<Seq<char>>,
)
    ensures
        controller.operation(request, ending) matches Ok(invocation) ==> runs_compose(
            controller,
            request,
            invocation,
        ) && asks_of_project(controller, request, invocation, ending),
        request.specification.compose_file is None ==> controller.operation(request, ending) is Ok,
{
    if let Ok(invocation) = controller.operation(request, ending) {
        let words = compose_words(invocation);
        let start = if controller.standalone_executable is Some {
            0int
        } else {
            1int
        };
        if let Some(file) = request.specification.compose_file {
            law_path_goes_on_from_its_directory(request.working_directory, file);
            assert(words.skip(start + 2) =~= ending);
        } else {
            assert(words.skip(start) =~= ending);
        }
    }
}

/// A file of the project that is named by a clean path, from the directory or from the root, is
/// accepted.
pub proof fn law_clean_compose_file_is_accepted(directory: Seq<char>, file: Seq<char>)
    requires
        file.len() > 0,
        !has_control(file),
        file[0] != '~',
        file[0] != '$',
        !path_names(directory).contains(".."@),
        !path_names(file).contains(".."@),
        directory.len() > 0,
    ensures
        compose_file_path(directory, file) matches Ok(path) && leads_to(directory, file, path),
{
    reveal_strlit("~/");
    reveal_strlit("$HOME/");
    reveal_strlit("~");
    law_path_goes_on_from_its_directory(directory, file);
    assert(!has_prefix(file, "~/"@)) by {
        if has_prefix(file, "~/"@) {
            assert(file.subrange(0, 2)[0] == file[0]);
        }
    }
    assert(!has_prefix(file, "$HOME/"@)) by {
        if has_prefix(file, "$HOME/"@) {
            assert(file.subrange(0, 6)[0] == file[0]);
        }
    }
    let names = path_names(joined_path(directory, file));
    if names.contains(".."@) {
        let k = choose|k: int| 0 <= k < names.len() && names[k] == ".."@;
        if file[0] != '/' {
            if k < path_names(directory).len() {
                assert(path_names(directory)[k] == ".."@);
            } else {
                assert(path_names(file)[k - path_names(directory).len()] == ".."@);
            }
        }
    }
}

proof fn lemma_services_of(values: Seq<JsonView>)
    ensures
        services_of(values) matches Ok(services) ==> services.len() == values.len() && forall|i: int|
            0 <= i < values.len() ==> service_of(values[i]) == Ok::<
                DockerComposeServiceSnapshotView,
                WorkstateErrorView,
            >(#[trigger] services[i]),
        (forall|i: int| 0 <= i < values.len() ==> service_of(#[trigger] values[i]) is Ok)
            ==> services_of(values) is Ok,
    decreases values.len(),
{
    if values.len() > 0 {
        let front = values.drop_last();
        assert(forall|i: int| 0 <= i < front.len() ==> #[trigger] front[i] == values[i]);
        assert(values[values.len() - 1] == values.last());
        lemma_services_of(front);
    }
}

/// A list of services is read whole and in its order: each entry gives one service, with the name, the
/// container and the state that stand under the keys that Compose writes.
pub proof fn law_listed_services_are_read(items: Seq<JsonView>)
    ensures
        list_parsed(JsonView::Array(items)) matches Ok(parsed) ==> parsed.services.len()
            == items.len() && forall|i: int|
            0 <= i < items.len() ==> ((items[i].get("Service"@) matches Some(JsonView::Text(name))
                && !has_control(name)) ==> (#[trigger] parsed.services[i]).name == (items[i].get(
                "Service"@,
            )->Some_0)->Text_0),
        list_parsed(JsonView::Array(items)) matches Ok(parsed) ==> forall|i: int|
            0 <= i < items.len() ==> ((items[i].get("ID"@) matches Some(JsonView::Text(id))
                && !has_control(id)) ==> (#[trigger] parsed.services[i]).container_id == Some(
                (items[i].get("ID"@)->Some_0)->Text_0,
            )),
        list_parsed(JsonView::Array(items)) matches Ok(parsed) ==> forall|i: int|
            0 <= i < items.len() ==> (items[i].get("State"@) == Some(
                JsonView::Text("running"@),
            ) ==> (#[trigger] parsed.services[i]).state == DockerContainerStateView::Running),
        list_parsed(JsonView::Array(items)) matches Ok(parsed) ==> forall|i: int|
            0 <= i < items.len() ==> (items[i].get("State"@) == Some(
                JsonView::Text("exited"@),
            ) ==> (#[trigger] parsed.services[i]).state == DockerContainerStateView::Exited),
        (forall|i: int|
            0 <= i < items.len() ==> ((#[trigger] items[i]).get("Service"@) matches Some(
                JsonView::Text(name),
            ) && !has_control(name) && name.len() > 0)) ==> list_parsed(JsonView::Array(items))
            is Ok,
        forall|item: JsonView|
            item is Object ==> #[trigger] list_parsed(item) == list_parsed(
                JsonView::Array(seq![item]),
            ),
{
    reveal_strlit("running");
    reveal_strlit("exited");
    reveal_strlit("created");
    reveal_strlit("paused");
    reveal_strlit("restarting");
    assert(lower("running"@) =~= "running"@);
    assert(lower("exited"@) =~= "exited"@);
    assert("running"@.len() == 7 && "created"@.len() == 7 && "paused"@.len() == 6
        && "restarting"@.len() == 10 && "exited"@.len() == 6);
    assert("running"@[0] == 'r' && "created"@[0] == 'c' && "paused"@[0] == 'p' && "exited"@[0]
        == 'e');
    lemma_services_of(items);
}

} // verus!
