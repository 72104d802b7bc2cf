//! The actions that run commands.
use vstd::prelude::*;
use vstd::string::*;
use crate::domain::{ActionKind, ActionSpec, ActionSpecView, CommandSpec, ExecutionMode};
use crate::encoding::{lenient_text, text_from_utf8_lossy};
use crate::error::{error_of, seen, ErrorCategory, WorkstateError, WorkstateErrorView};
use crate::planner::{
    log_line, observed_change, registering, ActionExecutionResult, ActionExecutionResultView,
    ActionHandlerRegistry, ActionObservation, ActionOutput, ActionOutputView, OutputStream,
};
use crate::integrations::directories::{directory_resolved, resolve_directory, DirectoryReading};
use crate::platform::detection::support::{set_of, CapabilityId, CapabilitySet};
use crate::ports::{
    status_text, ProcessOutput, ProcessOutputView, ProcessRequest, ProcessRequestView,
};
use crate::text::{join3, same_text, text_trim, trim};
use crate::values::{append, empty_list, list_of, Replicate};
use super::target::{command_target, TmuxCommandTarget, TmuxCommandTargetView};

verus! {

/// The handler of the commands of one kind.
#[derive(Debug, Clone, PartialEq, Eq)]
pub struct CommandActionHandler {
    pub key: String,
}

/// What a `CommandActionHandler` stands for.
#[verifier::ext_equal]
pub struct CommandActionHandlerView {
    pub key: Seq<char>,
}

impl View for CommandActionHandler {
    type V = CommandActionHandlerView;

    open spec fn view(&self) -> CommandActionHandlerView {
        CommandActionHandlerView {
            key: self.key.deep_view(),
        }
    }
}

impl DeepView for CommandActionHandler {
    type V = CommandActionHandlerView;

    open spec fn deep_view(&self) -> CommandActionHandlerView {
        self.view()
    }
}

impl Replicate for CommandActionHandler {
    fn replicate(&self) -> (r: Self) {
        CommandActionHandler {
            key: self.key.replicate(),
        }
    }
}

/// A kind of commands.
pub open spec fn command_key(key: Seq<char>) -> bool {
    key == "run_command"@ || key == "start_service"@
}

/// The error of an action without a command.
pub open spec fn command_missing(action: Seq<char>) -> WorkstateErrorView {
    error_of(
        ErrorCategory::Domain,
        "command action '"@ + action + "' is missing its command"@,
    )
}

fn missing_command(action: &str) -> (r: WorkstateError)
    ensures
        r@ == command_missing(action@),
{
    WorkstateError::new(
        ErrorCategory::Domain,
        join3("command action '", action, "' is missing its command").as_str(),
    )
}

/// The error of a command that failed.
pub open spec fn exit_failure(action: Seq<char>, output: ProcessOutputView) -> WorkstateErrorView {
    let error = error_of(
        ErrorCategory::Process,
        "command for action '"@ + action + "' exited unsuccessfully"@,
    ).with("action_id"@, action).with("exit_status"@, status_text(output.status));
    let stderr = trim(lenient_text(output.stderr));
    if stderr.len() > 0 {
        error.with("stderr"@, stderr)
    } else {
        error
    }
}

fn command_exit_error(action: &str, output: &ProcessOutput) -> (r: WorkstateError)
    ensures
        r@ == exit_failure(action@, output@),
{
    assert(output.stderr.deep_view() =~= output.stderr@);
    let error = WorkstateError::new(
        ErrorCategory::Process,
        join3("command for action '", action, "' exited unsuccessfully").as_str(),
    ).with_context("action_id", action).with_context("exit_status", output.status_text().as_str());
    let stderr = text_trim(text_from_utf8_lossy(output.stderr.as_slice()).as_str());
    if stderr.as_str().is_empty() {
        error
    } else {
        error.with_context("stderr", stderr.as_str())
    }
}

/// What a command that ran once has printed.
pub open spec fn once_outputs(action: Seq<char>, output: ProcessOutputView) -> Seq<ActionOutputView> {
    let first = seq![log_line("completed one-shot command for action '"@ + action + "'"@)];
    let second = if output.stdout.len() > 0 {
        first.push(
            ActionOutputView { stream: OutputStream::Stdout, text: lenient_text(output.stdout) },
        )
    } else {
        first
    };
    if output.stderr.len() > 0 {
        second.push(
            ActionOutputView { stream: OutputStream::Stderr, text: lenient_text(output.stderr) },
        )
    } else {
        second
    }
}

/// What was done by a command that ran once. Where what it prints is passed on as it comes, nothing is
/// left to report.
pub open spec fn ran_once(action: Seq<char>, output: ProcessOutputView, passed_on: bool) -> Result<
    ActionExecutionResultView,
    WorkstateErrorView,
> {
    if !output.success() {
        Err(exit_failure(action, output))
    } else {
        Ok(
            ActionExecutionResultView {
                changed: true,
                resources: Seq::empty(),
                mutations: Seq::empty(),
                outputs: if passed_on {
                    Seq::empty()
                } else {
                    once_outputs(action, output)
                },
            },
        )
    }
}

impl CommandActionHandlerView {
    pub open spec fn handles(self, kind: ActionKind) -> bool {
        kind == ActionKind::RunCommand && self.key == "run_command"@ || kind
            == ActionKind::StartService && self.key == "start_service"@
    }

    /// What an action must have to be carried out, in the order of the checks.
    pub open spec fn validated(
        self,
        action: ActionSpecView,
        request: Result<ProcessRequestView, WorkstateErrorView>,
    ) -> Result<(), WorkstateErrorView> {
        if !self.handles(action.kind) {
            Err(
                error_of(
                    ErrorCategory::Integration,
                    "handler '"@ + self.key + "' received an incompatible action"@,
                ),
            )
        } else if action.parameters.command is None {
            Err(command_missing(action.id))
        } else {
            match request {
                Err(error) => Err(error),
                Ok(_) => Ok(()),
            }
        }
    }
}

impl CommandActionHandler {
    /// The handler of the commands of one kind; another kind is refused.
    pub fn new(key: &str) -> (r: Result<Self, WorkstateError>)
        ensures
            seen(r) == (if command_key(key@) {
                Ok(CommandActionHandlerView { key: key@ })
            } else {
                Err::<CommandActionHandlerView, WorkstateErrorView>(
                    error_of(
                        ErrorCategory::Integration,
                        "unsupported command action handler key '"@ + key@ + "'"@,
                    ),
                )
            }),
    {
        if !same_text(key, "run_command") && !same_text(key, "start_service") {
            return Err(
                WorkstateError::new(
                    ErrorCategory::Integration,
                    join3("unsupported command action handler key '", key, "'").as_str(),
                ),
            );
        }
        Ok(CommandActionHandler { key: key.to_owned() })
    }

    /// The kind of actions that the handler carries out.
    pub fn action_key(&self) -> (r: &str)
        ensures
            r@ == self@.key,
    {
        self.key.as_str()
    }

    /// What the handler needs of the platform.
    pub fn required_capabilities(&self) -> (r: CapabilitySet)
        ensures
            r@ == set_of(seq![CapabilityId::BackgroundProcesses]),
    {
        let mut required: Vec<CapabilityId> = Vec::new();
        required.push(CapabilityId::BackgroundProcesses);
        assert(required@ =~= seq![CapabilityId::BackgroundProcesses]);
        CapabilitySet::of(&required)
    }

    fn action_matches(&self, action: &ActionSpec) -> (r: bool)
        ensures
            r == self@.handles(action@.kind),
    {
        action.kind == ActionKind::RunCommand && same_text(self.key.as_str(), "run_command")
            || action.kind == ActionKind::StartService && same_text(
            self.key.as_str(),
            "start_service",
        )
    }

    /// Refuses an action of another kind, one without a command, and one whose command cannot be run.
    pub fn validate(&self, action: &ActionSpec, request: &Result<ProcessRequest, WorkstateError>) -> (r: Result<
        (),
        WorkstateError,
    >)
        ensures
            seen(r) == self@.validated(action@, seen(*request)),
    {
        if !self.action_matches(action) {
            return Err(
                WorkstateError::new(
                    ErrorCategory::Integration,
                    join3(
                        "handler '",
                        self.key.as_str(),
                        "' received an incompatible action",
                    ).as_str(),
                ),
            );
        }
        if action.parameters.command.is_none() {
            return Err(missing_command(action.id.as_str()));
        }
        match request {
            Err(error) => Err(error.replicate()),
            Ok(_) => Ok(()),
        }
    }

    /// The command of an action.
    pub fn command_for(&self, action: &ActionSpec) -> (r: Result<CommandSpec, WorkstateError>)
        ensures
            seen(r) == (match action@.parameters.command {
                Some(command) => Ok(command),
                None => Err(command_missing(action@.id)),
            }),
    {
        match &action.parameters.command {
            Some(command) => Ok(command.replicate()),
            None => Err(missing_command(action.id.as_str())),
        }
    }

    /// The directory that a command runs in.
    pub fn resolve_working_directory(
        &self,
        home: Result<String, WorkstateError>,
        reading: DirectoryReading,
    ) -> (r: Result<String, WorkstateError>)
        ensures
            seen(r) == directory_resolved("command"@, seen(home), reading),
    {
        resolve_directory("command", home, reading)
    }

    /// What a command that goes on running is about.
    pub fn target(
        &self,
        action: &ActionSpec,
        request: Result<ProcessRequest, WorkstateError>,
    ) -> (r: Result<TmuxCommandTarget, WorkstateError>)
        ensures
            seen(r) == (match seen(request) {
                Err(error) => Err(error),
                Ok(request) => command_target(action@, request),
            }),
    {
        match request {
            Err(error) => Err(error),
            Ok(request) => TmuxCommandTarget::new(action, request),
        }
    }

    /// Whether a command goes on running.
    pub fn goes_on(&self, action: &ActionSpec) -> (r: bool)
        ensures
            r == (action@.execution_mode == Some(ExecutionMode::Background)),
    {
        match action.execution_mode {
            Some(ExecutionMode::Background) => true,
            _ => false,
        }
    }

    /// What is observed of a command that runs once.
    pub fn observe_once(&self) -> (r: ActionObservation)
        ensures
            r@ == observed_change().explained("one-shot commands run during setup"@),
    {
        ActionObservation::requires_change().with_detail("one-shot commands run during setup")
    }

    /// What was done by a command that ran once.
    pub fn run_once(&self, action: &ActionSpec, output: &ProcessOutput) -> (r: Result<
        ActionExecutionResult,
        WorkstateError,
    >)
        ensures
            seen(r) == ran_once(action@.id, output@, false),
    {
        if !output.succeeded() {
            return Err(command_exit_error(action.id.as_str(), output));
        }
        assert(output.stdout.deep_view() =~= output.stdout@);
        assert(output.stderr.deep_view() =~= output.stderr@);
        let mut outputs = list_of(
            ActionOutput::log(
                join3("completed one-shot command for action '", action.id.as_str(), "'"),
            ),
        );
        if output.stdout.len() > 0 {
            append(
                &mut outputs,
                ActionOutput::stdout(text_from_utf8_lossy(output.stdout.as_slice())),
            );
        }
        if output.stderr.len() > 0 {
            append(
                &mut outputs,
                ActionOutput::stderr(text_from_utf8_lossy(output.stderr.as_slice())),
            );
        }
        Ok(
            ActionExecutionResult {
                changed: true,
                resources: empty_list(),
                mutations: empty_list(),
                outputs,
            },
        )
    }

    /// What is said before a command runs once whose output is passed on.
    pub fn announcement(&self, action: &ActionSpec) -> (r: ActionOutput)
        ensures
            r@ == log_line("running one-shot command for action '"@ + action@.id + "'"@),
    {
        ActionOutput::log(
            join3("running one-shot command for action '", action.id.as_str(), "'"),
        )
    }

    /// A piece of what a command prints, passed on.
    pub fn forward(&self, from_stderr: bool, bytes: &[u8]) -> (r: ActionOutput)
        ensures
            r@ == (ActionOutputView {
                stream: if from_stderr {
                    OutputStream::Stderr
                } else {
                    OutputStream::Stdout
                },
                text: lenient_text(bytes@),
            }),
    {
        let message = text_from_utf8_lossy(bytes);
        if from_stderr {
            ActionOutput::stderr(message)
        } else {
            ActionOutput::stdout(message)
        }
    }

    /// What was done by a command that ran once and whose output was passed on.
    pub fn run_once_with_output(&self, action: &ActionSpec, output: &ProcessOutput) -> (r: Result<
        ActionExecutionResult,
        WorkstateError,
    >)
        ensures
            seen(r) == ran_once(action@.id, output@, true),
    {
        if !output.succeeded() {
            return Err(command_exit_error(action.id.as_str(), output));
        }
        Ok(
            ActionExecutionResult {
                changed: true,
                resources: empty_list(),
                mutations: empty_list(),
                outputs: empty_list(),
            },
        )
    }

    /// What is left to report once the output of a start was passed on.
    pub fn without_outputs(&self, result: ActionExecutionResult) -> (r: ActionExecutionResult)
        ensures
            r@ == (ActionExecutionResultView { outputs: Seq::empty(), ..result@ }),
    {
        ActionExecutionResult {
            changed: result.changed,
            resources: result.resources,
            mutations: result.mutations,
            outputs: empty_list(),
        }
    }
}

/// Registers the handlers of commands.
pub fn register_handlers(registry: &mut ActionHandlerRegistry) -> (r: Result<(), WorkstateError>)
    ensures
        (final(registry)@.keys, seen(r)) == registering(
            old(registry)@.keys,
            seq!["run_command"@, "start_service"@],
        ),
{
    registry.register_two("run_command", "start_service")
}

/// Whatever a command prints, it is reported exactly where the command has succeeded; a command that
/// failed is an error, with its exit status.
pub proof fn law_failed_command_is_an_error(
    action: Seq<char>,
    output: ProcessOutputView,
    passed_on: bool,
)
    ensures
        ran_once(action, output, passed_on) is Ok <==> output.status == Some(0i32),
        ran_once(action, output, passed_on) matches Err(error) ==> error.category
            == ErrorCategory::Process,
{
}

/// A command that ran is told with what it printed, each stream as it was; what was printed for the user
/// already is not told again, and nothing is owned.
pub proof fn law_printed_text_is_told(action: Seq<char>, output: ProcessOutputView)
    requires
        output.status == Some(0i32),
    ensures
        ran_once(action, output, false) matches Ok(result) && result.changed
            && result.resources.len() == 0 && (output.stdout.len() > 0 ==> result.outputs.contains(
            (ActionOutputView { stream: OutputStream::Stdout, text: lenient_text(output.stdout) }),
        )) && (output.stderr.len() > 0 ==> result.outputs.contains(
            (ActionOutputView { stream: OutputStream::Stderr, text: lenient_text(output.stderr) }),
        )) && result.outputs.len() == 1 + (if output.stdout.len() > 0 {
            1int
        } else {
            0int
        }) + (if output.stderr.len() > 0 {
            1int
        } else {
            0int
        }),
        ran_once(action, output, true) matches Ok(result) && result.changed
            && result.outputs.len() == 0,
{
    let told = once_outputs(action, output);
    if output.stdout.len() > 0 {
        assert(told[1] == (ActionOutputView {
            stream: OutputStream::Stdout,
            text: lenient_text(output.stdout),
        }));
    }
    if output.stderr.len() > 0 {
        assert(told.last() == (ActionOutputView {
            stream: OutputStream::Stderr,
            text: lenient_text(output.stderr),
        }));
    }
}

/// A handler takes the actions of its key alone, and only those that name a command.
pub proof fn law_handler_takes_its_own_actions(
    action: ActionSpecView,
    request: ProcessRequestView,
    handler: CommandActionHandlerView,
)
    ensures
        handler.validated(action, Ok(request)) is Ok <==> (action.parameters.command is Some && (
        action.kind == ActionKind::RunCommand && handler.key == "run_command"@ || action.kind
            == ActionKind::StartService && handler.key == "start_service"@)),
{
}

} // verus!
