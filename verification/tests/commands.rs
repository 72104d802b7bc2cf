use workstate::collections::TextMap;
use workstate::domain::{
    ActionKind, ActionParameters, ActionSpec, CleanupPolicy, CommandSpec, ExecutionMode,
    OwnershipStatus, ResourceKind,
};
use workstate::error::{ErrorCategory, WorkstateError};
use workstate::integrations::command::cleanup::{
    observe_cleanup, CommandCleanup, CommandCleanupEvent, CommandCleanupStep,
};
use workstate::integrations::command::handler::{register_handlers, CommandActionHandler};
use workstate::integrations::command::target::{
    CommandStart, CommandStartEvent, CommandStartStep, TmuxCommandTarget,
};
use workstate::integrations::tmux::backend::{
    parse_sessions, render_process, shell_quote, TmuxProcessBackend, WindowOpen, WindowOpenEvent,
    WindowOpenStep,
};
use workstate::integrations::tmux::models::{
    session_name, validate_identity, validate_name, validate_process, window_name,
};
use workstate::planner::{ActionHandlerRegistry, ObservationStatus};
use workstate::ports::{
    ProcessOutput, ProcessRequest, TmuxSessionSnapshot, TmuxWindowRequest, TmuxWindowSnapshot,
};

fn action(id: &str, kind: ActionKind) -> ActionSpec {
    ActionSpec {
        id: id.to_owned(),
        kind,
        parameters: ActionParameters {
            application: None,
            application_arguments: Vec::new(),
            project_path: None,
            command: None,
            container: None,
            compose: None,
            emulator: None,
            workspace_id: None,
            other_environment: None,
        },
        execution_mode: None,
        working_directory: None,
        timeout: None,
        readiness_checks: Vec::new(),
        cleanup_policy: CleanupPolicy::OwnedOnly,
        desktop_workspace: None,
        resolved_environment: None,
        resolved_workspace_target: None,
        resolved_tiling: None,
    }
}

fn output(status: i32, stdout: &str, stderr: &str) -> ProcessOutput {
    ProcessOutput {
        status: Some(status),
        stdout: stdout.as_bytes().to_vec(),
        stderr: stderr.as_bytes().to_vec(),
    }
}

fn request() -> ProcessRequest {
    ProcessRequest {
        program: "server".to_owned(),
        arguments: vec!["--port".to_owned(), "8080".to_owned()],
        working_directory: Some("/srv".to_owned()),
        environment: Vec::new(),
    }
}

fn service() -> ActionSpec {
    let mut action = action("serve", ActionKind::StartService);
    action.execution_mode = Some(ExecutionMode::Background);
    action.resolved_environment = Some("dev".to_owned());
    action.parameters.command = Some(CommandSpec {
        program: "server".to_owned(),
        arguments: vec!["--port".to_owned(), "8080".to_owned()],
        shell: false,
        environment: TextMap::new(),
    });
    action
}

fn target() -> TmuxCommandTarget {
    match TmuxCommandTarget::new(&service(), request()) {
        Ok(target) => target,
        Err(error) => panic!("unexpected error {error:?}"),
    }
}

fn opened() -> TmuxSessionSnapshot {
    let Ok(command) = render_process(&request()) else {
        panic!("the process can be rendered");
    };
    TmuxSessionSnapshot {
        identity: "$1".to_owned(),
        name: "workstate-dev".to_owned(),
        windows: vec![TmuxWindowSnapshot {
            identity: "@1".to_owned(),
            name: "workstate-serve".to_owned(),
            command: Some("server".to_owned()),
            start_command: Some(command),
            working_directory: Some("/srv".to_owned()),
            process_id: Some(42),
            is_dead: false,
        }],
    }
}

#[test]
fn names_carry_their_prefix() {
    assert_eq!(session_name(&"dev".to_owned()), "workstate-dev");
    assert_eq!(window_name(&"serve".to_owned()), "workstate-serve");
}

#[test]
fn names_and_identities_are_checked() {
    assert!(validate_name("session", "two words").is_ok());
    assert_eq!(
        validate_name("session", "").err().map(|error| error.message),
        Some(
            "tmux session name must be non-empty and contain no control characters".to_owned()
        )
    );
    assert!(validate_identity("window", "@1").is_ok());
    assert!(validate_identity("window", "a:b").is_err());
    assert!(validate_identity("window", "a b").is_err());
}

#[test]
fn processes_are_checked_in_order() {
    let message =
        |request: &ProcessRequest| validate_process(request).err().map(|error| error.message);
    assert_eq!(message(&request()), None);
    let mut nameless = request();
    nameless.program = String::new();
    assert_eq!(
        message(&nameless).as_deref(),
        Some("tmux process executable must be non-empty and contain no control characters")
    );
    let mut broken = request();
    broken.arguments.push("a\nb".to_owned());
    assert_eq!(
        message(&broken).as_deref(),
        Some("tmux process arguments must not contain NUL characters")
    );
    let mut environment = request();
    environment.environment.push(("A=B".to_owned(), "1".to_owned()));
    assert_eq!(
        message(&environment).as_deref(),
        Some("tmux process environment entries are invalid")
    );
    let mut relative = request();
    relative.working_directory = Some("srv".to_owned());
    assert_eq!(
        message(&relative).as_deref(),
        Some("tmux process working directory must be absolute")
    );
}

#[test]
fn quoted_text_is_one_word() {
    assert_eq!(shell_quote("two words"), "'two words'");
    assert_eq!(shell_quote("it's"), "'it'\\''s'");
}

#[test]
fn sessions_are_read_line_by_line() {
    let text = "$2\tother\t@5\tmain\tbash\t\t/home\t7\t0\n$1\twork\t@1\ta\t\t\t\t\t1\n\
                $2\tother\t@6\tlogs\ttail\t\t/var\t8\t0\n";
    let Ok(sessions) = parse_sessions(text.as_bytes()) else {
        panic!("the lines are well formed");
    };
    assert_eq!(sessions.len(), 2);
    assert_eq!(sessions[0].identity, "$1");
    assert!(sessions[0].windows[0].is_dead);
    assert_eq!(sessions[0].windows[0].process_id, None);
    assert_eq!(sessions[1].windows.len(), 2);
    assert_eq!(sessions[1].windows[1].name, "logs");
    assert_eq!(sessions[1].windows[0].process_id, Some(7));
}

#[test]
fn malformed_lines_are_refused() {
    let message = |text: &str| parse_sessions(text.as_bytes()).err().map(|error| error.message);
    assert_eq!(
        message("one\ttwo\n").as_deref(),
        Some("tmux returned malformed data: expected 9 tab-separated fields, received 2")
    );
    assert_eq!(
        message("$1\twork\t@1\ta\t\t\t\tx\t0\n").as_deref(),
        Some("tmux returned malformed data: pane PID 'x' is not an unsigned integer")
    );
    assert_eq!(
        message("$1\twork\t@1\ta\t\t\t\t\t2\n").as_deref(),
        Some("tmux returned malformed data: pane dead flag '2' is not 0 or 1")
    );
    assert_eq!(
        message("$1\twork\t@1\ta\t\t\t\t\t0\n$1\tplay\t@2\tb\t\t\t\t\t0\n").as_deref(),
        Some(
            "tmux returned malformed data: one session identity was reported with multiple names"
        )
    );
    assert!(parse_sessions(&[0xff]).is_err());
}

#[test]
fn failed_commands_and_missing_servers_are_told_apart() {
    let Ok(backend) = TmuxProcessBackend::new("tmux".to_owned()) else {
        panic!("the executable has a name");
    };
    assert!(TmuxProcessBackend::new(String::new()).is_err());
    let Ok(sessions) = backend.observe(Ok(output(1, "", "no server running on /tmp/tmux"))) else {
        panic!("without a server there are no sessions");
    };
    assert!(sessions.is_empty());
    let Some(error) = backend.execute("kill-window", Ok(output(1, "", "boom"))).err() else {
        panic!("the command failed");
    };
    assert_eq!(error.message, "tmux operation 'kill-window' failed");
    assert_eq!(
        error.context,
        vec![
            ("exit_status".to_owned(), "1".to_owned()),
            ("detail".to_owned(), "boom".to_owned()),
        ]
    );
    assert!(backend
        .execute_allow_missing("kill-window", Ok(output(1, "", "can't find window: @1")))
        .is_ok());
    let Ok(kill) = backend.kill_window("workstate-dev", "@1") else {
        panic!("the window has an identity");
    };
    assert_eq!(kill.arguments.last().map(String::as_str), Some("workstate-dev:@1"));
}

#[test]
fn window_that_is_opened_must_come_up() {
    let Ok(backend) = TmuxProcessBackend::new("tmux".to_owned()) else {
        panic!("the executable has a name");
    };
    let wanted = TmuxWindowRequest { name: "workstate-serve".to_owned(), process: request() };
    let (work, step) = WindowOpen::begin(&backend, true, "workstate-dev", &wanted);
    let WindowOpenStep::Run(request) = step else {
        panic!("unexpected step {step:?}");
    };
    assert_eq!(request.program, "tmux");
    assert!(request.arguments.contains(&"workstate-dev".to_owned()));
    let (work, step) = work.advance(WindowOpenEvent::Ran(output(0, "", "")));
    assert!(matches!(step, WindowOpenStep::Run(_)));
    let (work, step) =
        work.advance(WindowOpenEvent::Listed { output: output(0, "", ""), late: false });
    assert!(matches!(step, WindowOpenStep::Rest(_)));
    let (work, _) = work.advance(WindowOpenEvent::Rested);
    let listing = "$1\tworkstate-dev\t@1\tworkstate-serve\tserver\t\t/srv\t42\t0\n";
    let (_, step) =
        work.advance(WindowOpenEvent::Listed { output: output(0, listing, ""), late: false });
    let WindowOpenStep::Finish(session) = step else {
        panic!("unexpected step {step:?}");
    };
    assert_eq!(session.windows[0].identity, "@1");
}

#[test]
fn command_starts_in_a_session_of_its_own() {
    let (work, step) = CommandStart::begin(target());
    assert!(matches!(step, CommandStartStep::Observe));
    let (work, step) = work.advance(CommandStartEvent::Sessions(Vec::new()));
    let CommandStartStep::CreateSession { session, window } = step else {
        panic!("unexpected step {step:?}");
    };
    assert_eq!(session, "workstate-dev");
    assert_eq!(window.name, "workstate-serve");
    let (_, step) = work.advance(CommandStartEvent::Opened(opened()));
    let CommandStartStep::Finish(result) = step else {
        panic!("unexpected step {step:?}");
    };
    assert!(result.changed);
    assert_eq!(result.resources.len(), 2);
    assert_eq!(result.resources[0].resource.kind, ResourceKind::TmuxSession);
    assert_eq!(result.resources[1].resource.kind, ResourceKind::TmuxWindow);
    assert_eq!(result.resources[1].ownership, OwnershipStatus::CreatedByCurrentRun);

    let (work, _) = CommandStart::begin(target());
    let (_, step) = work.advance(CommandStartEvent::Sessions(vec![opened()]));
    let CommandStartStep::Finish(again) = step else {
        panic!("unexpected step {step:?}");
    };
    assert!(!again.changed);

    let observation = target().observe(&result.resources, &vec![opened()]);
    assert_eq!(
        observation.map(|observation| observation.status).ok(),
        Some(ObservationStatus::AlreadyCorrect)
    );
    let observation = target().observe(&Vec::new(), &vec![opened()]);
    let Ok(observation) = observation else {
        panic!("the sessions are well formed");
    };
    assert_eq!(observation.status, ObservationStatus::Unknown);
    assert_eq!(
        observation.detail.as_deref(),
        Some("the canonical tmux window exists but is not owned by Workstate")
    );
    let Ok(observation) = target().observe(&Vec::new(), &Vec::new()) else {
        panic!("the sessions are well formed");
    };
    assert_eq!(
        observation.detail.as_deref(),
        Some("the environment tmux session is missing")
    );

    let observation = observe_cleanup(&result.resources, &vec![opened()]);
    assert_eq!(observation.status, ObservationStatus::AlreadyCorrect);
    assert_eq!(observation.resources.len(), 2);

    let (work, step) = CommandCleanup::begin(Some("dev".to_owned()), &result.resources);
    assert!(matches!(step, CommandCleanupStep::Observe));
    let (work, step) = work.advance(CommandCleanupEvent::Sessions(vec![opened()]));
    assert!(matches!(
        step,
        CommandCleanupStep::KillWindow { session, window }
            if session == "workstate-dev" && window == "@1"
    ));
    let (work, step) = work.advance(CommandCleanupEvent::Killed);
    assert!(matches!(step, CommandCleanupStep::Observe));
    let (_, step) = work.advance(CommandCleanupEvent::Sessions(Vec::new()));
    assert!(matches!(step, CommandCleanupStep::Finish(_)));
}

#[test]
fn session_that_holds_other_windows_is_preserved() {
    let (work, _) = CommandStart::begin(target());
    let (work, _) = work.advance(CommandStartEvent::Sessions(Vec::new()));
    let (_, step) = work.advance(CommandStartEvent::Opened(opened()));
    let CommandStartStep::Finish(result) = step else {
        panic!("unexpected step {step:?}");
    };
    let mut other = opened();
    other.windows[0].identity = "@9".to_owned();
    other.windows[0].name = "mine".to_owned();
    let (work, _) = CommandCleanup::begin(Some("dev".to_owned()), &result.resources);
    let (work, step) = work.advance(CommandCleanupEvent::Sessions(vec![other.clone()]));
    assert!(matches!(step, CommandCleanupStep::Observe));
    let (_, step) = work.advance(CommandCleanupEvent::Sessions(vec![other]));
    let CommandCleanupStep::Finish(result) = step else {
        panic!("unexpected step {step:?}");
    };
    assert!(result.outputs.iter().any(|output| output.text.contains("preserved")));
}

#[test]
fn changed_window_is_an_error() {
    let mut changed = opened();
    changed.windows[0].working_directory = Some("/other".to_owned());
    let (work, _) = CommandStart::begin(target());
    let (_, step) = work.advance(CommandStartEvent::Sessions(vec![changed]));
    let CommandStartStep::Fail(error) = step else {
        panic!("unexpected step {step:?}");
    };
    assert_eq!(
        error.message,
        "the canonical tmux window exists but its command or working directory changed"
    );
    let (work, _) = CommandStart::begin(target());
    let (_, step) = work.advance(CommandStartEvent::Sessions(vec![opened(), opened()]));
    assert!(matches!(
        step,
        CommandStartStep::Fail(error)
            if error.message == "multiple tmux sessions have the canonical environment name"
    ));
}

#[test]
fn command_without_environment_is_refused() {
    let mut lost = service();
    lost.resolved_environment = None;
    let Some(error) = TmuxCommandTarget::new(&lost, request()).err() else {
        panic!("the action has no environment");
    };
    assert_eq!(
        error.message,
        "command action 'serve' was executed without an environment context"
    );
    assert_eq!(error.category, ErrorCategory::Runtime);
}

#[test]
fn failed_command_is_an_error() {
    let Ok(handler) = CommandActionHandler::new("run_command") else {
        panic!("the key is known");
    };
    assert!(CommandActionHandler::new("other").is_err());
    let mut action = service();
    action.kind = ActionKind::RunCommand;
    action.execution_mode = Some(ExecutionMode::Once);
    let Ok(done) = handler.run_once(&action, &output(0, "hello\n", "")) else {
        panic!("the command succeeded");
    };
    assert!(done.changed);
    assert!(handler.run_once(&action, &output(3, "", "bad")).is_err());
    let nameless = {
        let mut nameless = action.clone();
        nameless.parameters.command = None;
        nameless
    };
    assert_eq!(
        handler.command_for(&nameless).err().map(|error| error.message),
        Some("command action 'serve' is missing its command".to_owned())
    );
    let failure = WorkstateError::new(ErrorCategory::Process, "no directory");
    assert!(handler.validate(&action, &Err(failure)).is_err());
    assert!(handler.validate(&action, &Ok(request())).is_ok());
}

#[test]
fn command_handlers_are_registered_once() {
    let mut registry = ActionHandlerRegistry::new();
    assert!(register_handlers(&mut registry).is_ok());
    assert_eq!(registry.keys, vec!["run_command".to_owned(), "start_service".to_owned()]);
    assert!(register_handlers(&mut registry).is_err());
}
