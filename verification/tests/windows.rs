use workstate::domain::{
    ActionKind, ActionParameters, ActionSpec, CleanupPolicy, CompensationOperation,
    OwnershipStatus, ResourceIdentity, ResourceKind, ResourceRecord,
};
use workstate::error::{ErrorCategory, WorkstateError};
use workstate::integrations::application::open::{OpenEvent, OpenStep};
use workstate::integrations::application::ApplicationActionHandler;
use workstate::integrations::closing::{ClosingEvent, ClosingStep, ClosingStyle, WindowClosing};
use workstate::integrations::directories::{resolve_directory, DirectoryReading, HomeReading};
use workstate::integrations::undo::{UndoEvent, UndoStep, UndoStyle, WindowUndo};
use workstate::integrations::windows::{
    record_window_move, RestoreEvent, RestoreStep, WindowRestore,
};
use workstate::planner::{ActionOutput, ObservationStatus};
use workstate::platform::linux::applications::ApplicationLaunchSpec;
use workstate::ports::{
    DesktopOperationOutcome, DesktopSnapshot, DesktopWindowSnapshot, DesktopWorkspaceResolution,
    DesktopWorkspaceSnapshot,
};
use workstate::time::TimeSpan;

fn action(id: &str, kind: ActionKind) -> ActionSpec {
    ActionSpec {
        id: id.to_owned(),
        kind,
        parameters: ActionParameters {
            application: None,
            application_arguments: Vec::new(),
            project_path: None,
            command: None,
            container: None,
            compose: None,
            emulator: None,
            workspace_id: None,
            other_environment: None,
        },
        execution_mode: None,
        working_directory: None,
        timeout: None,
        readiness_checks: Vec::new(),
        cleanup_policy: CleanupPolicy::OwnedOnly,
        desktop_workspace: None,
        resolved_environment: None,
        resolved_workspace_target: None,
        resolved_tiling: None,
    }
}

fn window(identity: &str, application: &str, workspace: Option<&str>) -> DesktopWindowSnapshot {
    DesktopWindowSnapshot {
        identity: identity.to_owned(),
        application: Some(application.to_owned()),
        title: None,
        project_path: None,
        workspace_identity: workspace.map(str::to_owned),
        focused: false,
    }
}

fn workspace(identity: &str) -> DesktopWorkspaceSnapshot {
    DesktopWorkspaceSnapshot {
        identity: identity.to_owned(),
        name: Some(identity.to_uppercase()),
        position: None,
        focused: false,
        tiling_enabled: None,
    }
}

fn desktop(
    workspaces: Vec<DesktopWorkspaceSnapshot>,
    windows: Vec<DesktopWindowSnapshot>,
) -> DesktopSnapshot {
    DesktopSnapshot { workspaces, windows }
}

fn owned(identity: &str) -> ResourceRecord {
    let Ok(identity) = ResourceIdentity::new(ResourceKind::DesktopWindow, identity.to_owned())
    else {
        panic!("the identity is not blank");
    };
    ResourceRecord::new(identity, OwnershipStatus::CreatedByCurrentRun)
}

fn lines(outputs: &[ActionOutput]) -> Vec<&str> {
    outputs.iter().map(|output| output.text.as_str()).collect()
}

fn failure(message: &str) -> WorkstateError {
    WorkstateError::new(ErrorCategory::Integration, message)
}

fn browser() -> ActionSpec {
    let mut action = action("browse", ActionKind::OpenApplication);
    action.parameters.application = Some("browser".to_owned());
    action.parameters.application_arguments = vec!["--private".to_owned()];
    action
}

fn handler() -> ApplicationActionHandler {
    ApplicationActionHandler::new(TimeSpan::from_millis(2000))
}

fn launch() -> ApplicationLaunchSpec {
    ApplicationLaunchSpec { program: "browser-bin".to_owned(), arguments: vec!["--run".to_owned()] }
}

#[test]
fn open_application_is_used_again() {
    let Ok((work, step)) =
        handler().apply(&browser(), Ok(launch()), Ok("/home/user".to_owned()))
    else {
        panic!("the action is complete");
    };
    assert!(matches!(step, OpenStep::Snapshot));
    let (work, step) = work.advance(OpenEvent::Snapshot(desktop(
        Vec::new(),
        vec![window("one", "browser", Some("main")), window("two", "editor", None)],
    )));
    let OpenStep::Finish(result) = step else {
        panic!("unexpected step {step:?}");
    };
    assert!(!result.changed);
    assert!(result.mutations.is_empty());
    assert_eq!(lines(&result.outputs), vec!["reused the already-open application 'browser'"]);
    assert_eq!(result.resources.len(), 1);
    assert_eq!(result.resources[0].resource.stable_identity, "one");
    assert_eq!(result.resources[0].ownership, OwnershipStatus::ReusedExisting);
    assert_eq!(
        result.resources[0].integration_metadata.get("workspace_identity"),
        Some("main".to_owned())
    );
    let (_, step) = work.advance(OpenEvent::Rested);
    assert!(matches!(step, OpenStep::Idle));
}

#[test]
fn new_windows_are_placed_in_the_workspace_that_is_asked_for() {
    let mut action = browser();
    action.desktop_workspace = Some("target".to_owned());
    let Ok((work, _)) = handler().apply(&action, Ok(launch()), Ok("/home/user".to_owned())) else {
        panic!("the action is complete");
    };
    let before = desktop(vec![workspace("target")], vec![window("old", "editor", None)]);
    let (work, step) = work.advance(OpenEvent::Snapshot(before));
    let OpenStep::Launch(request) = step else {
        panic!("unexpected step {step:?}");
    };
    assert_eq!(request.program, "browser-bin");
    assert_eq!(request.arguments, vec!["--run".to_owned(), "--private".to_owned()]);
    assert_eq!(request.working_directory.as_deref(), Some("/home/user"));
    let (work, step) =
        work.advance(OpenEvent::Launched(DesktopOperationOutcome::created("process".to_owned())));
    assert!(matches!(step, OpenStep::Snapshot));
    let (work, step) = work.advance(OpenEvent::Snapshot(desktop(Vec::new(), Vec::new())));
    let OpenStep::Rest(pause) = step else {
        panic!("unexpected step {step:?}");
    };
    assert_eq!(pause, TimeSpan::from_millis(25));
    let (work, _) = work.advance(OpenEvent::Rested);
    let (work, step) = work.advance(OpenEvent::Snapshot(desktop(
        vec![workspace("target")],
        vec![window("first", "browser", Some("main")), window("second", "browser", Some("target"))],
    )));
    assert!(matches!(step, OpenStep::Ensure(_)));
    let (work, step) = work
        .advance(OpenEvent::Ensured(DesktopWorkspaceResolution::existing(workspace("target"))));
    assert!(matches!(
        step,
        OpenStep::Move { window, workspace } if window == "first" && workspace == "target"
    ));
    let (work, step) = work.advance(OpenEvent::Moved);
    assert!(matches!(step, OpenStep::Snapshot));
    let (_, step) = work.advance(OpenEvent::Snapshot(desktop(
        vec![workspace("target")],
        vec![
            window("first", "browser", Some("target")),
            window("second", "browser", Some("target")),
        ],
    )));
    let OpenStep::Finish(result) = step else {
        panic!("unexpected step {step:?}");
    };
    assert!(result.changed);
    assert_eq!(result.resources.len(), 2);
    assert_eq!(result.mutations.len(), 1);
    let mutation = &result.mutations[0];
    assert_eq!(mutation.target, "desktop.window.first.workspace");
    assert_eq!(mutation.previous_value.as_deref(), Some("main"));
    assert_eq!(mutation.applied_value.as_deref(), Some("target"));
    assert_eq!(mutation.compensation, CompensationOperation::Handler);
    assert_eq!(
        lines(&result.outputs),
        vec![
            "inspected desktop windows before opening application 'browser'",
            "launched application 'browser'",
            "waited for application 'browser' to become observable",
            "resolved the desktop workspace for application 'browser'",
        ]
    );
}

#[test]
fn launched_process_is_stopped_where_no_window_comes_up() {
    let Ok((work, _)) = handler().apply(&browser(), Ok(launch()), Ok("/".to_owned())) else {
        panic!("the action is complete");
    };
    let (work, _) = work.advance(OpenEvent::Snapshot(desktop(Vec::new(), Vec::new())));
    let (work, _) =
        work.advance(OpenEvent::Launched(DesktopOperationOutcome::created("process".to_owned())));
    let (work, step) = work.advance(OpenEvent::Expired);
    assert!(matches!(step, OpenStep::StopProcess(process) if process == "process"));
    let (_, step) = work.advance(OpenEvent::Failed(failure("no such process")));
    let OpenStep::Fail(error) = step else {
        panic!("unexpected step {step:?}");
    };
    assert_eq!(
        error.message,
        "application 'browser' did not become observable before the timeout"
    );
    assert_eq!(error.context[0], ("application_id".to_owned(), "browser".to_owned()));
    assert_eq!(error.context[1], ("timeout_milliseconds".to_owned(), "2000".to_owned()));
    assert_eq!(error.context[2].0, "launched_process_cleanup");
    assert!(error.context[2].1.contains("no such process"));
}

#[test]
fn windows_that_cannot_be_placed_are_closed() {
    let mut action = browser();
    action.desktop_workspace = Some("target".to_owned());
    let Ok((work, _)) = handler().apply(&action, Ok(launch()), Ok("/".to_owned())) else {
        panic!("the action is complete");
    };
    let (work, _) = work.advance(OpenEvent::Snapshot(desktop(Vec::new(), Vec::new())));
    let (work, _) = work.advance(OpenEvent::Launched(DesktopOperationOutcome::unchanged(None)));
    let (work, _) = work.advance(OpenEvent::Snapshot(desktop(
        Vec::new(),
        vec![window("first", "browser", None)],
    )));
    let (work, step) = work.advance(OpenEvent::Ensured(DesktopWorkspaceResolution::none()));
    assert!(matches!(step, OpenStep::CloseWindows(windows) if windows == vec!["first".to_owned()]));
    let (_, step) = work.advance(OpenEvent::WindowsClosed);
    assert!(matches!(
        step,
        OpenStep::Fail(error)
            if error.message == "the application workspace target could not be resolved"
                && error.context.is_empty()
    ));
}

#[test]
fn unconfirmed_placement_is_an_error() {
    let mut action = browser();
    action.desktop_workspace = Some("target".to_owned());
    let Ok((work, _)) = handler().apply(&action, Ok(launch()), Ok("/".to_owned())) else {
        panic!("the action is complete");
    };
    let (work, _) = work.advance(OpenEvent::Snapshot(desktop(Vec::new(), Vec::new())));
    let (work, _) = work.advance(OpenEvent::Launched(DesktopOperationOutcome::unchanged(None)));
    let (work, _) = work
        .advance(OpenEvent::Snapshot(desktop(Vec::new(), vec![window("first", "browser", None)])));
    let (work, _) = work
        .advance(OpenEvent::Ensured(DesktopWorkspaceResolution::existing(workspace("target"))));
    let (work, _) = work.advance(OpenEvent::Moved);
    let (work, step) = work
        .advance(OpenEvent::Snapshot(desktop(Vec::new(), vec![window("first", "browser", None)])));
    assert!(matches!(step, OpenStep::CloseWindows(_)));
    let (_, step) = work.advance(OpenEvent::Failed(failure("still open")));
    let OpenStep::Fail(error) = step else {
        panic!("unexpected step {step:?}");
    };
    assert_eq!(
        error.message,
        "the desktop backend did not confirm application workspace placement"
    );
    assert_eq!(error.context[0], ("window_identity".to_owned(), "first".to_owned()));
    assert_eq!(error.context[1], ("workspace_identity".to_owned(), "target".to_owned()));
    assert_eq!(error.context[2].0, "launched_window_cleanup");
}

#[test]
fn applications_are_validated_in_order() {
    let handler = handler();
    let wrong = action("other", ActionKind::RunCommand);
    let error = handler.validate(&wrong, Ok(()), Ok(launch()), Ok("/".to_owned())).err();
    assert_eq!(
        error.map(|error| error.message),
        Some("application handler received an incompatible action".to_owned())
    );
    let nameless = action("open", ActionKind::OpenApplication);
    let error = handler.validate(&nameless, Ok(()), Ok(launch()), Ok("/".to_owned())).err();
    assert_eq!(
        error.map(|error| error.message),
        Some("application action 'open' is missing its application".to_owned())
    );
    let error = handler
        .validate(&browser(), Ok(()), Err(failure("not installed")), Ok("/".to_owned()))
        .err();
    let Some(error) = error else {
        panic!("the application is not installed");
    };
    assert_eq!(error.context, vec![("application_id".to_owned(), "browser".to_owned())]);
    assert!(handler.validate(&browser(), Ok(()), Ok(launch()), Ok("/".to_owned())).is_ok());
}

#[test]
fn applications_are_observed_by_their_windows() {
    let handler = handler();
    let Ok(closed) = handler.observe(&browser(), &desktop(Vec::new(), Vec::new())) else {
        panic!("the action is complete");
    };
    assert_eq!(closed.status, ObservationStatus::RequiresChange);
    assert_eq!(closed.detail.as_deref(), Some("the application window is not open"));
    let Ok(open) = handler
        .observe(&browser(), &desktop(Vec::new(), vec![window("one", "browser", None)]))
    else {
        panic!("the action is complete");
    };
    assert_eq!(open.status, ObservationStatus::AlreadyCorrect);
    assert_eq!(open.resources.len(), 1);
}

#[test]
fn window_of_another_application_stops_cleanup() {
    let mut record = owned("one");
    record.note("application_id", "browser");
    let observation = handler().observe_for_cleanup(
        &vec![record.clone()],
        &desktop(Vec::new(), vec![window("one", "editor", None)]),
    );
    assert_eq!(observation.status, ObservationStatus::Unknown);
    assert_eq!(
        observation.detail.as_deref(),
        Some("persisted application window 'one' now identifies another application")
    );
    let observation = handler().observe_for_cleanup(
        &vec![record.clone(), owned("gone")],
        &desktop(Vec::new(), vec![window("one", "browser", None)]),
    );
    assert_eq!(observation.resources, vec![record]);
}

#[test]
fn moved_window_goes_back_where_nothing_else_moved_it() {
    let Ok(mutation) = record_window_move(
        "one",
        Some("main".to_owned()),
        "target",
        "browse",
        CleanupPolicy::OwnedOnly,
    ) else {
        panic!("the window has an identity");
    };
    let (work, step) = WindowRestore::begin("window", false, vec![mutation.clone()]);
    assert!(matches!(step, RestoreStep::Snapshot));
    let (work, step) = work.advance(RestoreEvent::Snapshot(desktop(
        vec![workspace("main"), workspace("target")],
        vec![window("one", "browser", Some("target"))],
    )));
    assert!(matches!(
        step,
        RestoreStep::Move { window, workspace } if window == "one" && workspace == "main"
    ));
    let (_, step) = work.advance(RestoreEvent::Moved);
    assert!(matches!(
        step,
        RestoreStep::Finish(lines)
            if lines == vec!["restored window 'one' to desktop workspace 'main'".to_owned()]
    ));

    let (work, _) = WindowRestore::begin("window", false, vec![mutation]);
    let (_, step) = work.advance(RestoreEvent::Snapshot(desktop(
        vec![workspace("main")],
        vec![window("one", "browser", Some("elsewhere"))],
    )));
    assert!(matches!(
        step,
        RestoreStep::Finish(lines)
            if lines
                == vec![
                    "preserved window 'one' because its workspace changed after Workstate"
                        .to_owned()
                ]
    ));
}

#[test]
fn listed_windows_are_closed_one_by_one() {
    let windows = vec!["gone".to_owned(), "one".to_owned()];
    let (work, step) = WindowClosing::begin(ClosingStyle::Application, windows);
    assert!(matches!(step, ClosingStep::Snapshot));
    let open = desktop(Vec::new(), vec![window("one", "browser", None)]);
    let (work, step) =
        work.advance(ClosingEvent::Snapshot { snapshot: open.clone(), late: false });
    assert!(matches!(step, ClosingStep::Snapshot));
    let (work, step) =
        work.advance(ClosingEvent::Snapshot { snapshot: open.clone(), late: false });
    assert!(matches!(step, ClosingStep::Close { window } if window == "one"));
    let (work, _) = work.advance(ClosingEvent::Closed);
    let (work, step) = work.advance(ClosingEvent::Snapshot { snapshot: open, late: false });
    assert!(matches!(step, ClosingStep::Rest(_)));
    let (_, step) = work.advance(ClosingEvent::Expired);
    assert!(matches!(
        step,
        ClosingStep::Fail(error)
            if error.message == "the application window did not close before the timeout"
    ));
}

#[test]
fn stopping_closes_owned_windows_only() {
    let mut foreign = owned("other");
    foreign.ownership = OwnershipStatus::ReusedExisting;
    let (work, _) = WindowUndo::stop(UndoStyle::Application, vec![foreign, owned("one")]);
    let open = desktop(
        Vec::new(),
        vec![window("one", "browser", None), window("other", "browser", None)],
    );
    let (work, step) = work.advance(UndoEvent::Snapshot { snapshot: open.clone(), late: false });
    assert!(matches!(step, UndoStep::Snapshot));
    let (work, step) = work.advance(UndoEvent::Snapshot { snapshot: open, late: false });
    assert!(matches!(step, UndoStep::Close { window } if window == "one"));
    let (work, _) = work.advance(UndoEvent::Closed);
    let (_, step) = work.advance(UndoEvent::Snapshot {
        snapshot: desktop(Vec::new(), vec![window("other", "browser", None)]),
        late: false,
    });
    let UndoStep::Finish(result) = step else {
        panic!("unexpected step {step:?}");
    };
    assert_eq!(lines(&result.outputs), vec!["closed owned application window 'one'"]);
}

#[test]
fn directories_are_resolved_or_refused() {
    let home = HomeReading {
        exists: Ok(true),
        is_directory: Ok(false),
        canonical: Ok("/home/user".to_owned()),
    };
    let error = resolve_directory(
        "application",
        Ok("/home/user".to_owned()),
        DirectoryReading::Home(home),
    )
    .err();
    let Some(error) = error else {
        panic!("the home is no directory");
    };
    assert_eq!(
        error.message,
        "the default application working directory is not a directory"
    );
    assert_eq!(error.context, vec![("working_directory".to_owned(), "/home/user".to_owned())]);
    let configured = resolve_directory(
        "application",
        Ok("/home/user".to_owned()),
        DirectoryReading::Configured(Ok("/srv/project".to_owned())),
    );
    assert_eq!(configured.ok(), Some("/srv/project".to_owned()));
}
