use workstate::collections::TextMap;
use workstate::domain::{
    ActionKind, ActionParameters, ActionSpec, CleanupPolicy, OwnershipStatus, WorkspaceReference,
    WorkspaceTarget,
};
use workstate::error::{ErrorCategory, WorkstateError};
use workstate::integrations::zed::backend::{HomeExpansion, ProjectReading};
use workstate::integrations::zed::handler::{ApplyEvent, ApplyStep, EditorLook};
use workstate::integrations::zed::opening::{EditorEvent, EditorStep};
use workstate::integrations::zed::placing::{PlacingEvent, PlacingStep, WindowPlacing};
use workstate::integrations::zed::{
    is_zed_application, ProjectEditorHandler, ProjectEditorKind, ZedBackend, ZedCommand, ZedError,
};
use workstate::planner::{ActionHandlerRegistry, ActionOutput, ObservationStatus};
use workstate::platform::detection::support::CapabilityId;
use workstate::ports::{
    BackgroundProcess, DesktopSnapshot, DesktopWindowSnapshot, DesktopWorkspaceResolution,
    DesktopWorkspaceSnapshot, EditorOperationStatus, EditorWindowSnapshot,
};
use workstate::time::TimeSpan;

#[test]
fn project_editor_profiles_use_their_native_launch_commands() {
    assert_eq!(ProjectEditorKind::Zed.executable(), "zed");
    assert_eq!(ProjectEditorKind::VsCode.executable(), "code");
    assert_eq!(ProjectEditorKind::Cursor.executable(), "cursor");
    assert_eq!(ProjectEditorKind::Zed.new_window_flag(), "-n");
    assert_eq!(ProjectEditorKind::VsCode.new_window_flag(), "--new-window");
    assert_eq!(ProjectEditorKind::Cursor.new_window_flag(), "--new-window");
}

#[test]
fn project_editor_profiles_match_common_linux_window_application_ids() {
    assert!(ProjectEditorKind::VsCode.matches_application("code"));
    assert!(ProjectEditorKind::VsCode.matches_application("com.visualstudio.code.desktop"));
    assert!(ProjectEditorKind::Cursor.matches_application("cursor.desktop"));
    assert!(ProjectEditorKind::Cursor.matches_application("com.todesktop.230313mzl4w4u92"));
    assert!(!ProjectEditorKind::Cursor.matches_application("code"));
}

#[test]
fn project_editor_commands_can_override_the_window_flag() {
    let command = ZedCommand::new("code").with_new_window_flag("--new-window");
    assert_eq!(
        command.arguments("/home/user/project"),
        vec!["--new-window".to_owned(), "/home/user/project".to_owned()]
    );
}

fn action(id: &str, kind: ActionKind) -> ActionSpec {
    ActionSpec {
        id: id.to_owned(),
        kind,
        parameters: ActionParameters {
            application: None,
            application_arguments: Vec::new(),
            project_path: None,
            command: None,
            container: None,
            compose: None,
            emulator: None,
            workspace_id: None,
            other_environment: None,
        },
        execution_mode: None,
        working_directory: None,
        timeout: None,
        readiness_checks: Vec::new(),
        cleanup_policy: CleanupPolicy::OwnedOnly,
        desktop_workspace: None,
        resolved_environment: None,
        resolved_workspace_target: None,
        resolved_tiling: None,
    }
}

fn window(identity: &str, application: &str, workspace: Option<&str>) -> DesktopWindowSnapshot {
    DesktopWindowSnapshot {
        identity: identity.to_owned(),
        application: Some(application.to_owned()),
        title: None,
        project_path: None,
        workspace_identity: workspace.map(str::to_owned),
        focused: false,
    }
}

fn workspace(identity: &str) -> DesktopWorkspaceSnapshot {
    DesktopWorkspaceSnapshot {
        identity: identity.to_owned(),
        name: Some(identity.to_uppercase()),
        position: None,
        focused: false,
        tiling_enabled: None,
    }
}

fn desktop(
    workspaces: Vec<DesktopWorkspaceSnapshot>,
    windows: Vec<DesktopWindowSnapshot>,
) -> DesktopSnapshot {
    DesktopSnapshot { workspaces, windows }
}

fn lines(outputs: &[ActionOutput]) -> Vec<&str> {
    outputs.iter().map(|output| output.text.as_str()).collect()
}

fn failure(message: &str) -> WorkstateError {
    WorkstateError::new(ErrorCategory::Integration, message)
}

fn zed() -> ZedBackend {
    ZedBackend::new(TimeSpan::from_millis(1000))
}

fn titled(identity: &str, title: &str) -> EditorWindowSnapshot {
    EditorWindowSnapshot {
        identity: identity.to_owned(),
        application: "dev.zed.Zed".to_owned(),
        title: Some(title.to_owned()),
        project_path: None,
        workspace_identity: None,
    }
}

fn with_path(identity: &str, path: &str, workspace: Option<&str>) -> DesktopWindowSnapshot {
    let mut window = window(identity, "dev.zed.Zed", workspace);
    window.project_path = Some(path.to_owned());
    window
}

fn process() -> BackgroundProcess {
    match BackgroundProcess::new("process".to_owned()) {
        Ok(process) => process,
        Err(_) => unreachable!(),
    }
}

fn no_expansion() -> HomeExpansion {
    HomeExpansion {
        home: Ok("/home/user".to_owned()),
        resolver: Ok(()),
        expanded: Ok("/home/user/project".to_owned()),
    }
}

fn found(canonical: &str) -> ProjectReading {
    ProjectReading { exists: Ok(true), is_directory: Ok(true), canonical: Ok(canonical.to_owned()) }
}

#[test]
fn application_names_are_compared_without_punctuation() {
    assert!(is_zed_application("/usr/share/applications/dev.zed.Zed.desktop"));
    assert!(is_zed_application("ZED"));
    assert!(!is_zed_application("zedd"));
    assert!(ProjectEditorKind::VsCode.matches_application("Code - OSS"));
}

#[test]
fn command_without_a_flag_only_names_the_project() {
    let command = ZedCommand::default().without_new_window_flag();
    assert_eq!(command.program(), "zed");
    assert_eq!(command.arguments("/p"), vec!["/p".to_owned()]);
    assert_eq!(ZedCommand::default().arguments("/p"), vec!["-n".to_owned(), "/p".to_owned()]);
}

#[test]
fn titles_name_the_project_in_front_or_at_the_end() {
    let zed = ProjectEditorKind::Zed;
    assert_eq!(zed.project_title_component("project — main.rs"), Some("project".to_owned()));
    assert_eq!(
        zed.title_with_known_editor_suffix("project - Zed"),
        Some("project".to_owned())
    );
    assert_eq!(zed.title_with_known_editor_suffix(" - Zed"), None);
    let code = ProjectEditorKind::VsCode;
    assert_eq!(
        code.project_title_component("main.rs - project - Visual Studio Code"),
        Some("project".to_owned())
    );
    assert_eq!(
        code.title_with_known_editor_suffix("main.rs - Code - OSS"),
        Some("main.rs".to_owned())
    );
    assert_eq!(code.project_title_component("   "), None);
    assert!(code.has_known_editor_suffix("a - Code"));
    assert!(!zed.has_known_editor_suffix("a - Code"));
}

#[test]
fn windows_show_projects_by_path_or_by_title() {
    let backend = zed();
    let mut normalized = TextMap::new();
    let mut window = titled("one", "project");
    assert!(backend.project_path_matches(&window, "/home/user/project", &normalized));
    window.project_path = Some("/home/user/project/".to_owned());
    assert!(backend.project_path_matches(&window, "/home/user/project", &normalized));
    window.project_path = Some("~/project".to_owned());
    assert!(!backend.project_path_matches(&window, "/home/user/project", &normalized));
    assert_eq!(
        backend.path_to_normalize(&window, "/home/user/project"),
        Some("~/project".to_owned())
    );
    normalized.insert("~/project".to_owned(), "/home/user/project".to_owned());
    assert!(backend.project_path_matches(&window, "/home/user/project", &normalized));
    window.application = "browser".to_owned();
    assert!(!backend.project_path_matches(&window, "/home/user/project", &normalized));
}

#[test]
fn two_windows_of_one_project_are_ambiguous() {
    let backend = zed();
    let windows = vec![titled("one", "project"), titled("two", "project")];
    let error = backend
        .matching_project_window(&windows, "/home/user/project", &TextMap::new())
        .err();
    assert_eq!(
        error.map(|error| error.message),
        Some(
            "Zed project '/home/user/project' is ambiguous because 2 matching windows were found"
                .to_owned()
        )
    );
    let mut named = titled("three", "other");
    named.project_path = Some("/home/user/project".to_owned());
    let windows = vec![titled("one", "project"), titled("two", "project"), named];
    let found = backend.matching_project_window(&windows, "/home/user/project", &TextMap::new());
    assert_eq!(
        found.ok().flatten().map(|window| window.identity),
        Some("three".to_owned())
    );
}

#[test]
fn project_paths_must_lead_to_a_directory() {
    let backend = zed();
    let message = |result: Result<String, WorkstateError>| result.err().map(|error| error.message);
    assert_eq!(
        message(backend.resolve_project_path("project", no_expansion(), found("/p"))),
        Some(
            "Zed project path is invalid: the configured project path must be absolute or start \
             with ~/ or $HOME/"
                .to_owned()
        )
    );
    let missing = ProjectReading {
        exists: Ok(false),
        is_directory: Ok(false),
        canonical: Ok("/p".to_owned()),
    };
    assert_eq!(
        message(backend.resolve_project_path("/p", no_expansion(), missing)),
        Some(
            "Zed project path is invalid: the configured project path does not exist: /p".to_owned()
        )
    );
    let plain_file = ProjectReading {
        exists: Ok(true),
        is_directory: Ok(false),
        canonical: Ok("/p".to_owned()),
    };
    assert_eq!(
        message(backend.resolve_project_path("/p", no_expansion(), plain_file)),
        Some(
            "Zed project path is invalid: the configured project path is not a directory: /p"
                .to_owned()
        )
    );
    assert_eq!(
        backend
            .resolve_project_path("~/project", no_expansion(), found("/data/project"))
            .ok(),
        Some("/data/project".to_owned())
    );
    assert_eq!(
        backend.normalize_observed_project_path("$HOME/project", no_expansion(), None),
        Some("/home/user/project".to_owned())
    );
    assert_eq!(backend.normalize_observed_project_path("project", no_expansion(), None), None);
}

#[test]
fn project_that_is_open_is_used_again() {
    let (work, step) = zed().open_project("/p".to_owned());
    assert!(matches!(step, EditorStep::Snapshot));
    let (work, step) = work.advance(EditorEvent::Snapshot {
        snapshot: desktop(Vec::new(), vec![with_path("one", "/p", None)]),
        normalized: TextMap::new(),
    });
    let EditorStep::Finish(outcome) = step else {
        panic!("unexpected step {step:?}");
    };
    assert_eq!(outcome.status, EditorOperationStatus::Reused);
    assert!(!outcome.owned);
    assert_eq!(outcome.window.identity, "one");
    assert!(matches!(work.advance(EditorEvent::Locked).1, EditorStep::Idle));
}

#[test]
fn launched_editor_owns_the_window_that_is_new() {
    let empty = desktop(Vec::new(), vec![with_path("old", "/other", None)]);
    let (work, _) = zed().open_project("/p".to_owned());
    let (work, step) = work.advance(EditorEvent::Snapshot {
        snapshot: empty.clone(),
        normalized: TextMap::new(),
    });
    assert!(matches!(step, EditorStep::Lock));
    let (work, step) = work.advance(EditorEvent::Locked);
    assert!(matches!(step, EditorStep::Snapshot));
    let (work, step) = work
        .advance(EditorEvent::Snapshot { snapshot: empty.clone(), normalized: TextMap::new() });
    let EditorStep::Start(request) = step else {
        panic!("unexpected step {step:?}");
    };
    assert_eq!(request.program, "zed");
    assert_eq!(request.arguments, vec!["-n".to_owned(), "/p".to_owned()]);
    assert_eq!(request.working_directory.as_deref(), Some("/p"));
    let (work, _) = work.advance(EditorEvent::Started(process()));
    let (work, step) =
        work.advance(EditorEvent::Snapshot { snapshot: empty, normalized: TextMap::new() });
    assert!(matches!(step, EditorStep::Rest(_)));
    let (work, _) = work.advance(EditorEvent::Rested);
    let (_, step) = work.advance(EditorEvent::Snapshot {
        snapshot: desktop(
            Vec::new(),
            vec![with_path("old", "/other", None), window("new", "zed", None)],
        ),
        normalized: TextMap::new(),
    });
    let EditorStep::Finish(outcome) = step else {
        panic!("unexpected step {step:?}");
    };
    assert!(outcome.owned);
    assert_eq!(outcome.process_identity.as_deref(), Some("process"));
    assert_eq!(outcome.window.identity, "new");
}

#[test]
fn launched_editor_is_stopped_where_its_window_does_not_come_up() {
    let empty = || EditorEvent::Snapshot {
        snapshot: desktop(Vec::new(), Vec::new()),
        normalized: TextMap::new(),
    };
    let (work, _) = zed().open_project("/p".to_owned());
    let (work, _) = work.advance(empty());
    let (work, _) = work.advance(EditorEvent::Locked);
    let (work, _) = work.advance(empty());
    let (work, _) = work.advance(EditorEvent::Started(process()));
    let (work, step) = work.advance(EditorEvent::Snapshot {
        snapshot: desktop(
            Vec::new(),
            vec![window("a", "zed", None), window("b", "zed", None)],
        ),
        normalized: TextMap::new(),
    });
    assert!(matches!(step, EditorStep::Stop(process) if process.identity == "process"));
    let (_, step) = work.advance(EditorEvent::Stopped);
    assert!(matches!(
        step,
        EditorStep::Fail(error)
            if error.message
                == "Zed project '/p' is ambiguous because 2 matching windows were found"
    ));
}

#[test]
fn failed_launch_says_what_failed() {
    let empty = || EditorEvent::Snapshot {
        snapshot: desktop(Vec::new(), Vec::new()),
        normalized: TextMap::new(),
    };
    let (work, _) = zed().open_project("/p".to_owned());
    let (work, _) = work.advance(empty());
    let (work, _) = work.advance(EditorEvent::Locked);
    let (work, _) = work.advance(empty());
    let (_, step) = work.advance(EditorEvent::Failed(failure("no such program")));
    let EditorStep::Fail(error) = step else {
        panic!("unexpected step {step:?}");
    };
    assert!(error.message.starts_with("Zed operation 'launch-project' failed: "));
    assert!(error.message.contains("no such program"));
}

#[test]
fn window_is_moved_with_one_retry() {
    let target =
        WorkspaceTarget::Existing { reference: WorkspaceReference::Identifier("target".to_owned()) };
    let resolution = || DesktopWorkspaceResolution::existing(workspace("target"));
    let away = || desktop(Vec::new(), vec![window("one", "zed", Some("main"))]);
    let there = || desktop(Vec::new(), vec![window("one", "zed", Some("target"))]);

    let (work, step) = WindowPlacing::begin("Zed", "one", target.clone());
    assert!(matches!(step, PlacingStep::Ensure(_)));
    let (work, _) = work.advance(PlacingEvent::Ensured(resolution()));
    let (work, step) = work.advance(PlacingEvent::Snapshot(away()));
    assert!(matches!(step, PlacingStep::Check));
    let (work, step) = work.advance(PlacingEvent::Checked);
    assert!(matches!(step, PlacingStep::Move { .. }));
    let (work, step) = work.advance(PlacingEvent::Failed(failure("busy")));
    assert!(matches!(step, PlacingStep::Ensure(_)));
    let (work, _) = work.advance(PlacingEvent::Ensured(resolution()));
    let (work, _) = work.advance(PlacingEvent::Snapshot(away()));
    let (work, _) = work.advance(PlacingEvent::Checked);
    let (work, _) = work.advance(PlacingEvent::Moved);
    let (_, step) = work.advance(PlacingEvent::Snapshot(there()));
    let PlacingStep::Finish(Some(moved)) = step else {
        panic!("unexpected step {step:?}");
    };
    assert_eq!(moved.previous.as_deref(), Some("main"));
    assert_eq!(moved.destination, "target");

    let (work, _) = WindowPlacing::begin("Zed", "one", target);
    let (work, _) = work.advance(PlacingEvent::Ensured(resolution()));
    let (work, _) = work.advance(PlacingEvent::Snapshot(away()));
    let (work, _) = work.advance(PlacingEvent::Checked);
    let (work, _) = work.advance(PlacingEvent::Moved);
    let (work, step) = work.advance(PlacingEvent::Snapshot(away()));
    assert!(matches!(step, PlacingStep::Check));
    let (work, _) = work.advance(PlacingEvent::Checked);
    let (work, _) = work.advance(PlacingEvent::Moved);
    let (_, step) = work.advance(PlacingEvent::Snapshot(away()));
    let PlacingStep::Fail(error) = step else {
        panic!("unexpected step {step:?}");
    };
    assert_eq!(error.message, "the desktop backend did not confirm the Zed window movement");
}

fn project_action() -> ActionSpec {
    let mut action = action("open", ActionKind::OpenProject);
    action.parameters.application = Some("zed".to_owned());
    action.parameters.project_path = Some("/p".to_owned());
    action
}

#[test]
fn editors_are_validated() {
    let handler = ProjectEditorHandler::new(zed());
    assert_eq!(handler.action_key(), "open_project");
    assert!(handler.required_capabilities().contains(CapabilityId::Zed));
    assert!(handler.required_capabilities().contains(CapabilityId::DesktopWindows));
    assert!(handler.requires_workspace_target_for_observation());
    assert!(handler.validate(&project_action()).is_ok());
    let mut other = project_action();
    other.parameters.application = Some("code".to_owned());
    let Some(error) = handler.validate(&other).err() else {
        panic!("the application is another editor");
    };
    assert_eq!(error.message, "the open-project action application is not Zed");
    assert_eq!(error.context, vec![("application".to_owned(), "code".to_owned())]);
    let mut nameless = project_action();
    nameless.parameters.application = None;
    assert_eq!(
        handler.validate(&nameless).err().map(|error| error.message),
        Some("the Zed action does not contain an application identity".to_owned())
    );
    let foreign = action("run", ActionKind::RunCommand);
    assert_eq!(
        handler.validate(&foreign).err().map(|error| error.message),
        Some("the Zed project handler received an incompatible action".to_owned())
    );
    let mut pathless = project_action();
    pathless.parameters.project_path = None;
    assert_eq!(
        handler.project_path(&pathless).err().map(|error| error.message),
        Some("the Zed action does not contain a project path".to_owned())
    );
}

#[test]
fn project_is_observed_in_its_workspace() {
    let handler = ProjectEditorHandler::new(zed());
    let mut action = project_action();
    action.desktop_workspace = Some("target".to_owned());
    let snapshot = desktop(vec![workspace("target")], vec![with_path("one", "/p", Some("main"))]);
    let look = handler.observe(&action, "/p", &snapshot, &TextMap::new(), &Vec::new());
    let Ok(EditorLook::LookFor { window, record, .. }) = look else {
        panic!("the workspace must be looked for");
    };
    let destination = DesktopWorkspaceResolution::existing(workspace("target"));
    let observation = handler.judge(&window, record.clone(), &destination);
    assert_eq!(observation.status, ObservationStatus::RequiresChange);
    assert_eq!(
        observation.detail.as_deref(),
        Some("the Zed project window is not in the requested workspace")
    );
    let mut placed = window;
    placed.workspace_identity = Some("target".to_owned());
    assert_eq!(
        handler.judge(&placed, record, &destination).status,
        ObservationStatus::AlreadyCorrect
    );
    let look = handler.observe(
        &action,
        "/p",
        &desktop(Vec::new(), Vec::new()),
        &TextMap::new(),
        &Vec::new(),
    );
    assert!(matches!(
        look,
        Ok(EditorLook::Settled(observation))
            if observation.status == ObservationStatus::RequiresChange
    ));
}

#[test]
fn recorded_window_is_found_without_a_title() {
    let handler = ProjectEditorHandler::new(zed());
    let action = project_action();
    let snapshot = desktop(Vec::new(), vec![with_path("one", "/p", None)]);
    let Ok(EditorLook::Settled(observation)) =
        handler.observe(&action, "/p", &snapshot, &TextMap::new(), &Vec::new())
    else {
        panic!("the project is open");
    };
    let records = observation.resources;
    let bare = desktop(Vec::new(), vec![window("one", "zed", None)]);
    let Ok(EditorLook::Settled(observation)) =
        handler.observe(&action, "/p", &bare, &TextMap::new(), &records)
    else {
        panic!("the window is recorded");
    };
    assert_eq!(observation.status, ObservationStatus::AlreadyCorrect);
    let foreign = desktop(Vec::new(), vec![window("one", "browser", None)]);
    let observation = handler.observe_for_cleanup(&records, &foreign);
    assert_eq!(observation.status, ObservationStatus::Unknown);
    assert_eq!(
        observation.detail.as_deref(),
        Some("persisted Zed window 'one' now identifies application 'browser'")
    );
}

#[test]
fn project_is_opened_and_placed() {
    let handler = ProjectEditorHandler::new(zed());
    let mut action = project_action();
    action.resolved_workspace_target = Some(WorkspaceTarget::NextEmpty);
    let (work, step) = handler.apply(&action, "/p".to_owned());
    assert!(matches!(step, ApplyStep::Anchor(WorkspaceTarget::NextEmpty)));
    let (work, step) = work
        .advance(ApplyEvent::Anchored(DesktopWorkspaceResolution::existing(workspace("target"))));
    assert!(matches!(step, ApplyStep::Snapshot));
    let open = || desktop(Vec::new(), vec![with_path("one", "/p", Some("main"))]);
    let (work, step) =
        work.advance(ApplyEvent::Snapshot { snapshot: open(), normalized: TextMap::new() });
    assert!(matches!(
        step,
        ApplyStep::Ensure(WorkspaceTarget::Existing {
            reference: WorkspaceReference::Identifier(identity)
        }) if identity == "target"
    ));
    let (work, _) = work
        .advance(ApplyEvent::Ensured(DesktopWorkspaceResolution::existing(workspace("target"))));
    let (work, _) =
        work.advance(ApplyEvent::Snapshot { snapshot: open(), normalized: TextMap::new() });
    let (work, step) = work.advance(ApplyEvent::Checked);
    assert!(matches!(step, ApplyStep::Move { .. }));
    let (work, _) = work.advance(ApplyEvent::Moved);
    let (_, step) = work.advance(ApplyEvent::Snapshot {
        snapshot: desktop(Vec::new(), vec![with_path("one", "/p", Some("target"))]),
        normalized: TextMap::new(),
    });
    let ApplyStep::Finish(result) = step else {
        panic!("unexpected step {step:?}");
    };
    assert!(result.changed);
    assert_eq!(result.mutations.len(), 1);
    assert_eq!(result.resources[0].ownership, OwnershipStatus::ReusedExisting);
    assert_eq!(
        result.resources[0].integration_metadata.get("workspace_identity"),
        Some("target".to_owned())
    );
    assert_eq!(
        lines(&result.outputs),
        vec![
            "inspected Zed windows before opening project",
            "reused Zed for '/p'",
            "resolved Zed destination workspace 'target'",
            "moved Zed window to desktop workspace 'target'",
        ]
    );
}

#[test]
fn window_that_was_opened_just_now_is_closed_where_it_cannot_be_placed() {
    let handler = ProjectEditorHandler::new(zed());
    let mut action = project_action();
    action.resolved_workspace_target = Some(WorkspaceTarget::Create { name: "Work".to_owned() });
    let empty = || ApplyEvent::Snapshot {
        snapshot: desktop(Vec::new(), Vec::new()),
        normalized: TextMap::new(),
    };
    let (work, _) = handler.apply(&action, "/p".to_owned());
    let (work, _) = work.advance(ApplyEvent::Anchored(DesktopWorkspaceResolution::none()));
    let (work, _) = work.advance(empty());
    let (work, _) = work.advance(ApplyEvent::Locked);
    let (work, _) = work.advance(empty());
    let (work, _) = work.advance(ApplyEvent::Started(process()));
    let (work, step) = work.advance(ApplyEvent::Snapshot {
        snapshot: desktop(Vec::new(), vec![with_path("one", "/p", None)]),
        normalized: TextMap::new(),
    });
    assert!(matches!(step, ApplyStep::Ensure(_)));
    let (work, step) = work.advance(ApplyEvent::Failed(failure("no workspace")));
    assert!(matches!(step, ApplyStep::Close(window) if window == "one"));
    let (_, step) = work.advance(ApplyEvent::Closed);
    assert!(matches!(step, ApplyStep::Fail(error) if error.message == "no workspace"));
}

#[test]
fn each_editor_registers_its_own_action() {
    let mut registry = ActionHandlerRegistry::new();
    let time = TimeSpan::from_millis(1);
    for kind in [ProjectEditorKind::Zed, ProjectEditorKind::VsCode, ProjectEditorKind::Cursor] {
        let backend = ZedBackend::for_editor(kind, time);
        assert!(workstate::integrations::zed::register_editor_handler(&mut registry, backend).is_ok());
    }
    assert_eq!(
        registry.keys,
        vec![
            "open_project".to_owned(),
            "open_project_with_vs_code".to_owned(),
            "open_project_with_cursor".to_owned(),
        ]
    );
    let again = workstate::integrations::zed::register_handlers(&mut registry, zed());
    assert!(again.is_err());
}

#[test]
fn editor_errors_have_their_texts() {
    let timeout = ZedError::WindowTimeout { editor: "Zed".to_owned(), project: "/p".to_owned() };
    assert_eq!(
        timeout.to_text(),
        "Zed project '/p' did not become observable before the timeout"
    );
    let close = ZedError::WindowCloseTimeout { editor: "Zed".to_owned(), window: "one".to_owned() };
    assert_eq!(close.into_workstate().category, ErrorCategory::Integration);
}
