use workstate::domain::{ActionKind, ActionParameters, ActionSpec, CleanupPolicy};
use workstate::error::ErrorCategory;
use workstate::integrations::application::open::{ApplicationOpen, OpenEvent, OpenStep};
use workstate::integrations::cosmic::backend::{map_native_outcome, CosmicBackend};
use workstate::integrations::cosmic::errors::CosmicError;
use workstate::ports::{
    BackgroundProcess, DesktopOperationOutcome, DesktopOperationStatus, DesktopSnapshot,
    ProcessRequest,
};
use workstate::time::TimeSpan;

fn nothing_open() -> DesktopSnapshot {
    DesktopSnapshot { workspaces: Vec::new(), windows: Vec::new() }
}

fn open_zed() -> ActionSpec {
    ActionSpec {
        id: "open-zed".to_owned(),
        kind: ActionKind::OpenApplication,
        parameters: ActionParameters {
            application: Some("zed".to_owned()),
            application_arguments: Vec::new(),
            project_path: None,
            command: None,
            container: None,
            compose: None,
            emulator: None,
            workspace_id: None,
            other_environment: None,
        },
        execution_mode: None,
        working_directory: None,
        timeout: None,
        readiness_checks: Vec::new(),
        cleanup_policy: CleanupPolicy::OwnedOnly,
        desktop_workspace: None,
        resolved_environment: None,
        resolved_workspace_target: None,
        resolved_tiling: None,
    }
}

#[test]
fn application_launch_and_cleanup_stay_on_the_injected_process_port() {
    let mut started: Vec<ProcessRequest> = Vec::new();
    let mut stopped: Vec<String> = Vec::new();
    let backend = CosmicBackend::new(TimeSpan::from_millis(1000));
    let request = ProcessRequest {
        program: "zed".to_owned(),
        arguments: vec!["--new".to_owned()],
        working_directory: None,
        environment: Vec::new(),
    };

    let (work, _) = ApplicationOpen::begin(
        open_zed(),
        "zed".to_owned(),
        request.clone(),
        TimeSpan::from_millis(10),
        TimeSpan::from_millis(1000),
    );
    let (work, step) = work.advance(OpenEvent::Snapshot(nothing_open()));
    let OpenStep::Launch(asked) = step else {
        panic!("unexpected step {step:?}");
    };
    started.push(asked);
    let Ok(launch) = backend.open_application(BackgroundProcess::new("application-process".to_owned()))
    else {
        panic!("the launch failed");
    };
    assert_eq!(launch.status, DesktopOperationStatus::Created);
    assert_eq!(launch.identity.as_deref(), Some("application-process"));
    assert_eq!(started, vec![request]);

    let (work, _) = work.advance(OpenEvent::Launched(launch));
    let (work, step) = work.advance(OpenEvent::Expired);
    let OpenStep::StopProcess(identity) = step else {
        panic!("unexpected step {step:?}");
    };
    let Ok(process) = backend.application_process(&identity) else {
        panic!("the process has no identity");
    };
    stopped.push(process.identity);
    let Ok(cleanup) = backend.stop_application(&identity, Ok(())) else {
        panic!("the cleanup failed");
    };
    assert_eq!(cleanup.status, DesktopOperationStatus::Changed);
    assert_eq!(stopped, vec!["application-process".to_owned()]);
    let (_, step) = work.advance(OpenEvent::Stopped);
    assert!(matches!(step, OpenStep::Fail(_)));
}

#[test]
fn native_outcome_mapping_preserves_only_changed_and_unchanged_semantics() {
    let changed = map_native_outcome(
        DesktopOperationOutcome::changed(Some("window-1".to_owned())).with_detail("confirmed"),
    );
    let unchanged =
        map_native_outcome(DesktopOperationOutcome::unchanged(Some("workspace-1".to_owned())));

    assert_eq!(changed.status, DesktopOperationStatus::Changed);
    assert_eq!(changed.identity.as_deref(), Some("window-1"));
    assert_eq!(changed.detail.as_deref(), Some("confirmed"));
    assert_eq!(unchanged.status, DesktopOperationStatus::Unchanged);
    assert_eq!(unchanged.identity.as_deref(), Some("workspace-1"));
}

#[test]
fn native_outcome_mapping_preserves_non_mutation_statuses() {
    for status in [
        DesktopOperationStatus::Created,
        DesktopOperationStatus::AlreadyPresent,
        DesktopOperationStatus::Reused,
        DesktopOperationStatus::Unavailable,
        DesktopOperationStatus::Ambiguous,
    ] {
        let outcome = DesktopOperationOutcome {
            status,
            identity: Some("resource-1".to_owned()),
            detail: Some("preserved".to_owned()),
        };

        assert_eq!(map_native_outcome(outcome.clone()), outcome);
    }
}

#[test]
fn native_capability_errors_map_to_the_platform_category() {
    let error = CosmicError::CapabilityUnavailable {
        operation: "observe".to_owned(),
        capability: "workspace enumeration".to_owned(),
        detail: "the required global was not advertised".to_owned(),
    };

    let workstate_error = error.into_workstate();

    assert_eq!(workstate_error.category, ErrorCategory::Platform);
    assert!(workstate_error.message.contains("workspace enumeration"));
}

#[test]
fn native_transport_errors_map_to_the_integration_category() {
    let error = CosmicError::ConnectionFailed {
        operation: "observe".to_owned(),
        detail: "WAYLAND_DISPLAY is unavailable".to_owned(),
    };

    let workstate_error = error.into_workstate();

    assert_eq!(workstate_error.category, ErrorCategory::Integration);
    assert!(workstate_error.message.contains("WAYLAND_DISPLAY"));
}

#[test]
fn legacy_unavailable_errors_keep_the_existing_category() {
    let error = CosmicError::Unavailable {
        operation: "create-workspace".to_owned(),
        detail: "workspace creation is not supported".to_owned(),
    };

    let workstate_error = error.into_workstate();

    assert_eq!(workstate_error.category, ErrorCategory::Integration);
}
