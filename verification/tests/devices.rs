use workstate::domain::{
    ActionKind, ActionParameters, ActionSpec, CleanupPolicy, EmulatorSpec, OwnershipStatus,
    ResourceIdentity, ResourceKind, ResourceRecord, TilingPreference, WorkspaceReference,
    WorkspaceTarget,
};
use workstate::error::{ErrorCategory, WorkstateError};
use workstate::integrations::android::adb::{AdbClient, SurveyEvent, SurveyStep};
use workstate::integrations::android::checks::{
    matching_device, wait_for_device, wait_for_device_absence, AbsenceStep, DeviceStep,
};
use workstate::integrations::android::emulator::{
    AndroidBackend, EmulatorEnsure, EmulatorEvent, EmulatorStep, EmulatorStop, StopEvent, StopStep,
};
use workstate::integrations::android::handler::AndroidEmulatorActionHandler;
use workstate::integrations::cosmic::handler::{
    TilingApply, TilingEvent, TilingLook, TilingStep, TilingUndo, TilingUndoEvent, TilingUndoStep,
    WorkspaceHandler,
};
use workstate::integrations::cosmic::models::{
    decode_snapshot, CosmicTilingModel, CosmicValue, CosmicWindowModel, CosmicWorkspaceModel,
};
use workstate::integrations::environment::StartOtherEnvironmentActionHandler;
use workstate::integrations::windows::{record_window_move, RestoreEvent, RestoreStep};
use workstate::planner::ObservationStatus;
use workstate::ports::{
    AndroidDeviceSnapshot, AndroidDeviceState, AndroidVirtualDevice, BackgroundProcess,
    DesktopSnapshot, DesktopWorkspaceResolution, DesktopWorkspaceSnapshot, EmulatorActionContext,
    EmulatorOperationStatus, EmulatorRequest, ProcessOutput,
};
use workstate::time::TimeSpan;

fn action(id: &str, kind: ActionKind) -> ActionSpec {
    ActionSpec {
        id: id.to_owned(),
        kind,
        parameters: ActionParameters {
            application: None,
            application_arguments: Vec::new(),
            project_path: None,
            command: None,
            container: None,
            compose: None,
            emulator: None,
            workspace_id: None,
            other_environment: None,
        },
        execution_mode: None,
        working_directory: None,
        timeout: None,
        readiness_checks: Vec::new(),
        cleanup_policy: CleanupPolicy::OwnedOnly,
        desktop_workspace: None,
        resolved_environment: None,
        resolved_workspace_target: None,
        resolved_tiling: None,
    }
}

fn output(status: i32, stdout: &str) -> ProcessOutput {
    ProcessOutput { status: Some(status), stdout: stdout.as_bytes().to_vec(), stderr: Vec::new() }
}

fn failure(message: &str) -> WorkstateError {
    WorkstateError::new(ErrorCategory::Integration, message)
}

fn backend() -> AndroidBackend {
    match AndroidBackend::new("/sdk/emulator".to_owned(), "/sdk/adb".to_owned()) {
        Ok(backend) => backend,
        Err(error) => panic!("unexpected error {error:?}"),
    }
}

fn device(serial: &str, booted: bool) -> AndroidDeviceSnapshot {
    AndroidDeviceSnapshot {
        serial: serial.to_owned(),
        avd: Some("Pixel".to_owned()),
        state: AndroidDeviceState::Device,
        boot_completed: booted,
    }
}

fn pixel() -> AndroidVirtualDevice {
    AndroidVirtualDevice { name: "Pixel".to_owned() }
}

fn process() -> BackgroundProcess {
    match BackgroundProcess::new("process".to_owned()) {
        Ok(process) => process,
        Err(_) => unreachable!(),
    }
}

fn emulator_request() -> EmulatorRequest {
    EmulatorRequest {
        context: EmulatorActionContext {
            action_id: "phone".to_owned(),
            environment: "dev".to_owned(),
            cleanup_policy: CleanupPolicy::OwnedOnly,
        },
        specification: EmulatorSpec { avd: "Pixel".to_owned(), arguments: Vec::new() },
        workspace_target: None,
        timeout: TimeSpan::from_millis(1000),
        poll_interval: TimeSpan::from_millis(100),
    }
}

#[test]
fn emulators_are_surveyed_one_by_one() {
    let Ok(client) = AdbClient::new("/sdk/adb".to_owned()) else {
        panic!("the executable has a name");
    };
    assert!(AdbClient::new(String::new()).is_err());
    let (work, step) = client.observe_emulators();
    let SurveyStep::Run(request) = step else {
        panic!("unexpected step {step:?}");
    };
    assert_eq!(request.program, "/sdk/adb");
    let listing = "List of devices attached\nemulator-5554\tdevice\n";
    let (work, step) = work.advance(SurveyEvent::Ran(output(0, listing)));
    let SurveyStep::Run(request) = step else {
        panic!("unexpected step {step:?}");
    };
    assert!(request.arguments.contains(&"emulator-5554".to_owned()));
    let (work, _) = work.advance(SurveyEvent::Ran(output(0, "Pixel\nOK\n")));
    let (_, step) = work.advance(SurveyEvent::Ran(output(0, "1\n")));
    let SurveyStep::Finish(devices) = step else {
        panic!("unexpected step {step:?}");
    };
    assert_eq!(devices, vec![device("emulator-5554", true)]);
}

#[test]
fn two_devices_of_one_name_are_ambiguous() {
    let error =
        matching_device(&vec![device("emulator-1", true), device("emulator-2", true)], "Pixel")
            .err();
    assert_eq!(
        error.map(|error| error.message),
        Some(
            "Android Virtual Device 'Pixel' matched multiple emulator devices: \
             [\"emulator-1\", \"emulator-2\"]"
                .to_owned()
        )
    );
}

#[test]
fn device_is_waited_for_until_it_is_booted() {
    let second = TimeSpan::from_millis(1000);
    let Ok(wait) = wait_for_device("Pixel", second, TimeSpan::from_millis(100)) else {
        panic!("the time is not empty");
    };
    assert!(wait_for_device("Pixel", TimeSpan::from_millis(0), second).is_err());
    let (wait, step) = wait.observed(&vec![device("emulator-1", false)], second);
    assert!(matches!(step, DeviceStep::Sleep(pause) if pause == TimeSpan::from_millis(100)));
    let (wait, step) =
        wait.observed(&vec![device("emulator-1", false)], TimeSpan::from_millis(30));
    assert!(matches!(step, DeviceStep::Sleep(pause) if pause == TimeSpan::from_millis(30)));
    let (_, step) = wait.observed(&vec![device("emulator-1", true)], TimeSpan::from_millis(30));
    assert!(matches!(step, DeviceStep::Ready(device) if device.serial == "emulator-1"));
    let Ok(absence) = wait_for_device_absence("emulator-1", second, TimeSpan::from_millis(100))
    else {
        panic!("the time is not empty");
    };
    assert!(matches!(absence.observed(&Vec::new(), second), AbsenceStep::Gone));
    assert!(matches!(
        absence.observed(&vec![device("emulator-1", true)], TimeSpan::from_millis(0)),
        AbsenceStep::Fail(_)
    ));
}

#[test]
fn emulator_is_launched_owned_and_stopped() {
    let (work, step) = EmulatorEnsure::begin(backend(), emulator_request());
    assert!(matches!(step, EmulatorStep::ListAvds));
    let (work, step) = work.advance(EmulatorEvent::Avds(vec![pixel()]));
    assert!(matches!(step, EmulatorStep::Observe));
    let (work, step) = work.advance(EmulatorEvent::Emulators(Vec::new()));
    assert!(matches!(step, EmulatorStep::LockAndObserve));
    let (work, step) = work.advance(EmulatorEvent::Emulators(Vec::new()));
    let EmulatorStep::Launch(request) = step else {
        panic!("unexpected step {step:?}");
    };
    assert_eq!(request.program, "/sdk/emulator");
    assert!(request.arguments.contains(&"Pixel".to_owned()));
    let (work, step) = work.advance(EmulatorEvent::Launched(process()));
    assert!(matches!(step, EmulatorStep::WaitForDevice));
    let (_, step) = work.advance(EmulatorEvent::DeviceReady(device("emulator-1", true)));
    let EmulatorStep::Finish(outcome) = step else {
        panic!("unexpected step {step:?}");
    };
    assert_eq!(outcome.status, EmulatorOperationStatus::Started);
    assert_eq!(
        outcome.outputs,
        vec![
            "inspected Android Emulator processes and adb devices".to_owned(),
            "started Android Virtual Device 'Pixel'".to_owned(),
            "Android Emulator 'Pixel' is connected and boot-complete".to_owned(),
        ]
    );
    assert_eq!(outcome.resources[0].ownership, OwnershipStatus::CreatedByCurrentRun);

    let (work, step) = EmulatorStop::begin(&outcome.resources);
    assert!(matches!(step, StopStep::Observe));
    let (work, step) = work.advance(StopEvent::Emulators(vec![device("emulator-1", true)]));
    assert!(matches!(step, StopStep::StopProcess(process) if process.identity == "process"));
    let (work, step) = work.advance(StopEvent::Stopped);
    assert!(matches!(step, StopStep::WaitForAbsence { serial } if serial == "emulator-1"));
    let (_, step) = work.advance(StopEvent::Gone);
    assert!(matches!(step, StopStep::Finish(_)));
}

#[test]
fn launched_emulator_is_stopped_where_it_does_not_come_up() {
    let (work, _) = EmulatorEnsure::begin(backend(), emulator_request());
    let (work, _) = work.advance(EmulatorEvent::Avds(vec![pixel()]));
    let (work, _) = work.advance(EmulatorEvent::Emulators(Vec::new()));
    let (work, _) = work.advance(EmulatorEvent::Emulators(Vec::new()));
    let (work, _) = work.advance(EmulatorEvent::Launched(process()));
    let (work, step) = work.advance(EmulatorEvent::Failed(failure("too late")));
    assert!(matches!(step, EmulatorStep::StopProcess(process) if process.identity == "process"));
    let (_, step) = work.advance(EmulatorEvent::Stopped);
    assert!(matches!(step, EmulatorStep::Fail(error) if error.message == "too late"));
}

#[test]
fn missing_virtual_device_is_refused() {
    let (work, _) = EmulatorEnsure::begin(backend(), emulator_request());
    let other = AndroidVirtualDevice { name: "Tablet".to_owned() };
    let (_, step) = work.advance(EmulatorEvent::Avds(vec![other]));
    let EmulatorStep::Fail(error) = step else {
        panic!("unexpected step {step:?}");
    };
    assert_eq!(error.message, "Android Virtual Device 'Pixel' is not available");
    assert!(error
        .context
        .contains(&("available_avds".to_owned(), "Tablet".to_owned())));
}

fn workspace(identity: &str, tiling_enabled: Option<bool>) -> DesktopWorkspaceSnapshot {
    DesktopWorkspaceSnapshot {
        identity: identity.to_owned(),
        name: Some(identity.to_owned()),
        position: None,
        focused: false,
        tiling_enabled,
    }
}

fn desktop(workspaces: Vec<DesktopWorkspaceSnapshot>) -> DesktopSnapshot {
    DesktopSnapshot { workspaces, windows: Vec::new() }
}

fn tiling() -> ActionSpec {
    let mut action = action("tile", ActionKind::ConfigureTiling);
    action.resolved_tiling = Some(TilingPreference::Enabled);
    action.resolved_workspace_target = Some(WorkspaceTarget::Existing {
        reference: WorkspaceReference::Identifier("main".to_owned()),
    });
    action
}

#[test]
fn tiling_is_set_confirmed_and_undone() {
    let (work, step) = TilingApply::begin(tiling());
    assert!(matches!(step, TilingStep::Ensure(_)));
    let (work, step) = work.advance(TilingEvent::Ensured(DesktopWorkspaceResolution::existing(
        workspace("main", Some(false)),
    )));
    assert!(matches!(step, TilingStep::SetTiling { enabled: true, .. }));
    let (work, step) = work.advance(TilingEvent::Changed);
    assert!(matches!(step, TilingStep::Snapshot));
    let (_, step) =
        work.advance(TilingEvent::Snapshot(desktop(vec![workspace("main", Some(true))])));
    let TilingStep::Finish(result) = step else {
        panic!("unexpected step {step:?}");
    };
    assert!(result.changed);
    assert_eq!(result.mutations.len(), 1);

    let (work, _) = TilingUndo::compensate(result.clone());
    let (work, step) =
        work.advance(TilingUndoEvent::Snapshot(desktop(vec![workspace("main", Some(true))])));
    assert!(matches!(
        step,
        TilingUndoStep::Restore { workspace, enabled: false } if workspace == "main"
    ));
    let (_, step) = work.advance(TilingUndoEvent::Restored);
    assert!(matches!(step, TilingUndoStep::Finish(_)));

    let (work, _) = TilingUndo::compensate(result);
    let (_, step) =
        work.advance(TilingUndoEvent::Snapshot(desktop(vec![workspace("main", Some(false))])));
    let TilingUndoStep::Finish(undone) = step else {
        panic!("unexpected step {step:?}");
    };
    assert!(undone.outputs.iter().any(|output| output.text.contains("preserved")));
}

#[test]
fn tiling_that_is_there_already_is_left_alone() {
    let (work, _) = TilingApply::begin(tiling());
    let (_, step) = work.advance(TilingEvent::Ensured(DesktopWorkspaceResolution::existing(
        workspace("main", Some(true)),
    )));
    let TilingStep::Finish(result) = step else {
        panic!("unexpected step {step:?}");
    };
    assert!(result.mutations.is_empty());
    let handler = WorkspaceHandler::tiling();
    assert!(matches!(handler.observe(&tiling()), Ok(TilingLook::LookFor(_))));
    let named = WorkspaceTarget::Create { name: "main".to_owned() };
    let twice = desktop(vec![workspace("main", None), workspace("main", None)]);
    let error = handler
        .observed_workspace(&twice, &named, Ok(DesktopWorkspaceResolution::none()))
        .err();
    assert_eq!(
        error.map(|error| error.message),
        Some("the requested desktop workspace name is ambiguous".to_owned())
    );
}

#[test]
fn decoded_snapshot_is_consistent() {
    let model = |id: &str| CosmicWorkspaceModel {
        id: Some(CosmicValue::Text(id.to_owned())),
        name: Some("Main".to_owned()),
        coordinates: vec![3],
        active: true,
        tiling: Some(CosmicTilingModel::Enabled(true)),
    };
    let window = CosmicWindowModel {
        identity: Some(CosmicValue::Number("7".to_owned())),
        application: Some("zed".to_owned()),
        title: None,
        state: vec!["activated".to_owned()],
        workspaces: vec![CosmicValue::Text("main".to_owned())],
        project_path: None,
    };
    let Ok(snapshot) = decode_snapshot(Ok(vec![model("main")]), Ok(vec![window])) else {
        panic!("the models are complete");
    };
    assert_eq!(snapshot.workspaces[0].identity, "main");
    assert_eq!(snapshot.workspaces[0].tiling_enabled, Some(true));
    assert_eq!(snapshot.windows[0].identity, "7");
    assert_eq!(snapshot.windows[0].workspace_identity.as_deref(), Some("main"));
    assert!(decode_snapshot(Ok(vec![model("a"), model("a")]), Ok(Vec::new())).is_err());
    assert!(decode_snapshot(Err("broken".to_owned()), Ok(Vec::new())).is_err());
}

fn other_environment() -> ActionSpec {
    let mut action = action("start", ActionKind::StartOtherEnvironment);
    action.parameters.other_environment = Some("shared".to_owned());
    action.resolved_environment = Some("dev".to_owned());
    action
}

#[test]
fn environment_never_starts_itself() {
    let handler = StartOtherEnvironmentActionHandler::new();
    assert!(handler.validate(&other_environment(), Ok(true)).is_ok());
    let mut own = other_environment();
    own.resolved_environment = Some("shared".to_owned());
    assert_eq!(
        handler.validate(&own, Ok(true)).err().map(|error| error.message),
        Some(
            "Start Other Environment action 'start' cannot start its own environment".to_owned()
        )
    );
    let Some(error) = handler.validate(&other_environment(), Ok(false)).err() else {
        panic!("the environment is not there");
    };
    assert_eq!(error.message, "target environment 'shared' was not found");
    assert_eq!(
        error.context[0],
        ("suggested_command".to_owned(), "workstate new shared".to_owned())
    );
    let mut nameless = other_environment();
    nameless.parameters.other_environment = None;
    assert!(handler.validate(&nameless, Ok(true)).is_err());
}

#[test]
fn started_environment_is_stopped_by_its_record() {
    let handler = StartOtherEnvironmentActionHandler::new();
    let Ok(stopped) = handler.observe(&other_environment(), Ok(true), Ok(false)) else {
        panic!("the environment is there");
    };
    assert_eq!(stopped.status, ObservationStatus::RequiresChange);
    assert_eq!(stopped.detail.as_deref(), Some("environment 'shared' is stopped"));
    let Ok(result) = handler.run_once_with_output(&other_environment(), "shared", true) else {
        panic!("the environment has a name");
    };
    assert_eq!(result.resources[0].ownership, OwnershipStatus::CreatedByCurrentRun);
    assert_eq!(
        handler.stop_target(&other_environment(), &result.resources).ok(),
        Some(Some("shared".to_owned()))
    );
    assert_eq!(
        handler.stop_target(&other_environment(), &Vec::new()).ok(),
        Some(None)
    );
    let Ok(identity) = ResourceIdentity::new(ResourceKind::DesktopWindow, "shared".to_owned())
    else {
        panic!("the identity is not blank");
    };
    let window = ResourceRecord::new(identity, OwnershipStatus::CreatedByCurrentRun);
    assert_eq!(
        handler.stop_target(&other_environment(), &vec![window]).ok(),
        Some(None)
    );
}

#[test]
fn virtual_devices_are_listed_or_the_failure_is_named() {
    let Ok(devices) = AndroidBackend::read_avds(Ok(output(0, "Tablet\nPixel\n"))) else {
        panic!("the listing can be read");
    };
    assert_eq!(devices.len(), 2);
    assert_eq!(devices[0].name, "Pixel");
    let Err(error) = AndroidBackend::read_avds(Err(failure("not started"))) else {
        panic!("the listing was not run");
    };
    assert_eq!(error.message, "not started");
    assert!(error.context.contains(&("operation".to_owned(), "list-android-avds".to_owned())));
    assert!(AndroidBackend::read_avds(Ok(output(1, ""))).is_err());
}

#[test]
fn moved_emulator_window_is_named_when_it_cannot_go_back() {
    let Ok(mutation) = record_window_move(
        "emulator-window",
        Some("main".to_owned()),
        "target",
        "phone",
        CleanupPolicy::OwnedOnly,
    ) else {
        panic!("the window has an identity");
    };
    let (work, step) = AndroidEmulatorActionHandler::new().restore_mutations(vec![mutation]);
    assert!(matches!(step, RestoreStep::Snapshot));
    let gone = DesktopSnapshot { workspaces: Vec::new(), windows: Vec::new() };
    let (_, step) = work.advance(RestoreEvent::Snapshot(gone));
    assert!(matches!(
        step,
        RestoreStep::Finish(lines) if lines == vec![
            "preserved emulator window 'emulator-window' because it no longer exists".to_owned(),
        ]
    ));
}
