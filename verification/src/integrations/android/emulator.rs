//! Starting and stopping emulators: what is asked of the world next, for each of its replies.
use vstd::prelude::*;
use vstd::string::*;
use crate::domain::{
    identity_of, law_every_owned_resource_is_taken_up, owned_of_kind, owned_resources,
    places_window, record_of, target_places_window, CleanupPolicy, OwnershipStatus,
    ResourceIdentity, ResourceKind, ResourceRecord, ResourceRecordView, WorkspaceTarget,
    WorkspaceTargetView,
};
use crate::error::{
    error_of, rendered, seen, ErrorCategory, WorkstateError, WorkstateErrorView,
};
use crate::integrations::android::adb::{
    executable_error, is_proper, validate_executable, AdbClient, AdbClientView,
};
use crate::integrations::android::checks::{device_running, matching_device};
use crate::integrations::android::errors::{
    android_error, command_failed, command_failure, AndroidError, AndroidErrorView,
};
use crate::integrations::android::models::{avds_listed, parse_avd_list};
use crate::integrations::windows::{law_move_is_recorded, record_window_move, window_moved};
use crate::ports::{
    background_of, AndroidDeviceSnapshot, AndroidDeviceSnapshotView, AndroidVirtualDevice,
    AndroidVirtualDeviceView, BackgroundProcess, BackgroundProcessView, DesktopSnapshot,
    DesktopSnapshotView, DesktopWindowSnapshot, DesktopWindowSnapshotView,
    DesktopWorkspaceResolution, DesktopWorkspaceResolutionView, DesktopWorkspaceSnapshotView,
    EmulatorActionContext, EmulatorActionContextView, EmulatorCleanupOutcome,
    EmulatorCleanupOutcomeView, EmulatorEnsureOutcome, EmulatorEnsureOutcomeView,
    EmulatorObservation, EmulatorObservationView, EmulatorOperationStatus, EmulatorRequest,
    EmulatorRequestView, EmulatorRuntimeSnapshot, EmulatorRuntimeSnapshotView, ProcessOutput,
    ProcessOutputView, ProcessRequest, ProcessRequestView,
};
use crate::text::{is_blank, join3, join5, joined, same_text, text_join};
use crate::values::{
    append, append_all, empty_list, list_holds, list_of, option_is_text, rest, text_list,
    text_list2, Replicate,
};

verus! {

// ---------------------------------------------------------------------------------------------
// Records
// ---------------------------------------------------------------------------------------------
/// A record with one more note, where there is a value.
pub open spec fn noting_if(
    record: ResourceRecordView,
    key: Seq<char>,
    value: Option<Seq<char>>,
) -> ResourceRecordView {
    match value {
        Some(value) => record.noting(key, value),
        None => record,
    }
}

/// What is recorded of an emulator.
pub open spec fn emulator_recorded(
    context: EmulatorActionContextView,
    runtime: EmulatorRuntimeSnapshotView,
    ownership: OwnershipStatus,
    observed_before: bool,
) -> Result<ResourceRecordView, WorkstateErrorView> {
    match identity_of(ResourceKind::AndroidEmulator, runtime.serial) {
        Err(error) => Err(error),
        Ok(resource) => {
            let record = record_of(
                resource,
                ownership,
                context.action_id,
                observed_before,
                context.cleanup_policy,
            ).noting("avd"@, runtime.avd).noting("serial"@, runtime.serial);
            Ok(
                noting_if(
                    noting_if(
                        noting_if(record, "process_identity"@, runtime.process_identity),
                        "window_identity"@,
                        runtime.window_identity,
                    ),
                    "workspace_identity"@,
                    runtime.workspace_identity,
                ),
            )
        },
    }
}

fn note_if(record: &mut ResourceRecord, key: &str, value: &Option<String>)
    ensures
        final(record)@ == noting_if(old(record)@, key@, value.deep_view()),
{
    if let Some(value) = value {
        record.note(key, value.as_str());
    }
}

/// What is recorded of an emulator.
pub fn emulator_record_from_context(
    context: &EmulatorActionContext,
    runtime: &EmulatorRuntimeSnapshot,
    ownership: OwnershipStatus,
    observed_before: bool,
) -> (r: Result<ResourceRecord, WorkstateError>)
    ensures
        seen(r) == emulator_recorded(context@, runtime@, ownership, observed_before),
{
    match ResourceIdentity::new(ResourceKind::AndroidEmulator, runtime.serial.clone()) {
        Err(error) => Err(error),
        Ok(resource) => {
            let mut record = ResourceRecord::of_action(
                resource,
                ownership,
                context.action_id.as_str(),
                observed_before,
                context.cleanup_policy,
            );
            record.note("avd", runtime.avd.as_str());
            record.note("serial", runtime.serial.as_str());
            note_if(&mut record, "process_identity", &runtime.process_identity);
            note_if(&mut record, "window_identity", &runtime.window_identity);
            note_if(&mut record, "workspace_identity", &runtime.workspace_identity);
            Ok(record)
        },
    }
}

// ---------------------------------------------------------------------------------------------
// The backend
// ---------------------------------------------------------------------------------------------
/// The executables that virtual devices are run with.
#[derive(Debug, Clone, PartialEq, Eq)]
pub struct AndroidBackend {
    pub emulator_executable: String,
    pub adb: AdbClient,
}

/// What a `AndroidBackend` stands for.
#[verifier::ext_equal]
pub struct AndroidBackendView {
    pub emulator_executable: Seq<char>,
    pub adb: AdbClientView,
}

impl View for AndroidBackend {
    type V = AndroidBackendView;

    open spec fn view(&self) -> AndroidBackendView {
        AndroidBackendView {
            emulator_executable: self.emulator_executable.deep_view(),
            adb: self.adb.deep_view(),
        }
    }
}

impl DeepView for AndroidBackend {
    type V = AndroidBackendView;

    open spec fn deep_view(&self) -> AndroidBackendView {
        self.view()
    }
}

impl Replicate for AndroidBackend {
    fn replicate(&self) -> (r: Self) {
        AndroidBackend {
            emulator_executable: self.emulator_executable.replicate(),
            adb: self.adb.replicate(),
        }
    }
}

/// The names of virtual devices.
pub open spec fn avd_names(avds: Seq<AndroidVirtualDeviceView>) -> Seq<Seq<char>> {
    avds.map_values(|avd: AndroidVirtualDeviceView| avd.name)
}

fn names_of_avds(avds: &Vec<AndroidVirtualDevice>) -> (r: Vec<String>)
    ensures
        r.deep_view() == avd_names(avds.deep_view()),
{
    let ghost all = avds.deep_view();
    let mut names: Vec<String> = empty_list();
    let mut i: usize = 0;
    assert(avd_names(all.take(0)) =~= Seq::<Seq<char>>::empty());
    while i < avds.len()
        invariant
            i <= avds@.len(),
            all == avds.deep_view(),
            names.deep_view() == avd_names(all.take(i as int)),
        decreases avds@.len() - i,
    {
        assert(all[i as int] == avds@[i as int]@);
        append(&mut names, avds[i].name.clone());
        assert(avd_names(all.take(i as int + 1)) =~= avd_names(all.take(i as int)).push(
            all[i as int].name,
        ));
        i = i + 1;
    }
    assert(all.take(i as int) =~= all);
    names
}

/// A virtual device has to be one of those that are there.
pub open spec fn avd_checked(avd: Seq<char>, available: Seq<AndroidVirtualDeviceView>) -> Result<
    (),
    WorkstateErrorView,
> {
    if avd_names(available).contains(avd) {
        Ok(())
    } else {
        Err(
            android_error(AndroidErrorView::MissingAvd { avd }).with(
                "available_avds"@,
                joined(avd_names(available), ", "@),
            ),
        )
    }
}

/// Refuses a virtual device that is not there.
pub fn validate_avd(avd: &str, available: &Vec<AndroidVirtualDevice>) -> (r: Result<
    (),
    WorkstateError,
>)
    ensures
        seen(r) == avd_checked(avd@, available.deep_view()),
{
    let names = names_of_avds(available);
    if list_holds(&names, &avd.to_owned()) {
        return Ok(());
    }
    Err(
        AndroidError::MissingAvd { avd: avd.to_owned() }.into_workstate().with_context(
            "available_avds",
            text_join(&names, ", ").as_str(),
        ),
    )
}

/// The virtual devices that the reply lists.
pub open spec fn avds_reported(output: ProcessOutputView) -> Result<
    Seq<AndroidVirtualDeviceView>,
    WorkstateErrorView,
> {
    if output.success() {
        avds_listed(output.stdout)
    } else {
        Err(command_failure("list-avds"@, output))
    }
}

/// The virtual devices that are known once the listing was run.
pub open spec fn avds_read(ran: Result<ProcessOutputView, WorkstateErrorView>) -> Result<
    Seq<AndroidVirtualDeviceView>,
    WorkstateErrorView,
> {
    match ran {
        Err(error) => Err(error.with("operation"@, "list-android-avds"@)),
        Ok(output) => avds_reported(output),
    }
}

impl AndroidBackendView {
    /// The call that starts a virtual device.
    pub open spec fn launch_call(self, request: EmulatorRequestView) -> ProcessRequestView {
        ProcessRequestView {
            program: self.emulator_executable,
            arguments: seq!["-avd"@, request.specification.avd] + request.specification.arguments,
            working_directory: None,
            environment: Seq::empty(),
        }
    }
}

impl AndroidBackend {
    /// The backend of two executables; a path that cannot be passed on is refused.
    pub fn new(emulator_executable: String, adb_executable: String) -> (r: Result<
        Self,
        WorkstateError,
    >)
        ensures
            seen(r) == (if !is_proper(emulator_executable@) {
                Err::<AndroidBackendView, WorkstateErrorView>(executable_error("emulator"@))
            } else if !is_proper(adb_executable@) {
                Err(executable_error("adb"@))
            } else {
                Ok(
                    AndroidBackendView {
                        emulator_executable: emulator_executable@,
                        adb: AdbClientView { executable: adb_executable@ },
                    },
                )
            }),
    {
        if let Err(error) = validate_executable(emulator_executable.as_str(), "emulator") {
            return Err(error);
        }
        match AdbClient::new(adb_executable) {
            Err(error) => Err(error),
            Ok(adb) => Ok(AndroidBackend { emulator_executable, adb }),
        }
    }

    pub fn emulator_executable(&self) -> (r: &str)
        ensures
            r@ == self@.emulator_executable,
    {
        self.emulator_executable.as_str()
    }

    pub fn adb(&self) -> (r: &AdbClient)
        ensures
            r@ == self@.adb,
    {
        &self.adb
    }

    /// Whether both executables are known.
    pub fn is_available(&self) -> (r: bool)
        ensures
            r == (self@.emulator_executable.len() > 0 && self@.adb.executable.len() > 0),
    {
        !self.emulator_executable.as_str().is_empty() && !self.adb.executable.as_str().is_empty()
    }

    /// The call that lists the virtual devices.
    pub fn list_avds(&self) -> (r: ProcessRequest)
        ensures
            r@ == (ProcessRequestView {
                program: self@.emulator_executable,
                arguments: seq!["-list-avds"@],
                working_directory: None,
                environment: Seq::empty(),
            }),
    {
        ProcessRequest {
            program: self.emulator_executable.clone(),
            arguments: text_list("-list-avds"),
            working_directory: None,
            environment: empty_list(),
        }
    }

    /// The virtual devices that the reply lists.
    pub fn read_avds(ran: Result<ProcessOutput, WorkstateError>) -> (r: Result<
        Vec<AndroidVirtualDevice>,
        WorkstateError,
    >)
        ensures
            seen(r) == avds_read(seen(ran)),
    {
        let output = match ran {
            Err(error) => {
                return Err(error.with_context("operation", "list-android-avds"));
            },
            Ok(output) => output,
        };
        if !output.succeeded() {
            return Err(command_failed("list-avds", &output));
        }
        assert(output.stdout.deep_view() =~= output.stdout@);
        parse_avd_list(output.stdout.as_slice())
    }

    /// The call that starts a virtual device.
    pub fn emulator_request(&self, request: &EmulatorRequest) -> (r: ProcessRequest)
        ensures
            r@ == self@.launch_call(request@),
    {
        let mut arguments = text_list2("-avd", request.specification.avd.as_str());
        append_all(&mut arguments, request.specification.arguments.replicate());
        ProcessRequest {
            program: self.emulator_executable.clone(),
            arguments,
            working_directory: None,
            environment: empty_list(),
        }
    }
}

/// An emulator as a look at the devices and the desktop shows it. The window counts only where it is to
/// be placed.
pub open spec fn emulator_observed(
    request: EmulatorRequestView,
    available: Seq<AndroidVirtualDeviceView>,
    devices: Seq<AndroidDeviceSnapshotView>,
    snapshot: DesktopSnapshotView,
) -> Result<EmulatorObservationView, WorkstateErrorView> {
    match avd_checked(request.specification.avd, available) {
        Err(error) => Err(error),
        Ok(_) => match device_running(devices, request.specification.avd) {
            Err(error) => Err(error),
            Ok(None) => Ok(EmulatorObservationView::Missing),
            Ok(Some(device)) => {
                let bare = EmulatorRuntimeSnapshotView {
                    avd: request.specification.avd,
                    serial: device.serial,
                    state: device.state,
                    boot_completed: device.boot_completed,
                    process_identity: None,
                    window_identity: None,
                    workspace_identity: None,
                };
                if !places_window(request.workspace_target) {
                    Ok(EmulatorObservationView::Present(bare))
                } else {
                    match crate::integrations::android::checks::window_showing(
                        snapshot,
                        request.specification.avd,
                        device.serial,
                    ) {
                        Err(error) => Err(error),
                        Ok(None) => Ok(EmulatorObservationView::Present(bare)),
                        Ok(Some(window)) => Ok(
                            EmulatorObservationView::Present(
                                EmulatorRuntimeSnapshotView {
                                    window_identity: Some(window.identity),
                                    workspace_identity: window.workspace_identity,
                                    ..bare
                                },
                            ),
                        ),
                    }
                }
            },
        },
    }
}

/// An emulator as a look at the devices and the desktop shows it.
pub fn observe_emulator(
    request: &EmulatorRequest,
    available: &Vec<AndroidVirtualDevice>,
    devices: &Vec<AndroidDeviceSnapshot>,
    snapshot: &DesktopSnapshot,
) -> (r: Result<EmulatorObservation, WorkstateError>)
    ensures
        seen(r) == emulator_observed(
            request@,
            available.deep_view(),
            devices.deep_view(),
            snapshot@,
        ),
{
    let avd = request.specification.avd.as_str();
    if let Err(error) = validate_avd(avd, available) {
        return Err(error);
    }
    let device = match matching_device(devices, avd) {
        Err(error) => {
            return Err(error);
        },
        Ok(None) => {
            return Ok(EmulatorObservation::Missing);
        },
        Ok(Some(device)) => device,
    };
    let mut runtime = EmulatorRuntimeSnapshot {
        avd: request.specification.avd.clone(),
        serial: device.serial.clone(),
        state: device.state,
        boot_completed: device.boot_completed,
        process_identity: None,
        window_identity: None,
        workspace_identity: None,
    };
    if target_places_window(&request.workspace_target) {
        match crate::integrations::android::checks::find_matching_window(
            snapshot,
            avd,
            device.serial.as_str(),
        ) {
            Err(error) => {
                return Err(error);
            },
            Ok(None) => {},
            Ok(Some(window)) => {
                runtime.window_identity = Some(window.identity);
                runtime.workspace_identity = window.workspace_identity;
            },
        }
    }
    Ok(EmulatorObservation::Present(runtime))
}

// ---------------------------------------------------------------------------------------------
// Starting
// ---------------------------------------------------------------------------------------------
/// What the work is waiting for.
#[derive(Debug)]
pub enum EmulatorPhase {
    Avds,
    FirstLook,
    SecondLook,
    Launch,
    Device,
    Window { device: AndroidDeviceSnapshot },
    Workspace { device: AndroidDeviceSnapshot, window: DesktopWindowSnapshot },
    Place { device: AndroidDeviceSnapshot, window: DesktopWindowSnapshot, workspace: String },
    Confirm { device: AndroidDeviceSnapshot, window: DesktopWindowSnapshot, workspace: String },
    Stop { error: WorkstateError },
    Over,
}

/// What a `EmulatorPhase` stands for.
#[verifier::ext_equal]
pub enum EmulatorPhaseView {
    Avds,
    FirstLook,
    SecondLook,
    Launch,
    Device,
    Window { device: AndroidDeviceSnapshotView },
    Workspace { device: AndroidDeviceSnapshotView, window: DesktopWindowSnapshotView },
    Place { device: AndroidDeviceSnapshotView, window: DesktopWindowSnapshotView, workspace: Seq<char> },
    Confirm { device: AndroidDeviceSnapshotView, window: DesktopWindowSnapshotView, workspace: Seq<char> },
    Stop { error: WorkstateErrorView },
    Over,
}

impl View for EmulatorPhase {
    type V = EmulatorPhaseView;

    open spec fn view(&self) -> EmulatorPhaseView {
        match self {
            EmulatorPhase::Avds => EmulatorPhaseView::Avds,
            EmulatorPhase::FirstLook => EmulatorPhaseView::FirstLook,
            EmulatorPhase::SecondLook => EmulatorPhaseView::SecondLook,
            EmulatorPhase::Launch => EmulatorPhaseView::Launch,
            EmulatorPhase::Device => EmulatorPhaseView::Device,
            EmulatorPhase::Window { device } => EmulatorPhaseView::Window { device: device.deep_view() },
            EmulatorPhase::Workspace { device, window } => EmulatorPhaseView::Workspace { device: device.deep_view(), window: window.deep_view() },
            EmulatorPhase::Place { device, window, workspace } => EmulatorPhaseView::Place { device: device.deep_view(), window: window.deep_view(), workspace: workspace.deep_view() },
            EmulatorPhase::Confirm { device, window, workspace } => EmulatorPhaseView::Confirm { device: device.deep_view(), window: window.deep_view(), workspace: workspace.deep_view() },
            EmulatorPhase::Stop { error } => EmulatorPhaseView::Stop { error: error.deep_view() },
            EmulatorPhase::Over => EmulatorPhaseView::Over,
        }
    }
}

impl DeepView for EmulatorPhase {
    type V = EmulatorPhaseView;

    open spec fn deep_view(&self) -> EmulatorPhaseView {
        self.view()
    }
}

impl Replicate for EmulatorPhase {
    fn replicate(&self) -> (r: Self) {
        match self {
            EmulatorPhase::Avds => EmulatorPhase::Avds,
            EmulatorPhase::FirstLook => EmulatorPhase::FirstLook,
            EmulatorPhase::SecondLook => EmulatorPhase::SecondLook,
            EmulatorPhase::Launch => EmulatorPhase::Launch,
            EmulatorPhase::Device => EmulatorPhase::Device,
            EmulatorPhase::Window { device } => EmulatorPhase::Window { device: device.replicate() },
            EmulatorPhase::Workspace { device, window } => EmulatorPhase::Workspace { device: device.replicate(), window: window.replicate() },
            EmulatorPhase::Place { device, window, workspace } => EmulatorPhase::Place { device: device.replicate(), window: window.replicate(), workspace: workspace.replicate() },
            EmulatorPhase::Confirm { device, window, workspace } => EmulatorPhase::Confirm { device: device.replicate(), window: window.replicate(), workspace: workspace.replicate() },
            EmulatorPhase::Stop { error } => EmulatorPhase::Stop { error: error.replicate() },
            EmulatorPhase::Over => EmulatorPhase::Over,
        }
    }
}

/// The work on an emulator: what is asked for, the process that was started, and what it is waiting for.
#[derive(Debug)]
pub struct EmulatorEnsure {
    pub backend: AndroidBackend,
    pub request: EmulatorRequest,
    pub process: Option<BackgroundProcess>,
    pub phase: EmulatorPhase,
}

/// What a `EmulatorEnsure` stands for.
#[verifier::ext_equal]
pub struct EmulatorEnsureView {
    pub backend: AndroidBackendView,
    pub request: EmulatorRequestView,
    pub process: Option<BackgroundProcessView>,
    pub phase: EmulatorPhaseView,
}

impl View for EmulatorEnsure {
    type V = EmulatorEnsureView;

    open spec fn view(&self) -> EmulatorEnsureView {
        EmulatorEnsureView {
            backend: self.backend.deep_view(),
            request: self.request.deep_view(),
            process: self.process.deep_view(),
            phase: self.phase.deep_view(),
        }
    }
}

impl DeepView for EmulatorEnsure {
    type V = EmulatorEnsureView;

    open spec fn deep_view(&self) -> EmulatorEnsureView {
        self.view()
    }
}

impl Replicate for EmulatorEnsure {
    fn replicate(&self) -> (r: Self) {
        EmulatorEnsure {
            backend: self.backend.replicate(),
            request: self.request.replicate(),
            process: self.process.replicate(),
            phase: self.phase.replicate(),
        }
    }
}

/// What the world replied.
#[derive(Debug)]
pub enum EmulatorEvent {
    Avds(Vec<AndroidVirtualDevice>),
    Emulators(Vec<AndroidDeviceSnapshot>),
    Launched(BackgroundProcess),
    DeviceReady(AndroidDeviceSnapshot),
    WindowReady(DesktopWindowSnapshot),
    Workspace(DesktopWorkspaceResolution),
    Moved,
    Snapshot(DesktopSnapshot),
    Stopped,
    Failed(WorkstateError),
}

/// What a `EmulatorEvent` stands for.
#[verifier::ext_equal]
pub enum EmulatorEventView {
    Avds(Seq<AndroidVirtualDeviceView>),
    Emulators(Seq<AndroidDeviceSnapshotView>),
    Launched(BackgroundProcessView),
    DeviceReady(AndroidDeviceSnapshotView),
    WindowReady(DesktopWindowSnapshotView),
    Workspace(DesktopWorkspaceResolutionView),
    Moved,
    Snapshot(DesktopSnapshotView),
    Stopped,
    Failed(WorkstateErrorView),
}

impl View for EmulatorEvent {
    type V = EmulatorEventView;

    open spec fn view(&self) -> EmulatorEventView {
        match self {
            EmulatorEvent::Avds(value) => EmulatorEventView::Avds(value.deep_view()),
            EmulatorEvent::Emulators(value) => EmulatorEventView::Emulators(value.deep_view()),
            EmulatorEvent::Launched(value) => EmulatorEventView::Launched(value.deep_view()),
            EmulatorEvent::DeviceReady(value) => EmulatorEventView::DeviceReady(value.deep_view()),
            EmulatorEvent::WindowReady(value) => EmulatorEventView::WindowReady(value.deep_view()),
            EmulatorEvent::Workspace(value) => EmulatorEventView::Workspace(value.deep_view()),
            EmulatorEvent::Moved => EmulatorEventView::Moved,
            EmulatorEvent::Snapshot(value) => EmulatorEventView::Snapshot(value.deep_view()),
            EmulatorEvent::Stopped => EmulatorEventView::Stopped,
            EmulatorEvent::Failed(value) => EmulatorEventView::Failed(value.deep_view()),
        }
    }
}

impl DeepView for EmulatorEvent {
    type V = EmulatorEventView;

    open spec fn deep_view(&self) -> EmulatorEventView {
        self.view()
    }
}

/// What is asked of the world next. `LockAndObserve` looks again while no other work launches.
#[derive(Debug)]
pub enum EmulatorStep {
    ListAvds,
    Observe,
    LockAndObserve,
    Launch(ProcessRequest),
    WaitForDevice,
    WaitForWindow { serial: String },
    EnsureWorkspace(Option<WorkspaceTarget>),
    MoveWindow { window: String, workspace: String },
    Snapshot,
    StopProcess(BackgroundProcess),
    Finish(EmulatorEnsureOutcome),
    Fail(WorkstateError),
    Idle,
}

/// What a `EmulatorStep` stands for.
#[verifier::ext_equal]
pub enum EmulatorStepView {
    ListAvds,
    Observe,
    LockAndObserve,
    Launch(ProcessRequestView),
    WaitForDevice,
    WaitForWindow { serial: Seq<char> },
    EnsureWorkspace(Option<WorkspaceTargetView>),
    MoveWindow { window: Seq<char>, workspace: Seq<char> },
    Snapshot,
    StopProcess(BackgroundProcessView),
    Finish(EmulatorEnsureOutcomeView),
    Fail(WorkstateErrorView),
    Idle,
}

impl View for EmulatorStep {
    type V = EmulatorStepView;

    open spec fn view(&self) -> EmulatorStepView {
        match self {
            EmulatorStep::ListAvds => EmulatorStepView::ListAvds,
            EmulatorStep::Observe => EmulatorStepView::Observe,
            EmulatorStep::LockAndObserve => EmulatorStepView::LockAndObserve,
            EmulatorStep::Launch(value) => EmulatorStepView::Launch(value.deep_view()),
            EmulatorStep::WaitForDevice => EmulatorStepView::WaitForDevice,
            EmulatorStep::WaitForWindow { serial } => EmulatorStepView::WaitForWindow { serial: serial.deep_view() },
            EmulatorStep::EnsureWorkspace(value) => EmulatorStepView::EnsureWorkspace(value.deep_view()),
            EmulatorStep::MoveWindow { window, workspace } => EmulatorStepView::MoveWindow { window: window.deep_view(), workspace: workspace.deep_view() },
            EmulatorStep::Snapshot => EmulatorStepView::Snapshot,
            EmulatorStep::StopProcess(value) => EmulatorStepView::StopProcess(value.deep_view()),
            EmulatorStep::Finish(value) => EmulatorStepView::Finish(value.deep_view()),
            EmulatorStep::Fail(value) => EmulatorStepView::Fail(value.deep_view()),
            EmulatorStep::Idle => EmulatorStepView::Idle,
        }
    }
}

impl DeepView for EmulatorStep {
    type V = EmulatorStepView;

    open spec fn deep_view(&self) -> EmulatorStepView {
        self.view()
    }
}

/// The work and what it asks of the world.
pub type EmulatorMove = (EmulatorEnsureView, EmulatorStepView);

pub open spec fn integration_failure(message: Seq<char>) -> WorkstateErrorView {
    error_of(ErrorCategory::Integration, message)
}

impl EmulatorEnsureView {
    pub open spec fn waiting_for(self, phase: EmulatorPhaseView) -> EmulatorEnsureView {
        EmulatorEnsureView { phase, ..self }
    }

    pub open spec fn avd(self) -> Seq<char> {
        self.request.specification.avd
    }

    /// A failure: the process that was started is stopped first.
    pub open spec fn failed(self, error: WorkstateErrorView) -> EmulatorMove {
        match self.process {
            Some(process) => (
                self.waiting_for(EmulatorPhaseView::Stop { error }),
                EmulatorStepView::StopProcess(process),
            ),
            None => (self.waiting_for(EmulatorPhaseView::Over), EmulatorStepView::Fail(error)),
        }
    }

    /// What is said of the work before its window is placed.
    pub open spec fn opening_lines(self) -> Seq<Seq<char>> {
        if self.process is Some {
            seq![
                "inspected Android Emulator processes and adb devices"@,
                "started Android Virtual Device '"@ + self.avd() + "'"@,
                "Android Emulator '"@ + self.avd() + "' is connected and boot-complete"@,
            ]
        } else {
            seq![
                "inspected Android Emulator processes and adb devices"@,
                "reused the running Android Virtual Device '"@ + self.avd() + "'"@,
            ]
        }
    }

    /// The emulator as it runs in the end.
    pub open spec fn runtime(
        self,
        device: AndroidDeviceSnapshotView,
        window: Option<DesktopWindowSnapshotView>,
        moved_to: Option<Seq<char>>,
    ) -> EmulatorRuntimeSnapshotView {
        EmulatorRuntimeSnapshotView {
            avd: self.avd(),
            serial: device.serial,
            state: device.state,
            boot_completed: device.boot_completed,
            process_identity: match self.process {
                Some(process) => Some(process.identity),
                None => None,
            },
            window_identity: match window {
                Some(window) => Some(window.identity),
                None => None,
            },
            workspace_identity: match (moved_to, window) {
                (Some(workspace), _) => Some(workspace),
                (None, Some(window)) => window.workspace_identity,
                (None, None) => None,
            },
        }
    }

    /// The emulator runs, and its window is where it belongs: it is recorded, as owned where it was
    /// started here, together with the move of its window.
    pub open spec fn finished(
        self,
        device: AndroidDeviceSnapshotView,
        window: Option<DesktopWindowSnapshotView>,
        moved_to: Option<Seq<char>>,
    ) -> EmulatorMove {
        let mutations = match (window, moved_to) {
            (Some(window), Some(workspace)) => match window_moved(
                window.identity,
                window.workspace_identity,
                workspace,
                self.request.context.action_id,
                self.request.context.cleanup_policy,
            ) {
                Err(error) => Err(error),
                Ok(mutation) => Ok(seq![mutation]),
            },
            _ => Ok(Seq::empty()),
        };
        let outputs = match moved_to {
            Some(workspace) => self.opening_lines().push(
                "moved Android Emulator '"@ + self.avd() + "' to desktop workspace '"@ + workspace
                    + "'"@,
            ),
            None => self.opening_lines(),
        };
        let runtime = self.runtime(device, window, moved_to);
        let owned = self.process is Some;
        match mutations {
            Err(error) => self.failed(error),
            Ok(mutations) => match emulator_recorded(
                self.request.context,
                runtime,
                if owned {
                    OwnershipStatus::CreatedByCurrentRun
                } else {
                    OwnershipStatus::ReusedExisting
                },
                !owned,
            ) {
                Err(error) => self.failed(error),
                Ok(record) => (
                    self.waiting_for(EmulatorPhaseView::Over),
                    EmulatorStepView::Finish(
                        EmulatorEnsureOutcomeView {
                            status: if owned {
                                EmulatorOperationStatus::Started
                            } else {
                                EmulatorOperationStatus::AlreadyRunning
                            },
                            runtime: Some(runtime),
                            resources: seq![record],
                            mutations,
                            outputs,
                        },
                    ),
                ),
            },
        }
    }

    /// After a look at the emulators: one that runs is waited for; where there is none, one more look
    /// decides whether it is started.
    pub open spec fn after_look(self, devices: Seq<AndroidDeviceSnapshotView>, first: bool) -> EmulatorMove {
        match device_running(devices, self.avd()) {
            Err(error) => self.failed(error),
            Ok(Some(_)) => (
                self.waiting_for(EmulatorPhaseView::Device),
                EmulatorStepView::WaitForDevice,
            ),
            Ok(None) => if first {
                (
                    self.waiting_for(EmulatorPhaseView::SecondLook),
                    EmulatorStepView::LockAndObserve,
                )
            } else {
                (
                    self.waiting_for(EmulatorPhaseView::Launch),
                    EmulatorStepView::Launch(self.backend.launch_call(self.request)),
                )
            },
        }
    }

    /// After the workspace was resolved: the window is moved there where it is not there yet.
    pub open spec fn after_workspace(
        self,
        device: AndroidDeviceSnapshotView,
        window: DesktopWindowSnapshotView,
        resolution: DesktopWorkspaceResolutionView,
    ) -> EmulatorMove {
        match resolution.workspace {
            None => self.failed(
                integration_failure(
                    "the Android Emulator workspace target could not be resolved"@,
                ),
            ),
            Some(workspace) => if window.workspace_identity == Some(workspace.identity) {
                self.finished(device, Some(window), None)
            } else {
                (
                    self.waiting_for(
                        EmulatorPhaseView::Place { device, window, workspace: workspace.identity },
                    ),
                    EmulatorStepView::MoveWindow {
                        window: window.identity,
                        workspace: workspace.identity,
                    },
                )
            },
        }
    }

    /// After the window was moved: the desktop has to confirm it.
    pub open spec fn after_confirm(
        self,
        device: AndroidDeviceSnapshotView,
        window: DesktopWindowSnapshotView,
        workspace: Seq<char>,
        snapshot: DesktopSnapshotView,
    ) -> EmulatorMove {
        match snapshot.window(window.identity) {
            None => self.failed(
                integration_failure(
                    "the Android Emulator window disappeared after workspace placement"@,
                ),
            ),
            Some(updated) => if updated.workspace_identity == Some(workspace) {
                self.finished(device, Some(window), Some(workspace))
            } else {
                self.failed(
                    integration_failure(
                        "the desktop backend did not confirm Android Emulator workspace placement"@,
                    ).with("window_identity"@, window.identity).with(
                        "workspace_identity"@,
                        workspace,
                    ),
                )
            },
        }
    }

    /// What follows a reply. A reply that does not belong to what the work is waiting for changes
    /// nothing.
    pub open spec fn next(self, event: EmulatorEventView) -> EmulatorMove {
        match (self.phase, event) {
            (EmulatorPhaseView::Over, _) => (self, EmulatorStepView::Idle),
            (EmulatorPhaseView::Avds, EmulatorEventView::Avds(available)) => match avd_checked(
                self.avd(),
                available,
            ) {
                Err(error) => self.failed(error),
                Ok(_) => (
                    self.waiting_for(EmulatorPhaseView::FirstLook),
                    EmulatorStepView::Observe,
                ),
            },
            (
                EmulatorPhaseView::FirstLook,
                EmulatorEventView::Emulators(devices),
            ) => self.after_look(devices, true),
            (
                EmulatorPhaseView::SecondLook,
                EmulatorEventView::Emulators(devices),
            ) => self.after_look(devices, false),
            (EmulatorPhaseView::Launch, EmulatorEventView::Launched(process)) => (
                EmulatorEnsureView {
                    process: Some(process),
                    phase: EmulatorPhaseView::Device,
                    ..self
                },
                EmulatorStepView::WaitForDevice,
            ),
            (EmulatorPhaseView::Launch, EmulatorEventView::Failed(error)) => self.failed(
                error.with("operation"@, "start-emulator"@),
            ),
            (EmulatorPhaseView::Device, EmulatorEventView::DeviceReady(device)) => if places_window(
                self.request.workspace_target,
            ) {
                (
                    self.waiting_for(EmulatorPhaseView::Window { device }),
                    EmulatorStepView::WaitForWindow { serial: device.serial },
                )
            } else {
                self.finished(device, None, None)
            },
            (EmulatorPhaseView::Window { device }, EmulatorEventView::WindowReady(window)) => (
                self.waiting_for(EmulatorPhaseView::Workspace { device, window }),
                EmulatorStepView::EnsureWorkspace(self.request.workspace_target),
            ),
            (
                EmulatorPhaseView::Workspace { device, window },
                EmulatorEventView::Workspace(resolution),
            ) => self.after_workspace(device, window, resolution),
            (EmulatorPhaseView::Place { device, window, workspace }, EmulatorEventView::Moved) => (
                self.waiting_for(EmulatorPhaseView::Confirm { device, window, workspace }),
                EmulatorStepView::Snapshot,
            ),
            (
                EmulatorPhaseView::Place { device: _, window, workspace: _ },
                EmulatorEventView::Failed(error),
            ) => self.failed(error.with("window_identity"@, window.identity)),
            (
                EmulatorPhaseView::Confirm { device, window, workspace },
                EmulatorEventView::Snapshot(snapshot),
            ) => self.after_confirm(device, window, workspace, snapshot),
            (EmulatorPhaseView::Stop { error }, EmulatorEventView::Stopped) => (
                self.waiting_for(EmulatorPhaseView::Over),
                EmulatorStepView::Fail(error),
            ),
            (EmulatorPhaseView::Stop { error }, EmulatorEventView::Failed(failure)) => (
                self.waiting_for(EmulatorPhaseView::Over),
                EmulatorStepView::Fail(
                    error.with("launched_emulator_cleanup"@, rendered(failure)),
                ),
            ),
            (_, EmulatorEventView::Failed(error)) => self.failed(error),
            _ => (self, EmulatorStepView::Idle),
        }
    }
}

impl EmulatorEnsure {
    /// Begins: the virtual device has to be there.
    pub fn begin(backend: AndroidBackend, request: EmulatorRequest) -> (r: (
        EmulatorEnsure,
        EmulatorStep,
    ))
        ensures
            r.0@ == (EmulatorEnsureView {
                backend: backend@,
                request: request@,
                process: None,
                phase: EmulatorPhaseView::Avds,
            }),
            r.1@ == EmulatorStepView::ListAvds,
    {
        (
            EmulatorEnsure { backend, request, process: None, phase: EmulatorPhase::Avds },
            EmulatorStep::ListAvds,
        )
    }

    fn waiting_for(self, phase: EmulatorPhase) -> (r: EmulatorEnsure)
        ensures
            r@ == self@.waiting_for(phase@),
    {
        EmulatorEnsure {
            backend: self.backend,
            request: self.request,
            process: self.process,
            phase,
        }
    }

    fn failed(self, error: WorkstateError) -> (r: (EmulatorEnsure, EmulatorStep))
        ensures
            (r.0@, r.1@) == self@.failed(error@),
    {
        let process = self.process.replicate();
        match process {
            Some(process) => (
                self.waiting_for(EmulatorPhase::Stop { error }),
                EmulatorStep::StopProcess(process),
            ),
            None => (self.waiting_for(EmulatorPhase::Over), EmulatorStep::Fail(error)),
        }
    }

    fn opening_lines(&self) -> (r: Vec<String>)
        ensures
            r.deep_view() == self@.opening_lines(),
    {
        let avd = self.request.specification.avd.as_str();
        let mut lines = text_list("inspected Android Emulator processes and adb devices");
        if self.process.is_some() {
            append(&mut lines, join3("started Android Virtual Device '", avd, "'"));
            append(
                &mut lines,
                join3("Android Emulator '", avd, "' is connected and boot-complete"),
            );
        } else {
            append(&mut lines, join3("reused the running Android Virtual Device '", avd, "'"));
        }
        assert(lines.deep_view() =~= self@.opening_lines());
        lines
    }

    fn runtime(
        &self,
        device: &AndroidDeviceSnapshot,
        window: &Option<DesktopWindowSnapshot>,
        moved_to: &Option<String>,
    ) -> (r: EmulatorRuntimeSnapshot)
        ensures
            r@ == self@.runtime(device@, window.deep_view(), moved_to.deep_view()),
    {
        EmulatorRuntimeSnapshot {
            avd: self.request.specification.avd.clone(),
            serial: device.serial.clone(),
            state: device.state.replicate(),
            boot_completed: device.boot_completed,
            process_identity: match &self.process {
                Some(process) => Some(process.identity.clone()),
                None => None,
            },
            window_identity: match window {
                Some(window) => Some(window.identity.clone()),
                None => None,
            },
            workspace_identity: match (moved_to, window) {
                (Some(workspace), _) => Some(workspace.clone()),
                (None, Some(window)) => window.workspace_identity.replicate(),
                (None, None) => None,
            },
        }
    }

    fn finished(
        self,
        device: AndroidDeviceSnapshot,
        window: Option<DesktopWindowSnapshot>,
        moved_to: Option<String>,
    ) -> (r: (EmulatorEnsure, EmulatorStep))
        ensures
            (r.0@, r.1@) == self@.finished(device@, window.deep_view(), moved_to.deep_view()),
    {
        let runtime = self.runtime(&device, &window, &moved_to);
        let mut outputs = self.opening_lines();
        if let Some(workspace) = &moved_to {
            append(
                &mut outputs,
                join5(
                    "moved Android Emulator '",
                    self.request.specification.avd.as_str(),
                    "' to desktop workspace '",
                    workspace.as_str(),
                    "'",
                ),
            );
        }
        let mutations = match (&window, &moved_to) {
            (Some(window), Some(workspace)) => {
                match record_window_move(
                    window.identity.as_str(),
                    window.workspace_identity.replicate(),
                    workspace.as_str(),
                    self.request.context.action_id.as_str(),
                    self.request.context.cleanup_policy,
                ) {
                    Err(error) => {
                        return self.failed(error);
                    },
                    Ok(mutation) => list_of(mutation),
                }
            },
            _ => empty_list(),
        };
        let owned = self.process.is_some();
        let ownership = if owned {
            OwnershipStatus::CreatedByCurrentRun
        } else {
            OwnershipStatus::ReusedExisting
        };
        match emulator_record_from_context(&self.request.context, &runtime, ownership, !owned) {
            Err(error) => self.failed(error),
            Ok(record) => {
                let outcome = EmulatorEnsureOutcome {
                    status: if owned {
                        EmulatorOperationStatus::Started
                    } else {
                        EmulatorOperationStatus::AlreadyRunning
                    },
                    runtime: Some(runtime),
                    resources: list_of(record),
                    mutations,
                    outputs,
                };
                (self.waiting_for(EmulatorPhase::Over), EmulatorStep::Finish(outcome))
            },
        }
    }

    fn after_look(self, devices: Vec<AndroidDeviceSnapshot>, first: bool) -> (r: (
        EmulatorEnsure,
        EmulatorStep,
    ))
        ensures
            (r.0@, r.1@) == self@.after_look(devices.deep_view(), first),
    {
        match matching_device(&devices, self.request.specification.avd.as_str()) {
            Err(error) => self.failed(error),
            Ok(Some(_)) => (
                self.waiting_for(EmulatorPhase::Device),
                EmulatorStep::WaitForDevice,
            ),
            Ok(None) => if first {
                (self.waiting_for(EmulatorPhase::SecondLook), EmulatorStep::LockAndObserve)
            } else {
                let call = self.backend.emulator_request(&self.request);
                (self.waiting_for(EmulatorPhase::Launch), EmulatorStep::Launch(call))
            },
        }
    }

    fn after_workspace(
        self,
        device: AndroidDeviceSnapshot,
        window: DesktopWindowSnapshot,
        resolution: DesktopWorkspaceResolution,
    ) -> (r: (EmulatorEnsure, EmulatorStep))
        ensures
            (r.0@, r.1@) == self@.after_workspace(device@, window@, resolution@),
    {
        match resolution.workspace {
            None => self.failed(
                WorkstateError::new(
                    ErrorCategory::Integration,
                    "the Android Emulator workspace target could not be resolved",
                ),
            ),
            Some(workspace) => if option_is_text(
                &window.workspace_identity,
                workspace.identity.as_str(),
            ) {
                self.finished(device, Some(window), None)
            } else {
                let identity = window.identity.clone();
                let destination = workspace.identity.clone();
                (
                    self.waiting_for(
                        EmulatorPhase::Place { device, window, workspace: workspace.identity },
                    ),
                    EmulatorStep::MoveWindow { window: identity, workspace: destination },
                )
            },
        }
    }

    fn after_confirm(
        self,
        device: AndroidDeviceSnapshot,
        window: DesktopWindowSnapshot,
        workspace: String,
        snapshot: DesktopSnapshot,
    ) -> (r: (EmulatorEnsure, EmulatorStep))
        ensures
            (r.0@, r.1@) == self@.after_confirm(device@, window@, workspace@, snapshot@),
    {
        match snapshot.window(window.identity.as_str()) {
            None => self.failed(
                WorkstateError::new(
                    ErrorCategory::Integration,
                    "the Android Emulator window disappeared after workspace placement",
                ),
            ),
            Some(updated) => if option_is_text(&updated.workspace_identity, workspace.as_str()) {
                self.finished(device, Some(window), Some(workspace))
            } else {
                self.failed(
                    WorkstateError::new(
                        ErrorCategory::Integration,
                        "the desktop backend did not confirm Android Emulator workspace placement",
                    ).with_context("window_identity", window.identity.as_str()).with_context(
                        "workspace_identity",
                        workspace.as_str(),
                    ),
                )
            },
        }
    }

    /// What follows a reply. A reply that does not belong to what the work is waiting for changes
    /// nothing.
    pub fn advance(self, event: EmulatorEvent) -> (r: (EmulatorEnsure, EmulatorStep))
        ensures
            (r.0@, r.1@) == self@.next(event@),
    {
        let phase = self.phase.replicate();
        match (phase, event) {
            (EmulatorPhase::Over, _) => (self, EmulatorStep::Idle),
            (EmulatorPhase::Avds, EmulatorEvent::Avds(available)) => match validate_avd(
                self.request.specification.avd.as_str(),
                &available,
            ) {
                Err(error) => self.failed(error),
                Ok(_) => (self.waiting_for(EmulatorPhase::FirstLook), EmulatorStep::Observe),
            },
            (EmulatorPhase::FirstLook, EmulatorEvent::Emulators(devices)) => self.after_look(
                devices,
                true,
            ),
            (EmulatorPhase::SecondLook, EmulatorEvent::Emulators(devices)) => self.after_look(
                devices,
                false,
            ),
            (EmulatorPhase::Launch, EmulatorEvent::Launched(process)) => (
                EmulatorEnsure {
                    backend: self.backend,
                    request: self.request,
                    process: Some(process),
                    phase: EmulatorPhase::Device,
                },
                EmulatorStep::WaitForDevice,
            ),
            (EmulatorPhase::Launch, EmulatorEvent::Failed(error)) => self.failed(
                error.with_context("operation", "start-emulator"),
            ),
            (EmulatorPhase::Device, EmulatorEvent::DeviceReady(device)) => if target_places_window(
                &self.request.workspace_target,
            ) {
                let serial = device.serial.clone();
                (
                    self.waiting_for(EmulatorPhase::Window { device }),
                    EmulatorStep::WaitForWindow { serial },
                )
            } else {
                self.finished(device, None, None)
            },
            (EmulatorPhase::Window { device }, EmulatorEvent::WindowReady(window)) => {
                let target = self.request.workspace_target.replicate();
                (
                    self.waiting_for(EmulatorPhase::Workspace { device, window }),
                    EmulatorStep::EnsureWorkspace(target),
                )
            },
            (
                EmulatorPhase::Workspace { device, window },
                EmulatorEvent::Workspace(resolution),
            ) => self.after_workspace(device, window, resolution),
            (EmulatorPhase::Place { device, window, workspace }, EmulatorEvent::Moved) => (
                self.waiting_for(EmulatorPhase::Confirm { device, window, workspace }),
                EmulatorStep::Snapshot,
            ),
            (
                EmulatorPhase::Place { device: _, window, workspace: _ },
                EmulatorEvent::Failed(error),
            ) => self.failed(error.with_context("window_identity", window.identity.as_str())),
            (
                EmulatorPhase::Confirm { device, window, workspace },
                EmulatorEvent::Snapshot(snapshot),
            ) => self.after_confirm(device, window, workspace, snapshot),
            (EmulatorPhase::Stop { error }, EmulatorEvent::Stopped) => (
                self.waiting_for(EmulatorPhase::Over),
                EmulatorStep::Fail(error),
            ),
            (EmulatorPhase::Stop { error }, EmulatorEvent::Failed(failure)) => (
                self.waiting_for(EmulatorPhase::Over),
                EmulatorStep::Fail(
                    error.with_context("launched_emulator_cleanup", failure.render().as_str()),
                ),
            ),
            (_, EmulatorEvent::Failed(error)) => self.failed(error),
            _ => (self, EmulatorStep::Idle),
        }
    }
}

// ---------------------------------------------------------------------------------------------
// Stopping
// ---------------------------------------------------------------------------------------------
/// What the work is waiting for.
#[derive(Debug)]
pub enum StopPhase {
    Look,
    Stop { serial: String },
    Absence { serial: String },
    Over,
}

/// What a `StopPhase` stands for.
#[verifier::ext_equal]
pub enum StopPhaseView {
    Look,
    Stop { serial: Seq<char> },
    Absence { serial: Seq<char> },
    Over,
}

impl View for StopPhase {
    type V = StopPhaseView;

    open spec fn view(&self) -> StopPhaseView {
        match self {
            StopPhase::Look => StopPhaseView::Look,
            StopPhase::Stop { serial } => StopPhaseView::Stop { serial: serial.deep_view() },
            StopPhase::Absence { serial } => StopPhaseView::Absence { serial: serial.deep_view() },
            StopPhase::Over => StopPhaseView::Over,
        }
    }
}

impl DeepView for StopPhase {
    type V = StopPhaseView;

    open spec fn deep_view(&self) -> StopPhaseView {
        self.view()
    }
}

impl Replicate for StopPhase {
    fn replicate(&self) -> (r: Self) {
        match self {
            StopPhase::Look => StopPhase::Look,
            StopPhase::Stop { serial } => StopPhase::Stop { serial: serial.replicate() },
            StopPhase::Absence { serial } => StopPhase::Absence { serial: serial.replicate() },
            StopPhase::Over => StopPhase::Over,
        }
    }
}

/// Stopping the emulators that an environment owns: those that are left, the one in front first; the devices that were seen; the serials that were dealt with; and what was said so far.
#[derive(Debug)]
pub struct EmulatorStop {
    pub pending: Vec<ResourceRecord>,
    pub devices: Vec<AndroidDeviceSnapshot>,
    pub handled: Vec<String>,
    pub outputs: Vec<String>,
    pub phase: StopPhase,
}

/// What a `EmulatorStop` stands for.
#[verifier::ext_equal]
pub struct EmulatorStopView {
    pub pending: Seq<ResourceRecordView>,
    pub devices: Seq<AndroidDeviceSnapshotView>,
    pub handled: Seq<Seq<char>>,
    pub outputs: Seq<Seq<char>>,
    pub phase: StopPhaseView,
}

impl View for EmulatorStop {
    type V = EmulatorStopView;

    open spec fn view(&self) -> EmulatorStopView {
        EmulatorStopView {
            pending: self.pending.deep_view(),
            devices: self.devices.deep_view(),
            handled: self.handled.deep_view(),
            outputs: self.outputs.deep_view(),
            phase: self.phase.deep_view(),
        }
    }
}

impl DeepView for EmulatorStop {
    type V = EmulatorStopView;

    open spec fn deep_view(&self) -> EmulatorStopView {
        self.view()
    }
}

impl Replicate for EmulatorStop {
    fn replicate(&self) -> (r: Self) {
        EmulatorStop {
            pending: self.pending.replicate(),
            devices: self.devices.replicate(),
            handled: self.handled.replicate(),
            outputs: self.outputs.replicate(),
            phase: self.phase.replicate(),
        }
    }
}

/// What the world replied.
#[derive(Debug)]
pub enum StopEvent {
    Emulators(Vec<AndroidDeviceSnapshot>),
    Stopped,
    Gone,
    Failed(WorkstateError),
}

/// What a `StopEvent` stands for.
#[verifier::ext_equal]
pub enum StopEventView {
    Emulators(Seq<AndroidDeviceSnapshotView>),
    Stopped,
    Gone,
    Failed(WorkstateErrorView),
}

impl View for StopEvent {
    type V = StopEventView;

    open spec fn view(&self) -> StopEventView {
        match self {
            StopEvent::Emulators(value) => StopEventView::Emulators(value.deep_view()),
            StopEvent::Stopped => StopEventView::Stopped,
            StopEvent::Gone => StopEventView::Gone,
            StopEvent::Failed(value) => StopEventView::Failed(value.deep_view()),
        }
    }
}

impl DeepView for StopEvent {
    type V = StopEventView;

    open spec fn deep_view(&self) -> StopEventView {
        self.view()
    }
}

/// What is asked of the world next.
#[derive(Debug)]
pub enum StopStep {
    Observe,
    StopProcess(BackgroundProcess),
    WaitForAbsence { serial: String },
    Finish(EmulatorCleanupOutcome),
    Fail(WorkstateError),
    Idle,
}

/// What a `StopStep` stands for.
#[verifier::ext_equal]
pub enum StopStepView {
    Observe,
    StopProcess(BackgroundProcessView),
    WaitForAbsence { serial: Seq<char> },
    Finish(EmulatorCleanupOutcomeView),
    Fail(WorkstateErrorView),
    Idle,
}

impl View for StopStep {
    type V = StopStepView;

    open spec fn view(&self) -> StopStepView {
        match self {
            StopStep::Observe => StopStepView::Observe,
            StopStep::StopProcess(value) => StopStepView::StopProcess(value.deep_view()),
            StopStep::WaitForAbsence { serial } => StopStepView::WaitForAbsence { serial: serial.deep_view() },
            StopStep::Finish(value) => StopStepView::Finish(value.deep_view()),
            StopStep::Fail(value) => StopStepView::Fail(value.deep_view()),
            StopStep::Idle => StopStepView::Idle,
        }
    }
}

impl DeepView for StopStep {
    type V = StopStepView;

    open spec fn deep_view(&self) -> StopStepView {
        self.view()
    }
}

/// The work and what it asks of the world.
pub type StopMove = (EmulatorStopView, StopStepView);

/// The serial of a recorded emulator.
pub open spec fn recorded_serial(record: ResourceRecordView) -> Seq<char> {
    match record.note("serial"@) {
        Some(serial) => serial,
        None => record.resource.stable_identity,
    }
}

/// The serial of a recorded emulator.
pub fn serial_of_record(record: &ResourceRecord) -> (r: String)
    ensures
        r@ == recorded_serial(record@),
{
    match record.integration_metadata.get("serial") {
        Some(serial) => serial,
        None => record.resource.stable_identity.clone(),
    }
}

/// The first device with a serial.
pub open spec fn device_with(devices: Seq<AndroidDeviceSnapshotView>, serial: Seq<char>) -> Option<
    AndroidDeviceSnapshotView,
>
    decreases devices.len(),
{
    if devices.len() == 0 {
        None
    } else if devices[0].serial == serial {
        Some(devices[0])
    } else {
        device_with(devices.drop_first(), serial)
    }
}

fn find_device(devices: &Vec<AndroidDeviceSnapshot>, serial: &str) -> (r: Option<
    AndroidDeviceSnapshot,
>)
    ensures
        r.deep_view() == device_with(devices.deep_view(), serial@),
{
    let ghost all = devices.deep_view();
    let mut i: usize = 0;
    assert(all.skip(0) =~= all);
    while i < devices.len()
        invariant
            i <= devices@.len(),
            all == devices.deep_view(),
            device_with(all, serial@) == device_with(all.skip(i as int), serial@),
        decreases devices@.len() - i,
    {
        assert(all.skip(i as int)[0] == devices@[i as int]@);
        assert(all.skip(i as int).drop_first() =~= all.skip(i as int + 1));
        if same_text(devices[i].serial.as_str(), serial) {
            return Some(devices[i].replicate());
        }
        i = i + 1;
    }
    None
}

/// The process of an emulator that runs, where the record proves that it is the same one: the device
/// does not run another virtual device, and the record names the process.
pub open spec fn owned_process(record: ResourceRecordView, device: AndroidDeviceSnapshotView) -> Result<
    BackgroundProcessView,
    WorkstateErrorView,
> {
    let unproven = android_error(
        AndroidErrorView::OwnershipUnavailable { serial: recorded_serial(record) },
    );
    if record.note("avd"@) is Some && device.avd is Some && device.avd != record.note("avd"@) {
        Err(unproven)
    } else {
        match record.note("process_identity"@) {
            None => Err(unproven),
            Some(identity) => background_of(identity),
        }
    }
}

fn find_owned_process(record: &ResourceRecord, device: &AndroidDeviceSnapshot) -> (r: Result<
    BackgroundProcess,
    WorkstateError,
>)
    ensures
        seen(r) == owned_process(record@, device@),
{
    let serial = serial_of_record(record);
    let expected = record.integration_metadata.get("avd");
    if let (Some(expected), Some(actual)) = (&expected, &device.avd) {
        if !same_text(expected.as_str(), actual.as_str()) {
            return Err(AndroidError::OwnershipUnavailable { serial }.into_workstate());
        }
    }
    match record.integration_metadata.get("process_identity") {
        None => Err(AndroidError::OwnershipUnavailable { serial }.into_workstate()),
        Some(identity) => BackgroundProcess::new(identity),
    }
}

impl EmulatorStopView {
    pub open spec fn waiting_for(self, phase: StopPhaseView) -> EmulatorStopView {
        EmulatorStopView { phase, ..self }
    }

    pub open spec fn failed(self, error: WorkstateErrorView) -> StopMove {
        (self.waiting_for(StopPhaseView::Over), StopStepView::Fail(error))
    }

    /// The record in front is done with.
    pub open spec fn passing(self) -> EmulatorStopView {
        EmulatorStopView { pending: self.pending.drop_first(), ..self }
    }

    /// The emulator in front is stopped; one that was dealt with is passed over, and so is one that
    /// does not run.
    pub open spec fn to_front(self) -> StopMove
        decreases self.pending.len(),
    {
        if self.pending.len() == 0 {
            (
                self.waiting_for(StopPhaseView::Over),
                StopStepView::Finish(
                    EmulatorCleanupOutcomeView {
                        status: EmulatorOperationStatus::Ready,
                        detail: None,
                        outputs: self.outputs,
                    },
                ),
            )
        } else {
            let serial = recorded_serial(self.pending[0]);
            if self.handled.contains(serial) {
                self.passing().to_front()
            } else {
                let marked = EmulatorStopView { handled: self.handled.push(serial), ..self };
                match device_with(self.devices, serial) {
                    None => EmulatorStopView {
                        outputs: self.outputs.push(
                            "Android Emulator '"@ + serial + "' was already stopped"@,
                        ),
                        ..marked.passing()
                    }.to_front(),
                    Some(device) => match owned_process(self.pending[0], device) {
                        Err(error) => marked.failed(error),
                        Ok(process) => (
                            marked.waiting_for(StopPhaseView::Stop { serial }),
                            StopStepView::StopProcess(process),
                        ),
                    },
                }
            }
        }
    }

    /// What follows a reply. A reply that does not belong to what the work is waiting for changes
    /// nothing.
    pub open spec fn next(self, event: StopEventView) -> StopMove {
        match (self.phase, event) {
            (StopPhaseView::Over, _) => (self, StopStepView::Idle),
            (_, StopEventView::Failed(error)) => self.failed(error),
            (StopPhaseView::Look, StopEventView::Emulators(devices)) => EmulatorStopView {
                devices,
                ..self
            }.to_front(),
            (StopPhaseView::Stop { serial }, StopEventView::Stopped) => (
                self.waiting_for(StopPhaseView::Absence { serial }),
                StopStepView::WaitForAbsence { serial },
            ),
            (StopPhaseView::Absence { serial }, StopEventView::Gone) => if self.pending.len()
                == 0 {
                self.to_front()
            } else {
                EmulatorStopView {
                    outputs: self.outputs.push(
                        "stopped owned Android Emulator '"@ + serial + "'"@,
                    ),
                    ..self.passing()
                }.to_front()
            },
            _ => (self, StopStepView::Idle),
        }
    }
}

/// The first step: nothing is looked at where nothing is owned.
pub open spec fn stop_begun(resources: Seq<ResourceRecordView>) -> StopMove {
    let pending = owned_of_kind(resources, ResourceKind::AndroidEmulator);
    let work = EmulatorStopView {
        pending,
        devices: Seq::empty(),
        handled: Seq::empty(),
        outputs: Seq::empty(),
        phase: StopPhaseView::Look,
    };
    if pending.len() == 0 {
        (
            work.waiting_for(StopPhaseView::Over),
            StopStepView::Finish(
                EmulatorCleanupOutcomeView {
                    status: EmulatorOperationStatus::AlreadyRunning,
                    detail: None,
                    outputs: Seq::empty(),
                },
            ),
        )
    } else {
        (work, StopStepView::Observe)
    }
}

impl EmulatorStop {
    /// Begins with a look at the emulators, where any is owned.
    pub fn begin(resources: &Vec<ResourceRecord>) -> (r: (EmulatorStop, StopStep))
        ensures
            (r.0@, r.1@) == stop_begun(resources.deep_view()),
    {
        let pending = owned_resources(resources, ResourceKind::AndroidEmulator);
        let none = pending.len() == 0;
        let work = EmulatorStop {
            pending,
            devices: empty_list(),
            handled: empty_list(),
            outputs: empty_list(),
            phase: StopPhase::Look,
        };
        if none {
            (
                work.waiting_for(StopPhase::Over),
                StopStep::Finish(
                    EmulatorCleanupOutcome {
                        status: EmulatorOperationStatus::AlreadyRunning,
                        detail: None,
                        outputs: empty_list(),
                    },
                ),
            )
        } else {
            (work, StopStep::Observe)
        }
    }

    fn waiting_for(self, phase: StopPhase) -> (r: EmulatorStop)
        ensures
            r@ == self@.waiting_for(phase@),
    {
        EmulatorStop {
            pending: self.pending,
            devices: self.devices,
            handled: self.handled,
            outputs: self.outputs,
            phase,
        }
    }

    fn passing(self) -> (r: EmulatorStop)
        requires
            self.pending@.len() > 0,
        ensures
            r@ == self@.passing(),
    {
        let pending = rest(&self.pending);
        EmulatorStop {
            pending,
            devices: self.devices,
            handled: self.handled,
            outputs: self.outputs,
            phase: self.phase,
        }
    }

    fn to_front(self) -> (r: (EmulatorStop, StopStep))
        ensures
            (r.0@, r.1@) == self@.to_front(),
    {
        let ghost goal = self@.to_front();
        let mut work = self;
        while work.pending.len() > 0
            invariant
                goal == self@.to_front(),
                work@.to_front() == goal,
            ensures
                work@.to_front() == goal,
                work.pending@.len() == 0,
            decreases work.pending@.len(),
        {
            let ghost view = work@;
            assert(work.pending.deep_view()[0] == work.pending@[0]@);
            let serial = serial_of_record(&work.pending[0]);
            if list_holds(&work.handled, &serial) {
                work = work.passing();
            } else {
                append(&mut work.handled, serial.clone());
                match find_device(&work.devices, serial.as_str()) {
                    None => {
                        append(
                            &mut work.outputs,
                            join3(
                                "Android Emulator '",
                                serial.as_str(),
                                "' was already stopped",
                            ),
                        );
                        work = work.passing();
                    },
                    Some(device) => {
                        return match find_owned_process(&work.pending[0], &device) {
                            Err(error) => (
                                work.waiting_for(StopPhase::Over),
                                StopStep::Fail(error),
                            ),
                            Ok(process) => (
                                work.waiting_for(StopPhase::Stop { serial }),
                                StopStep::StopProcess(process),
                            ),
                        };
                    },
                }
            }
            assert(work.pending.deep_view().len() == work.pending@.len());
            assert(work@.pending.len() < view.pending.len());
        }
        let outcome = EmulatorCleanupOutcome {
            status: EmulatorOperationStatus::Ready,
            detail: None,
            outputs: work.outputs.replicate(),
        };
        (work.waiting_for(StopPhase::Over), StopStep::Finish(outcome))
    }

    /// What follows a reply. A reply that does not belong to what the work is waiting for changes
    /// nothing.
    pub fn advance(self, event: StopEvent) -> (r: (EmulatorStop, StopStep))
        ensures
            (r.0@, r.1@) == self@.next(event@),
    {
        let phase = self.phase.replicate();
        match (phase, event) {
            (StopPhase::Over, _) => (self, StopStep::Idle),
            (_, StopEvent::Failed(error)) => (
                self.waiting_for(StopPhase::Over),
                StopStep::Fail(error),
            ),
            (StopPhase::Look, StopEvent::Emulators(devices)) => EmulatorStop {
                pending: self.pending,
                devices,
                handled: self.handled,
                outputs: self.outputs,
                phase: self.phase,
            }.to_front(),
            (StopPhase::Stop { serial }, StopEvent::Stopped) => {
                let awaited = serial.clone();
                (
                    self.waiting_for(StopPhase::Absence { serial }),
                    StopStep::WaitForAbsence { serial: awaited },
                )
            },
            (StopPhase::Absence { serial }, StopEvent::Gone) => {
                if self.pending.len() == 0 {
                    return self.to_front();
                }
                let mut work = self.passing();
                append(
                    &mut work.outputs,
                    join3("stopped owned Android Emulator '", serial.as_str(), "'"),
                );
                work.to_front()
            },
            _ => (self, StopStep::Idle),
        }
    }
}

// ---------------------------------------------------------------------------------------------
// Laws
// ---------------------------------------------------------------------------------------------
/// A failure after an emulator was started stops its process, and the error is returned only then.
pub proof fn law_launched_emulator_is_stopped_before_failing(
    work: EmulatorEnsureView,
    event: EmulatorEventView,
)
    requires
        work.process is Some,
        !(work.phase is Stop),
        !(work.phase is Over),
        !(work.phase is Launch),
    ensures
        !(work.next(event).1 is Fail),
        work.next(event).0.phase is Stop ==> work.next(event).1 == EmulatorStepView::StopProcess(
            work.process->Some_0,
        ),
{
}

/// An emulator that runs already is never started a second time: a launch comes only after two looks
/// that showed none.
pub proof fn law_running_emulator_is_not_launched(
    work: EmulatorEnsureView,
    event: EmulatorEventView,
)
    requires
        work.next(event).1 is Launch,
    ensures
        work.phase is SecondLook,
        event matches EmulatorEventView::Emulators(devices) && device_running(devices, work.avd())
            == Ok::<Option<AndroidDeviceSnapshotView>, WorkstateErrorView>(None),
{
}

/// An emulator that was not started here is recorded as one that is not owned, so that it is never
/// stopped.
pub proof fn law_reused_emulator_is_not_owned(
    work: EmulatorEnsureView,
    device: AndroidDeviceSnapshotView,
    window: Option<DesktopWindowSnapshotView>,
    moved_to: Option<Seq<char>>,
    outcome: EmulatorEnsureOutcomeView,
)
    requires
        work.process is None,
        work.finished(device, window, moved_to).1 == EmulatorStepView::Finish(outcome),
    ensures
        outcome.status == EmulatorOperationStatus::AlreadyRunning,
        outcome.resources.len() == 1,
        !outcome.resources[0].cleanup_candidate(),
        stop_begun(outcome.resources).1 is Finish,
{
    reveal_with_fuel(owned_of_kind, 2);
    assert(outcome.resources.drop_last() =~= Seq::<ResourceRecordView>::empty());
}

/// An emulator that was started here is stopped again by its process, where its device still runs the
/// same virtual device.
pub proof fn law_launched_emulator_can_be_stopped(
    work: EmulatorEnsureView,
    process: BackgroundProcessView,
    device: AndroidDeviceSnapshotView,
    window: Option<DesktopWindowSnapshotView>,
    moved_to: Option<Seq<char>>,
    outcome: EmulatorEnsureOutcomeView,
)
    requires
        work.process == Some(process),
        background_of(process.identity) == Ok::<BackgroundProcessView, WorkstateErrorView>(process),
        device.avd == Some(work.avd()),
        work.finished(device, window, moved_to).1 == EmulatorStepView::Finish(outcome),
    ensures
        recorded_serial(outcome.resources[0]) == device.serial,
        owned_process(outcome.resources[0], device) == Ok::<
            BackgroundProcessView,
            WorkstateErrorView,
        >(process),
{
    reveal_strlit("avd");
    reveal_strlit("serial");
    reveal_strlit("process_identity");
    reveal_strlit("window_identity");
    reveal_strlit("workspace_identity");
    assert("avd"@.len() == 3 && "serial"@.len() == 6 && "process_identity"@.len() == 16
        && "window_identity"@.len() == 15 && "workspace_identity"@.len() == 18);
}

/// Once the work is over, no reply brings anything about.
pub proof fn law_over_is_over(work: EmulatorEnsureView, event: EmulatorEventView)
    requires
        work.phase is Over,
    ensures
        work.next(event) == (work, EmulatorStepView::Idle),
{
}

/// A virtual device that does not run is launched by its name and with the arguments that were asked for,
/// after two looks found none; the emulator is then waited for and belongs to this run.
pub proof fn law_missing_emulator_is_launched(
    backend: AndroidBackendView,
    request: EmulatorRequestView,
    available: Seq<AndroidVirtualDeviceView>,
    process: BackgroundProcessView,
    device: AndroidDeviceSnapshotView,
    i: int,
)
    requires
        0 <= i < available.len(),
        available[i].name == request.specification.avd,
        !is_blank(device.serial),
        request.workspace_target is None,
    ensures
        ({
            let begun = EmulatorEnsureView {
                backend,
                request,
                process: None,
                phase: EmulatorPhaseView::Avds,
            };
            let listed = begun.next(EmulatorEventView::Avds(available));
            let looked = listed.0.next(EmulatorEventView::Emulators(Seq::empty()));
            let again = looked.0.next(EmulatorEventView::Emulators(Seq::empty()));
            let launched = again.0.next(EmulatorEventView::Launched(process));
            let ready = launched.0.next(EmulatorEventView::DeviceReady(device));
            &&& listed.1 is Observe && looked.1 is LockAndObserve
            &&& again.1 matches EmulatorStepView::Launch(call) && call.program
                == backend.emulator_executable && call.arguments == seq![
                "-avd"@,
                request.specification.avd,
            ] + request.specification.arguments
            &&& launched.1 is WaitForDevice
            &&& ready.1 matches EmulatorStepView::Finish(outcome) && outcome.status
                == EmulatorOperationStatus::Started && outcome.resources.len() == 1
                && outcome.resources[0].resource.kind == ResourceKind::AndroidEmulator
                && outcome.resources[0].resource.stable_identity == device.serial
                && outcome.resources[0].ownership == OwnershipStatus::CreatedByCurrentRun
                && outcome.resources[0].cleanup_policy == request.context.cleanup_policy
                && outcome.resources[0].note("process_identity"@) == Some(process.identity)
                && outcome.resources[0].note("avd"@) == Some(request.specification.avd)
                && outcome.mutations.len() == 0
        }),
{
    let empty = Seq::<AndroidDeviceSnapshotView>::empty();
    reveal_with_fuel(Seq::filter, 2);
    assert(crate::integrations::android::checks::devices_running(
        empty,
        request.specification.avd,
    ) =~= empty);
    assert(avd_names(available)[i] == request.specification.avd);
    reveal_strlit("avd");
    reveal_strlit("serial");
    reveal_strlit("process_identity");
    reveal_strlit("window_identity");
    reveal_strlit("workspace_identity");
    assert("avd"@.len() == 3 && "serial"@.len() == 6 && "process_identity"@.len() == 16
        && "window_identity"@.len() == 15 && "workspace_identity"@.len() == 18);
}

/// A virtual device that is not installed is a failure before anything starts.
pub proof fn law_unknown_device_is_refused(
    work: EmulatorEnsureView,
    available: Seq<AndroidVirtualDeviceView>,
)
    requires
        work.phase is Avds,
        work.process is None,
        forall|i: int|
            0 <= i < available.len() ==> (#[trigger] available[i]).name
                != work.request.specification.avd,
    ensures
        work.next(EmulatorEventView::Avds(available)).1 is Fail,
{
    let names = avd_names(available);
    if names.contains(work.request.specification.avd) {
        let i = choose|i: int|
            0 <= i < names.len() && names[i] == work.request.specification.avd;
        assert(available[i].name == work.request.specification.avd);
    }
}

/// Where a workspace is named, the window of the emulator is waited for and moved there, which counts once
/// the desktop shows it; where the window came from is recorded.
pub proof fn law_emulator_is_moved_to_its_workspace(
    work: EmulatorEnsureView,
    target: WorkspaceTargetView,
    device: AndroidDeviceSnapshotView,
    window: DesktopWindowSnapshotView,
    workspace: DesktopWorkspaceSnapshotView,
    resolution: DesktopWorkspaceResolutionView,
    snapshot: DesktopSnapshotView,
    updated: DesktopWindowSnapshotView,
)
    requires
        work.phase is Device,
        work.request.workspace_target == Some(target),
        target !is Nowhere,
        resolution.workspace == Some(workspace),
        window.workspace_identity != Some(workspace.identity),
        snapshot.window(window.identity) == Some(updated),
        !is_blank(device.serial),
        !is_blank(window.identity),
    ensures
        ({
            let ready = work.next(EmulatorEventView::DeviceReady(device));
            let shown = ready.0.next(EmulatorEventView::WindowReady(window));
            let asked = shown.0.next(EmulatorEventView::Workspace(resolution));
            let moved = asked.0.next(EmulatorEventView::Moved);
            let confirmed = moved.0.next(EmulatorEventView::Snapshot(snapshot));
            &&& ready.1 == (EmulatorStepView::WaitForWindow { serial: device.serial })
            &&& shown.1 == EmulatorStepView::EnsureWorkspace(Some(target))
            &&& asked.1 == (EmulatorStepView::MoveWindow {
                window: window.identity,
                workspace: workspace.identity,
            })
            &&& moved.1 is Snapshot
            &&& updated.workspace_identity == Some(workspace.identity) ==> (
            confirmed.1 matches EmulatorStepView::Finish(outcome) && outcome.mutations.len() == 1
                && outcome.mutations[0].previous_value == window.workspace_identity
                && outcome.mutations[0].applied_value == Some(workspace.identity))
            &&& updated.workspace_identity != Some(workspace.identity) ==> !(confirmed.1 is Finish)
        }),
{
    law_move_is_recorded(
        window.identity,
        window.workspace_identity,
        workspace.identity,
        work.request.context.action_id,
        work.request.context.cleanup_policy,
    );
}

/// What is seen of a virtual device is the emulator that runs it, and nothing where none does.
pub proof fn law_running_emulator_is_seen(
    request: EmulatorRequestView,
    available: Seq<AndroidVirtualDeviceView>,
    device: AndroidDeviceSnapshotView,
    snapshot: DesktopSnapshotView,
    i: int,
)
    requires
        0 <= i < available.len(),
        available[i].name == request.specification.avd,
        request.workspace_target is None,
    ensures
        device.avd == Some(request.specification.avd) ==> (emulator_observed(
            request,
            available,
            seq![device],
            snapshot,
        ) matches Ok(EmulatorObservationView::Present(runtime)) && runtime.serial == device.serial
            && runtime.avd == request.specification.avd && runtime.state == device.state
            && runtime.boot_completed == device.boot_completed),
        device.avd != Some(request.specification.avd) ==> emulator_observed(
            request,
            available,
            seq![device],
            snapshot,
        ) == Ok::<EmulatorObservationView, WorkstateErrorView>(EmulatorObservationView::Missing),
{
    reveal_with_fuel(Seq::filter, 2);
    let empty = Seq::<AndroidDeviceSnapshotView>::empty();
    let running = crate::integrations::android::checks::devices_running(
        seq![device],
        request.specification.avd,
    );
    assert(seq![device].drop_last() =~= empty && seq![device].last() == device);
    assert(device.avd == Some(request.specification.avd) ==> running =~= seq![device]);
    assert(device.avd != Some(request.specification.avd) ==> running =~= empty);
    assert(avd_names(available)[i] == request.specification.avd);
}

/// An emulator that this run started is stopped by its process and waited for until it is gone; one that
/// is gone already is left alone, and one that runs another virtual device by now is not touched.
pub proof fn law_started_emulator_is_stopped(
    record: ResourceRecordView,
    device: AndroidDeviceSnapshotView,
    process: BackgroundProcessView,
    avd: Seq<char>,
    identity: Seq<char>,
)
    requires
        record.resource.kind == ResourceKind::AndroidEmulator,
        record.ownership == OwnershipStatus::CreatedByCurrentRun,
        record.cleanup_policy != CleanupPolicy::Preserve,
        record.note("serial"@) == Some(device.serial),
        record.note("avd"@) == Some(avd),
        record.note("process_identity"@) == Some(identity),
        background_of(identity) == Ok::<BackgroundProcessView, WorkstateErrorView>(process),
    ensures
        ({
            let begun = stop_begun(seq![record]);
            let looked = begun.0.next(StopEventView::Emulators(seq![device]));
            let stopped = looked.0.next(StopEventView::Stopped);
            let absent = begun.0.next(StopEventView::Emulators(Seq::empty()));
            &&& begun.1 is Observe
            &&& device.avd == Some(avd) ==> looked.1 == StopStepView::StopProcess(process)
                && stopped.1 == (StopStepView::WaitForAbsence { serial: device.serial })
                && stopped.0.next(StopEventView::Gone).1 is Finish
            &&& device.avd is Some && device.avd != Some(avd) ==> looked.1 is Fail
            &&& absent.1 is Finish
        }),
{
    law_every_owned_resource_is_taken_up(seq![record], ResourceKind::AndroidEmulator);
    reveal_with_fuel(owned_of_kind, 2);
    assert(seq![record].drop_last() =~= Seq::<ResourceRecordView>::empty());
    assert(seq![record].last() == record);
    let pending = owned_of_kind(seq![record], ResourceKind::AndroidEmulator);
    assert(pending =~= seq![record]);
    assert(pending.drop_first() =~= Seq::<ResourceRecordView>::empty());
    reveal_with_fuel(EmulatorStopView::to_front, 3);
    assert(seq![device][0] == device);
    assert(device_with(seq![device], device.serial) == Some(device));
    assert(device_with(Seq::empty(), device.serial) is None);
}

} // verus!
