//! What is asked of adb, and what its replies say.
use vstd::prelude::*;
use vstd::string::*;
use crate::encoding::{lenient_text, text_from_utf8_lossy};
use crate::error::{error_of, seen, ErrorCategory, WorkstateError, WorkstateErrorView};
use crate::integrations::android::errors::{command_failed, command_failure};
use crate::integrations::android::models::{
    avd_told, boot_told, devices_listed, parse_avd_name, parse_boot_property, parse_devices,
};
use crate::ports::{
    AndroidDeviceSnapshot, AndroidDeviceSnapshotView, AndroidDeviceStateView, ProcessOutput,
    ProcessOutputView, ProcessRequest, ProcessRequestView,
};
use crate::text::{
    contains_text, has_control, join2, join3, lower, text_contains, text_has_control, text_lower,
};
use crate::values::{
    append, append_text, empty_list, rest, text_list2, text_list4, Replicate,
};

verus! {

/// The adb executable.
#[derive(Debug, Clone, PartialEq, Eq)]
pub struct AdbClient {
    pub executable: String,
}

/// What a `AdbClient` stands for.
#[verifier::ext_equal]
pub struct AdbClientView {
    pub executable: Seq<char>,
}

impl View for AdbClient {
    type V = AdbClientView;

    open spec fn view(&self) -> AdbClientView {
        AdbClientView {
            executable: self.executable.deep_view(),
        }
    }
}

impl DeepView for AdbClient {
    type V = AdbClientView;

    open spec fn deep_view(&self) -> AdbClientView {
        self.view()
    }
}

impl Replicate for AdbClient {
    fn replicate(&self) -> (r: Self) {
        AdbClient {
            executable: self.executable.replicate(),
        }
    }
}

/// A path or a serial that can be passed on: not empty, and without control characters.
pub open spec fn is_proper(text: Seq<char>) -> bool {
    text.len() > 0 && !has_control(text)
}

pub open spec fn executable_error(label: Seq<char>) -> WorkstateErrorView {
    error_of(
        ErrorCategory::Integration,
        label + " executable path must be non-empty and contain no control characters"@,
    )
}

/// Refuses an executable path that cannot be passed on.
pub fn validate_executable(path: &str, label: &str) -> (r: Result<(), WorkstateError>)
    ensures
        seen(r) == (if is_proper(path@) {
            Ok::<(), WorkstateErrorView>(())
        } else {
            Err(executable_error(label@))
        }),
{
    if path.is_empty() || text_has_control(path) {
        return Err(
            WorkstateError::new(
                ErrorCategory::Integration,
                join2(
                    label,
                    " executable path must be non-empty and contain no control characters",
                ).as_str(),
            ),
        );
    }
    Ok(())
}

pub open spec fn serial_error() -> WorkstateErrorView {
    error_of(
        ErrorCategory::Integration,
        "Android emulator serial must be non-empty and contain no control characters"@,
    )
}

/// One of the signs of a device that cannot be talked to just now.
pub open spec fn is_transient(output: ProcessOutputView) -> bool {
    let detail = lower(lenient_text(output.stdout) + "\n"@ + lenient_text(output.stderr));
    ||| contains_text(detail, "offline"@)
    ||| contains_text(detail, "unauthorized"@)
    ||| contains_text(detail, "no permissions"@)
    ||| contains_text(detail, "device not found"@)
    ||| contains_text(detail, "device offline"@)
    ||| contains_text(detail, "unknown device"@)
    ||| contains_text(detail, "more than one device"@)
    ||| contains_text(detail, "connection refused"@)
    ||| contains_text(detail, "could not connect"@)
    ||| contains_text(detail, "failed to connect"@)
    ||| contains_text(detail, "error: closed"@)
}

/// Whether a call has failed because the device cannot be talked to just now.
pub fn is_transient_failure(output: &ProcessOutput) -> (r: bool)
    ensures
        r == is_transient(output@),
{
    assert(output.stderr.deep_view() =~= output.stderr@);
    assert(output.stdout.deep_view() =~= output.stdout@);
    let printed = join3(
        text_from_utf8_lossy(output.stdout.as_slice()).as_str(),
        "\n",
        text_from_utf8_lossy(output.stderr.as_slice()).as_str(),
    );
    let lowered = text_lower(printed.as_str());
    let detail = lowered.as_str();
    text_contains(detail, "offline") || text_contains(detail, "unauthorized") || text_contains(
        detail,
        "no permissions",
    ) || text_contains(detail, "device not found") || text_contains(detail, "device offline")
        || text_contains(detail, "unknown device") || text_contains(detail, "more than one device")
        || text_contains(detail, "connection refused") || text_contains(
        detail,
        "could not connect",
    ) || text_contains(detail, "failed to connect") || text_contains(detail, "error: closed")
}

/// The output of a call that has to succeed.
pub open spec fn required_output(operation: Seq<char>, output: ProcessOutputView) -> Result<
    ProcessOutputView,
    WorkstateErrorView,
> {
    if output.success() {
        Ok(output)
    } else {
        Err(command_failure(operation, output))
    }
}

/// The output of a call that may fail while the device cannot be talked to.
pub open spec fn possible_output(operation: Seq<char>, output: ProcessOutputView) -> Result<
    Option<ProcessOutputView>,
    WorkstateErrorView,
> {
    if output.success() {
        Ok(Some(output))
    } else if is_transient(output) {
        Ok(None)
    } else {
        Err(command_failure(operation, output))
    }
}

/// The devices that the reply lists.
pub open spec fn devices_reported(output: ProcessOutputView) -> Result<
    Seq<AndroidDeviceSnapshotView>,
    WorkstateErrorView,
> {
    match required_output("list-devices"@, output) {
        Err(error) => Err(error),
        Ok(output) => devices_listed(output.stdout),
    }
}

/// The name of the virtual device that the reply tells.
pub open spec fn avd_reported(output: ProcessOutputView) -> Result<
    Option<Seq<char>>,
    WorkstateErrorView,
> {
    match possible_output("get-avd-name"@, output) {
        Err(error) => Err(error),
        Ok(Some(output)) => avd_told(output.stdout),
        Ok(None) => Ok(None),
    }
}

/// Whether the reply says that Android has booted.
pub open spec fn boot_reported(output: ProcessOutputView) -> Result<bool, WorkstateErrorView> {
    match possible_output("check-boot-readiness"@, output) {
        Err(error) => Err(error),
        Ok(Some(output)) => Ok(boot_told(output.stdout)),
        Ok(None) => Ok(false),
    }
}

/// The devices that the reply lists.
pub fn read_devices(output: &ProcessOutput) -> (r: Result<
    Vec<AndroidDeviceSnapshot>,
    WorkstateError,
>)
    ensures
        seen(r) == devices_reported(output@),
{
    if !output.succeeded() {
        return Err(command_failed("list-devices", output));
    }
    assert(output.stdout.deep_view() =~= output.stdout@);
    parse_devices(output.stdout.as_slice())
}

/// The name of the virtual device that the reply tells.
pub fn read_avd_name(output: &ProcessOutput) -> (r: Result<Option<String>, WorkstateError>)
    ensures
        seen(r) == avd_reported(output@),
{
    if output.succeeded() {
        assert(output.stdout.deep_view() =~= output.stdout@);
        return parse_avd_name(output.stdout.as_slice());
    }
    if is_transient_failure(output) {
        return Ok(None);
    }
    Err(command_failed("get-avd-name", output))
}

/// Whether the reply says that Android has booted.
pub fn read_boot_property(output: &ProcessOutput) -> (r: Result<bool, WorkstateError>)
    ensures
        seen(r) == boot_reported(output@),
{
    if output.succeeded() {
        assert(output.stdout.deep_view() =~= output.stdout@);
        return Ok(parse_boot_property(output.stdout.as_slice()));
    }
    if is_transient_failure(output) {
        return Ok(false);
    }
    Err(command_failed("check-boot-readiness", output))
}

impl AdbClientView {
    /// A call of adb.
    pub open spec fn calling(self, arguments: Seq<Seq<char>>) -> ProcessRequestView {
        ProcessRequestView {
            program: self.executable,
            arguments,
            working_directory: None,
            environment: Seq::empty(),
        }
    }

    /// The call that lists the devices.
    pub open spec fn list_call(self) -> ProcessRequestView {
        self.calling(seq!["devices"@, "-l"@])
    }

    /// The call that asks for the name of a virtual device.
    pub open spec fn name_call(self, serial: Seq<char>) -> ProcessRequestView {
        self.calling(seq!["-s"@, serial, "emu"@, "avd"@, "name"@])
    }

    /// The call that asks whether Android has booted.
    pub open spec fn boot_call(self, serial: Seq<char>) -> ProcessRequestView {
        self.calling(seq!["-s"@, serial, "shell"@, "getprop"@, "sys.boot_completed"@])
    }
}

impl AdbClient {
    /// The client of an executable; a path that cannot be passed on is refused.
    pub fn new(executable: String) -> (r: Result<Self, WorkstateError>)
        ensures
            seen(r) == (if is_proper(executable@) {
                Ok::<AdbClientView, WorkstateErrorView>(
                    AdbClientView { executable: executable@ },
                )
            } else {
                Err(executable_error("adb"@))
            }),
    {
        match validate_executable(executable.as_str(), "adb") {
            Err(error) => Err(error),
            Ok(_) => Ok(AdbClient { executable }),
        }
    }

    pub fn executable(&self) -> (r: &str)
        ensures
            r@ == self@.executable,
    {
        self.executable.as_str()
    }

    fn request(&self, arguments: Vec<String>) -> (r: ProcessRequest)
        ensures
            r@ == self@.calling(arguments.deep_view()),
    {
        ProcessRequest {
            program: self.executable.clone(),
            arguments,
            working_directory: None,
            environment: empty_list(),
        }
    }

    /// The call that lists the devices.
    pub fn list_devices(&self) -> (r: ProcessRequest)
        ensures
            r@ == self@.list_call(),
    {
        self.request(text_list2("devices", "-l"))
    }

    /// The call that asks for the name of a virtual device; a serial that cannot be passed on is
    /// refused.
    pub fn avd_name(&self, serial: &str) -> (r: Result<ProcessRequest, WorkstateError>)
        ensures
            seen(r) == (if is_proper(serial@) {
                Ok::<ProcessRequestView, WorkstateErrorView>(self@.name_call(serial@))
            } else {
                Err(serial_error())
            }),
    {
        match validate_serial(serial) {
            Err(error) => Err(error),
            Ok(_) => {
                let mut arguments = text_list4("-s", serial, "emu", "avd");
                append_text(&mut arguments, "name");
                assert(arguments.deep_view() =~= seq!["-s"@, serial@, "emu"@, "avd"@, "name"@]);
                Ok(self.request(arguments))
            },
        }
    }

    /// The call that asks whether Android has booted; a serial that cannot be passed on is refused.
    pub fn boot_completed(&self, serial: &str) -> (r: Result<ProcessRequest, WorkstateError>)
        ensures
            seen(r) == (if is_proper(serial@) {
                Ok::<ProcessRequestView, WorkstateErrorView>(self@.boot_call(serial@))
            } else {
                Err(serial_error())
            }),
    {
        match validate_serial(serial) {
            Err(error) => Err(error),
            Ok(_) => {
                let mut arguments = text_list4("-s", serial, "shell", "getprop");
                append_text(&mut arguments, "sys.boot_completed");
                assert(arguments.deep_view() =~= seq![
                    "-s"@,
                    serial@,
                    "shell"@,
                    "getprop"@,
                    "sys.boot_completed"@,
                ]);
                Ok(self.request(arguments))
            },
        }
    }

    /// Begins to look at all emulators.
    pub fn observe_emulators(&self) -> (r: (EmulatorSurvey, SurveyStep))
        ensures
            r.0@ == (EmulatorSurveyView {
                client: self@,
                pending: Seq::empty(),
                observed: Seq::empty(),
                phase: SurveyPhaseView::Listing,
            }),
            r.1@ == SurveyStepView::Run(self@.list_call()),
    {
        let request = self.list_devices();
        (
            EmulatorSurvey {
                client: self.replicate(),
                pending: empty_list(),
                observed: empty_list(),
                phase: SurveyPhase::Listing,
            },
            SurveyStep::Run(request),
        )
    }
}

fn validate_serial(serial: &str) -> (r: Result<(), WorkstateError>)
    ensures
        seen(r) == (if is_proper(serial@) {
            Ok::<(), WorkstateErrorView>(())
        } else {
            Err(serial_error())
        }),
{
    if serial.is_empty() || text_has_control(serial) {
        return Err(
            WorkstateError::new(
                ErrorCategory::Integration,
                "Android emulator serial must be non-empty and contain no control characters",
            ),
        );
    }
    Ok(())
}

// ---------------------------------------------------------------------------------------------
// Looking at all emulators
// ---------------------------------------------------------------------------------------------
/// What the survey is waiting for.
#[derive(Debug)]
pub enum SurveyPhase {
    Listing,
    Naming,
    Booting { avd: Option<String> },
    Over,
}

/// What a `SurveyPhase` stands for.
#[verifier::ext_equal]
pub enum SurveyPhaseView {
    Listing,
    Naming,
    Booting { avd: Option<Seq<char>> },
    Over,
}

impl View for SurveyPhase {
    type V = SurveyPhaseView;

    open spec fn view(&self) -> SurveyPhaseView {
        match self {
            SurveyPhase::Listing => SurveyPhaseView::Listing,
            SurveyPhase::Naming => SurveyPhaseView::Naming,
            SurveyPhase::Booting { avd } => SurveyPhaseView::Booting { avd: avd.deep_view() },
            SurveyPhase::Over => SurveyPhaseView::Over,
        }
    }
}

impl DeepView for SurveyPhase {
    type V = SurveyPhaseView;

    open spec fn deep_view(&self) -> SurveyPhaseView {
        self.view()
    }
}

impl Replicate for SurveyPhase {
    fn replicate(&self) -> (r: Self) {
        match self {
            SurveyPhase::Listing => SurveyPhase::Listing,
            SurveyPhase::Naming => SurveyPhase::Naming,
            SurveyPhase::Booting { avd } => SurveyPhase::Booting { avd: avd.replicate() },
            SurveyPhase::Over => SurveyPhase::Over,
        }
    }
}

/// A survey of the emulators: those that are left, the one in front first, and those that were looked at.
#[derive(Debug)]
pub struct EmulatorSurvey {
    pub client: AdbClient,
    pub pending: Vec<AndroidDeviceSnapshot>,
    pub observed: Vec<AndroidDeviceSnapshot>,
    pub phase: SurveyPhase,
}

/// What a `EmulatorSurvey` stands for.
#[verifier::ext_equal]
pub struct EmulatorSurveyView {
    pub client: AdbClientView,
    pub pending: Seq<AndroidDeviceSnapshotView>,
    pub observed: Seq<AndroidDeviceSnapshotView>,
    pub phase: SurveyPhaseView,
}

impl View for EmulatorSurvey {
    type V = EmulatorSurveyView;

    open spec fn view(&self) -> EmulatorSurveyView {
        EmulatorSurveyView {
            client: self.client.deep_view(),
            pending: self.pending.deep_view(),
            observed: self.observed.deep_view(),
            phase: self.phase.deep_view(),
        }
    }
}

impl DeepView for EmulatorSurvey {
    type V = EmulatorSurveyView;

    open spec fn deep_view(&self) -> EmulatorSurveyView {
        self.view()
    }
}

impl Replicate for EmulatorSurvey {
    fn replicate(&self) -> (r: Self) {
        EmulatorSurvey {
            client: self.client.replicate(),
            pending: self.pending.replicate(),
            observed: self.observed.replicate(),
            phase: self.phase.replicate(),
        }
    }
}

/// What the world replied. A call that could not be made is `Failed`; `Stopped` ends the survey from outside.
#[derive(Debug)]
pub enum SurveyEvent {
    Ran(ProcessOutput),
    Failed(WorkstateError),
    Stopped(WorkstateError),
}

/// What a `SurveyEvent` stands for.
#[verifier::ext_equal]
pub enum SurveyEventView {
    Ran(ProcessOutputView),
    Failed(WorkstateErrorView),
    Stopped(WorkstateErrorView),
}

impl View for SurveyEvent {
    type V = SurveyEventView;

    open spec fn view(&self) -> SurveyEventView {
        match self {
            SurveyEvent::Ran(value) => SurveyEventView::Ran(value.deep_view()),
            SurveyEvent::Failed(value) => SurveyEventView::Failed(value.deep_view()),
            SurveyEvent::Stopped(value) => SurveyEventView::Stopped(value.deep_view()),
        }
    }
}

impl DeepView for SurveyEvent {
    type V = SurveyEventView;

    open spec fn deep_view(&self) -> SurveyEventView {
        self.view()
    }
}

/// What is asked of the world next.
#[derive(Debug)]
pub enum SurveyStep {
    Run(ProcessRequest),
    Finish(Vec<AndroidDeviceSnapshot>),
    Fail(WorkstateError),
    Idle,
}

/// What a `SurveyStep` stands for.
#[verifier::ext_equal]
pub enum SurveyStepView {
    Run(ProcessRequestView),
    Finish(Seq<AndroidDeviceSnapshotView>),
    Fail(WorkstateErrorView),
    Idle,
}

impl View for SurveyStep {
    type V = SurveyStepView;

    open spec fn view(&self) -> SurveyStepView {
        match self {
            SurveyStep::Run(value) => SurveyStepView::Run(value.deep_view()),
            SurveyStep::Finish(value) => SurveyStepView::Finish(value.deep_view()),
            SurveyStep::Fail(value) => SurveyStepView::Fail(value.deep_view()),
            SurveyStep::Idle => SurveyStepView::Idle,
        }
    }
}

impl DeepView for SurveyStep {
    type V = SurveyStepView;

    open spec fn deep_view(&self) -> SurveyStepView {
        self.view()
    }
}

/// The survey and what it asks of the world.
pub type SurveyMove = (EmulatorSurveyView, SurveyStepView);

impl EmulatorSurveyView {
    pub open spec fn waiting_for(self, phase: SurveyPhaseView) -> EmulatorSurveyView {
        EmulatorSurveyView { phase, ..self }
    }

    pub open spec fn failed(self, error: WorkstateErrorView) -> SurveyMove {
        (self.waiting_for(SurveyPhaseView::Over), SurveyStepView::Fail(error))
    }

    /// The emulator in front is asked for its name.
    pub open spec fn to_front(self) -> SurveyMove {
        if self.pending.len() == 0 {
            (self.waiting_for(SurveyPhaseView::Over), SurveyStepView::Finish(self.observed))
        } else if is_proper(self.pending[0].serial) {
            (
                self.waiting_for(SurveyPhaseView::Naming),
                SurveyStepView::Run(self.client.name_call(self.pending[0].serial)),
            )
        } else {
            self.failed(serial_error())
        }
    }

    /// The emulator in front is known.
    pub open spec fn known(self, avd: Option<Seq<char>>, boot_completed: bool) -> SurveyMove {
        EmulatorSurveyView {
            pending: self.pending.drop_first(),
            observed: self.observed.push(
                AndroidDeviceSnapshotView { avd, boot_completed, ..self.pending[0] },
            ),
            ..self
        }.to_front()
    }

    /// Only an emulator that is connected is asked whether Android has booted.
    pub open spec fn named(self, avd: Option<Seq<char>>) -> SurveyMove {
        if self.pending[0].state == AndroidDeviceStateView::Device {
            if is_proper(self.pending[0].serial) {
                (
                    self.waiting_for(SurveyPhaseView::Booting { avd }),
                    SurveyStepView::Run(self.client.boot_call(self.pending[0].serial)),
                )
            } else {
                self.failed(serial_error())
            }
        } else {
            self.known(avd, false)
        }
    }

    /// The operation that the survey is waiting for.
    pub open spec fn operation(self) -> Seq<char> {
        match self.phase {
            SurveyPhaseView::Naming => "get-avd-name"@,
            SurveyPhaseView::Booting { avd } => "check-boot-readiness"@,
            _ => "list-devices"@,
        }
    }

    /// What follows a reply. A reply that does not belong to what the survey is waiting for changes
    /// nothing.
    pub open spec fn next(self, event: SurveyEventView) -> SurveyMove {
        match (self.phase, event) {
            (SurveyPhaseView::Over, _) => (self, SurveyStepView::Idle),
            (_, SurveyEventView::Stopped(error)) => self.failed(error),
            (_, SurveyEventView::Failed(error)) => self.failed(
                error.with("operation"@, self.operation()),
            ),
            (SurveyPhaseView::Listing, SurveyEventView::Ran(output)) => match devices_reported(
                output,
            ) {
                Err(error) => self.failed(error),
                Ok(devices) => EmulatorSurveyView {
                    pending: devices,
                    observed: Seq::empty(),
                    ..self
                }.to_front(),
            },
            (_, SurveyEventView::Ran(output)) if self.pending.len() == 0 => (
                self,
                SurveyStepView::Idle,
            ),
            (SurveyPhaseView::Naming, SurveyEventView::Ran(output)) => match avd_reported(output) {
                Err(error) => self.failed(error),
                Ok(avd) => self.named(avd),
            },
            (SurveyPhaseView::Booting { avd }, SurveyEventView::Ran(output)) => match boot_reported(
                output,
            ) {
                Err(error) => self.failed(error),
                Ok(booted) => self.known(avd, booted),
            },
        }
    }
}

impl EmulatorSurvey {
    fn waiting_for(self, phase: SurveyPhase) -> (r: EmulatorSurvey)
        ensures
            r@ == self@.waiting_for(phase@),
    {
        EmulatorSurvey {
            client: self.client,
            pending: self.pending,
            observed: self.observed,
            phase,
        }
    }

    fn failed(self, error: WorkstateError) -> (r: (EmulatorSurvey, SurveyStep))
        ensures
            (r.0@, r.1@) == self@.failed(error@),
    {
        (self.waiting_for(SurveyPhase::Over), SurveyStep::Fail(error))
    }

    fn to_front(self) -> (r: (EmulatorSurvey, SurveyStep))
        ensures
            (r.0@, r.1@) == self@.to_front(),
    {
        if self.pending.len() == 0 {
            let observed = self.observed.replicate();
            return (self.waiting_for(SurveyPhase::Over), SurveyStep::Finish(observed));
        }
        assert(self.pending.deep_view()[0] == self.pending@[0]@);
        match self.client.avd_name(self.pending[0].serial.as_str()) {
            Err(error) => self.failed(error),
            Ok(request) => (self.waiting_for(SurveyPhase::Naming), SurveyStep::Run(request)),
        }
    }

    fn known(self, avd: Option<String>, boot_completed: bool) -> (r: (EmulatorSurvey, SurveyStep))
        requires
            self.pending@.len() > 0,
        ensures
            (r.0@, r.1@) == self@.known(avd.deep_view(), boot_completed),
    {
        assert(self.pending.deep_view()[0] == self.pending@[0]@);
        let device = AndroidDeviceSnapshot {
            serial: self.pending[0].serial.clone(),
            avd,
            state: self.pending[0].state.replicate(),
            boot_completed,
        };
        let pending = rest(&self.pending);
        let mut observed = self.observed;
        append(&mut observed, device);
        EmulatorSurvey { client: self.client, pending, observed, phase: self.phase }.to_front()
    }

    fn named(self, avd: Option<String>) -> (r: (EmulatorSurvey, SurveyStep))
        requires
            self.pending@.len() > 0,
        ensures
            (r.0@, r.1@) == self@.named(avd.deep_view()),
    {
        assert(self.pending.deep_view()[0] == self.pending@[0]@);
        if self.pending[0].state.is_connected() {
            match self.client.boot_completed(self.pending[0].serial.as_str()) {
                Err(error) => self.failed(error),
                Ok(request) => (
                    self.waiting_for(SurveyPhase::Booting { avd }),
                    SurveyStep::Run(request),
                ),
            }
        } else {
            self.known(avd, false)
        }
    }

    /// What follows a reply. A reply that does not belong to what the survey is waiting for changes
    /// nothing.
    pub fn advance(self, event: SurveyEvent) -> (r: (EmulatorSurvey, SurveyStep))
        ensures
            (r.0@, r.1@) == self@.next(event@),
    {
        let phase = self.phase.replicate();
        match (phase, event) {
            (SurveyPhase::Over, _) => (self, SurveyStep::Idle),
            (_, SurveyEvent::Stopped(error)) => self.failed(error),
            (SurveyPhase::Listing, SurveyEvent::Failed(error)) => self.failed(
                error.with_context("operation", "list-devices"),
            ),
            (SurveyPhase::Naming, SurveyEvent::Failed(error)) => self.failed(
                error.with_context("operation", "get-avd-name"),
            ),
            (SurveyPhase::Booting { avd: _ }, SurveyEvent::Failed(error)) => self.failed(
                error.with_context("operation", "check-boot-readiness"),
            ),
            (SurveyPhase::Listing, SurveyEvent::Ran(output)) => match read_devices(&output) {
                Err(error) => self.failed(error),
                Ok(devices) => EmulatorSurvey {
                    client: self.client,
                    pending: devices,
                    observed: empty_list(),
                    phase: self.phase,
                }.to_front(),
            },
            (SurveyPhase::Naming, SurveyEvent::Ran(output)) => {
                if self.pending.len() == 0 {
                    return (self, SurveyStep::Idle);
                }
                match read_avd_name(&output) {
                    Err(error) => self.failed(error),
                    Ok(avd) => self.named(avd),
                }
            },
            (SurveyPhase::Booting { avd }, SurveyEvent::Ran(output)) => {
                if self.pending.len() == 0 {
                    return (self, SurveyStep::Idle);
                }
                match read_boot_property(&output) {
                    Err(error) => self.failed(error),
                    Ok(booted) => self.known(avd, booted),
                }
            },
        }
    }
}

/// An emulator that is not connected is never reported as booted by a reply about its name.
pub proof fn law_unconnected_emulator_is_not_booted(
    survey: EmulatorSurveyView,
    output: ProcessOutputView,
)
    requires
        survey.phase is Naming,
        survey.pending.len() == 1,
        survey.pending[0].state != AndroidDeviceStateView::Device,
    ensures
        survey.next(SurveyEventView::Ran(output)).1 matches SurveyStepView::Finish(devices)
            ==> devices.last().boot_completed == false,
{
}

/// Once the survey is over, no reply brings anything about.
pub proof fn law_over_is_over(survey: EmulatorSurveyView, event: SurveyEventView)
    requires
        survey.phase is Over,
    ensures
        survey.next(event) == (survey, SurveyStepView::Idle),
{
}

/// Every listed emulator is asked for its name and, where it is connected, whether it has booted; what is
/// told of it is what it answered, and the next one follows.
pub proof fn law_listed_emulator_is_asked(
    survey: EmulatorSurveyView,
    device: AndroidDeviceSnapshotView,
    named: ProcessOutputView,
    booted: ProcessOutputView,
    avd: Option<Seq<char>>,
)
    requires
        survey.phase is Naming,
        survey.pending == seq![device],
        device.serial.len() > 0,
        !has_control(device.serial),
        named.status == Some(0i32),
        booted.status == Some(0i32),
        avd_told(named.stdout) == Ok::<Option<Seq<char>>, WorkstateErrorView>(avd),
    ensures
        ({
            let asked = survey.to_front();
            let answered = survey.next(SurveyEventView::Ran(named));
            let known = answered.0.next(SurveyEventView::Ran(booted));
            &&& asked.1 matches SurveyStepView::Run(request) && request.program
                == survey.client.executable && request.arguments == seq![
                "-s"@,
                device.serial,
                "emu"@,
                "avd"@,
                "name"@,
            ]
            &&& device.state == AndroidDeviceStateView::Device ==> (
            answered.1 matches SurveyStepView::Run(request) && request.program
                == survey.client.executable && request.arguments == seq![
                "-s"@,
                device.serial,
                "shell"@,
                "getprop"@,
                "sys.boot_completed"@,
            ]) && known.1 == SurveyStepView::Finish(
                survey.observed.push(
                    (AndroidDeviceSnapshotView {
                        serial: device.serial,
                        avd,
                        state: device.state,
                        boot_completed: boot_told(booted.stdout),
                    }),
                ),
            )
            &&& device.state != AndroidDeviceStateView::Device ==> answered.1
                == SurveyStepView::Finish(
                survey.observed.push(
                    (AndroidDeviceSnapshotView {
                        serial: device.serial,
                        avd,
                        state: device.state,
                        boot_completed: false,
                    }),
                ),
            )
        }),
{
    assert(seq![device].drop_first() =~= Seq::<AndroidDeviceSnapshotView>::empty());
}

/// A command that fails is a failure, unless the emulator only cannot be reached for now.
pub proof fn law_failed_command_is_told(output: ProcessOutputView)
    requires
        output.status != Some(0i32),
    ensures
        devices_reported(output) is Err,
        !is_transient(output) ==> avd_reported(output) is Err && boot_reported(output) is Err,
        is_transient(output) ==> avd_reported(output) == Ok::<
            Option<Seq<char>>,
            WorkstateErrorView,
        >(None) && boot_reported(output) == Ok::<bool, WorkstateErrorView>(false),
{
}

} // verus!
