//! Waiting for an emulator, for its window, and for it to be gone.
use vstd::prelude::*;
use vstd::string::*;
use crate::error::{error_of, seen, ErrorCategory, WorkstateError, WorkstateErrorView};
use crate::integrations::android::errors::{android_error, AndroidError, AndroidErrorView};
use crate::integrations::android::models::{
    is_android_emulator_application, serials_of, shows_emulator, state_label, state_name,
};
use crate::ports::{
    AndroidDeviceSnapshot, AndroidDeviceSnapshotView, AndroidDeviceStateView, DesktopSnapshot,
    DesktopSnapshotView, DesktopWindowSnapshot, DesktopWindowSnapshotView,
};
use crate::text::{contains_text, join2, join3, same_text, text_contains};
use crate::time::{span_of_millis, TimeSpan};
use crate::values::{
    append, empty_list, lemma_filter_ends, lemma_filter_step, option_is_text, Replicate,
};

verus! {

/// How often is looked where nothing else is said.
pub const DEFAULT_POLL_MILLISECONDS: u64 = 100;

/// How often is looked: never without a pause.
pub open spec fn pause_of(value: TimeSpan) -> TimeSpan {
    if value.nanoseconds == 0 {
        span_of_millis(100)
    } else {
        value
    }
}

/// How often is looked: never without a pause.
pub fn normalized_poll_interval(value: TimeSpan) -> (r: TimeSpan)
    ensures
        r == pause_of(value),
{
    if value.is_zero() {
        TimeSpan::from_millis(DEFAULT_POLL_MILLISECONDS)
    } else {
        value
    }
}

pub open spec fn timeout_refused(operation: Seq<char>) -> WorkstateErrorView {
    error_of(ErrorCategory::Runtime, operation + " timeout must be greater than zero"@)
}

fn validate_timeout(timeout: TimeSpan, operation: &str) -> (r: Result<(), WorkstateError>)
    ensures
        seen(r) == (if timeout.nanoseconds == 0 {
            Err::<(), WorkstateErrorView>(timeout_refused(operation@))
        } else {
            Ok(())
        }),
{
    if timeout.is_zero() {
        return Err(
            WorkstateError::new(
                ErrorCategory::Runtime,
                join2(operation, " timeout must be greater than zero").as_str(),
            ),
        );
    }
    Ok(())
}

/// The error of a wait that was cancelled.
pub fn cancellation_error(operation: &str) -> (r: WorkstateError)
    ensures
        r@ == error_of(
            ErrorCategory::Runtime,
            "operation was cancelled during "@ + operation@,
        ).with("cancelled"@, "true"@),
{
    WorkstateError::new(
        ErrorCategory::Runtime,
        join2("operation was cancelled during ", operation).as_str(),
    ).with_context("cancelled", "true")
}

/// A pause that does not outlast the time that is left.
pub open spec fn pause_within(left: TimeSpan, interval: TimeSpan) -> TimeSpan {
    if left.nanoseconds <= interval.nanoseconds {
        left
    } else {
        interval
    }
}

// ---------------------------------------------------------------------------------------------
// The device
// ---------------------------------------------------------------------------------------------
/// The devices that run a virtual device.
pub open spec fn devices_running(devices: Seq<AndroidDeviceSnapshotView>, avd: Seq<char>) -> Seq<
    AndroidDeviceSnapshotView,
> {
    devices.filter(|device: AndroidDeviceSnapshotView| device.avd == Some(avd))
}

/// The devices that run a virtual device.
pub fn matching_devices(devices: &Vec<AndroidDeviceSnapshot>, avd: &str) -> (r: Vec<
    AndroidDeviceSnapshot,
>)
    ensures
        r.deep_view() == devices_running(devices.deep_view(), avd@),
{
    let ghost all = devices.deep_view();
    let ghost name = avd@;
    let ghost keep = |device: AndroidDeviceSnapshotView| device.avd == Some(name);
    let mut running: Vec<AndroidDeviceSnapshot> = empty_list();
    let mut i: usize = 0;
    proof {
        lemma_filter_ends(all, keep);
    }
    while i < devices.len()
        invariant
            i <= devices@.len(),
            all == devices.deep_view(),
            name == avd@,
            keep == (|device: AndroidDeviceSnapshotView| device.avd == Some(name)),
            running.deep_view() == all.take(i as int).filter(keep),
        decreases devices@.len() - i,
    {
        proof {
            lemma_filter_step(all, i as int, keep);
        }
        assert(all[i as int] == devices@[i as int]@);
        if option_is_text(&devices[i].avd, avd) {
            append(&mut running, devices[i].replicate());
        }
        i = i + 1;
    }
    running
}

/// The error of a virtual device that runs more than once.
pub open spec fn ambiguous_avd(avd: Seq<char>, devices: Seq<AndroidDeviceSnapshotView>) -> WorkstateErrorView {
    android_error(AndroidErrorView::AmbiguousAvd { avd, serials: serials_of(devices) })
}

/// The error of a virtual device that runs more than once.
pub fn ambiguous_device(avd: &str, devices: &Vec<AndroidDeviceSnapshot>) -> (r: WorkstateError)
    ensures
        r@ == ambiguous_avd(avd@, devices.deep_view()),
{
    let ghost all = devices.deep_view();
    let mut serials: Vec<String> = empty_list();
    let mut i: usize = 0;
    assert(serials_of(all.take(0)) =~= Seq::<Seq<char>>::empty());
    while i < devices.len()
        invariant
            i <= devices@.len(),
            all == devices.deep_view(),
            serials.deep_view() == serials_of(all.take(i as int)),
        decreases devices@.len() - i,
    {
        assert(all[i as int] == devices@[i as int]@);
        append(&mut serials, devices[i].serial.clone());
        assert(serials_of(all.take(i as int + 1)) =~= serials_of(all.take(i as int)).push(
            all[i as int].serial,
        ));
        i = i + 1;
    }
    assert(all.take(i as int) =~= all);
    AndroidError::AmbiguousAvd { avd: avd.to_owned(), serials }.into_workstate()
}

/// The one device that runs a virtual device, where there is one.
pub open spec fn device_running(devices: Seq<AndroidDeviceSnapshotView>, avd: Seq<char>) -> Result<
    Option<AndroidDeviceSnapshotView>,
    WorkstateErrorView,
> {
    let running = devices_running(devices, avd);
    if running.len() == 0 {
        Ok(None)
    } else if running.len() == 1 {
        Ok(Some(running[0]))
    } else {
        Err(ambiguous_avd(avd, running))
    }
}

/// The one device that runs a virtual device, where there is one.
pub fn matching_device(devices: &Vec<AndroidDeviceSnapshot>, avd: &str) -> (r: Result<
    Option<AndroidDeviceSnapshot>,
    WorkstateError,
>)
    ensures
        seen(r) == device_running(devices.deep_view(), avd@),
{
    let running = matching_devices(devices, avd);
    if running.len() == 0 {
        return Ok(None);
    }
    assert(running.deep_view()[0] == running@[0]@);
    if running.len() == 1 {
        return Ok(Some(running[0].replicate()));
    }
    Err(ambiguous_device(avd, &running))
}

/// A wait for a virtual device, and what was last seen of it.
#[derive(Debug)]
pub struct DeviceWait {
    pub avd: String,
    pub poll_interval: TimeSpan,
    pub last_serial: Option<String>,
    pub last_state: String,
    pub last_boot_completed: bool,
}

/// What a `DeviceWait` stands for.
#[verifier::ext_equal]
pub struct DeviceWaitView {
    pub avd: Seq<char>,
    pub poll_interval: TimeSpan,
    pub last_serial: Option<Seq<char>>,
    pub last_state: Seq<char>,
    pub last_boot_completed: bool,
}

impl View for DeviceWait {
    type V = DeviceWaitView;

    open spec fn view(&self) -> DeviceWaitView {
        DeviceWaitView {
            avd: self.avd.deep_view(),
            poll_interval: self.poll_interval.deep_view(),
            last_serial: self.last_serial.deep_view(),
            last_state: self.last_state.deep_view(),
            last_boot_completed: self.last_boot_completed.deep_view(),
        }
    }
}

impl DeepView for DeviceWait {
    type V = DeviceWaitView;

    open spec fn deep_view(&self) -> DeviceWaitView {
        self.view()
    }
}

impl Replicate for DeviceWait {
    fn replicate(&self) -> (r: Self) {
        DeviceWait {
            avd: self.avd.replicate(),
            poll_interval: self.poll_interval.replicate(),
            last_serial: self.last_serial.replicate(),
            last_state: self.last_state.replicate(),
            last_boot_completed: self.last_boot_completed.replicate(),
        }
    }
}

/// What follows a look at the devices.
#[derive(Debug)]
pub enum DeviceStep {
    Ready(AndroidDeviceSnapshot),
    Sleep(TimeSpan),
    Fail(WorkstateError),
}

/// What a `DeviceStep` stands for.
#[verifier::ext_equal]
pub enum DeviceStepView {
    Ready(AndroidDeviceSnapshotView),
    Sleep(TimeSpan),
    Fail(WorkstateErrorView),
}

impl View for DeviceStep {
    type V = DeviceStepView;

    open spec fn view(&self) -> DeviceStepView {
        match self {
            DeviceStep::Ready(value) => DeviceStepView::Ready(value.deep_view()),
            DeviceStep::Sleep(value) => DeviceStepView::Sleep(value.deep_view()),
            DeviceStep::Fail(value) => DeviceStepView::Fail(value.deep_view()),
        }
    }
}

impl DeepView for DeviceStep {
    type V = DeviceStepView;

    open spec fn deep_view(&self) -> DeviceStepView {
        self.view()
    }
}

/// A wait that has seen nothing yet.
pub open spec fn waiting_for_device(avd: Seq<char>, poll_interval: TimeSpan) -> DeviceWaitView {
    DeviceWaitView {
        avd,
        poll_interval: pause_of(poll_interval),
        last_serial: None,
        last_state: "missing"@,
        last_boot_completed: false,
    }
}

/// Begins to wait for a virtual device.
pub fn wait_for_device(avd: &str, timeout: TimeSpan, poll_interval: TimeSpan) -> (r: Result<
    DeviceWait,
    WorkstateError,
>)
    ensures
        seen(r) == (if timeout.nanoseconds == 0 {
            Err::<DeviceWaitView, WorkstateErrorView>(
                timeout_refused("Android device readiness"@),
            )
        } else {
            Ok(waiting_for_device(avd@, poll_interval))
        }),
{
    match validate_timeout(timeout, "Android device readiness") {
        Err(error) => Err(error),
        Ok(_) => Ok(
            DeviceWait {
                avd: avd.to_owned(),
                poll_interval: normalized_poll_interval(poll_interval),
                last_serial: None,
                last_state: "missing".to_owned(),
                last_boot_completed: false,
            },
        ),
    }
}

impl DeviceWaitView {
    /// The wait after a device was seen.
    pub open spec fn having_seen(self, device: AndroidDeviceSnapshotView) -> DeviceWaitView {
        DeviceWaitView {
            last_serial: Some(device.serial),
            last_state: state_name(device.state),
            last_boot_completed: device.boot_completed,
            ..self
        }
    }

    /// The wait goes on while there is time.
    pub open spec fn going_on(self, left: TimeSpan) -> (DeviceWaitView, DeviceStepView) {
        if left.nanoseconds == 0 {
            (
                self,
                DeviceStepView::Fail(
                    android_error(
                        AndroidErrorView::DeviceTimeout {
                            avd: self.avd,
                            serial: self.last_serial,
                            last_state: self.last_state,
                            boot_completed: self.last_boot_completed,
                        },
                    ),
                ),
            )
        } else {
            (self, DeviceStepView::Sleep(pause_within(left, self.poll_interval)))
        }
    }

    /// What follows a look at the devices, with the time that is left.
    pub open spec fn looked(self, devices: Seq<AndroidDeviceSnapshotView>, left: TimeSpan) -> (
        DeviceWaitView,
        DeviceStepView,
    ) {
        match device_running(devices, self.avd) {
            Err(error) => (self, DeviceStepView::Fail(error)),
            Ok(None) => self.going_on(left),
            Ok(Some(device)) => if device.ready() {
                (self.having_seen(device), DeviceStepView::Ready(device))
            } else {
                self.having_seen(device).going_on(left)
            },
        }
    }
}

impl DeviceWait {
    fn going_on(self, left: TimeSpan) -> (r: (DeviceWait, DeviceStep))
        ensures
            (r.0@, r.1@) == self@.going_on(left),
    {
        if left.is_zero() {
            let error = AndroidError::DeviceTimeout {
                avd: self.avd.clone(),
                serial: self.last_serial.replicate(),
                last_state: self.last_state.clone(),
                boot_completed: self.last_boot_completed,
            }.into_workstate();
            (self, DeviceStep::Fail(error))
        } else {
            let pause = left.shorter(self.poll_interval);
            (self, DeviceStep::Sleep(pause))
        }
    }

    /// What follows a look at the devices, with the time that is left.
    pub fn observed(self, devices: &Vec<AndroidDeviceSnapshot>, left: TimeSpan) -> (r: (
        DeviceWait,
        DeviceStep,
    ))
        ensures
            (r.0@, r.1@) == self@.looked(devices.deep_view(), left),
    {
        match matching_device(devices, self.avd.as_str()) {
            Err(error) => (self, DeviceStep::Fail(error)),
            Ok(None) => self.going_on(left),
            Ok(Some(device)) => {
                let wait = DeviceWait {
                    avd: self.avd,
                    poll_interval: self.poll_interval,
                    last_serial: Some(device.serial.clone()),
                    last_state: state_label(&device.state),
                    last_boot_completed: device.boot_completed,
                };
                if device.is_ready() {
                    (wait, DeviceStep::Ready(device))
                } else {
                    wait.going_on(left)
                }
            },
        }
    }
}

// ---------------------------------------------------------------------------------------------
// The window
// ---------------------------------------------------------------------------------------------
/// A window that shows the emulator with a serial or a name.
pub open spec fn shows_runtime(
    window: DesktopWindowSnapshotView,
    avd: Seq<char>,
    serial: Seq<char>,
) -> bool {
    &&& window.application matches Some(application) && shows_emulator(application)
    &&& window.identity == serial || (window.title matches Some(title) && (contains_text(
        title,
        serial,
    ) || contains_text(title, avd)))
}

fn window_shows_runtime(window: &DesktopWindowSnapshot, avd: &str, serial: &str) -> (r: bool)
    ensures
        r == shows_runtime(window@, avd@, serial@),
{
    let emulator = match &window.application {
        Some(application) => is_android_emulator_application(application.as_str()),
        None => false,
    };
    let titled = match &window.title {
        Some(title) => text_contains(title.as_str(), serial) || text_contains(
            title.as_str(),
            avd,
        ),
        None => false,
    };
    emulator && (same_text(window.identity.as_str(), serial) || titled)
}

/// The windows that show an emulator.
pub open spec fn windows_showing(
    windows: Seq<DesktopWindowSnapshotView>,
    avd: Seq<char>,
    serial: Seq<char>,
) -> Seq<DesktopWindowSnapshotView> {
    windows.filter(|window: DesktopWindowSnapshotView| shows_runtime(window, avd, serial))
}

/// The one window that shows an emulator, where there is one.
pub open spec fn window_showing(
    snapshot: DesktopSnapshotView,
    avd: Seq<char>,
    serial: Seq<char>,
) -> Result<Option<DesktopWindowSnapshotView>, WorkstateErrorView> {
    let showing = windows_showing(snapshot.windows, avd, serial);
    if showing.len() == 0 {
        Ok(None)
    } else if showing.len() == 1 {
        Ok(Some(showing[0]))
    } else {
        Err(
            android_error(
                AndroidErrorView::AmbiguousWindow {
                    avd,
                    serial,
                    matches: showing.len() as usize,
                },
            ),
        )
    }
}

/// The one window that shows an emulator, where there is one.
pub fn find_matching_window(snapshot: &DesktopSnapshot, avd: &str, serial: &str) -> (r: Result<
    Option<DesktopWindowSnapshot>,
    WorkstateError,
>)
    ensures
        seen(r) == window_showing(snapshot@, avd@, serial@),
{
    let ghost all = snapshot.windows.deep_view();
    let ghost name = avd@;
    let ghost number = serial@;
    let ghost keep = |window: DesktopWindowSnapshotView| shows_runtime(window, name, number);
    let mut showing: Vec<DesktopWindowSnapshot> = empty_list();
    let mut i: usize = 0;
    proof {
        lemma_filter_ends(all, keep);
    }
    while i < snapshot.windows.len()
        invariant
            i <= snapshot.windows@.len(),
            all == snapshot.windows.deep_view(),
            name == avd@,
            number == serial@,
            keep == (|window: DesktopWindowSnapshotView| shows_runtime(window, name, number)),
            showing.deep_view() == all.take(i as int).filter(keep),
        decreases snapshot.windows@.len() - i,
    {
        proof {
            lemma_filter_step(all, i as int, keep);
        }
        assert(all[i as int] == snapshot.windows@[i as int]@);
        if window_shows_runtime(&snapshot.windows[i], avd, serial) {
            append(&mut showing, snapshot.windows[i].replicate());
        }
        i = i + 1;
    }
    assert(showing.deep_view() == windows_showing(snapshot@.windows, avd@, serial@));
    if showing.len() == 0 {
        return Ok(None);
    }
    assert(showing.deep_view()[0] == showing@[0]@);
    if showing.len() == 1 {
        return Ok(Some(showing[0].replicate()));
    }
    Err(
        AndroidError::AmbiguousWindow {
            avd: avd.to_owned(),
            serial: serial.to_owned(),
            matches: showing.len(),
        }.into_workstate(),
    )
}

/// A wait for the window of an emulator.
#[derive(Debug)]
pub struct WindowWait {
    pub avd: String,
    pub serial: String,
    pub poll_interval: TimeSpan,
}

/// What a `WindowWait` stands for.
#[verifier::ext_equal]
pub struct WindowWaitView {
    pub avd: Seq<char>,
    pub serial: Seq<char>,
    pub poll_interval: TimeSpan,
}

impl View for WindowWait {
    type V = WindowWaitView;

    open spec fn view(&self) -> WindowWaitView {
        WindowWaitView {
            avd: self.avd.deep_view(),
            serial: self.serial.deep_view(),
            poll_interval: self.poll_interval.deep_view(),
        }
    }
}

impl DeepView for WindowWait {
    type V = WindowWaitView;

    open spec fn deep_view(&self) -> WindowWaitView {
        self.view()
    }
}

impl Replicate for WindowWait {
    fn replicate(&self) -> (r: Self) {
        WindowWait {
            avd: self.avd.replicate(),
            serial: self.serial.replicate(),
            poll_interval: self.poll_interval.replicate(),
        }
    }
}

/// What follows a look at the desktop.
#[derive(Debug)]
pub enum WindowStep {
    Ready(DesktopWindowSnapshot),
    Sleep(TimeSpan),
    Fail(WorkstateError),
}

/// What a `WindowStep` stands for.
#[verifier::ext_equal]
pub enum WindowStepView {
    Ready(DesktopWindowSnapshotView),
    Sleep(TimeSpan),
    Fail(WorkstateErrorView),
}

impl View for WindowStep {
    type V = WindowStepView;

    open spec fn view(&self) -> WindowStepView {
        match self {
            WindowStep::Ready(value) => WindowStepView::Ready(value.deep_view()),
            WindowStep::Sleep(value) => WindowStepView::Sleep(value.deep_view()),
            WindowStep::Fail(value) => WindowStepView::Fail(value.deep_view()),
        }
    }
}

impl DeepView for WindowStep {
    type V = WindowStepView;

    open spec fn deep_view(&self) -> WindowStepView {
        self.view()
    }
}

/// Begins to wait for the window of an emulator.
pub fn wait_for_window(avd: &str, serial: &str, timeout: TimeSpan, poll_interval: TimeSpan) -> (r:
    Result<WindowWait, WorkstateError>)
    ensures
        seen(r) == (if timeout.nanoseconds == 0 {
            Err::<WindowWaitView, WorkstateErrorView>(
                timeout_refused("Android Emulator window readiness"@),
            )
        } else {
            Ok(
                WindowWaitView {
                    avd: avd@,
                    serial: serial@,
                    poll_interval: pause_of(poll_interval),
                },
            )
        }),
{
    match validate_timeout(timeout, "Android Emulator window readiness") {
        Err(error) => Err(error),
        Ok(_) => Ok(
            WindowWait {
                avd: avd.to_owned(),
                serial: serial.to_owned(),
                poll_interval: normalized_poll_interval(poll_interval),
            },
        ),
    }
}

impl WindowWaitView {
    /// What follows a look at the desktop, with the time that is left.
    pub open spec fn looked(self, snapshot: DesktopSnapshotView, left: TimeSpan) -> WindowStepView {
        match window_showing(snapshot, self.avd, self.serial) {
            Err(error) => WindowStepView::Fail(error),
            Ok(Some(window)) => WindowStepView::Ready(window),
            Ok(None) => if left.nanoseconds == 0 {
                WindowStepView::Fail(
                    android_error(
                        AndroidErrorView::WindowTimeout { avd: self.avd, serial: self.serial },
                    ),
                )
            } else {
                WindowStepView::Sleep(pause_within(left, self.poll_interval))
            },
        }
    }
}

impl WindowWait {
    /// What follows a look at the desktop, with the time that is left.
    pub fn observed(&self, snapshot: &DesktopSnapshot, left: TimeSpan) -> (r: WindowStep)
        ensures
            r@ == self@.looked(snapshot@, left),
    {
        match find_matching_window(snapshot, self.avd.as_str(), self.serial.as_str()) {
            Err(error) => WindowStep::Fail(error),
            Ok(Some(window)) => WindowStep::Ready(window),
            Ok(None) => if left.is_zero() {
                WindowStep::Fail(
                    AndroidError::WindowTimeout {
                        avd: self.avd.clone(),
                        serial: self.serial.clone(),
                    }.into_workstate(),
                )
            } else {
                WindowStep::Sleep(left.shorter(self.poll_interval))
            },
        }
    }
}

// ---------------------------------------------------------------------------------------------
// The end of a device
// ---------------------------------------------------------------------------------------------
/// One of the devices has the serial.
pub open spec fn has_serial(devices: Seq<AndroidDeviceSnapshotView>, serial: Seq<char>) -> bool {
    exists|i: int| 0 <= i < devices.len() && (#[trigger] devices[i]).serial == serial
}

fn serial_is_there(devices: &Vec<AndroidDeviceSnapshot>, serial: &str) -> (r: bool)
    ensures
        r == has_serial(devices.deep_view(), serial@),
{
    let ghost all = devices.deep_view();
    let mut i: usize = 0;
    while i < devices.len()
        invariant
            i <= devices@.len(),
            all == devices.deep_view(),
            forall|k: int| 0 <= k < i ==> (#[trigger] all[k]).serial != serial@,
        decreases devices@.len() - i,
    {
        assert(all[i as int] == devices@[i as int]@);
        if same_text(devices[i].serial.as_str(), serial) {
            assert(all[i as int].serial == serial@);
            return true;
        }
        i = i + 1;
    }
    false
}

/// A wait for a device to be gone.
#[derive(Debug)]
pub struct AbsenceWait {
    pub serial: String,
    pub poll_interval: TimeSpan,
}

/// What a `AbsenceWait` stands for.
#[verifier::ext_equal]
pub struct AbsenceWaitView {
    pub serial: Seq<char>,
    pub poll_interval: TimeSpan,
}

impl View for AbsenceWait {
    type V = AbsenceWaitView;

    open spec fn view(&self) -> AbsenceWaitView {
        AbsenceWaitView {
            serial: self.serial.deep_view(),
            poll_interval: self.poll_interval.deep_view(),
        }
    }
}

impl DeepView for AbsenceWait {
    type V = AbsenceWaitView;

    open spec fn deep_view(&self) -> AbsenceWaitView {
        self.view()
    }
}

impl Replicate for AbsenceWait {
    fn replicate(&self) -> (r: Self) {
        AbsenceWait {
            serial: self.serial.replicate(),
            poll_interval: self.poll_interval.replicate(),
        }
    }
}

/// What follows a look at the devices.
#[derive(Debug)]
pub enum AbsenceStep {
    Gone,
    Sleep(TimeSpan),
    Fail(WorkstateError),
}

/// What a `AbsenceStep` stands for.
#[verifier::ext_equal]
pub enum AbsenceStepView {
    Gone,
    Sleep(TimeSpan),
    Fail(WorkstateErrorView),
}

impl View for AbsenceStep {
    type V = AbsenceStepView;

    open spec fn view(&self) -> AbsenceStepView {
        match self {
            AbsenceStep::Gone => AbsenceStepView::Gone,
            AbsenceStep::Sleep(value) => AbsenceStepView::Sleep(value.deep_view()),
            AbsenceStep::Fail(value) => AbsenceStepView::Fail(value.deep_view()),
        }
    }
}

impl DeepView for AbsenceStep {
    type V = AbsenceStepView;

    open spec fn deep_view(&self) -> AbsenceStepView {
        self.view()
    }
}

/// Begins to wait for a device to be gone.
pub fn wait_for_device_absence(serial: &str, timeout: TimeSpan, poll_interval: TimeSpan) -> (r:
    Result<AbsenceWait, WorkstateError>)
    ensures
        seen(r) == (if timeout.nanoseconds == 0 {
            Err::<AbsenceWaitView, WorkstateErrorView>(
                timeout_refused("Android Emulator cleanup"@),
            )
        } else {
            Ok(AbsenceWaitView { serial: serial@, poll_interval: pause_of(poll_interval) })
        }),
{
    match validate_timeout(timeout, "Android Emulator cleanup") {
        Err(error) => Err(error),
        Ok(_) => Ok(
            AbsenceWait {
                serial: serial.to_owned(),
                poll_interval: normalized_poll_interval(poll_interval),
            },
        ),
    }
}

impl AbsenceWaitView {
    /// What follows a look at the devices, with the time that is left.
    pub open spec fn looked(self, devices: Seq<AndroidDeviceSnapshotView>, left: TimeSpan) -> AbsenceStepView {
        if !has_serial(devices, self.serial) {
            AbsenceStepView::Gone
        } else if left.nanoseconds == 0 {
            AbsenceStepView::Fail(
                error_of(
                    ErrorCategory::Runtime,
                    "Android Emulator '"@ + self.serial + "' did not stop before the timeout"@,
                ).with("serial"@, self.serial),
            )
        } else {
            AbsenceStepView::Sleep(pause_within(left, self.poll_interval))
        }
    }
}

impl AbsenceWait {
    /// What follows a look at the devices, with the time that is left.
    pub fn observed(&self, devices: &Vec<AndroidDeviceSnapshot>, left: TimeSpan) -> (r: AbsenceStep)
        ensures
            r@ == self@.looked(devices.deep_view(), left),
    {
        if !serial_is_there(devices, self.serial.as_str()) {
            return AbsenceStep::Gone;
        }
        if left.is_zero() {
            return AbsenceStep::Fail(
                WorkstateError::new(
                    ErrorCategory::Runtime,
                    join3(
                        "Android Emulator '",
                        self.serial.as_str(),
                        "' did not stop before the timeout",
                    ).as_str(),
                ).with_context("serial", self.serial.as_str()),
            );
        }
        AbsenceStep::Sleep(left.shorter(self.poll_interval))
    }
}

// ---------------------------------------------------------------------------------------------
// Laws
// ---------------------------------------------------------------------------------------------
/// No wait sleeps past the time that is left, and none goes on without a pause.
pub proof fn law_waits_stay_within_their_time(
    wait: DeviceWaitView,
    devices: Seq<AndroidDeviceSnapshotView>,
    left: TimeSpan,
)
    requires
        wait.poll_interval.nanoseconds > 0,
    ensures
        wait.looked(devices, left).1 matches DeviceStepView::Sleep(pause) ==> 0
            < pause.nanoseconds <= left.nanoseconds,
{
}

/// A wait begins with a pause that is not empty, whatever was asked for.
pub proof fn law_pause_is_never_empty(value: TimeSpan)
    ensures
        pause_of(value).nanoseconds > 0,
{
}

/// A device is reported as ready only where it runs the virtual device that is waited for, is
/// connected, and has booted.
pub proof fn law_ready_device_is_the_right_one(
    wait: DeviceWaitView,
    devices: Seq<AndroidDeviceSnapshotView>,
    left: TimeSpan,
    device: AndroidDeviceSnapshotView,
)
    requires
        wait.looked(devices, left).1 == DeviceStepView::Ready(device),
    ensures
        device.avd == Some(wait.avd),
        device.ready(),
        devices.contains(device),
{
    let avd = wait.avd;
    let keep = |candidate: AndroidDeviceSnapshotView| candidate.avd == Some(avd);
    let running = devices.filter(keep);
    devices.lemma_filter_pred(keep, 0);
    assert(running.contains(running[0]));
    devices.lemma_filter_contains_rev(keep, running[0]);
}

/// The emulator of a virtual device is the one that tells its name: one that is connected and has booted
/// is ready, one that has not is waited for until the time is over, and two of the name are not told
/// apart.
pub proof fn law_emulator_is_awaited(
    wait: DeviceWaitView,
    device: AndroidDeviceSnapshotView,
    other: AndroidDeviceSnapshotView,
    left: TimeSpan,
)
    requires
        device.avd == Some(wait.avd),
    ensures
        device.state == AndroidDeviceStateView::Device && device.boot_completed ==> wait.looked(
            seq![device],
            left,
        ).1 == DeviceStepView::Ready(device),
        (device.state != AndroidDeviceStateView::Device || !device.boot_completed)
            && left.nanoseconds > 0 ==> wait.looked(seq![device], left).1 is Sleep,
        (device.state != AndroidDeviceStateView::Device || !device.boot_completed)
            && left.nanoseconds == 0 ==> wait.looked(seq![device], left).1 is Fail,
        other.avd == Some(wait.avd) ==> wait.looked(seq![device, other], left).1 is Fail,
        other.avd != Some(wait.avd) && left.nanoseconds > 0 ==> wait.looked(seq![other], left).1
            is Sleep,
        other.avd != Some(wait.avd) ==> wait.looked(seq![device, other], left) == wait.looked(
            seq![device],
            left,
        ),
        wait.looked(Seq::empty(), left).1 is Sleep <==> left.nanoseconds > 0,
{
    reveal_with_fuel(Seq::filter, 3);
    let empty = Seq::<AndroidDeviceSnapshotView>::empty();
    let one = seq![device];
    let two = seq![device, other];
    assert(one.drop_last() =~= empty && one.last() == device);
    assert(two.drop_last() =~= one && two.last() == other);
    assert(seq![other].drop_last() =~= empty && seq![other].last() == other);
    assert(devices_running(one, wait.avd) =~= one);
    if other.avd == Some(wait.avd) {
        assert(devices_running(two, wait.avd) =~= two);
    } else {
        assert(devices_running(two, wait.avd) =~= one);
        assert(devices_running(seq![other], wait.avd) =~= empty);
    }
    assert(devices_running(empty, wait.avd) =~= empty);
}

/// An emulator that was stopped is gone when no device bears its serial any more.
pub proof fn law_absence_is_awaited(
    wait: AbsenceWaitView,
    devices: Seq<AndroidDeviceSnapshotView>,
    left: TimeSpan,
    i: int,
)
    ensures
        wait.looked(devices, left) is Gone <==> forall|k: int|
            0 <= k < devices.len() ==> (#[trigger] devices[k]).serial != wait.serial,
        0 <= i < devices.len() && devices[i].serial == wait.serial && left.nanoseconds == 0
            ==> wait.looked(devices, left) is Fail,
        0 <= i < devices.len() && devices[i].serial == wait.serial && left.nanoseconds > 0
            ==> wait.looked(devices, left) is Sleep,
{
}

/// A window shows an emulator where its application is one and its title tells the serial or the virtual
/// device; such a window is awaited.
pub proof fn law_emulator_window_is_awaited(
    wait: WindowWaitView,
    window: DesktopWindowSnapshotView,
    snapshot: DesktopSnapshotView,
    left: TimeSpan,
    application: Seq<char>,
    title: Seq<char>,
)
    requires
        snapshot.windows == seq![window],
        window.application == Some(application),
        window.title == Some(title),
    ensures
        shows_emulator(application) && (contains_text(title, wait.serial) || contains_text(
            title,
            wait.avd,
        )) ==> wait.looked(snapshot, left) == WindowStepView::Ready(window),
        !shows_emulator(application) && left.nanoseconds > 0 ==> wait.looked(snapshot, left)
            is Sleep,
        !shows_emulator(application) && left.nanoseconds == 0 ==> wait.looked(snapshot, left)
            is Fail,
{
    reveal_with_fuel(Seq::filter, 2);
    let empty = Seq::<DesktopWindowSnapshotView>::empty();
    assert(seq![window].drop_last() =~= empty && seq![window].last() == window);
    let showing = windows_showing(seq![window], wait.avd, wait.serial);
    assert(shows_runtime(window, wait.avd, wait.serial) ==> showing =~= seq![window]);
    assert(!shows_runtime(window, wait.avd, wait.serial) ==> showing =~= empty);
}

} // verus!
