//! The action that opens an application.
use vstd::prelude::*;
use vstd::string::*;
use crate::domain::{
    ActionKind, ActionParametersView, ActionSpec, ActionSpecView, OwnershipStatus, ResourceKind,
    ResourceRecord, ResourceRecordView,
};
use crate::error::{error_of, seen, ErrorCategory, WorkstateError, WorkstateErrorView};
use crate::integrations::directories::{directory_resolved, resolve_directory, DirectoryReading};
use crate::planner::{
    observed_change, observed_correct, observed_unknown, registering, ActionHandlerRegistry,
    ActionObservation, ActionObservationView, ObservationStatus,
};
use crate::platform::detection::support::{set_of, CapabilityId, CapabilitySet};
use crate::platform::linux::applications::{ApplicationLaunchSpec, ApplicationLaunchSpecView};
use crate::ports::{DesktopSnapshot, DesktopSnapshotView, DesktopWindowSnapshotView};
use crate::text::{is_blank, join3};
use crate::time::{span_of_millis, TimeSpan};
use crate::values::{append, empty_list, option_is_text, Replicate};
use super::open::{
    application_windows, launch_request, matching_windows, open_begun, process_request,
    window_records, windows_recorded, ApplicationOpen, OpenMove, OpenStep,
};

verus! {

/// The pause between two looks for windows, in milliseconds.
pub const APPLICATION_POLL_MILLIS: u64 = 25;

/// The handler of the actions that open applications.
#[derive(Debug, Clone, PartialEq, Eq)]
pub struct ApplicationActionHandler {
    pub poll_interval: TimeSpan,
    pub poll_timeout: TimeSpan,
}

/// What a `ApplicationActionHandler` stands for.
#[verifier::ext_equal]
pub struct ApplicationActionHandlerView {
    pub poll_interval: TimeSpan,
    pub poll_timeout: TimeSpan,
}

impl View for ApplicationActionHandler {
    type V = ApplicationActionHandlerView;

    open spec fn view(&self) -> ApplicationActionHandlerView {
        ApplicationActionHandlerView {
            poll_interval: self.poll_interval.deep_view(),
            poll_timeout: self.poll_timeout.deep_view(),
        }
    }
}

impl DeepView for ApplicationActionHandler {
    type V = ApplicationActionHandlerView;

    open spec fn deep_view(&self) -> ApplicationActionHandlerView {
        self.view()
    }
}

impl Replicate for ApplicationActionHandler {
    fn replicate(&self) -> (r: Self) {
        ApplicationActionHandler {
            poll_interval: self.poll_interval.replicate(),
            poll_timeout: self.poll_timeout.replicate(),
        }
    }
}

/// The application of an action.
pub open spec fn application_of(action: ActionSpecView) -> Result<Seq<char>, WorkstateErrorView> {
    match action.parameters.application {
        Some(application) => Ok(application),
        None => Err(
            error_of(
                ErrorCategory::Domain,
                "application action '"@ + action.id + "' is missing its application"@,
            ),
        ),
    }
}

/// What is observed of an application: it is there where one of its windows is open.
pub open spec fn application_observed(action: ActionSpecView, snapshot: DesktopSnapshotView) -> Result<
    ActionObservationView,
    WorkstateErrorView,
> {
    match application_of(action) {
        Err(error) => Err(error),
        Ok(application) => {
            let windows = application_windows(snapshot.windows, application);
            if windows.len() == 0 {
                Ok(observed_change().explained("the application window is not open"@))
            } else {
                match windows_recorded(
                    action,
                    windows,
                    OwnershipStatus::ReusedExisting,
                    true,
                    application,
                ) {
                    Err(error) => Err(error),
                    Ok(resources) => Ok(observed_correct().holding(resources)),
                }
            }
        },
    }
}

/// A window that is still open.
pub open spec fn still_open(resource: ResourceRecordView, snapshot: DesktopSnapshotView) -> bool {
    resource.resource.kind == ResourceKind::DesktopWindow && snapshot.window(
        resource.resource.stable_identity,
    ) is Some
}

/// A window that belongs to another application by now.
pub open spec fn taken_over(resource: ResourceRecordView, snapshot: DesktopSnapshotView) -> bool {
    still_open(resource, snapshot) && resource.note("application_id"@) is Some && snapshot.window(
        resource.resource.stable_identity,
    )->Some_0.application != resource.note("application_id"@)
}

/// What is observed before cleanup: the windows that are still open, unless one of them belongs to
/// another application by now.
pub open spec fn cleanup_observed(resources: Seq<ResourceRecordView>, snapshot: DesktopSnapshotView) -> Result<
    Seq<ResourceRecordView>,
    Seq<char>,
>
    decreases resources.len(),
{
    if resources.len() == 0 {
        Ok(Seq::empty())
    } else {
        match cleanup_observed(resources.drop_last(), snapshot) {
            Err(detail) => Err(detail),
            Ok(earlier) => if taken_over(resources.last(), snapshot) {
                Err(
                    "persisted application window '"@ + resources.last().resource.stable_identity
                        + "' now identifies another application"@,
                )
            } else if still_open(resources.last(), snapshot) {
                Ok(earlier.push(resources.last()))
            } else {
                Ok(earlier)
            },
        }
    }
}

/// What must hold before an application is opened, in the order of the checks.
pub open spec fn application_validated(
    action: ActionSpecView,
    checked: Result<(), WorkstateErrorView>,
    launch: Result<ApplicationLaunchSpecView, WorkstateErrorView>,
    directory: Result<Seq<char>, WorkstateErrorView>,
) -> Result<(), WorkstateErrorView> {
    if action.kind != ActionKind::OpenApplication {
        Err(
            error_of(
                ErrorCategory::Integration,
                "application handler received an incompatible action"@,
            ),
        )
    } else {
        match checked {
            Err(error) => Err(error),
            Ok(_) => match application_of(action) {
                Err(error) => Err(error),
                Ok(application) => match launch {
                    Err(error) => Err(error.with("application_id"@, application)),
                    Ok(_) => match directory {
                        Err(error) => Err(error),
                        Ok(_) => Ok(()),
                    },
                },
            },
        }
    }
}

impl ApplicationActionHandler {
    /// The handler with the usual pause between two looks.
    pub fn new(poll_timeout: TimeSpan) -> (r: Self)
        ensures
            r@ == (ApplicationActionHandlerView {
                poll_interval: span_of_millis(APPLICATION_POLL_MILLIS),
                poll_timeout,
            }),
    {
        ApplicationActionHandler {
            poll_interval: TimeSpan::from_millis(APPLICATION_POLL_MILLIS),
            poll_timeout,
        }
    }

    /// The handler with another timing.
    pub fn with_timing(self, poll_interval: TimeSpan, poll_timeout: TimeSpan) -> (r: Self)
        ensures
            r@ == (ApplicationActionHandlerView { poll_interval, poll_timeout }),
    {
        ApplicationActionHandler { poll_interval, poll_timeout }
    }

    /// The kind of actions that the handler carries out.
    pub fn action_key(&self) -> (r: &'static str)
        ensures
            r@ == "open_application"@,
    {
        "open_application"
    }

    /// What the handler needs of the platform.
    pub fn required_capabilities(&self) -> (r: CapabilitySet)
        ensures
            r@ == set_of(seq![CapabilityId::DesktopWindows]),
    {
        let mut required: Vec<CapabilityId> = Vec::new();
        required.push(CapabilityId::DesktopWindows);
        assert(required@ =~= seq![CapabilityId::DesktopWindows]);
        CapabilitySet::of(&required)
    }

    /// Whether the workspace of an action must be known before it can be observed.
    pub fn requires_workspace_target_for_observation(&self) -> (r: bool)
        ensures
            !r,
    {
        false
    }

    /// The application of an action.
    pub fn application_id(&self, action: &ActionSpec) -> (r: Result<String, WorkstateError>)
        ensures
            seen(r) == application_of(action@),
    {
        match &action.parameters.application {
            Some(application) => Ok(application.clone()),
            None => Err(
                WorkstateError::new(
                    ErrorCategory::Domain,
                    join3(
                        "application action '",
                        action.id.as_str(),
                        "' is missing its application",
                    ).as_str(),
                ),
            ),
        }
    }

    /// The directory that an application is started in.
    pub fn resolve_working_directory(
        &self,
        home: Result<String, WorkstateError>,
        reading: DirectoryReading,
    ) -> (r: Result<String, WorkstateError>)
        ensures
            seen(r) == directory_resolved("application"@, seen(home), reading),
    {
        resolve_directory("application", home, reading)
    }

    /// Refuses an action that cannot be carried out: one of another kind, one that is not well formed
    /// (`checked`), one without an application, one whose application cannot be launched, and one
    /// whose directory cannot be resolved.
    pub fn validate(
        &self,
        action: &ActionSpec,
        checked: Result<(), WorkstateError>,
        launch: Result<ApplicationLaunchSpec, WorkstateError>,
        directory: Result<String, WorkstateError>,
    ) -> (r: Result<(), WorkstateError>)
        ensures
            seen(r) == application_validated(
                action@,
                seen(checked),
                seen(launch),
                seen(directory),
            ),
    {
        if action.kind != ActionKind::OpenApplication {
            return Err(
                WorkstateError::new(
                    ErrorCategory::Integration,
                    "application handler received an incompatible action",
                ),
            );
        }
        if let Err(error) = checked {
            return Err(error);
        }
        let application = match self.application_id(action) {
            Err(error) => {
                return Err(error);
            },
            Ok(application) => application,
        };
        if let Err(error) = launch {
            return Err(error.with_context("application_id", application.as_str()));
        }
        match directory {
            Err(error) => Err(error),
            Ok(_) => Ok(()),
        }
    }

    /// What is observed of an application.
    pub fn observe(&self, action: &ActionSpec, snapshot: &DesktopSnapshot) -> (r: Result<
        ActionObservation,
        WorkstateError,
    >)
        ensures
            seen(r) == application_observed(action@, snapshot@),
    {
        let application = match self.application_id(action) {
            Err(error) => {
                return Err(error);
            },
            Ok(application) => application,
        };
        let windows = matching_windows(&snapshot.windows, application.as_str());
        assert(windows.deep_view().len() == windows@.len());
        if windows.len() == 0 {
            return Ok(
                ActionObservation::requires_change().with_detail(
                    "the application window is not open",
                ),
            );
        }
        match window_records(
            action,
            &windows,
            OwnershipStatus::ReusedExisting,
            true,
            application.as_str(),
        ) {
            Err(error) => Err(error),
            Ok(resources) => Ok(ActionObservation::already_correct().with_resources(resources)),
        }
    }

    /// Begins to open an application, once it is known how it is launched and where.
    pub fn apply(
        &self,
        action: &ActionSpec,
        launch: Result<ApplicationLaunchSpec, WorkstateError>,
        directory: Result<String, WorkstateError>,
    ) -> (r: Result<(ApplicationOpen, OpenStep), WorkstateError>)
        ensures
            match (application_of(action@), seen(launch), seen(directory)) {
                (Err(error), _, _) => r is Err && r->Err_0@ == error,
                (Ok(_), Err(error), _) => r is Err && r->Err_0@ == error,
                (Ok(_), Ok(_), Err(error)) => r is Err && r->Err_0@ == error,
                (Ok(application), Ok(launch), Ok(directory)) => r is Ok && (
                    r->Ok_0.0@,
                    r->Ok_0.1@,
                ) == open_begun(
                    action@,
                    application,
                    launch_request(launch, action@.parameters.application_arguments, directory),
                    self@.poll_interval,
                    self@.poll_timeout,
                ),
            },
    {
        let application = match self.application_id(action) {
            Err(error) => {
                return Err(error);
            },
            Ok(application) => application,
        };
        let launch = match launch {
            Err(error) => {
                return Err(error);
            },
            Ok(launch) => launch,
        };
        let directory = match directory {
            Err(error) => {
                return Err(error);
            },
            Ok(directory) => directory,
        };
        let request = process_request(
            launch,
            action.parameters.application_arguments.replicate(),
            directory,
        );
        Ok(
            ApplicationOpen::begin(
                action.replicate(),
                application,
                request,
                self.poll_interval,
                self.poll_timeout,
            ),
        )
    }

    /// What is observed before cleanup.
    pub fn observe_for_cleanup(&self, resources: &Vec<ResourceRecord>, snapshot: &DesktopSnapshot) -> (r:
        ActionObservation)
        ensures
            r@ == (match cleanup_observed(resources.deep_view(), snapshot@) {
                Ok(observed) => observed_correct().holding(observed),
                Err(detail) => observed_unknown(detail),
            }),
    {
        let mut result: Result<Vec<ResourceRecord>, String> = Ok(empty_list());
        let mut i: usize = 0;
        let ghost all = resources.deep_view();
        assert(all.take(0) =~= Seq::<ResourceRecordView>::empty());
        while i < resources.len()
            invariant
                i <= resources@.len(),
                all == resources.deep_view(),
                cleanup_observed(all.take(i as int), snapshot@) == (match result {
                    Ok(observed) => Ok::<Seq<ResourceRecordView>, Seq<char>>(
                        observed.deep_view(),
                    ),
                    Err(detail) => Err(detail@),
                }),
            decreases resources@.len() - i,
        {
            assert(all[i as int] == resources@[i as int]@);
            assert(all.take(i as int + 1).drop_last() =~= all.take(i as int));
            result = match result {
                Err(detail) => Err(detail),
                Ok(observed) => judge_window(observed, &resources[i], snapshot),
            };
            i = i + 1;
        }
        assert(all.take(i as int) =~= all);
        match result {
            Ok(observed) => ActionObservation::already_correct().with_resources(observed),
            Err(detail) => ActionObservation::unknown(detail.as_str()),
        }
    }
}

fn judge_window(
    observed: Vec<ResourceRecord>,
    resource: &ResourceRecord,
    snapshot: &DesktopSnapshot,
) -> (r: Result<Vec<ResourceRecord>, String>)
    ensures
        match r {
            Ok(list) => !taken_over(resource@, snapshot@) && list.deep_view() == if still_open(
                resource@,
                snapshot@,
            ) {
                observed.deep_view().push(resource@)
            } else {
                observed.deep_view()
            },
            Err(detail) => taken_over(resource@, snapshot@) && detail@
                == "persisted application window '"@ + resource@.resource.stable_identity
                + "' now identifies another application"@,
        },
{
    if resource.resource.kind != ResourceKind::DesktopWindow {
        return Ok(observed);
    }
    let window = match snapshot.window(resource.resource.stable_identity.as_str()) {
        None => {
            return Ok(observed);
        },
        Some(window) => window,
    };
    if let Some(expected) = resource.integration_metadata.get("application_id") {
        if !option_is_text(&window.application, expected.as_str()) {
            return Err(
                join3(
                    "persisted application window '",
                    resource.resource.stable_identity.as_str(),
                    "' now identifies another application",
                ),
            );
        }
    }
    let mut list = observed;
    append(&mut list, resource.replicate());
    Ok(list)
}

/// Registers the handler of applications.
pub fn register_handlers(registry: &mut ActionHandlerRegistry) -> (r: Result<(), WorkstateError>)
    ensures
        (final(registry)@.keys, seen(r)) == registering(
            old(registry)@.keys,
            seq!["open_application"@],
        ),
{
    registry.register("open_application")
}

proof fn lemma_taken_over_is_noticed(
    resources: Seq<ResourceRecordView>,
    snapshot: DesktopSnapshotView,
    i: int,
)
    requires
        0 <= i < resources.len(),
        taken_over(resources[i], snapshot),
    ensures
        cleanup_observed(resources, snapshot) is Err,
    decreases resources.len(),
{
    if i < resources.len() - 1 {
        assert(resources.drop_last()[i] == resources[i]);
        lemma_taken_over_is_noticed(resources.drop_last(), snapshot, i);
    } else {
        assert(resources.last() == resources[i]);
    }
}

/// A window that belongs to another application by now keeps everything from being cleaned up.
pub proof fn law_window_of_another_application_is_noticed(
    resources: Seq<ResourceRecordView>,
    snapshot: DesktopSnapshotView,
    i: int,
)
    requires
        0 <= i < resources.len(),
        taken_over(resources[i], snapshot),
    ensures
        cleanup_observed(resources, snapshot) is Err,
{
    lemma_taken_over_is_noticed(resources, snapshot, i);
}

/// An application is open where a window bears its name, and only there; what is open belongs to somebody
/// else.
pub proof fn law_open_application_is_correct(
    action: ActionSpecView,
    application: Seq<char>,
    window: DesktopWindowSnapshotView,
    snapshot: DesktopSnapshotView,
)
    requires
        action.parameters.application == Some(application),
        !is_blank(window.identity),
    ensures
        snapshot.windows == seq![window] && window.application == Some(application) ==> (
        application_observed(action, snapshot) matches Ok(observed) && observed.status
            == ObservationStatus::AlreadyCorrect && observed.resources.len() == 1
            && observed.resources[0].resource.stable_identity == window.identity
            && observed.resources[0].ownership == OwnershipStatus::ReusedExisting),
        snapshot.windows == seq![window] && window.application != Some(application) ==> (
        application_observed(action, snapshot) matches Ok(observed) && observed.status
            == ObservationStatus::RequiresChange),
        application_observed(
            (ActionSpecView {
                parameters: ActionParametersView { application: None, ..action.parameters },
                ..action
            }),
            snapshot,
        ) is Err,
{
    reveal_with_fuel(Seq::filter, 2);
    reveal_with_fuel(windows_recorded, 2);
    let one = seq![window];
    assert(one.drop_last() =~= Seq::<DesktopWindowSnapshotView>::empty());
    assert(one.last() == window);
    let kept = application_windows(one, application);
    assert(window.application == Some(application) ==> kept =~= one);
    assert(window.application != Some(application) ==> kept =~= Seq::empty());
}

/// Of the windows that were recorded, those that are still open for the application are left to close.
pub proof fn law_open_windows_are_left(
    earlier: Seq<ResourceRecordView>,
    record: ResourceRecordView,
    snapshot: DesktopSnapshotView,
    left: Seq<ResourceRecordView>,
    window: DesktopWindowSnapshotView,
)
    requires
        cleanup_observed(earlier, snapshot) == Ok::<Seq<ResourceRecordView>, Seq<char>>(left),
        record.resource.kind == ResourceKind::DesktopWindow,
    ensures
        snapshot.window(record.resource.stable_identity) == Some(window) && window.application
            == record.note("application_id"@) ==> cleanup_observed(earlier.push(record), snapshot)
            == Ok::<Seq<ResourceRecordView>, Seq<char>>(left.push(record)),
        snapshot.window(record.resource.stable_identity) is None ==> cleanup_observed(
            earlier.push(record),
            snapshot,
        ) == Ok::<Seq<ResourceRecordView>, Seq<char>>(left),
{
    assert(earlier.push(record).drop_last() =~= earlier);
}

} // verus!
