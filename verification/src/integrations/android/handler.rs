//! The action that starts an emulator.
use vstd::prelude::*;
use vstd::string::*;
use crate::domain::{
    places_window, target_places_window, ActionKind, ActionSpec, ActionSpecView, EmulatorSpecView,
    MutationRecord, OwnershipStatus, ResourceKind, ResourceRecord, ResourceRecordView,
};
use crate::error::{error_of, seen, ErrorCategory, WorkstateError, WorkstateErrorView};
use crate::integrations::android::emulator::{
    emulator_record_from_context, emulator_recorded, recorded_serial, serial_of_record,
};
use crate::integrations::windows::{restore_begun, RestoreStep, WindowRestore};
use crate::planner::{
    log_lines, logged, observed_change, observed_correct, observed_unknown, registering,
    ActionExecutionResult, ActionExecutionResultView, ActionHandlerRegistry, ActionObservation,
    ActionObservationView, CompensationResult, CompensationResultView, ObservationStatus,
};
use crate::platform::detection::support::{set_of, CapabilityId, CapabilitySet};
use crate::ports::{
    AndroidDeviceStateView, DesktopWorkspaceResolution, DesktopWorkspaceResolutionView,
    DesktopWorkspaceSnapshotView, EmulatorActionContext, EmulatorActionContextView,
    EmulatorCleanupOutcome, EmulatorEnsureOutcome, EmulatorObservation, EmulatorObservationView,
    EmulatorOperationStatus, EmulatorRequest, EmulatorRequestView, EmulatorRuntimeSnapshot,
    EmulatorRuntimeSnapshotView,
};
use crate::text::{is_blank, join3, same_text};
use crate::time::{span_of_millis, TimeSpan};
use crate::values::{append, append_all, empty_list, list_of, Replicate};

verus! {

/// The handler of the actions that start emulators.
#[derive(Debug, Clone, PartialEq, Eq)]
pub struct AndroidEmulatorActionHandler {
    pub poll_interval: TimeSpan,
}

/// What a `AndroidEmulatorActionHandler` stands for.
#[verifier::ext_equal]
pub struct AndroidEmulatorActionHandlerView {
    pub poll_interval: TimeSpan,
}

impl View for AndroidEmulatorActionHandler {
    type V = AndroidEmulatorActionHandlerView;

    open spec fn view(&self) -> AndroidEmulatorActionHandlerView {
        AndroidEmulatorActionHandlerView {
            poll_interval: self.poll_interval.deep_view(),
        }
    }
}

impl DeepView for AndroidEmulatorActionHandler {
    type V = AndroidEmulatorActionHandlerView;

    open spec fn deep_view(&self) -> AndroidEmulatorActionHandlerView {
        self.view()
    }
}

impl Replicate for AndroidEmulatorActionHandler {
    fn replicate(&self) -> (r: Self) {
        AndroidEmulatorActionHandler {
            poll_interval: self.poll_interval.replicate(),
        }
    }
}

/// What a look at an emulator says: it is settled, or the workspace of its window is still to be looked at.
#[derive(Debug)]
pub enum EmulatorVerdict {
    Settled(ActionObservation),
    LookAtWorkspace { record: ResourceRecord, workspace: String },
}

/// What a `EmulatorVerdict` stands for.
#[verifier::ext_equal]
pub enum EmulatorVerdictView {
    Settled(ActionObservationView),
    LookAtWorkspace { record: ResourceRecordView, workspace: Seq<char> },
}

impl View for EmulatorVerdict {
    type V = EmulatorVerdictView;

    open spec fn view(&self) -> EmulatorVerdictView {
        match self {
            EmulatorVerdict::Settled(value) => EmulatorVerdictView::Settled(value.deep_view()),
            EmulatorVerdict::LookAtWorkspace { record, workspace } => EmulatorVerdictView::LookAtWorkspace { record: record.deep_view(), workspace: workspace.deep_view() },
        }
    }
}

impl DeepView for EmulatorVerdict {
    type V = EmulatorVerdictView;

    open spec fn deep_view(&self) -> EmulatorVerdictView {
        self.view()
    }
}

/// The time that an action may take.
pub open spec fn action_limit(action: ActionSpecView, default_timeout: TimeSpan) -> TimeSpan {
    match action.timeout {
        Some(timeout) => span_of_millis(timeout.milliseconds),
        None => default_timeout,
    }
}

/// The time that an action may take.
pub fn action_timeout(action: &ActionSpec, default_timeout: TimeSpan) -> (r: TimeSpan)
    ensures
        r == action_limit(action@, default_timeout),
{
    match &action.timeout {
        Some(timeout) => TimeSpan::from_millis(timeout.milliseconds),
        None => default_timeout,
    }
}

/// The record of an emulator that an action was found to run on.
pub open spec fn runtime_recorded(action: ActionSpecView, runtime: EmulatorRuntimeSnapshotView) -> Result<
    ResourceRecordView,
    WorkstateErrorView,
> {
    match action.resolved_environment {
        None => Err(
            error_of(
                ErrorCategory::Runtime,
                "Android Emulator action '"@ + action.id + "' has no environment context"@,
            ),
        ),
        Some(environment) => emulator_recorded(
            EmulatorActionContextView {
                action_id: action.id,
                environment,
                cleanup_policy: action.cleanup_policy,
            },
            runtime,
            OwnershipStatus::ReusedExisting,
            true,
        ),
    }
}

/// The record of an emulator that an action was found to run on.
pub fn emulator_record_from_runtime(action: &ActionSpec, runtime: &EmulatorRuntimeSnapshot) -> (r:
    Result<ResourceRecord, WorkstateError>)
    ensures
        seen(r) == runtime_recorded(action@, runtime@),
{
    match &action.resolved_environment {
        None => Err(
            WorkstateError::new(
                ErrorCategory::Runtime,
                join3(
                    "Android Emulator action '",
                    action.id.as_str(),
                    "' has no environment context",
                ).as_str(),
            ),
        ),
        Some(environment) => emulator_record_from_context(
            &EmulatorActionContext {
                action_id: action.id.clone(),
                environment: environment.clone(),
                cleanup_policy: action.cleanup_policy,
            },
            runtime,
            OwnershipStatus::ReusedExisting,
            true,
        ),
    }
}

/// The first record of the emulator with a serial.
pub open spec fn record_with_serial(records: Seq<ResourceRecordView>, serial: Seq<char>) -> Option<
    ResourceRecordView,
>
    decreases records.len(),
{
    if records.len() == 0 {
        None
    } else if records[0].resource.kind == ResourceKind::AndroidEmulator
        && records[0].resource.stable_identity == serial {
        Some(records[0])
    } else {
        record_with_serial(records.drop_first(), serial)
    }
}

fn find_record(records: &Vec<ResourceRecord>, serial: &str) -> (r: Option<ResourceRecord>)
    ensures
        r.deep_view() == record_with_serial(records.deep_view(), serial@),
{
    let ghost all = records.deep_view();
    let mut i: usize = 0;
    assert(all.skip(0) =~= all);
    while i < records.len()
        invariant
            i <= records@.len(),
            all == records.deep_view(),
            record_with_serial(all, serial@) == record_with_serial(
                all.skip(i as int),
                serial@,
            ),
        decreases records@.len() - i,
    {
        assert(all.skip(i as int)[0] == records@[i as int]@);
        assert(all.skip(i as int).drop_first() =~= all.skip(i as int + 1));
        if records[i].resource.kind == ResourceKind::AndroidEmulator && same_text(
            records[i].resource.stable_identity.as_str(),
            serial,
        ) {
            return Some(records[i].replicate());
        }
        i = i + 1;
    }
    None
}

pub open spec fn first_of(a: Option<Seq<char>>, b: Option<Seq<char>>) -> Option<Seq<char>> {
    if a is Some {
        a
    } else {
        b
    }
}

/// A running emulator with what was recorded of it: its process, and what the desktop does not show.
pub open spec fn runtime_remembered(
    runtime: EmulatorRuntimeSnapshotView,
    records: Seq<ResourceRecordView>,
) -> EmulatorRuntimeSnapshotView {
    match record_with_serial(records, runtime.serial) {
        None => runtime,
        Some(record) => EmulatorRuntimeSnapshotView {
            process_identity: record.note("process_identity"@),
            window_identity: first_of(runtime.window_identity, record.note("window_identity"@)),
            workspace_identity: first_of(
                runtime.workspace_identity,
                record.note("workspace_identity"@),
            ),
            ..runtime
        },
    }
}

fn remember(runtime: EmulatorRuntimeSnapshot, records: &Vec<ResourceRecord>) -> (r:
    EmulatorRuntimeSnapshot)
    ensures
        r@ == runtime_remembered(runtime@, records.deep_view()),
{
    match find_record(records, runtime.serial.as_str()) {
        None => runtime,
        Some(record) => {
            let mut known = runtime;
            known.process_identity = record.integration_metadata.get("process_identity");
            if known.window_identity.is_none() {
                known.window_identity = record.integration_metadata.get("window_identity");
            }
            if known.workspace_identity.is_none() {
                known.workspace_identity = record.integration_metadata.get("workspace_identity");
            }
            known
        },
    }
}

/// The emulator is up, but its window is elsewhere.
pub open spec fn misplaced(record: ResourceRecordView) -> ActionObservationView {
    observed_change().explained(
        "the Android Emulator window is not in the requested workspace"@,
    ).holding(seq![record])
}

fn observe_misplaced(record: ResourceRecord) -> (r: ActionObservation)
    ensures
        r@ == misplaced(record@),
{
    ActionObservation::requires_change().with_detail(
        "the Android Emulator window is not in the requested workspace",
    ).with_resources(list_of(record))
}

/// What a look at an emulator says of the action.
pub open spec fn emulator_judged(
    action: ActionSpecView,
    previous: Seq<ResourceRecordView>,
    observation: EmulatorObservationView,
) -> Result<EmulatorVerdictView, WorkstateErrorView> {
    match observation {
        EmulatorObservationView::Missing => Ok(
            EmulatorVerdictView::Settled(
                observed_change().explained(
                    "the configured Android Virtual Device is not running"@,
                ),
            ),
        ),
        EmulatorObservationView::Present(seen_runtime) => {
            let runtime = runtime_remembered(seen_runtime, previous);
            match runtime_recorded(action, runtime) {
                Err(error) => Err(error),
                Ok(record) => if !runtime.ready() {
                    Ok(
                        EmulatorVerdictView::Settled(
                            observed_change().explained(
                                "the Android Emulator is connected but Android has not finished booting"@,
                            ).holding(seq![record]),
                        ),
                    )
                } else if !places_window(action.resolved_workspace_target) {
                    Ok(EmulatorVerdictView::Settled(observed_correct().holding(seq![record])))
                } else {
                    match runtime.workspace_identity {
                        None => Ok(EmulatorVerdictView::Settled(misplaced(record))),
                        Some(workspace) => Ok(
                            EmulatorVerdictView::LookAtWorkspace { record, workspace },
                        ),
                    }
                },
            }
        },
    }
}

/// What the workspace that the action means says of the window.
pub open spec fn workspace_judged(
    record: ResourceRecordView,
    workspace: Seq<char>,
    resolution: DesktopWorkspaceResolutionView,
) -> ActionObservationView {
    match resolution.workspace {
        Some(wanted) => if wanted.identity == workspace {
            observed_correct().holding(seq![record])
        } else {
            misplaced(record)
        },
        None => misplaced(record),
    }
}

/// What is observed before cleanup: the records of the emulator that runs. A serial that runs another
/// virtual device by now cannot be trusted.
pub open spec fn cleanup_observed(
    runtime: EmulatorRuntimeSnapshotView,
    resources: Seq<ResourceRecordView>,
) -> Result<Seq<ResourceRecordView>, Seq<char>>
    decreases resources.len(),
{
    if resources.len() == 0 {
        Ok(Seq::empty())
    } else {
        match cleanup_observed(runtime, resources.drop_last()) {
            Err(serial) => Err(serial),
            Ok(earlier) => {
                let record = resources.last();
                if record.resource.kind != ResourceKind::AndroidEmulator || runtime.serial
                    != recorded_serial(record) {
                    Ok(earlier)
                } else if record.note("avd"@) is Some && record.note("avd"@) != Some(runtime.avd) {
                    Err(recorded_serial(record))
                } else {
                    Ok(earlier.push(record))
                }
            },
        }
    }
}

/// What is observed before cleanup.
pub open spec fn observed_for_cleanup(
    observation: EmulatorObservationView,
    resources: Seq<ResourceRecordView>,
) -> ActionObservationView {
    match observation {
        EmulatorObservationView::Missing => observed_correct(),
        EmulatorObservationView::Present(runtime) => match cleanup_observed(runtime, resources) {
            Ok(records) => observed_correct().holding(records),
            Err(serial) => observed_unknown(
                "persisted Android Emulator serial '"@ + serial
                    + "' now identifies a different AVD"@,
            ),
        },
    }
}

impl AndroidEmulatorActionHandlerView {
    /// The emulator that an action asks for.
    pub open spec fn requested(self, action: ActionSpecView, default_timeout: TimeSpan) -> Result<
        EmulatorRequestView,
        WorkstateErrorView,
    > {
        match (action.parameters.emulator, action.resolved_environment) {
            (None, _) => Err(
                error_of(
                    ErrorCategory::Domain,
                    "Android Emulator action '"@ + action.id + "' is missing its AVD"@,
                ),
            ),
            (_, None) => Err(
                error_of(
                    ErrorCategory::Runtime,
                    "Android Emulator action '"@ + action.id
                        + "' was executed without an environment context"@,
                ),
            ),
            (Some(specification), Some(environment)) => Ok(
                EmulatorRequestView {
                    context: EmulatorActionContextView {
                        action_id: action.id,
                        environment,
                        cleanup_policy: action.cleanup_policy,
                    },
                    specification,
                    workspace_target: action.resolved_workspace_target,
                    timeout: action_limit(action, default_timeout),
                    poll_interval: self.poll_interval,
                },
            ),
        }
    }
}

impl AndroidEmulatorActionHandler {
    pub fn new() -> (r: Self)
        ensures
            r@.poll_interval == span_of_millis(100),
    {
        AndroidEmulatorActionHandler { poll_interval: TimeSpan::from_millis(100) }
    }

    /// The handler that looks at the given interval.
    pub fn with_poll_interval(self, poll_interval: TimeSpan) -> (r: Self)
        ensures
            r@.poll_interval == poll_interval,
    {
        AndroidEmulatorActionHandler { poll_interval }
    }

    /// The key that the handler is registered under.
    pub fn action_key(&self) -> (r: &'static str)
        ensures
            r@ == "start_android_emulator"@,
    {
        "start_android_emulator"
    }

    /// The capabilities that the handler needs.
    pub fn required_capabilities(&self) -> (r: CapabilitySet)
        ensures
            r@ == set_of(seq![CapabilityId::AndroidEmulator, CapabilityId::Adb]),
    {
        let mut required: Vec<CapabilityId> = Vec::new();
        required.push(CapabilityId::AndroidEmulator);
        required.push(CapabilityId::Adb);
        assert(required@ =~= seq![CapabilityId::AndroidEmulator, CapabilityId::Adb]);
        CapabilitySet::of(&required)
    }

    /// Refuses an action of another kind, or one that is not well formed (`checked`).
    pub fn validate(&self, action: &ActionSpec, checked: Result<(), WorkstateError>) -> (r: Result<
        (),
        WorkstateError,
    >)
        ensures
            seen(r) == (if action@.kind != ActionKind::StartAndroidEmulator {
                Err::<(), WorkstateErrorView>(
                    error_of(
                        ErrorCategory::Integration,
                        "the Android Emulator handler received an incompatible action"@,
                    ),
                )
            } else {
                seen(checked)
            }),
    {
        if action.kind != ActionKind::StartAndroidEmulator {
            return Err(
                WorkstateError::new(
                    ErrorCategory::Integration,
                    "the Android Emulator handler received an incompatible action",
                ),
            );
        }
        checked
    }

    /// The emulator that an action asks for.
    pub fn request_for(&self, action: &ActionSpec, default_timeout: TimeSpan) -> (r: Result<
        EmulatorRequest,
        WorkstateError,
    >)
        ensures
            seen(r) == self@.requested(action@, default_timeout),
    {
        let specification = match &action.parameters.emulator {
            None => {
                return Err(
                    WorkstateError::new(
                        ErrorCategory::Domain,
                        join3(
                            "Android Emulator action '",
                            action.id.as_str(),
                            "' is missing its AVD",
                        ).as_str(),
                    ),
                );
            },
            Some(specification) => specification.replicate(),
        };
        match &action.resolved_environment {
            None => Err(
                WorkstateError::new(
                    ErrorCategory::Runtime,
                    join3(
                        "Android Emulator action '",
                        action.id.as_str(),
                        "' was executed without an environment context",
                    ).as_str(),
                ),
            ),
            Some(environment) => Ok(
                EmulatorRequest {
                    context: EmulatorActionContext {
                        action_id: action.id.clone(),
                        environment: environment.clone(),
                        cleanup_policy: action.cleanup_policy,
                    },
                    specification,
                    workspace_target: action.resolved_workspace_target.replicate(),
                    timeout: action_timeout(action, default_timeout),
                    poll_interval: self.poll_interval,
                },
            ),
        }
    }

    /// What a look at an emulator says of the action.
    pub fn observe(
        &self,
        action: &ActionSpec,
        previous: &Vec<ResourceRecord>,
        observation: EmulatorObservation,
    ) -> (r: Result<EmulatorVerdict, WorkstateError>)
        ensures
            seen(r) == emulator_judged(action@, previous.deep_view(), observation@),
    {
        let runtime = match observation {
            EmulatorObservation::Missing => {
                return Ok(
                    EmulatorVerdict::Settled(
                        ActionObservation::requires_change().with_detail(
                            "the configured Android Virtual Device is not running",
                        ),
                    ),
                );
            },
            EmulatorObservation::Present(runtime) => remember(runtime, previous),
        };
        let record = match emulator_record_from_runtime(action, &runtime) {
            Err(error) => {
                return Err(error);
            },
            Ok(record) => record,
        };
        if !runtime.is_ready() {
            return Ok(
                EmulatorVerdict::Settled(
                    ActionObservation::requires_change().with_detail(
                        "the Android Emulator is connected but Android has not finished booting",
                    ).with_resources(list_of(record)),
                ),
            );
        }
        if !target_places_window(&action.resolved_workspace_target) {
            return Ok(
                EmulatorVerdict::Settled(
                    ActionObservation::already_correct().with_resources(list_of(record)),
                ),
            );
        }
        match runtime.workspace_identity {
            None => Ok(EmulatorVerdict::Settled(observe_misplaced(record))),
            Some(workspace) => Ok(EmulatorVerdict::LookAtWorkspace { record, workspace }),
        }
    }

    /// What the workspace that the action means says of the window.
    pub fn workspace_is_satisfied(
        &self,
        record: ResourceRecord,
        workspace: &str,
        resolution: &DesktopWorkspaceResolution,
    ) -> (r: ActionObservation)
        ensures
            r@ == workspace_judged(record@, workspace@, resolution@),
    {
        match &resolution.workspace {
            Some(wanted) => if same_text(wanted.identity.as_str(), workspace) {
                ActionObservation::already_correct().with_resources(list_of(record))
            } else {
                observe_misplaced(record)
            },
            None => observe_misplaced(record),
        }
    }

    /// What is observed before cleanup.
    pub fn observe_for_cleanup(
        &self,
        observation: &EmulatorObservation,
        resources: &Vec<ResourceRecord>,
    ) -> (r: ActionObservation)
        ensures
            r@ == observed_for_cleanup(observation@, resources.deep_view()),
    {
        let runtime = match observation {
            EmulatorObservation::Missing => {
                return ActionObservation::already_correct();
            },
            EmulatorObservation::Present(runtime) => runtime,
        };
        let ghost all = resources.deep_view();
        let mut observed: Vec<ResourceRecord> = empty_list();
        let mut failure: Option<String> = None;
        let mut i: usize = 0;
        assert(all.take(0) =~= Seq::<ResourceRecordView>::empty());
        while i < resources.len()
            invariant
                i <= resources@.len(),
                all == resources.deep_view(),
                cleanup_observed(runtime@, all.take(i as int)) == (match failure {
                    Some(serial) => Err::<Seq<ResourceRecordView>, Seq<char>>(serial@),
                    None => Ok::<Seq<ResourceRecordView>, Seq<char>>(observed.deep_view()),
                }),
            decreases resources@.len() - i,
        {
            assert(all[i as int] == resources@[i as int]@);
            assert(all.take(i as int + 1).drop_last() =~= all.take(i as int));
            let record = &resources[i];
            let serial = serial_of_record(record);
            if failure.is_none() && record.resource.kind == ResourceKind::AndroidEmulator
                && same_text(runtime.serial.as_str(), serial.as_str()) {
                let trusted = match record.integration_metadata.get("avd") {
                    Some(expected) => same_text(expected.as_str(), runtime.avd.as_str()),
                    None => true,
                };
                if trusted {
                    append(&mut observed, record.replicate());
                } else {
                    failure = Some(serial);
                }
            }
            i = i + 1;
        }
        assert(all.take(i as int) =~= all);
        match failure {
            Some(serial) => ActionObservation::unknown(
                join3(
                    "persisted Android Emulator serial '",
                    serial.as_str(),
                    "' now identifies a different AVD",
                ).as_str(),
            ),
            None => ActionObservation::already_correct().with_resources(observed),
        }
    }

    /// What came of an action.
    pub fn apply_result(&self, outcome: EmulatorEnsureOutcome) -> (r: ActionExecutionResult)
        ensures
            r@ == (ActionExecutionResultView {
                changed: outcome@.status != EmulatorOperationStatus::AlreadyRunning
                    || outcome@.mutations.len() > 0,
                resources: outcome@.resources,
                mutations: outcome@.mutations,
                outputs: log_lines(outcome@.outputs),
            }),
    {
        ActionExecutionResult {
            changed: outcome.status != EmulatorOperationStatus::AlreadyRunning
                || outcome.mutations.len() > 0,
            outputs: logged(&outcome.outputs),
            resources: outcome.resources,
            mutations: outcome.mutations,
        }
    }

    /// Moving the windows that an action moved back to where they were.
    pub fn restore_mutations(&self, mutations: Vec<MutationRecord>) -> (r: (
        WindowRestore,
        RestoreStep,
    ))
        ensures
            (r.0@, r.1@) == restore_begun("emulator window"@, false, mutations.deep_view()),
    {
        WindowRestore::begin("emulator window", false, mutations)
    }

    /// What came of undoing an action: the emulators that were stopped first, then the windows that
    /// were moved back.
    pub fn compensation_result(
        &self,
        cleanup: EmulatorCleanupOutcome,
        restored: Vec<String>,
    ) -> (r: CompensationResult)
        ensures
            r@ == (CompensationResultView {
                outputs: log_lines(cleanup@.outputs + restored.deep_view()),
            }),
    {
        let mut lines = cleanup.outputs;
        append_all(&mut lines, restored);
        CompensationResult { outputs: logged(&lines) }
    }
}

/// Registers the handler of emulators.
pub fn register_handlers(registry: &mut ActionHandlerRegistry) -> (r: Result<(), WorkstateError>)
    ensures
        (final(registry)@.keys, seen(r)) == registering(
            old(registry)@.keys,
            seq!["start_android_emulator"@],
        ),
{
    registry.register("start_android_emulator")
}

/// An action is correct only where its emulator is connected and has booted.
pub proof fn law_correct_emulator_is_ready(
    action: ActionSpecView,
    previous: Seq<ResourceRecordView>,
    observation: EmulatorObservationView,
    observed: ActionObservationView,
)
    requires
        emulator_judged(action, previous, observation) == Ok::<
            EmulatorVerdictView,
            WorkstateErrorView,
        >(EmulatorVerdictView::Settled(observed)),
        observed.status == crate::planner::ObservationStatus::AlreadyCorrect,
    ensures
        observation matches EmulatorObservationView::Present(runtime) && runtime.ready(),
        !places_window(action.resolved_workspace_target),
{
}

/// The request is what the action asks for: its virtual device, its workspace, its limit of time and its
/// policy.
pub proof fn law_request_is_that_of_the_action(
    handler: AndroidEmulatorActionHandlerView,
    action: ActionSpecView,
    default_timeout: TimeSpan,
    specification: EmulatorSpecView,
    environment: Seq<char>,
)
    requires
        action.parameters.emulator == Some(specification),
        action.resolved_environment == Some(environment),
    ensures
        handler.requested(action, default_timeout) matches Ok(request) && request.specification
            == specification && request.context.action_id == action.id
            && request.context.environment == environment && request.context.cleanup_policy
            == action.cleanup_policy && request.workspace_target
            == action.resolved_workspace_target && request.poll_interval == handler.poll_interval
            && (action.timeout is None ==> request.timeout == default_timeout) && (
        action.timeout matches Some(timeout) ==> request.timeout == span_of_millis(
            timeout.milliseconds,
        )),
        handler.requested(
            (ActionSpecView { resolved_environment: None, ..action }),
            default_timeout,
        ) is Err,
{
}

/// An emulator that does not run, or has not booted, needs a change; one that is ready needs nothing where
/// no workspace is named, and else its workspace decides.
pub proof fn law_emulator_is_judged(
    action: ActionSpecView,
    runtime: EmulatorRuntimeSnapshotView,
    environment: Seq<char>,
    workspace: Seq<char>,
    record: ResourceRecordView,
    wanted: DesktopWorkspaceSnapshotView,
    resolution: DesktopWorkspaceResolutionView,
)
    requires
        action.resolved_environment == Some(environment),
        !is_blank(runtime.serial),
        resolution.workspace == Some(wanted),
    ensures
        emulator_judged(action, Seq::empty(), EmulatorObservationView::Missing) matches Ok(
            EmulatorVerdictView::Settled(observed),
        ) && observed.status == ObservationStatus::RequiresChange,
        runtime.state != AndroidDeviceStateView::Device || !runtime.boot_completed ==> (
        emulator_judged(
            action,
            Seq::empty(),
            EmulatorObservationView::Present(runtime),
        ) matches Ok(EmulatorVerdictView::Settled(observed)) && observed.status
            == ObservationStatus::RequiresChange),
        runtime.state == AndroidDeviceStateView::Device && runtime.boot_completed
            && action.resolved_workspace_target is None ==> (emulator_judged(
            action,
            Seq::empty(),
            EmulatorObservationView::Present(runtime),
        ) matches Ok(EmulatorVerdictView::Settled(observed)) && observed.status
            == ObservationStatus::AlreadyCorrect && observed.resources.len() == 1
            && observed.resources[0].resource.stable_identity == runtime.serial
            && observed.resources[0].ownership == OwnershipStatus::ReusedExisting),
        workspace_judged(record, workspace, resolution).status == ObservationStatus::AlreadyCorrect
            <==> wanted.identity == workspace,
        workspace_judged(record, workspace, resolution).resources == seq![record],
{
}

/// What was recorded of a running emulator is remembered.
pub proof fn law_recorded_process_is_remembered(
    runtime: EmulatorRuntimeSnapshotView,
    record: ResourceRecordView,
    others: Seq<ResourceRecordView>,
)
    requires
        record.resource.kind == ResourceKind::AndroidEmulator,
        record.resource.stable_identity == runtime.serial,
    ensures
        runtime_remembered(runtime, seq![record] + others).process_identity == record.note(
            "process_identity"@,
        ),
        runtime.window_identity is Some ==> runtime_remembered(
            runtime,
            seq![record] + others,
        ).window_identity == runtime.window_identity,
        runtime.window_identity is None ==> runtime_remembered(
            runtime,
            seq![record] + others,
        ).window_identity == record.note("window_identity"@),
        runtime_remembered(runtime, seq![record] + others).serial == runtime.serial,
        runtime_remembered(runtime, Seq::empty()) == runtime,
{
    assert((seq![record] + others)[0] == record);
}

/// Of the emulators that were recorded, the one that runs its virtual device is left to stop.
pub proof fn law_running_emulator_is_left(
    earlier: Seq<ResourceRecordView>,
    record: ResourceRecordView,
    runtime: EmulatorRuntimeSnapshotView,
    left: Seq<ResourceRecordView>,
)
    requires
        cleanup_observed(runtime, earlier) == Ok::<Seq<ResourceRecordView>, Seq<char>>(left),
        record.resource.kind == ResourceKind::AndroidEmulator,
        record.note("serial"@) == Some(runtime.serial),
    ensures
        record.note("avd"@) == Some(runtime.avd) ==> cleanup_observed(
            runtime,
            earlier.push(record),
        ) == Ok::<Seq<ResourceRecordView>, Seq<char>>(left.push(record)),
        record.note("avd"@) is Some && record.note("avd"@) != Some(runtime.avd)
            ==> cleanup_observed(runtime, earlier.push(record)) is Err,
{
    assert(earlier.push(record).drop_last() =~= earlier);
}

} // verus!
