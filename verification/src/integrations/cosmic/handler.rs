//! The action that sets the tiling of a workspace.
use vstd::prelude::*;
use vstd::string::*;
use crate::domain::{
    identity_of, mutation_of, named_target, record_of, ActionKind, ActionSpec, ActionSpecView,
    CompensationOperation, MutationRecord, MutationRecordView, OwnershipStatus, ResourceIdentity,
    ResourceKind, ResourceRecord, ResourceRecordView, TilingPreference, WorkspaceTarget,
    WorkspaceTargetView,
};
use crate::error::{error_of, seen, ErrorCategory, WorkstateError, WorkstateErrorView};
use crate::planner::{
    log_lines, logged, nothing_done, observed_change, observed_correct, registering,
    ActionExecutionResult, ActionExecutionResultView, ActionHandlerRegistry, ActionObservation,
    ActionObservationView, CompensationResult, CompensationResultView, ObservationStatus,
};
use crate::platform::detection::support::{set_of, CapabilityId, CapabilitySet};
use crate::ports::{
    resolved_to, resolved_to_none, DesktopOperationStatus, DesktopSnapshot, DesktopSnapshotView,
    DesktopWorkspaceResolution, DesktopWorkspaceResolutionView, DesktopWorkspaceSnapshot,
    DesktopWorkspaceSnapshotView,
};
use crate::text::{
    decimal, has_prefix, is_blank, is_white, join3, join4, law_trim_takes_only_white_space,
    same_text, text_decimal, text_starts_with,
};
use crate::time::{span_of_millis, TimeSpan};
use crate::values::{
    append, empty_list, lemma_filter_ends, lemma_filter_step, list_of, option_is_text, rest,
    Replicate,
};

verus! {

/// The handler of the actions that set the tiling of a workspace.
#[derive(Debug, Clone, Copy, PartialEq, Eq)]
pub struct WorkspaceHandler {}

/// The error of an integration that cannot go on.
pub open spec fn tiling_error(message: Seq<char>) -> WorkstateErrorView {
    error_of(ErrorCategory::Integration, message)
}

pub open spec fn wanted_tiling(action: ActionSpecView) -> TilingPreference {
    match action.resolved_tiling {
        Some(preference) => preference,
        None => TilingPreference::Unchanged,
    }
}

pub open spec fn target_missing() -> WorkstateErrorView {
    tiling_error("the action does not contain a resolved desktop workspace target"@)
}

/// The workspace that an action means.
pub open spec fn target_of(action: ActionSpecView) -> Result<WorkspaceTargetView, WorkstateErrorView> {
    match named_target(action) {
        Some(target) => Ok(target),
        None => Err(target_missing()),
    }
}

pub open spec fn tiling_unknown(workspace: Seq<char>) -> WorkstateErrorView {
    tiling_error("tiling state is unavailable for desktop workspace '"@ + workspace + "'"@)
}

/// Whether a workspace tiles as it should, where that is known.
pub open spec fn tiling_satisfied(
    workspace: DesktopWorkspaceSnapshotView,
    preference: TilingPreference,
) -> Result<bool, WorkstateErrorView> {
    match (preference, workspace.tiling_enabled) {
        (TilingPreference::Unchanged, _) => Ok(true),
        (_, None) => Err(tiling_unknown(workspace.identity)),
        (TilingPreference::Enabled, Some(enabled)) => Ok(enabled),
        (TilingPreference::Disabled, Some(enabled)) => Ok(!enabled),
    }
}

/// The record of a workspace that an action used or made.
pub open spec fn workspace_recorded(
    action: ActionSpecView,
    workspace: DesktopWorkspaceSnapshotView,
    ownership: OwnershipStatus,
    observed_before: bool,
) -> Result<ResourceRecordView, WorkstateErrorView> {
    match identity_of(ResourceKind::DesktopWorkspace, workspace.identity) {
        Err(error) => Err(error),
        Ok(identity) => Ok(
            record_of(
                identity,
                ownership,
                action.id,
                observed_before,
                action.cleanup_policy,
            ).noting(
                "workspace_name"@,
                match workspace.name {
                    Some(name) => name,
                    None => Seq::empty(),
                },
            ),
        ),
    }
}

/// The workspaces of a name.
pub open spec fn workspaces_called(workspaces: Seq<DesktopWorkspaceSnapshotView>, name: Seq<char>) -> Seq<
    DesktopWorkspaceSnapshotView,
> {
    workspaces.filter(|workspace: DesktopWorkspaceSnapshotView| workspace.name == Some(name))
}

/// The workspace that would be created, where one of its name is there already.
pub open spec fn creation_observed(snapshot: DesktopSnapshotView, name: Seq<char>) -> Result<
    DesktopWorkspaceResolutionView,
    WorkstateErrorView,
> {
    let found = workspaces_called(snapshot.workspaces, name);
    if found.len() == 0 {
        Ok(resolved_to_none())
    } else if found.len() == 1 {
        Ok(resolved_to(found[0]))
    } else {
        Err(
            error_of(
                ErrorCategory::Platform,
                "the requested desktop workspace name is ambiguous"@,
            ).with("name"@, name).with("matches"@, decimal(found.len())),
        )
    }
}

/// The workspace that an action means, in a snapshot: one that would be created is looked for by its
/// name, any other is what the target was resolved to.
pub open spec fn workspace_observed(
    snapshot: DesktopSnapshotView,
    target: WorkspaceTargetView,
    resolved: Result<DesktopWorkspaceResolutionView, WorkstateErrorView>,
) -> Result<DesktopWorkspaceResolutionView, WorkstateErrorView> {
    match target {
        WorkspaceTargetView::Create { name } => creation_observed(snapshot, name),
        _ => resolved,
    }
}

/// What is observed of a workspace that was looked for.
pub open spec fn tiling_judged(
    action: ActionSpecView,
    resolution: DesktopWorkspaceResolutionView,
) -> Result<ActionObservationView, WorkstateErrorView> {
    match resolution.workspace {
        None => Ok(observed_change()),
        Some(workspace) => match tiling_satisfied(workspace, wanted_tiling(action)) {
            Err(error) => Err(error),
            Ok(satisfied) => match workspace_recorded(
                action,
                workspace,
                OwnershipStatus::ReusedExisting,
                true,
            ) {
                Err(error) => Err(error),
                Ok(record) => Ok(
                    if satisfied {
                        observed_correct().holding(seq![record])
                    } else {
                        observed_change().holding(seq![record])
                    },
                ),
            },
        },
    }
}

/// What an observation begins with: it is settled, or the workspace is looked for.
#[derive(Debug)]
pub enum TilingLook {
    Settled(ActionObservation),
    LookFor(WorkspaceTarget),
}

/// What a `TilingLook` stands for.
#[verifier::ext_equal]
pub enum TilingLookView {
    Settled(ActionObservationView),
    LookFor(WorkspaceTargetView),
}

impl View for TilingLook {
    type V = TilingLookView;

    open spec fn view(&self) -> TilingLookView {
        match self {
            TilingLook::Settled(value) => TilingLookView::Settled(value.deep_view()),
            TilingLook::LookFor(value) => TilingLookView::LookFor(value.deep_view()),
        }
    }
}

impl DeepView for TilingLook {
    type V = TilingLookView;

    open spec fn deep_view(&self) -> TilingLookView {
        self.view()
    }
}

/// What an observation begins with.
pub open spec fn tiling_looked(action: ActionSpecView) -> Result<TilingLookView, WorkstateErrorView> {
    match target_of(action) {
        Err(error) => Err(error),
        Ok(target) => if wanted_tiling(action) == TilingPreference::Unchanged {
            Ok(TilingLookView::Settled(observed_correct()))
        } else {
            Ok(TilingLookView::LookFor(target))
        },
    }
}

fn wanted_tiling_of(action: &ActionSpec) -> (r: TilingPreference)
    ensures
        r == wanted_tiling(action@),
{
    match action.resolved_tiling {
        Some(preference) => preference,
        None => TilingPreference::Unchanged,
    }
}

fn unknown_tiling(workspace: &str) -> (r: WorkstateError)
    ensures
        r@ == tiling_unknown(workspace@),
{
    WorkstateError::new(
        ErrorCategory::Integration,
        join3("tiling state is unavailable for desktop workspace '", workspace, "'").as_str(),
    )
}

fn tiling_matches(workspace: &DesktopWorkspaceSnapshot, preference: TilingPreference) -> (r: Result<
    bool,
    WorkstateError,
>)
    ensures
        seen(r) == tiling_satisfied(workspace@, preference),
{
    match (preference, workspace.tiling_enabled) {
        (TilingPreference::Unchanged, _) => Ok(true),
        (_, None) => Err(unknown_tiling(workspace.identity.as_str())),
        (TilingPreference::Enabled, Some(enabled)) => Ok(enabled),
        (TilingPreference::Disabled, Some(enabled)) => Ok(!enabled),
    }
}

fn workspace_record(
    action: &ActionSpec,
    workspace: &DesktopWorkspaceSnapshot,
    ownership: OwnershipStatus,
    observed_before: bool,
) -> (r: Result<ResourceRecord, WorkstateError>)
    ensures
        seen(r) == workspace_recorded(action@, workspace@, ownership, observed_before),
{
    match ResourceIdentity::new(ResourceKind::DesktopWorkspace, workspace.identity.clone()) {
        Err(error) => Err(error),
        Ok(identity) => {
            let mut record = ResourceRecord::of_action(
                identity,
                ownership,
                action.id.as_str(),
                observed_before,
                action.cleanup_policy,
            );
            let name = match &workspace.name {
                Some(name) => name.clone(),
                None => {
                    let empty = "".to_owned();
                    proof {
                        reveal_strlit("");
                        assert(empty@ =~= Seq::<char>::empty());
                    }
                    empty
                },
            };
            record.note("workspace_name", name.as_str());
            Ok(record)
        },
    }
}

fn called(workspaces: &Vec<DesktopWorkspaceSnapshot>, name: &str) -> (r: Vec<
    DesktopWorkspaceSnapshot,
>)
    ensures
        r.deep_view() == workspaces_called(workspaces.deep_view(), name@),
{
    let mut found: Vec<DesktopWorkspaceSnapshot> = empty_list();
    let mut i: usize = 0;
    let ghost all = workspaces.deep_view();
    let ghost keep = |workspace: DesktopWorkspaceSnapshotView| workspace.name == Some(name@);
    proof {
        lemma_filter_ends(all, keep);
    }
    while i < workspaces.len()
        invariant
            i <= workspaces@.len(),
            all == workspaces.deep_view(),
            keep == (|workspace: DesktopWorkspaceSnapshotView| workspace.name == Some(name@)),
            found.deep_view() == all.take(i as int).filter(keep),
        decreases workspaces@.len() - i,
    {
        assert(all[i as int] == workspaces@[i as int]@);
        proof {
            lemma_filter_step(all, i as int, keep);
        }
        if option_is_text(&workspaces[i].name, name) {
            append(&mut found, workspaces[i].replicate());
        }
        i = i + 1;
    }
    proof {
        lemma_filter_ends(all, keep);
        assert(all.take(i as int) =~= all);
    }
    found
}

impl WorkspaceHandler {
    /// The handler of the actions that set the tiling of a workspace.
    pub fn tiling() -> (r: Self) {
        WorkspaceHandler {  }
    }

    /// The kind of actions that the handler carries out.
    pub fn action_key(&self) -> (r: &'static str)
        ensures
            r@ == "configure_tiling"@,
    {
        "configure_tiling"
    }

    /// What the handler needs of the platform.
    pub fn required_capabilities(&self) -> (r: CapabilitySet)
        ensures
            r@ == set_of(seq![CapabilityId::DesktopTiling]),
    {
        let mut required: Vec<CapabilityId> = Vec::new();
        required.push(CapabilityId::DesktopTiling);
        assert(required@ =~= seq![CapabilityId::DesktopTiling]);
        CapabilitySet::of(&required)
    }

    /// Refuses an action of another kind.
    pub fn validate(&self, action: &ActionSpec) -> (r: Result<(), WorkstateError>)
        ensures
            seen(r) == (if action@.kind != ActionKind::ConfigureTiling {
                Err::<(), WorkstateErrorView>(
                    tiling_error(
                        "workspace handler cannot execute action kind '"@ + action@.kind.key_text()
                            + "'"@,
                    ),
                )
            } else {
                Ok(())
            }),
    {
        if action.kind != ActionKind::ConfigureTiling {
            return Err(
                WorkstateError::new(
                    ErrorCategory::Integration,
                    join3(
                        "workspace handler cannot execute action kind '",
                        action.kind.key(),
                        "'",
                    ).as_str(),
                ),
            );
        }
        Ok(())
    }

    /// The workspace that an action means.
    pub fn target_for(&self, action: &ActionSpec) -> (r: Result<WorkspaceTarget, WorkstateError>)
        ensures
            seen(r) == target_of(action@),
    {
        match action.workspace_target() {
            Some(target) => Ok(target),
            None => Err(
                WorkstateError::new(
                    ErrorCategory::Integration,
                    "the action does not contain a resolved desktop workspace target",
                ),
            ),
        }
    }

    /// What an observation begins with.
    pub fn observe(&self, action: &ActionSpec) -> (r: Result<TilingLook, WorkstateError>)
        ensures
            seen(r) == tiling_looked(action@),
    {
        let target = match self.target_for(action) {
            Err(error) => {
                return Err(error);
            },
            Ok(target) => target,
        };
        if wanted_tiling_of(action) == TilingPreference::Unchanged {
            Ok(TilingLook::Settled(ActionObservation::already_correct()))
        } else {
            Ok(TilingLook::LookFor(target))
        }
    }

    /// The workspace that an action means, in a snapshot, given what the target was resolved to.
    pub fn observed_workspace(
        &self,
        snapshot: &DesktopSnapshot,
        target: &WorkspaceTarget,
        resolved: Result<DesktopWorkspaceResolution, WorkstateError>,
    ) -> (r: Result<DesktopWorkspaceResolution, WorkstateError>)
        ensures
            seen(r) == workspace_observed(snapshot@, target@, seen(resolved)),
    {
        match target {
            WorkspaceTarget::Create { name } => {
                let found = called(&snapshot.workspaces, name.as_str());
                assert(found.deep_view().len() == found@.len());
                if found.len() == 0 {
                    Ok(DesktopWorkspaceResolution::none())
                } else if found.len() == 1 {
                    assert(found.deep_view()[0] == found@[0]@);
                    Ok(DesktopWorkspaceResolution::existing(found[0].replicate()))
                } else {
                    Err(
                        WorkstateError::new(
                            ErrorCategory::Platform,
                            "the requested desktop workspace name is ambiguous",
                        ).with_context("name", name.as_str()).with_context(
                            "matches",
                            text_decimal(found.len() as u128).as_str(),
                        ),
                    )
                }
            },
            _ => resolved,
        }
    }

    /// What is observed of the workspace that was looked for.
    pub fn judge(&self, action: &ActionSpec, resolution: &DesktopWorkspaceResolution) -> (r: Result<
        ActionObservation,
        WorkstateError,
    >)
        ensures
            seen(r) == tiling_judged(action@, resolution@),
    {
        let workspace = match &resolution.workspace {
            None => {
                return Ok(ActionObservation::requires_change());
            },
            Some(workspace) => workspace,
        };
        let satisfied = match tiling_matches(workspace, wanted_tiling_of(action)) {
            Err(error) => {
                return Err(error);
            },
            Ok(satisfied) => satisfied,
        };
        match workspace_record(action, workspace, OwnershipStatus::ReusedExisting, true) {
            Err(error) => Err(error),
            Ok(record) => if satisfied {
                Ok(ActionObservation::already_correct().with_resources(list_of(record)))
            } else {
                Ok(ActionObservation::requires_change().with_resources(list_of(record)))
            },
        }
    }
}

/// The time that an action has.
pub open spec fn tiling_timeout(action: ActionSpecView, default_timeout: TimeSpan) -> TimeSpan {
    match action.timeout {
        Some(timeout) => span_of_millis(timeout.milliseconds),
        None => default_timeout,
    }
}

/// The time that an action has.
pub fn action_timeout(action: &ActionSpec, default_timeout: TimeSpan) -> (r: TimeSpan)
    ensures
        r == tiling_timeout(action@, default_timeout),
{
    match &action.timeout {
        Some(timeout) => TimeSpan::from_millis(timeout.milliseconds),
        None => default_timeout,
    }
}

// ---------------------------------------------------------------------------------------------
// Setting the tiling
// ---------------------------------------------------------------------------------------------
/// What the work is waiting for.
#[derive(Debug, Clone, Copy, PartialEq, Eq, Structural)]
pub enum TilingPhase {
    Workspace,
    Change,
    Refresh,
    Over,
}

impl DeepView for TilingPhase {
    type V = TilingPhase;

    open spec fn deep_view(&self) -> TilingPhase {
        *self
    }
}

impl Replicate for TilingPhase {
    fn replicate(&self) -> (r: Self) {
        *self
    }
}

/// Setting the tiling of a workspace. `workspace` and `created` are known once the workspace is there.
#[derive(Debug)]
pub struct TilingApply {
    pub action: ActionSpec,
    pub workspace: Option<DesktopWorkspaceSnapshot>,
    pub created: bool,
    pub phase: TilingPhase,
}

/// What a `TilingApply` stands for.
#[verifier::ext_equal]
pub struct TilingApplyView {
    pub action: ActionSpecView,
    pub workspace: Option<DesktopWorkspaceSnapshotView>,
    pub created: bool,
    pub phase: TilingPhase,
}

impl View for TilingApply {
    type V = TilingApplyView;

    open spec fn view(&self) -> TilingApplyView {
        TilingApplyView {
            action: self.action.deep_view(),
            workspace: self.workspace.deep_view(),
            created: self.created.deep_view(),
            phase: self.phase.deep_view(),
        }
    }
}

impl DeepView for TilingApply {
    type V = TilingApplyView;

    open spec fn deep_view(&self) -> TilingApplyView {
        self.view()
    }
}

impl Replicate for TilingApply {
    fn replicate(&self) -> (r: Self) {
        TilingApply {
            action: self.action.replicate(),
            workspace: self.workspace.replicate(),
            created: self.created.replicate(),
            phase: self.phase.replicate(),
        }
    }
}

/// What the desktop replied.
#[derive(Debug)]
pub enum TilingEvent {
    Ensured(DesktopWorkspaceResolution),
    Changed,
    Snapshot(DesktopSnapshot),
    Failed(WorkstateError),
}

/// What a `TilingEvent` stands for.
#[verifier::ext_equal]
pub enum TilingEventView {
    Ensured(DesktopWorkspaceResolutionView),
    Changed,
    Snapshot(DesktopSnapshotView),
    Failed(WorkstateErrorView),
}

impl View for TilingEvent {
    type V = TilingEventView;

    open spec fn view(&self) -> TilingEventView {
        match self {
            TilingEvent::Ensured(value) => TilingEventView::Ensured(value.deep_view()),
            TilingEvent::Changed => TilingEventView::Changed,
            TilingEvent::Snapshot(value) => TilingEventView::Snapshot(value.deep_view()),
            TilingEvent::Failed(value) => TilingEventView::Failed(value.deep_view()),
        }
    }
}

impl DeepView for TilingEvent {
    type V = TilingEventView;

    open spec fn deep_view(&self) -> TilingEventView {
        self.view()
    }
}

/// What is asked of the desktop next.
#[derive(Debug)]
pub enum TilingStep {
    Ensure(WorkspaceTarget),
    SetTiling { workspace: String, enabled: bool },
    Snapshot,
    Finish(ActionExecutionResult),
    Fail(WorkstateError),
    Idle,
}

/// What a `TilingStep` stands for.
#[verifier::ext_equal]
pub enum TilingStepView {
    Ensure(WorkspaceTargetView),
    SetTiling { workspace: Seq<char>, enabled: bool },
    Snapshot,
    Finish(ActionExecutionResultView),
    Fail(WorkstateErrorView),
    Idle,
}

impl View for TilingStep {
    type V = TilingStepView;

    open spec fn view(&self) -> TilingStepView {
        match self {
            TilingStep::Ensure(value) => TilingStepView::Ensure(value.deep_view()),
            TilingStep::SetTiling { workspace, enabled } => TilingStepView::SetTiling { workspace: workspace.deep_view(), enabled: enabled.deep_view() },
            TilingStep::Snapshot => TilingStepView::Snapshot,
            TilingStep::Finish(value) => TilingStepView::Finish(value.deep_view()),
            TilingStep::Fail(value) => TilingStepView::Fail(value.deep_view()),
            TilingStep::Idle => TilingStepView::Idle,
        }
    }
}

impl DeepView for TilingStep {
    type V = TilingStepView;

    open spec fn deep_view(&self) -> TilingStepView {
        self.view()
    }
}

/// The work and what it asks of the desktop.
pub type TilingMove = (TilingApplyView, TilingStepView);

pub open spec fn enabled_word(enabled: bool) -> Seq<char> {
    if enabled {
        "enabled"@
    } else {
        "disabled"@
    }
}

fn enabled_name(enabled: bool) -> (r: &'static str)
    ensures
        r@ == enabled_word(enabled),
{
    if enabled {
        "enabled"
    } else {
        "disabled"
    }
}

/// A truth value as text.
pub open spec fn bool_text(value: bool) -> Seq<char> {
    if value {
        "true"@
    } else {
        "false"@
    }
}

fn bool_name(value: bool) -> (r: String)
    ensures
        r@ == bool_text(value),
{
    if value {
        "true".to_owned()
    } else {
        "false".to_owned()
    }
}

/// The truth value of a text.
pub open spec fn bool_read(text: Option<Seq<char>>) -> Option<bool> {
    match text {
        Some(text) => if text == "true"@ {
            Some(true)
        } else if text == "false"@ {
            Some(false)
        } else {
            None
        },
        None => None,
    }
}

fn parse_bool(text: &Option<String>) -> (r: Option<bool>)
    ensures
        r == bool_read(text.deep_view()),
{
    match text {
        Some(text) => if same_text(text.as_str(), "true") {
            Some(true)
        } else if same_text(text.as_str(), "false") {
            Some(false)
        } else {
            None
        },
        None => None,
    }
}

/// The lines that end with what was done.
pub open spec fn tiling_lines(workspace: Seq<char>, done: Seq<char>) -> Seq<Seq<char>> {
    seq![
        "inspected desktop workspaces and windows"@,
        "resolved desktop workspace '"@ + workspace + "'"@,
        done,
    ]
}

fn lines_of_tiling(workspace: &str, done: String) -> (r: Vec<String>)
    ensures
        r.deep_view() == tiling_lines(workspace@, done@),
{
    let mut lines = list_of("inspected desktop workspaces and windows".to_owned());
    append(&mut lines, join3("resolved desktop workspace '", workspace, "'"));
    append(&mut lines, done);
    assert(lines.deep_view() =~= tiling_lines(workspace@, done@));
    lines
}

/// The target of the record of a change.
pub open spec fn tiling_change_target(workspace: Seq<char>) -> Seq<char> {
    "desktop.workspace."@ + workspace + ".tiling"@
}

impl TilingApplyView {
    pub open spec fn to(self, phase: TilingPhase, step: TilingStepView) -> TilingMove {
        (TilingApplyView { phase, ..self }, step)
    }

    pub open spec fn failed(self, error: WorkstateErrorView) -> TilingMove {
        self.to(TilingPhase::Over, TilingStepView::Fail(error))
    }

    pub open spec fn finished(self, result: ActionExecutionResultView) -> TilingMove {
        self.to(TilingPhase::Over, TilingStepView::Finish(result))
    }

    pub open spec fn enables(self) -> bool {
        wanted_tiling(self.action) == TilingPreference::Enabled
    }

    /// The record of the workspace.
    pub open spec fn recorded(self, workspace: DesktopWorkspaceSnapshotView) -> Result<
        ResourceRecordView,
        WorkstateErrorView,
    > {
        workspace_recorded(
            self.action,
            workspace,
            if self.created {
                OwnershipStatus::CreatedByCurrentRun
            } else {
                OwnershipStatus::ReusedExisting
            },
            !self.created,
        )
    }

    /// Once the workspace is there: nothing is to be done where no tiling is asked for; a workspace
    /// that tiles as it should is left alone.
    pub open spec fn after_ensure(self, resolution: DesktopWorkspaceResolutionView) -> TilingMove {
        match resolution.workspace {
            None => self.finished(nothing_done()),
            Some(workspace) => if wanted_tiling(self.action) == TilingPreference::Unchanged {
                self.finished(nothing_done())
            } else {
                match workspace.tiling_enabled {
                    None => self.failed(tiling_unknown(workspace.identity)),
                    Some(current) => {
                        let work = TilingApplyView {
                            workspace: Some(workspace),
                            created: resolution.status == DesktopOperationStatus::Created,
                            ..self
                        };
                        match work.recorded(workspace) {
                            Err(error) => work.failed(error),
                            Ok(record) => if current == self.enables() {
                                work.finished(
                                    ActionExecutionResultView {
                                        changed: false,
                                        resources: seq![record],
                                        mutations: Seq::empty(),
                                        outputs: log_lines(
                                            tiling_lines(
                                                workspace.identity,
                                                "desktop workspace '"@ + workspace.identity
                                                    + "' already has tiling "@ + enabled_word(
                                                    self.enables(),
                                                ),
                                            ),
                                        ),
                                    },
                                )
                            } else {
                                work.to(
                                    TilingPhase::Change,
                                    TilingStepView::SetTiling {
                                        workspace: workspace.identity,
                                        enabled: self.enables(),
                                    },
                                )
                            },
                        }
                    },
                }
            },
        }
    }

    /// What was done, once a fresh snapshot shows it.
    pub open spec fn changed(
        self,
        workspace: DesktopWorkspaceSnapshotView,
        current: bool,
        record: ResourceRecordView,
    ) -> Result<ActionExecutionResultView, WorkstateErrorView> {
        match mutation_of(
            tiling_change_target(workspace.identity),
            self.action.id,
            record.resource,
            Some(bool_text(current)),
            bool_text(self.enables()),
            self.action.cleanup_policy,
        ) {
            Err(error) => Err(error),
            Ok(mutation) => Ok(
                ActionExecutionResultView {
                    changed: true,
                    resources: seq![record],
                    mutations: seq![mutation],
                    outputs: log_lines(
                        tiling_lines(
                            workspace.identity,
                            "set desktop workspace '"@ + workspace.identity + "' tiling to "@
                                + enabled_word(self.enables()),
                        ),
                    ),
                },
            ),
        }
    }

    /// After the change: a fresh snapshot must show it.
    pub open spec fn after_refresh(self, snapshot: DesktopSnapshotView) -> TilingMove {
        match self.workspace {
            None => self.finished(nothing_done()),
            Some(workspace) => match snapshot.workspace(workspace.identity) {
                None => self.failed(
                    tiling_error(
                        "desktop workspace '"@ + workspace.identity
                            + "' disappeared after its tiling change"@,
                    ),
                ),
                Some(updated) => if updated.tiling_enabled != Some(self.enables()) {
                    self.failed(
                        tiling_error(
                            "desktop workspace '"@ + workspace.identity
                                + "' did not confirm tiling "@ + enabled_word(self.enables()),
                        ),
                    )
                } else {
                    match (workspace.tiling_enabled, self.recorded(workspace)) {
                        (_, Err(error)) => self.failed(error),
                        (None, Ok(_)) => self.failed(tiling_unknown(workspace.identity)),
                        (Some(current), Ok(record)) => match self.changed(
                            workspace,
                            current,
                            record,
                        ) {
                            Err(error) => self.failed(error),
                            Ok(result) => self.finished(result),
                        },
                    }
                },
            },
        }
    }

    /// What follows a reply. A reply that does not belong to what the work is waiting for changes
    /// nothing.
    pub open spec fn next(self, event: TilingEventView) -> TilingMove {
        match (self.phase, event) {
            (TilingPhase::Over, _) => (self, TilingStepView::Idle),
            (_, TilingEventView::Failed(error)) => self.failed(error),
            (TilingPhase::Workspace, TilingEventView::Ensured(resolution)) => self.after_ensure(
                resolution,
            ),
            (TilingPhase::Change, TilingEventView::Changed) => self.to(
                TilingPhase::Refresh,
                TilingStepView::Snapshot,
            ),
            (TilingPhase::Refresh, TilingEventView::Snapshot(snapshot)) => self.after_refresh(
                snapshot,
            ),
            _ => (self, TilingStepView::Idle),
        }
    }
}

/// The work at its beginning.
pub open spec fn tiling_begun(action: ActionSpecView) -> TilingMove {
    let work = TilingApplyView {
        action,
        workspace: None,
        created: false,
        phase: TilingPhase::Workspace,
    };
    match target_of(action) {
        Err(error) => work.failed(error),
        Ok(target) => (work, TilingStepView::Ensure(target)),
    }
}

impl TilingApply {
    /// Begins with the workspace that the action means.
    pub fn begin(action: ActionSpec) -> (r: (TilingApply, TilingStep))
        ensures
            (r.0@, r.1@) == tiling_begun(action@),
    {
        let target = WorkspaceHandler::tiling().target_for(&action);
        let work = TilingApply {
            action,
            workspace: None,
            created: false,
            phase: TilingPhase::Workspace,
        };
        match target {
            Err(error) => work.failed(error),
            Ok(target) => (work, TilingStep::Ensure(target)),
        }
    }

    fn to(self, phase: TilingPhase, step: TilingStep) -> (r: (TilingApply, TilingStep))
        ensures
            (r.0@, r.1@) == self@.to(phase, step@),
    {
        (
            TilingApply {
                action: self.action,
                workspace: self.workspace,
                created: self.created,
                phase,
            },
            step,
        )
    }

    fn failed(self, error: WorkstateError) -> (r: (TilingApply, TilingStep))
        ensures
            (r.0@, r.1@) == self@.failed(error@),
    {
        self.to(TilingPhase::Over, TilingStep::Fail(error))
    }

    fn finished(self, result: ActionExecutionResult) -> (r: (TilingApply, TilingStep))
        ensures
            (r.0@, r.1@) == self@.finished(result@),
    {
        self.to(TilingPhase::Over, TilingStep::Finish(result))
    }

    fn enables(&self) -> (r: bool)
        ensures
            r == self@.enables(),
    {
        wanted_tiling_of(&self.action) == TilingPreference::Enabled
    }

    fn recorded(&self, workspace: &DesktopWorkspaceSnapshot) -> (r: Result<
        ResourceRecord,
        WorkstateError,
    >)
        ensures
            seen(r) == self@.recorded(workspace@),
    {
        let ownership = if self.created {
            OwnershipStatus::CreatedByCurrentRun
        } else {
            OwnershipStatus::ReusedExisting
        };
        workspace_record(&self.action, workspace, ownership, !self.created)
    }

    fn after_ensure(self, resolution: DesktopWorkspaceResolution) -> (r: (TilingApply, TilingStep))
        ensures
            (r.0@, r.1@) == self@.after_ensure(resolution@),
    {
        let workspace = match resolution.workspace {
            None => {
                return self.finished(ActionExecutionResult::nothing());
            },
            Some(workspace) => workspace,
        };
        if wanted_tiling_of(&self.action) == TilingPreference::Unchanged {
            return self.finished(ActionExecutionResult::nothing());
        }
        let current = match workspace.tiling_enabled {
            None => {
                return self.failed(unknown_tiling(workspace.identity.as_str()));
            },
            Some(current) => current,
        };
        let enabled = self.enables();
        let identity = workspace.identity.clone();
        let work = TilingApply {
            action: self.action,
            workspace: Some(workspace.replicate()),
            created: resolution.status == DesktopOperationStatus::Created,
            phase: self.phase,
        };
        let record = match work.recorded(&workspace) {
            Err(error) => {
                return work.failed(error);
            },
            Ok(record) => record,
        };
        if current == enabled {
            let done = join4(
                "desktop workspace '",
                identity.as_str(),
                "' already has tiling ",
                enabled_name(enabled),
            );
            let outputs = logged(&lines_of_tiling(identity.as_str(), done));
            return work.finished(
                ActionExecutionResult {
                    changed: false,
                    resources: list_of(record),
                    mutations: empty_list(),
                    outputs,
                },
            );
        }
        work.to(
            TilingPhase::Change,
            TilingStep::SetTiling { workspace: identity, enabled },
        )
    }

    fn changed(
        &self,
        workspace: &DesktopWorkspaceSnapshot,
        current: bool,
        record: ResourceRecord,
    ) -> (r: Result<ActionExecutionResult, WorkstateError>)
        ensures
            seen(r) == self@.changed(workspace@, current, record@),
    {
        let identity = workspace.identity.as_str();
        let enabled = self.enables();
        match MutationRecord::of_action(
            join3("desktop.workspace.", identity, ".tiling"),
            self.action.id.as_str(),
            record.resource.replicate(),
            Some(bool_name(current)),
            bool_name(enabled),
            self.action.cleanup_policy,
        ) {
            Err(error) => Err(error),
            Ok(mutation) => {
                let done = join4(
                    "set desktop workspace '",
                    identity,
                    "' tiling to ",
                    enabled_name(enabled),
                );
                Ok(
                    ActionExecutionResult {
                        changed: true,
                        resources: list_of(record),
                        mutations: list_of(mutation),
                        outputs: logged(&lines_of_tiling(identity, done)),
                    },
                )
            },
        }
    }

    fn after_refresh(self, snapshot: DesktopSnapshot) -> (r: (TilingApply, TilingStep))
        ensures
            (r.0@, r.1@) == self@.after_refresh(snapshot@),
    {
        let workspace = match &self.workspace {
            None => {
                return self.finished(ActionExecutionResult::nothing());
            },
            Some(workspace) => workspace.replicate(),
        };
        let enabled = self.enables();
        let updated = match snapshot.workspace(workspace.identity.as_str()) {
            None => {
                return self.failed(
                    WorkstateError::new(
                        ErrorCategory::Integration,
                        join3(
                            "desktop workspace '",
                            workspace.identity.as_str(),
                            "' disappeared after its tiling change",
                        ).as_str(),
                    ),
                );
            },
            Some(updated) => updated,
        };
        let confirmed = match updated.tiling_enabled {
            Some(found) => found == enabled,
            None => false,
        };
        if !confirmed {
            return self.failed(
                WorkstateError::new(
                    ErrorCategory::Integration,
                    join4(
                        "desktop workspace '",
                        workspace.identity.as_str(),
                        "' did not confirm tiling ",
                        enabled_name(enabled),
                    ).as_str(),
                ),
            );
        }
        let record = match self.recorded(&workspace) {
            Err(error) => {
                return self.failed(error);
            },
            Ok(record) => record,
        };
        match workspace.tiling_enabled {
            None => self.failed(unknown_tiling(workspace.identity.as_str())),
            Some(current) => match self.changed(&workspace, current, record) {
                Err(error) => self.failed(error),
                Ok(result) => self.finished(result),
            },
        }
    }

    /// What follows a reply. A reply that does not belong to what the work is waiting for changes
    /// nothing.
    pub fn advance(self, event: TilingEvent) -> (r: (TilingApply, TilingStep))
        ensures
            (r.0@, r.1@) == self@.next(event@),
    {
        match (self.phase, event) {
            (TilingPhase::Over, _) => (self, TilingStep::Idle),
            (_, TilingEvent::Failed(error)) => self.failed(error),
            (TilingPhase::Workspace, TilingEvent::Ensured(resolution)) => self.after_ensure(
                resolution,
            ),
            (TilingPhase::Change, TilingEvent::Changed) => self.to(
                TilingPhase::Refresh,
                TilingStep::Snapshot,
            ),
            (TilingPhase::Refresh, TilingEvent::Snapshot(snapshot)) => self.after_refresh(snapshot),
            _ => (self, TilingStep::Idle),
        }
    }
}

// ---------------------------------------------------------------------------------------------
// Undoing
// ---------------------------------------------------------------------------------------------
/// What the work is waiting for.
#[derive(Debug, Clone, Copy, PartialEq, Eq, Structural)]
pub enum TilingUndoPhase {
    Look,
    Restore,
    Delete,
    Over,
}

impl DeepView for TilingUndoPhase {
    type V = TilingUndoPhase;

    open spec fn deep_view(&self) -> TilingUndoPhase {
        *self
    }
}

impl Replicate for TilingUndoPhase {
    fn replicate(&self) -> (r: Self) {
        *self
    }
}

/// Undoing changes to workspaces, and removing those that were made: the changes and the resources that are left, the one in front first, and what was said so far.
#[derive(Debug)]
pub struct TilingUndo {
    pub mutations: Vec<MutationRecord>,
    pub resources: Vec<ResourceRecord>,
    pub outputs: Vec<String>,
    pub phase: TilingUndoPhase,
}

/// What a `TilingUndo` stands for.
#[verifier::ext_equal]
pub struct TilingUndoView {
    pub mutations: Seq<MutationRecordView>,
    pub resources: Seq<ResourceRecordView>,
    pub outputs: Seq<Seq<char>>,
    pub phase: TilingUndoPhase,
}

impl View for TilingUndo {
    type V = TilingUndoView;

    open spec fn view(&self) -> TilingUndoView {
        TilingUndoView {
            mutations: self.mutations.deep_view(),
            resources: self.resources.deep_view(),
            outputs: self.outputs.deep_view(),
            phase: self.phase.deep_view(),
        }
    }
}

impl DeepView for TilingUndo {
    type V = TilingUndoView;

    open spec fn deep_view(&self) -> TilingUndoView {
        self.view()
    }
}

impl Replicate for TilingUndo {
    fn replicate(&self) -> (r: Self) {
        TilingUndo {
            mutations: self.mutations.replicate(),
            resources: self.resources.replicate(),
            outputs: self.outputs.replicate(),
            phase: self.phase.replicate(),
        }
    }
}

/// What the desktop replied.
#[derive(Debug)]
pub enum TilingUndoEvent {
    Snapshot(DesktopSnapshot),
    Restored,
    Deleted,
    Failed(WorkstateError),
}

/// What a `TilingUndoEvent` stands for.
#[verifier::ext_equal]
pub enum TilingUndoEventView {
    Snapshot(DesktopSnapshotView),
    Restored,
    Deleted,
    Failed(WorkstateErrorView),
}

impl View for TilingUndoEvent {
    type V = TilingUndoEventView;

    open spec fn view(&self) -> TilingUndoEventView {
        match self {
            TilingUndoEvent::Snapshot(value) => TilingUndoEventView::Snapshot(value.deep_view()),
            TilingUndoEvent::Restored => TilingUndoEventView::Restored,
            TilingUndoEvent::Deleted => TilingUndoEventView::Deleted,
            TilingUndoEvent::Failed(value) => TilingUndoEventView::Failed(value.deep_view()),
        }
    }
}

impl DeepView for TilingUndoEvent {
    type V = TilingUndoEventView;

    open spec fn deep_view(&self) -> TilingUndoEventView {
        self.view()
    }
}

/// What is asked of the desktop next.
#[derive(Debug)]
pub enum TilingUndoStep {
    Snapshot,
    Restore { workspace: String, enabled: bool },
    Delete { workspace: String },
    Finish(CompensationResult),
    Fail(WorkstateError),
    Idle,
}

/// What a `TilingUndoStep` stands for.
#[verifier::ext_equal]
pub enum TilingUndoStepView {
    Snapshot,
    Restore { workspace: Seq<char>, enabled: bool },
    Delete { workspace: Seq<char> },
    Finish(CompensationResultView),
    Fail(WorkstateErrorView),
    Idle,
}

impl View for TilingUndoStep {
    type V = TilingUndoStepView;

    open spec fn view(&self) -> TilingUndoStepView {
        match self {
            TilingUndoStep::Snapshot => TilingUndoStepView::Snapshot,
            TilingUndoStep::Restore { workspace, enabled } => TilingUndoStepView::Restore { workspace: workspace.deep_view(), enabled: enabled.deep_view() },
            TilingUndoStep::Delete { workspace } => TilingUndoStepView::Delete { workspace: workspace.deep_view() },
            TilingUndoStep::Finish(value) => TilingUndoStepView::Finish(value.deep_view()),
            TilingUndoStep::Fail(value) => TilingUndoStepView::Fail(value.deep_view()),
            TilingUndoStep::Idle => TilingUndoStepView::Idle,
        }
    }
}

impl DeepView for TilingUndoStep {
    type V = TilingUndoStepView;

    open spec fn deep_view(&self) -> TilingUndoStepView {
        self.view()
    }
}

/// The work and what it asks of the desktop.
pub type TilingUndoMove = (TilingUndoView, TilingUndoStepView);

/// A change to a workspace that its handler can undo.
pub open spec fn changes_workspace(mutation: MutationRecordView) -> bool {
    mutation.compensation != CompensationOperation::Nothing && has_prefix(
        mutation.target,
        "desktop.workspace."@,
    )
}

fn is_workspace_change(mutation: &MutationRecord) -> (r: bool)
    ensures
        r == changes_workspace(mutation@),
{
    mutation.compensation != CompensationOperation::Nothing && text_starts_with(
        mutation.target.as_str(),
        "desktop.workspace.",
    )
}

/// A workspace that the environment owns.
pub open spec fn owned_workspace(resource: ResourceRecordView) -> bool {
    resource.resource.kind == ResourceKind::DesktopWorkspace && resource.ownership.owned()
}

fn is_owned_workspace(resource: &ResourceRecord) -> (r: bool)
    ensures
        r == owned_workspace(resource@),
{
    resource.resource.kind == ResourceKind::DesktopWorkspace
        && resource.ownership.is_environment_owned()
}

impl TilingUndoView {
    pub open spec fn to(self, phase: TilingUndoPhase, step: TilingUndoStepView) -> TilingUndoMove {
        (TilingUndoView { phase, ..self }, step)
    }

    pub open spec fn failed(self, error: WorkstateErrorView) -> TilingUndoMove {
        self.to(TilingUndoPhase::Over, TilingUndoStepView::Fail(error))
    }

    /// The change in front is done with.
    pub open spec fn passing(self) -> TilingUndoView {
        TilingUndoView { mutations: self.mutations.drop_first(), ..self }
    }

    /// The change in front is done with, and something is said of it.
    pub open spec fn passing_with(self, line: Seq<char>) -> TilingUndoView {
        TilingUndoView {
            mutations: self.mutations.drop_first(),
            outputs: self.outputs.push(line),
            ..self
        }
    }

    /// The resource in front is done with.
    pub open spec fn leaving(self) -> TilingUndoView {
        TilingUndoView { resources: self.resources.drop_first(), ..self }
    }

    /// The next workspace that the environment owns is removed.
    pub open spec fn to_resource(self) -> TilingUndoMove
        decreases self.resources.len(),
    {
        if self.resources.len() == 0 {
            self.to(
                TilingUndoPhase::Over,
                TilingUndoStepView::Finish(
                    CompensationResultView { outputs: log_lines(self.outputs) },
                ),
            )
        } else if !owned_workspace(self.resources[0]) {
            self.leaving().to_resource()
        } else {
            self.to(
                TilingUndoPhase::Delete,
                TilingUndoStepView::Delete {
                    workspace: self.resources[0].resource.stable_identity,
                },
            )
        }
    }

    /// The desktop is looked at for the change in front; once no change is left, the resources follow.
    pub open spec fn to_front(self) -> TilingUndoMove
        decreases self.mutations.len(),
    {
        if self.mutations.len() == 0 {
            self.to_resource()
        } else if !changes_workspace(self.mutations[0]) {
            self.passing().to_front()
        } else if bool_read(self.mutations[0].previous_value) is None {
            self.passing_with(
                "preserved desktop mutation '"@ + self.mutations[0].target
                    + "' because its previous value is unavailable"@,
            ).to_front()
        } else if self.mutations[0].resource is None {
            self.passing_with(
                "preserved desktop mutation '"@ + self.mutations[0].target
                    + "' because its workspace identity is unavailable"@,
            ).to_front()
        } else {
            self.to(TilingUndoPhase::Look, TilingUndoStepView::Snapshot)
        }
    }

    /// After the desktop was looked at: the tiling is restored only where it is still what it was
    /// set to.
    pub open spec fn after_look(self, snapshot: DesktopSnapshotView) -> TilingUndoMove {
        if self.mutations.len() == 0 {
            self.to_front()
        } else {
            match (
                self.mutations[0].resource,
                bool_read(self.mutations[0].previous_value),
            ) {
                (Some(resource), Some(previous)) => match snapshot.workspace(
                    resource.stable_identity,
                ) {
                    None => self.passing_with(
                        "preserved desktop workspace '"@ + resource.stable_identity
                            + "' because it no longer exists"@,
                    ).to_front(),
                    Some(workspace) => match (
                        bool_read(self.mutations[0].applied_value),
                        workspace.tiling_enabled,
                    ) {
                        (Some(applied), Some(found)) if found != applied => self.passing_with(
                            "preserved desktop workspace '"@ + workspace.identity
                                + "' because its tiling was changed after Workstate"@,
                        ).to_front(),
                        _ => self.to(
                            TilingUndoPhase::Restore,
                            TilingUndoStepView::Restore {
                                workspace: workspace.identity,
                                enabled: previous,
                            },
                        ),
                    },
                },
                _ => self.to_front(),
            }
        }
    }

    /// After the tiling was restored.
    pub open spec fn after_restore(self) -> TilingUndoMove {
        if self.mutations.len() == 0 {
            self.to_front()
        } else {
            match self.mutations[0].resource {
                Some(resource) => self.passing_with(
                    "restored desktop workspace '"@ + resource.stable_identity + "' tiling"@,
                ).to_front(),
                None => self.passing().to_front(),
            }
        }
    }

    /// After a workspace was removed.
    pub open spec fn after_delete(self) -> TilingUndoMove {
        if self.resources.len() == 0 {
            self.to_resource()
        } else {
            TilingUndoView {
                resources: self.resources.drop_first(),
                outputs: self.outputs.push(
                    "removed desktop workspace '"@ + self.resources[0].resource.stable_identity
                        + "'"@,
                ),
                ..self
            }.to_resource()
        }
    }

    /// What follows a reply. A reply that does not belong to what the work is waiting for changes
    /// nothing.
    pub open spec fn next(self, event: TilingUndoEventView) -> TilingUndoMove {
        match (self.phase, event) {
            (TilingUndoPhase::Over, _) => (self, TilingUndoStepView::Idle),
            (_, TilingUndoEventView::Failed(error)) => self.failed(error),
            (TilingUndoPhase::Look, TilingUndoEventView::Snapshot(snapshot)) => self.after_look(
                snapshot,
            ),
            (TilingUndoPhase::Restore, TilingUndoEventView::Restored) => self.after_restore(),
            (TilingUndoPhase::Delete, TilingUndoEventView::Deleted) => self.after_delete(),
            _ => (self, TilingUndoStepView::Idle),
        }
    }
}

/// The work before its first change.
pub open spec fn tiling_undo_begun(
    mutations: Seq<MutationRecordView>,
    resources: Seq<ResourceRecordView>,
) -> TilingUndoMove {
    TilingUndoView {
        mutations,
        resources,
        outputs: Seq::empty(),
        phase: TilingUndoPhase::Look,
    }.to_front()
}

impl TilingUndo {
    /// Begins with the first change of what was done.
    pub fn compensate(result: ActionExecutionResult) -> (r: (TilingUndo, TilingUndoStep))
        ensures
            (r.0@, r.1@) == tiling_undo_begun(result@.mutations, result@.resources),
    {
        TilingUndo {
            mutations: result.mutations,
            resources: result.resources,
            outputs: empty_list(),
            phase: TilingUndoPhase::Look,
        }.to_front()
    }

    /// Begins with the first resource.
    pub fn stop(resources: Vec<ResourceRecord>) -> (r: (TilingUndo, TilingUndoStep))
        ensures
            (r.0@, r.1@) == tiling_undo_begun(Seq::empty(), resources.deep_view()),
    {
        TilingUndo {
            mutations: empty_list(),
            resources,
            outputs: empty_list(),
            phase: TilingUndoPhase::Look,
        }.to_front()
    }

    fn to(self, phase: TilingUndoPhase, step: TilingUndoStep) -> (r: (TilingUndo, TilingUndoStep))
        ensures
            (r.0@, r.1@) == self@.to(phase, step@),
    {
        (
            TilingUndo {
                mutations: self.mutations,
                resources: self.resources,
                outputs: self.outputs,
                phase,
            },
            step,
        )
    }

    fn passing(self) -> (r: TilingUndo)
        requires
            self.mutations@.len() > 0,
        ensures
            r@ == self@.passing(),
    {
        let mutations = rest(&self.mutations);
        TilingUndo {
            mutations,
            resources: self.resources,
            outputs: self.outputs,
            phase: self.phase,
        }
    }

    fn passing_with(self, line: String) -> (r: TilingUndo)
        requires
            self.mutations@.len() > 0,
        ensures
            r@ == self@.passing_with(line@),
    {
        let mutations = rest(&self.mutations);
        let mut outputs = self.outputs;
        append(&mut outputs, line);
        TilingUndo { mutations, resources: self.resources, outputs, phase: self.phase }
    }

    fn leaving(self) -> (r: TilingUndo)
        requires
            self.resources@.len() > 0,
        ensures
            r@ == self@.leaving(),
    {
        let resources = rest(&self.resources);
        TilingUndo {
            mutations: self.mutations,
            resources,
            outputs: self.outputs,
            phase: self.phase,
        }
    }

    fn to_resource(self) -> (r: (TilingUndo, TilingUndoStep))
        ensures
            (r.0@, r.1@) == self@.to_resource(),
    {
        let ghost goal = self@.to_resource();
        let mut work = self;
        while work.resources.len() > 0
            invariant
                goal == self@.to_resource(),
                work@.to_resource() == goal,
            ensures
                work@.to_resource() == goal,
                work.resources@.len() == 0,
            decreases work.resources@.len(),
        {
            let ghost view = work@;
            assert(work.resources.deep_view()[0] == work.resources@[0]@);
            if !is_owned_workspace(&work.resources[0]) {
                work = work.leaving();
            } else {
                let workspace = work.resources[0].resource.stable_identity.clone();
                return work.to(TilingUndoPhase::Delete, TilingUndoStep::Delete { workspace });
            }
            assert(work.resources.deep_view().len() == work.resources@.len());
            assert(work@.resources.len() < view.resources.len());
        }
        let outputs = logged(&work.outputs);
        work.to(TilingUndoPhase::Over, TilingUndoStep::Finish(CompensationResult { outputs }))
    }

    fn to_front(self) -> (r: (TilingUndo, TilingUndoStep))
        ensures
            (r.0@, r.1@) == self@.to_front(),
    {
        let ghost goal = self@.to_front();
        let mut work = self;
        while work.mutations.len() > 0
            invariant
                goal == self@.to_front(),
                work@.to_front() == goal,
            ensures
                work@.to_front() == goal,
                work.mutations@.len() == 0,
            decreases work.mutations@.len(),
        {
            let ghost view = work@;
            assert(work.mutations.deep_view()[0] == work.mutations@[0]@);
            if !is_workspace_change(&work.mutations[0]) {
                work = work.passing();
            } else if parse_bool(&work.mutations[0].previous_value).is_none() {
                let line = join3(
                    "preserved desktop mutation '",
                    work.mutations[0].target.as_str(),
                    "' because its previous value is unavailable",
                );
                work = work.passing_with(line);
            } else if work.mutations[0].resource.is_none() {
                let line = join3(
                    "preserved desktop mutation '",
                    work.mutations[0].target.as_str(),
                    "' because its workspace identity is unavailable",
                );
                work = work.passing_with(line);
            } else {
                return work.to(TilingUndoPhase::Look, TilingUndoStep::Snapshot);
            }
            assert(work.mutations.deep_view().len() == work.mutations@.len());
            assert(work@.mutations.len() < view.mutations.len());
        }
        work.to_resource()
    }

    fn after_look(self, snapshot: DesktopSnapshot) -> (r: (TilingUndo, TilingUndoStep))
        ensures
            (r.0@, r.1@) == self@.after_look(snapshot@),
    {
        if self.mutations.len() == 0 {
            return self.to_front();
        }
        assert(self.mutations.deep_view()[0] == self.mutations@[0]@);
        let mutation = self.mutations[0].replicate();
        match (mutation.resource, parse_bool(&mutation.previous_value)) {
            (Some(resource), Some(previous)) => match snapshot.workspace(
                resource.stable_identity.as_str(),
            ) {
                None => {
                    let line = join3(
                        "preserved desktop workspace '",
                        resource.stable_identity.as_str(),
                        "' because it no longer exists",
                    );
                    self.passing_with(line).to_front()
                },
                Some(workspace) => {
                    let moved_on = match (
                        parse_bool(&mutation.applied_value),
                        workspace.tiling_enabled,
                    ) {
                        (Some(applied), Some(found)) => found != applied,
                        _ => false,
                    };
                    if moved_on {
                        let line = join3(
                            "preserved desktop workspace '",
                            workspace.identity.as_str(),
                            "' because its tiling was changed after Workstate",
                        );
                        return self.passing_with(line).to_front();
                    }
                    self.to(
                        TilingUndoPhase::Restore,
                        TilingUndoStep::Restore {
                            workspace: workspace.identity,
                            enabled: previous,
                        },
                    )
                },
            },
            _ => self.to_front(),
        }
    }

    fn after_restore(self) -> (r: (TilingUndo, TilingUndoStep))
        ensures
            (r.0@, r.1@) == self@.after_restore(),
    {
        if self.mutations.len() == 0 {
            return self.to_front();
        }
        assert(self.mutations.deep_view()[0] == self.mutations@[0]@);
        let mutation = self.mutations[0].replicate();
        match mutation.resource {
            Some(resource) => {
                let line = join3(
                    "restored desktop workspace '",
                    resource.stable_identity.as_str(),
                    "' tiling",
                );
                self.passing_with(line).to_front()
            },
            None => self.passing().to_front(),
        }
    }

    fn after_delete(self) -> (r: (TilingUndo, TilingUndoStep))
        ensures
            (r.0@, r.1@) == self@.after_delete(),
    {
        if self.resources.len() == 0 {
            return self.to_resource();
        }
        assert(self.resources.deep_view()[0] == self.resources@[0]@);
        let line = join3(
            "removed desktop workspace '",
            self.resources[0].resource.stable_identity.as_str(),
            "'",
        );
        let resources = rest(&self.resources);
        let mut outputs = self.outputs;
        append(&mut outputs, line);
        TilingUndo { mutations: self.mutations, resources, outputs, phase: self.phase }.to_resource()
    }

    /// What follows a reply. A reply that does not belong to what the work is waiting for changes
    /// nothing.
    pub fn advance(self, event: TilingUndoEvent) -> (r: (TilingUndo, TilingUndoStep))
        ensures
            (r.0@, r.1@) == self@.next(event@),
    {
        match (self.phase, event) {
            (TilingUndoPhase::Over, _) => (self, TilingUndoStep::Idle),
            (_, TilingUndoEvent::Failed(error)) => self.to(
                TilingUndoPhase::Over,
                TilingUndoStep::Fail(error),
            ),
            (TilingUndoPhase::Look, TilingUndoEvent::Snapshot(snapshot)) => self.after_look(
                snapshot,
            ),
            (TilingUndoPhase::Restore, TilingUndoEvent::Restored) => self.after_restore(),
            (TilingUndoPhase::Delete, TilingUndoEvent::Deleted) => self.after_delete(),
            _ => (self, TilingUndoStep::Idle),
        }
    }
}

/// Registers the handler of the tiling.
pub fn register_handlers(registry: &mut ActionHandlerRegistry) -> (r: Result<(), WorkstateError>)
    ensures
        (final(registry)@.keys, seen(r)) == registering(
            old(registry)@.keys,
            seq!["configure_tiling"@],
        ),
{
    registry.register("configure_tiling")
}

// ---------------------------------------------------------------------------------------------
// Laws
// ---------------------------------------------------------------------------------------------
/// Setting the tiling is reported only where it was as it should be, or a fresh snapshot shows it.
pub proof fn law_reported_tiling_is_there(work: TilingApplyView, event: TilingEventView)
    requires
        wanted_tiling(work.action) != TilingPreference::Unchanged,
        work.workspace is Some || work.phase != TilingPhase::Refresh,
        work.next(event).1 matches TilingStepView::Finish(result) && result.resources.len() > 0,
    ensures
        match event {
            TilingEventView::Ensured(resolution) => resolution.workspace is Some
                && resolution.workspace->Some_0.tiling_enabled == Some(work.enables()),
            TilingEventView::Snapshot(snapshot) => snapshot.workspace(
                work.workspace->Some_0.identity,
            ) is Some && snapshot.workspace(
                work.workspace->Some_0.identity,
            )->Some_0.tiling_enabled == Some(work.enables()),
            _ => false,
        },
{
}

proof fn lemma_front_restores_nothing(work: TilingUndoView)
    ensures
        !(work.to_front().1 is Restore),
    decreases work.mutations.len(),
{
    if work.mutations.len() == 0 {
        lemma_resource_restores_nothing(work);
    } else {
        lemma_front_restores_nothing(work.passing());
        lemma_front_restores_nothing(
            work.passing_with(
                "preserved desktop mutation '"@ + work.mutations[0].target
                    + "' because its previous value is unavailable"@,
            ),
        );
        lemma_front_restores_nothing(
            work.passing_with(
                "preserved desktop mutation '"@ + work.mutations[0].target
                    + "' because its workspace identity is unavailable"@,
            ),
        );
    }
}

proof fn lemma_resource_restores_nothing(work: TilingUndoView)
    ensures
        !(work.to_resource().1 is Restore),
        work.to_resource().1 matches TilingUndoStepView::Delete { workspace } ==> exists|i: int|
            0 <= i < work.resources.len() && owned_workspace(#[trigger] work.resources[i])
                && work.resources[i].resource.stable_identity == workspace,
    decreases work.resources.len(),
{
    if work.resources.len() > 0 && !owned_workspace(work.resources[0]) {
        lemma_resource_restores_nothing(work.leaving());
        if let TilingUndoStepView::Delete { workspace } = work.to_resource().1 {
            let left = work.leaving().resources;
            let i = choose|i: int|
                0 <= i < left.len() && owned_workspace(#[trigger] left[i])
                    && left[i].resource.stable_identity == workspace;
            assert(work.resources[i + 1] == left[i]);
        }
    } else if work.resources.len() > 0 {
        assert(owned_workspace(work.resources[0]));
    }
}

/// Tiling that was changed after it was set is left alone: it is restored only where it is what it was
/// set to, as far as both are known.
pub proof fn law_only_unchanged_tiling_is_restored(work: TilingUndoView, event: TilingUndoEventView)
    requires
        work.next(event).1 is Restore,
    ensures
        event matches TilingUndoEventView::Snapshot(snapshot) && work.mutations.len() > 0
            && work.mutations[0].resource is Some && snapshot.workspace(
            work.mutations[0].resource->Some_0.stable_identity,
        ) is Some && (bool_read(work.mutations[0].applied_value) is Some && snapshot.workspace(
            work.mutations[0].resource->Some_0.stable_identity,
        )->Some_0.tiling_enabled is Some ==> snapshot.workspace(
            work.mutations[0].resource->Some_0.stable_identity,
        )->Some_0.tiling_enabled == bool_read(work.mutations[0].applied_value)),
{
    lemma_front_restores_nothing(work);
    if work.mutations.len() > 0 {
        lemma_front_restores_nothing(work.passing());
        if let Some(resource) = work.mutations[0].resource {
            let id = resource.stable_identity;
            lemma_front_restores_nothing(
                work.passing_with(
                    "preserved desktop workspace '"@ + id + "' because it no longer exists"@,
                ),
            );
            lemma_front_restores_nothing(
                work.passing_with("restored desktop workspace '"@ + id + "' tiling"@),
            );
            if let TilingUndoEventView::Snapshot(snapshot) = event {
                if let Some(workspace) = snapshot.workspace(id) {
                    lemma_front_restores_nothing(
                        work.passing_with(
                            "preserved desktop workspace '"@ + workspace.identity
                                + "' because its tiling was changed after Workstate"@,
                        ),
                    );
                }
            }
        }
    }
    lemma_resource_restores_nothing(work);
    if work.resources.len() > 0 {
        lemma_resource_restores_nothing(
            TilingUndoView {
                resources: work.resources.drop_first(),
                outputs: work.outputs.push(
                    "removed desktop workspace '"@ + work.resources[0].resource.stable_identity
                        + "'"@,
                ),
                ..work
            },
        );
    }
}

/// Only workspaces that the environment owns are removed.
pub proof fn law_only_owned_workspaces_are_removed(resources: Seq<ResourceRecordView>)
    ensures
        tiling_undo_begun(Seq::empty(), resources).1 matches TilingUndoStepView::Delete { workspace }
            ==> exists|i: int|
            0 <= i < resources.len() && owned_workspace(#[trigger] resources[i])
                && resources[i].resource.stable_identity == workspace,
{
    lemma_resource_restores_nothing(
        TilingUndoView {
            mutations: Seq::empty(),
            resources,
            outputs: Seq::empty(),
            phase: TilingUndoPhase::Look,
        },
    );
}

/// What was set is undone: the change that was recorded asks, where nothing was changed since, for the
/// tiling that was there before.
pub proof fn law_recorded_tiling_is_undone(
    identity: Seq<char>,
    before: bool,
    after: bool,
    action_id: Seq<char>,
    record: ResourceRecordView,
    mutation: MutationRecordView,
    snapshot: DesktopSnapshotView,
)
    requires
        record.resource.stable_identity == identity,
        mutation_of(
            tiling_change_target(identity),
            action_id,
            record.resource,
            Some(bool_text(before)),
            bool_text(after),
            record.cleanup_policy,
        ) == Ok::<MutationRecordView, WorkstateErrorView>(mutation),
        snapshot.workspace(identity) matches Some(found) && found.tiling_enabled == Some(after),
    ensures
        tiling_undo_begun(seq![mutation], Seq::empty()).1 == TilingUndoStepView::Snapshot,
        tiling_undo_begun(seq![mutation], Seq::empty()).0.next(
            TilingUndoEventView::Snapshot(snapshot),
        ).1 == (TilingUndoStepView::Restore {
            workspace: snapshot.workspace(identity)->Some_0.identity,
            enabled: before,
        }),
{
    let target = tiling_change_target(identity);
    assert(has_prefix(target, "desktop.workspace."@)) by {
        assert(target.subrange(0, "desktop.workspace."@.len() as int) =~= "desktop.workspace."@);
    }
    reveal_strlit("true");
    reveal_strlit("false");
    assert("true"@.len() != "false"@.len());
}

/// Once the work is over, no reply brings anything about.
pub proof fn law_over_is_over(work: TilingApplyView, event: TilingEventView)
    requires
        work.phase == TilingPhase::Over,
    ensures
        work.next(event) == (work, TilingStepView::Idle),
{
}

/// The tiling that an action asks for is set on the workspace that was found, where it is not so already;
/// it counts once the desktop shows it, and what it was before is recorded.
pub proof fn law_wanted_tiling_is_set(
    action: ActionSpecView,
    target: WorkspaceTargetView,
    workspace: DesktopWorkspaceSnapshotView,
    resolution: DesktopWorkspaceResolutionView,
    current: bool,
    enabled: bool,
    snapshot: DesktopSnapshotView,
    updated: DesktopWorkspaceSnapshotView,
)
    requires
        action.resolved_workspace_target == Some(target),
        action.resolved_tiling == Some(
            if enabled {
                TilingPreference::Enabled
            } else {
                TilingPreference::Disabled
            },
        ),
        resolution.workspace == Some(workspace),
        workspace.tiling_enabled == Some(current),
        !is_blank(workspace.identity),
        snapshot.workspace(workspace.identity) == Some(updated),
    ensures
        ({
            let begun = tiling_begun(action);
            let found = begun.0.next(TilingEventView::Ensured(resolution));
            let changed = found.0.next(TilingEventView::Changed);
            let shown = changed.0.next(TilingEventView::Snapshot(snapshot));
            &&& begun.1 == TilingStepView::Ensure(target)
            &&& current != enabled ==> found.1 == (TilingStepView::SetTiling {
                workspace: workspace.identity,
                enabled,
            }) && changed.1 is Snapshot
            &&& current == enabled ==> (found.1 matches TilingStepView::Finish(result)
                && !result.changed && result.mutations.len() == 0)
            &&& current != enabled && updated.tiling_enabled == Some(enabled) ==> (
            shown.1 matches TilingStepView::Finish(result) && result.changed
                && result.mutations.len() == 1 && bool_read(result.mutations[0].previous_value)
                == Some(current) && bool_read(result.mutations[0].applied_value) == Some(enabled)
                && result.resources.len() == 1 && result.resources[0].resource.stable_identity
                == workspace.identity && (result.resources[0].ownership
                == OwnershipStatus::CreatedByCurrentRun <==> resolution.status
                == DesktopOperationStatus::Created) && changes_workspace(result.mutations[0]))
            &&& current != enabled && updated.tiling_enabled != Some(enabled) ==> shown.1 is Fail
        }),
{
    reveal_strlit("desktop.workspace.");
    reveal_strlit("true");
    reveal_strlit("false");
    assert("true"@.len() == 4 && "false"@.len() == 5);
    let name = tiling_change_target(workspace.identity);
    assert("desktop.workspace."@.len() == 18);
    assert(name[0] == 'd' && !is_white(name[0]));
    law_trim_takes_only_white_space(name);
    assert(name.subrange(0, 18) =~= "desktop.workspace."@);
}

/// A workspace is as it should be where it has the tiling that is asked for; where nothing is asked for it
/// always is, and where the desktop does not tell, that is an error.
pub proof fn law_wanted_tiling_is_correct(
    action: ActionSpecView,
    workspace: DesktopWorkspaceSnapshotView,
    resolution: DesktopWorkspaceResolutionView,
    enabled: bool,
)
    requires
        resolution.workspace == Some(workspace),
        !is_blank(workspace.identity),
    ensures
        workspace.tiling_enabled == Some(enabled) && action.resolved_tiling == Some(
            TilingPreference::Enabled,
        ) ==> (tiling_judged(action, resolution) matches Ok(observed) && (observed.status
            == ObservationStatus::AlreadyCorrect <==> enabled)),
        workspace.tiling_enabled == Some(enabled) && action.resolved_tiling == Some(
            TilingPreference::Disabled,
        ) ==> (tiling_judged(action, resolution) matches Ok(observed) && (observed.status
            == ObservationStatus::AlreadyCorrect <==> !enabled)),
        workspace.tiling_enabled is None && action.resolved_tiling == Some(
            TilingPreference::Enabled,
        ) ==> tiling_judged(action, resolution) is Err,
        action.resolved_tiling is None ==> (tiling_judged(action, resolution) matches Ok(observed)
            && observed.status == ObservationStatus::AlreadyCorrect),
        tiling_judged(
            action,
            (DesktopWorkspaceResolutionView { workspace: None, ..resolution }),
        ) matches Ok(observed) && observed.status == ObservationStatus::RequiresChange,
{
}

/// A workspace that is to be created is there already where one bears its name; two of the name are not
/// told apart.
pub proof fn law_named_workspace_is_found(
    one: DesktopWorkspaceSnapshotView,
    other: DesktopWorkspaceSnapshotView,
    snapshot: DesktopSnapshotView,
    name: Seq<char>,
)
    requires
        snapshot.workspaces == seq![one, other],
    ensures
        one.name == Some(name) && other.name != Some(name) ==> (creation_observed(snapshot, name)
            matches Ok(resolution) && resolution.workspace == Some(one)),
        one.name == Some(name) && other.name == Some(name) ==> creation_observed(snapshot, name)
            is Err,
        one.name != Some(name) && other.name != Some(name) ==> (creation_observed(snapshot, name)
            matches Ok(resolution) && resolution.workspace is None),
{
    reveal_with_fuel(Seq::filter, 3);
    let empty = Seq::<DesktopWorkspaceSnapshotView>::empty();
    let two = seq![one, other];
    assert(two.drop_last() =~= seq![one] && two.last() == other);
    assert(seq![one].drop_last() =~= empty && seq![one].last() == one);
    let found = workspaces_called(two, name);
    if one.name == Some(name) && other.name != Some(name) {
        assert(found =~= seq![one]);
    } else if one.name == Some(name) {
        assert(found =~= two);
    } else if other.name != Some(name) {
        assert(found =~= empty);
    }
}

/// A workspace that this run created is removed after the tiling was restored, one after the other; others
/// stay.
pub proof fn law_created_workspace_is_removed(record: ResourceRecordView)
    requires
        record.resource.kind == ResourceKind::DesktopWorkspace,
    ensures
        record.ownership == OwnershipStatus::CreatedByCurrentRun ==> tiling_undo_begun(
            Seq::empty(),
            seq![record],
        ).1 == (TilingUndoStepView::Delete { workspace: record.resource.stable_identity })
            && tiling_undo_begun(Seq::empty(), seq![record]).0.next(
            TilingUndoEventView::Deleted,
        ).1 is Finish,
        record.ownership == OwnershipStatus::ReusedExisting ==> tiling_undo_begun(
            Seq::empty(),
            seq![record],
        ).1 is Finish,
{
    reveal_with_fuel(TilingUndoView::to_resource, 2);
    assert(seq![record].drop_first() =~= Seq::<ResourceRecordView>::empty());
}

} // verus!
