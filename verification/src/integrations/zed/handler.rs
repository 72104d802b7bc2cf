//! The action that opens a project.
use vstd::prelude::*;
use vstd::string::*;
use crate::collections::TextMap;
use crate::domain::{
    identity_of, named_target, record_of, ActionKind, ActionSpec, ActionSpecView, MutationRecord,
    MutationRecordView, OwnershipStatus, ResourceIdentity, ResourceKind, ResourceRecord,
    ResourceRecordView, WorkspaceReference, WorkspaceReferenceView, WorkspaceTarget,
    WorkspaceTargetView,
};
use crate::error::{error_of, rendered, seen, ErrorCategory, WorkstateError, WorkstateErrorView};
use crate::integrations::cosmic::handler::{workspace_observed, WorkspaceHandler};
use crate::integrations::windows::{law_move_is_recorded, record_window_move, window_moved};
use crate::integrations::zed::backend::{law_one_window_shows_the_project, project_windows};
use crate::integrations::zed::placing::PlacingPhase;
use crate::planner::{
    log_lines, logged, observed_change, observed_correct, observed_unknown, registering,
    ActionExecutionResult, ActionExecutionResultView, ActionHandlerRegistry, ActionObservation,
    ActionObservationView, ObservationStatus,
};
use crate::platform::detection::support::{set_of, CapabilityId, CapabilitySet};
use crate::ports::{
    BackgroundProcess, BackgroundProcessView, DesktopSnapshot, DesktopSnapshotView,
    DesktopWindowSnapshotView, DesktopWorkspaceResolution, DesktopWorkspaceResolutionView,
    DesktopWorkspaceSnapshotView, EditorOpenOutcome, EditorOpenOutcomeView, EditorOperationStatus,
    EditorWindowSnapshot, EditorWindowSnapshotView, ProcessRequest, ProcessRequestView,
};
use crate::text::{decimal, is_blank, join2, join3, join5, join7, text_decimal};
use crate::time::TimeSpan;
use crate::values::{
    append, empty_list, lemma_filter_ends, lemma_filter_step, list_holds, list_of,
    option_is_text, Replicate,
};
use super::backend::{
    editor_windows, project_window, shows_project, ProjectEditorKind, ZedBackend, ZedBackendView,
};
use super::opening::{
    editor_open_begun, EditorEvent, EditorEventView, EditorMove, EditorOpen, EditorOpenView,
    EditorStep, EditorStepView,
};
use super::placing::{
    placing_begun, PlacingEvent, PlacingEventView, PlacingMove, PlacingStep, PlacingStepView,
    WindowMoved, WindowMovedView, WindowPlacing, WindowPlacingView,
};

verus! {

/// The record of a window of an editor.
pub open spec fn editor_window_recorded(
    action: ActionSpecView,
    window: EditorWindowSnapshotView,
    ownership: OwnershipStatus,
    observed_before: bool,
    project: Seq<char>,
) -> Result<ResourceRecordView, WorkstateErrorView> {
    match identity_of(ResourceKind::DesktopWindow, window.identity) {
        Err(error) => Err(error),
        Ok(identity) => {
            let record = record_of(
                identity,
                ownership,
                action.id,
                observed_before,
                action.cleanup_policy,
            ).noting("project_path"@, project).noting("application"@, window.application);
            let titled = match window.title {
                Some(title) => record.noting("title"@, title),
                None => record,
            };
            Ok(
                match window.workspace_identity {
                    Some(workspace) => titled.noting("workspace_identity"@, workspace),
                    None => titled,
                },
            )
        },
    }
}

fn window_record(
    action: &ActionSpec,
    window: &EditorWindowSnapshot,
    ownership: OwnershipStatus,
    observed_before: bool,
    project_path: &str,
) -> (r: Result<ResourceRecord, WorkstateError>)
    ensures
        seen(r) == editor_window_recorded(
            action@,
            window@,
            ownership,
            observed_before,
            project_path@,
        ),
{
    match ResourceIdentity::new(ResourceKind::DesktopWindow, window.identity.clone()) {
        Err(error) => Err(error),
        Ok(identity) => {
            let mut record = ResourceRecord::of_action(
                identity,
                ownership,
                action.id.as_str(),
                observed_before,
                action.cleanup_policy,
            );
            record.note("project_path", project_path);
            record.note("application", window.application.as_str());
            if let Some(title) = &window.title {
                record.note("title", title.as_str());
            }
            if let Some(workspace) = &window.workspace_identity {
                record.note("workspace_identity", workspace.as_str());
            }
            Ok(record)
        },
    }
}

/// A window that was recorded for a project.
pub open spec fn records_project(record: ResourceRecordView, project: Seq<char>) -> bool {
    record.resource.kind == ResourceKind::DesktopWindow && record.note("project_path"@) == Some(
        project,
    )
}

/// The windows that were recorded for a project.
pub open spec fn recorded_windows(records: Seq<ResourceRecordView>, project: Seq<char>) -> Seq<
    Seq<char>,
>
    decreases records.len(),
{
    if records.len() == 0 {
        Seq::empty()
    } else {
        let earlier = recorded_windows(records.drop_last(), project);
        if records_project(records.last(), project) {
            earlier.push(records.last().resource.stable_identity)
        } else {
            earlier
        }
    }
}

fn recorded_identities(records: &Vec<ResourceRecord>, project_path: &str) -> (r: Vec<String>)
    ensures
        r.deep_view() == recorded_windows(records.deep_view(), project_path@),
{
    let mut found: Vec<String> = empty_list();
    let mut i: usize = 0;
    let ghost all = records.deep_view();
    assert(all.take(0) =~= Seq::<ResourceRecordView>::empty());
    while i < records.len()
        invariant
            i <= records@.len(),
            all == records.deep_view(),
            found.deep_view() == recorded_windows(all.take(i as int), project_path@),
        decreases records@.len() - i,
    {
        assert(all[i as int] == records@[i as int]@);
        assert(all.take(i as int + 1).drop_last() =~= all.take(i as int));
        if records[i].resource.kind == ResourceKind::DesktopWindow && option_is_text(
            &records[i].integration_metadata.get("project_path"),
            project_path,
        ) {
            append(&mut found, records[i].resource.stable_identity.clone());
        }
        i = i + 1;
    }
    assert(all.take(i as int) =~= all);
    found
}

/// The windows that were recorded for a project and do not show another one.
pub open spec fn persisted_windows(
    kind: ProjectEditorKind,
    windows: Seq<EditorWindowSnapshotView>,
    project: Seq<char>,
    records: Seq<ResourceRecordView>,
    normalized: Map<Seq<char>, Seq<char>>,
) -> Seq<EditorWindowSnapshotView> {
    windows.filter(
        |window: EditorWindowSnapshotView|
            recorded_windows(records, project).contains(window.identity) && (
            window.project_path is None || shows_project(kind, window, project, normalized)),
    )
}

fn matching_persisted_projects(
    windows: &Vec<EditorWindowSnapshot>,
    project_path: &str,
    previous_resources: &Vec<ResourceRecord>,
    editor: &ZedBackend,
    normalized: &TextMap,
) -> (r: Vec<EditorWindowSnapshot>)
    ensures
        r.deep_view() == persisted_windows(
            editor@.editor_kind,
            windows.deep_view(),
            project_path@,
            previous_resources.deep_view(),
            normalized@,
        ),
{
    let identities = recorded_identities(previous_resources, project_path);
    let mut found: Vec<EditorWindowSnapshot> = empty_list();
    let mut i: usize = 0;
    let ghost all = windows.deep_view();
    let ghost kind = editor@.editor_kind;
    let ghost records = previous_resources.deep_view();
    let ghost keep = |window: EditorWindowSnapshotView|
        recorded_windows(records, project_path@).contains(window.identity) && (
        window.project_path is None || shows_project(kind, window, project_path@, normalized@));
    proof {
        lemma_filter_ends(all, keep);
    }
    while i < windows.len()
        invariant
            i <= windows@.len(),
            all == windows.deep_view(),
            kind == editor@.editor_kind,
            identities.deep_view() == recorded_windows(records, project_path@),
            keep == (|window: EditorWindowSnapshotView|
                recorded_windows(records, project_path@).contains(window.identity) && (
                window.project_path is None || shows_project(
                    kind,
                    window,
                    project_path@,
                    normalized@,
                ))),
            found.deep_view() == all.take(i as int).filter(keep),
        decreases windows@.len() - i,
    {
        assert(all[i as int] == windows@[i as int]@);
        proof {
            lemma_filter_step(all, i as int, keep);
        }
        if list_holds(&identities, &windows[i].identity) && (windows[i].project_path.is_none()
            || editor.project_path_matches(&windows[i], project_path, normalized)) {
            append(&mut found, windows[i].replicate());
        }
        i = i + 1;
    }
    proof {
        lemma_filter_ends(all, keep);
        assert(all.take(i as int) =~= all);
    }
    found
}

/// How a target is called.
pub open spec fn target_label(target: WorkspaceTargetView) -> Seq<char> {
    match target {
        WorkspaceTargetView::Existing { reference } => match reference {
            WorkspaceReferenceView::Name(name) => "name:"@ + name,
            WorkspaceReferenceView::Identifier(identity) => identity,
        },
        WorkspaceTargetView::Current => "current"@,
        WorkspaceTargetView::NextEmpty => "next-empty"@,
        WorkspaceTargetView::Create { name } => "create:"@ + name,
        WorkspaceTargetView::Nowhere => "none"@,
    }
}

fn workspace_target_label(target: &WorkspaceTarget) -> (r: String)
    ensures
        r@ == target_label(target@),
{
    match target {
        WorkspaceTarget::Existing { reference } => match reference {
            WorkspaceReference::Name(name) => join2("name:", name.as_str()),
            WorkspaceReference::Identifier(identity) => identity.clone(),
        },
        WorkspaceTarget::Current => "current".to_owned(),
        WorkspaceTarget::NextEmpty => "next-empty".to_owned(),
        WorkspaceTarget::Create { name } => join2("create:", name.as_str()),
        WorkspaceTarget::Nowhere => "none".to_owned(),
    }
}

/// A target that was found among the workspaces is held on to by its identity.
pub open spec fn anchored(
    target: WorkspaceTargetView,
    destination: DesktopWorkspaceResolutionView,
) -> WorkspaceTargetView {
    match destination.workspace {
        None => target,
        Some(workspace) => WorkspaceTargetView::Existing {
            reference: WorkspaceReferenceView::Identifier(workspace.identity),
        },
    }
}

fn anchor_target(target: WorkspaceTarget, destination: DesktopWorkspaceResolution) -> (r:
    WorkspaceTarget)
    ensures
        r@ == anchored(target@, destination@),
{
    match destination.workspace {
        None => target,
        Some(workspace) => WorkspaceTarget::Existing {
            reference: WorkspaceReference::Identifier(workspace.identity),
        },
    }
}

/// The handler of the actions that open projects in an editor.
#[derive(Debug, Clone, PartialEq, Eq)]
pub struct ProjectEditorHandler {
    pub editor: ZedBackend,
    pub action_kind: ActionKind,
}

/// What a `ProjectEditorHandler` stands for.
#[verifier::ext_equal]
pub struct ProjectEditorHandlerView {
    pub editor: ZedBackendView,
    pub action_kind: ActionKind,
}

impl View for ProjectEditorHandler {
    type V = ProjectEditorHandlerView;

    open spec fn view(&self) -> ProjectEditorHandlerView {
        ProjectEditorHandlerView {
            editor: self.editor.deep_view(),
            action_kind: self.action_kind.deep_view(),
        }
    }
}

impl DeepView for ProjectEditorHandler {
    type V = ProjectEditorHandlerView;

    open spec fn deep_view(&self) -> ProjectEditorHandlerView {
        self.view()
    }
}

impl Replicate for ProjectEditorHandler {
    fn replicate(&self) -> (r: Self) {
        ProjectEditorHandler {
            editor: self.editor.replicate(),
            action_kind: self.action_kind.replicate(),
        }
    }
}

/// The handler of the projects of an editor.
pub type ZedProjectHandler = ProjectEditorHandler;

/// What is known of a project after a look at the windows: all that there is to say, or the window whose workspace must be looked for.
#[derive(Debug)]
pub enum EditorLook {
    Settled(ActionObservation),
    LookFor { target: WorkspaceTarget, window: EditorWindowSnapshot, record: ResourceRecord },
}

/// What a `EditorLook` stands for.
#[verifier::ext_equal]
pub enum EditorLookView {
    Settled(ActionObservationView),
    LookFor { target: WorkspaceTargetView, window: EditorWindowSnapshotView, record: ResourceRecordView },
}

impl View for EditorLook {
    type V = EditorLookView;

    open spec fn view(&self) -> EditorLookView {
        match self {
            EditorLook::Settled(value) => EditorLookView::Settled(value.deep_view()),
            EditorLook::LookFor { target, window, record } => EditorLookView::LookFor { target: target.deep_view(), window: window.deep_view(), record: record.deep_view() },
        }
    }
}

impl DeepView for EditorLook {
    type V = EditorLookView;

    open spec fn deep_view(&self) -> EditorLookView {
        self.view()
    }
}

/// The kind of action that opens a project in an editor.
pub open spec fn editor_action(kind: ProjectEditorKind) -> ActionKind {
    match kind {
        ProjectEditorKind::Zed => ActionKind::OpenProject,
        ProjectEditorKind::VsCode => ActionKind::OpenProjectWithVsCode,
        ProjectEditorKind::Cursor => ActionKind::OpenProjectWithCursor,
    }
}

/// What an editor needs of the platform.
pub open spec fn editor_capability(kind: ProjectEditorKind) -> CapabilityId {
    match kind {
        ProjectEditorKind::Zed => CapabilityId::Zed,
        ProjectEditorKind::VsCode => CapabilityId::VsCode,
        ProjectEditorKind::Cursor => CapabilityId::Cursor,
    }
}

/// What must hold of an action before its project is opened.
pub open spec fn editor_validated(
    kind: ProjectEditorKind,
    action_kind: ActionKind,
    action: ActionSpecView,
) -> Result<(), WorkstateErrorView> {
    let editor = kind.display_name_text();
    if action.kind != action_kind {
        Err(
            error_of(
                ErrorCategory::Integration,
                "the "@ + editor + " project handler received an incompatible action"@,
            ),
        )
    } else {
        match action.parameters.application {
            None => Err(
                error_of(
                    ErrorCategory::Integration,
                    "the "@ + editor + " action does not contain an application identity"@,
                ),
            ),
            Some(application) => if kind.is_application(application) {
                Ok(())
            } else {
                Err(
                    error_of(
                        ErrorCategory::Integration,
                        "the open-project action application is not "@ + editor,
                    ).with("application"@, application),
                )
            },
        }
    }
}

/// The project path of an action.
pub open spec fn project_of(kind: ProjectEditorKind, action: ActionSpecView) -> Result<
    Seq<char>,
    WorkstateErrorView,
> {
    match action.parameters.project_path {
        Some(path) => Ok(path),
        None => Err(
            error_of(
                ErrorCategory::Integration,
                "the "@ + kind.display_name_text() + " action does not contain a project path"@,
            ),
        ),
    }
}

/// The window of a project: the one that shows it, else the one that was recorded for it.
pub open spec fn window_of_project(
    kind: ProjectEditorKind,
    windows: Seq<EditorWindowSnapshotView>,
    project: Seq<char>,
    records: Seq<ResourceRecordView>,
    normalized: Map<Seq<char>, Seq<char>>,
) -> Result<Option<EditorWindowSnapshotView>, WorkstateErrorView> {
    let persisted = persisted_windows(kind, windows, project, records, normalized);
    match project_window(kind, windows, project, normalized) {
        Err(error) => Err(error),
        Ok(Some(window)) => Ok(Some(window)),
        Ok(None) => if persisted.len() == 0 {
            Ok(None)
        } else if persisted.len() == 1 {
            Ok(Some(persisted[0]))
        } else {
            Err(
                error_of(
                    ErrorCategory::Integration,
                    "more than one "@ + kind.display_name_text()
                        + " window owns the configured project identity"@,
                ).with("project_path"@, project).with("matches"@, decimal(persisted.len())),
            )
        },
    }
}

/// What is known of a project after a look at the windows.
pub open spec fn project_looked(
    kind: ProjectEditorKind,
    action: ActionSpecView,
    project: Seq<char>,
    snapshot: DesktopSnapshotView,
    normalized: Map<Seq<char>, Seq<char>>,
    records: Seq<ResourceRecordView>,
) -> Result<EditorLookView, WorkstateErrorView> {
    match window_of_project(
        kind,
        editor_windows(kind, snapshot.windows),
        project,
        records,
        normalized,
    ) {
        Err(error) => Err(error),
        Ok(None) => Ok(EditorLookView::Settled(observed_change())),
        Ok(Some(window)) => match editor_window_recorded(
            action,
            window,
            OwnershipStatus::ReusedExisting,
            true,
            project,
        ) {
            Err(error) => Err(error),
            Ok(record) => match named_target(action) {
                Some(target) if target !is Nowhere => Ok(
                    EditorLookView::LookFor { target, window, record },
                ),
                _ => Ok(EditorLookView::Settled(observed_correct().holding(seq![record]))),
            },
        },
    }
}

/// What is observed of a project once its workspace was looked for.
pub open spec fn placement_judged(
    kind: ProjectEditorKind,
    window: EditorWindowSnapshotView,
    record: ResourceRecordView,
    destination: DesktopWorkspaceResolutionView,
) -> ActionObservationView {
    if destination.workspace is Some && window.workspace_identity == Some(
        destination.workspace->Some_0.identity,
    ) {
        observed_correct().holding(seq![record])
    } else {
        observed_change().explained(
            "the "@ + kind.display_name_text()
                + " project window is not in the requested workspace"@,
        ).holding(seq![record])
    }
}

/// A window that belongs to another application by now.
pub open spec fn foreign(
    kind: ProjectEditorKind,
    resource: ResourceRecordView,
    snapshot: DesktopSnapshotView,
) -> bool {
    listed(resource, snapshot) && match snapshot.window(
        resource.resource.stable_identity,
    )->Some_0.application {
        Some(application) => !kind.is_application(application),
        None => false,
    }
}

/// A window that is still there.
pub open spec fn listed(resource: ResourceRecordView, snapshot: DesktopSnapshotView) -> bool {
    resource.resource.kind == ResourceKind::DesktopWindow && snapshot.window(
        resource.resource.stable_identity,
    ) is Some
}

/// The report of a window that belongs to another application by now.
pub open spec fn foreign_report(
    kind: ProjectEditorKind,
    resource: ResourceRecordView,
    snapshot: DesktopSnapshotView,
) -> Seq<char> {
    "persisted "@ + kind.display_name_text() + " window '"@ + resource.resource.stable_identity
        + "' now identifies application '"@ + snapshot.window(
        resource.resource.stable_identity,
    )->Some_0.application->Some_0 + "'"@
}

/// What is observed before cleanup: the windows that are still there, unless one of them belongs to
/// another application by now.
pub open spec fn editor_cleanup(
    kind: ProjectEditorKind,
    resources: Seq<ResourceRecordView>,
    snapshot: DesktopSnapshotView,
) -> Result<Seq<ResourceRecordView>, Seq<char>>
    decreases resources.len(),
{
    if resources.len() == 0 {
        Ok(Seq::empty())
    } else {
        match editor_cleanup(kind, resources.drop_last(), snapshot) {
            Err(detail) => Err(detail),
            Ok(earlier) => if foreign(kind, resources.last(), snapshot) {
                Err(foreign_report(kind, resources.last(), snapshot))
            } else if listed(resources.last(), snapshot) {
                Ok(earlier.push(resources.last()))
            } else {
                Ok(earlier)
            },
        }
    }
}

/// The handler of an editor.
pub open spec fn handler_of(editor: ZedBackendView) -> ProjectEditorHandlerView {
    ProjectEditorHandlerView { editor, action_kind: editor_action(editor.editor_kind) }
}

impl ProjectEditorHandler {
    /// The handler of an editor.
    pub fn new(editor: ZedBackend) -> (r: Self)
        ensures
            r@ == handler_of(editor@),
    {
        ProjectEditorHandler::for_editor(editor)
    }

    /// The handler of an editor.
    pub fn for_editor(editor: ZedBackend) -> (r: Self)
        ensures
            r@ == handler_of(editor@),
    {
        let action_kind = match editor.editor_kind() {
            ProjectEditorKind::Zed => ActionKind::OpenProject,
            ProjectEditorKind::VsCode => ActionKind::OpenProjectWithVsCode,
            ProjectEditorKind::Cursor => ActionKind::OpenProjectWithCursor,
        };
        ProjectEditorHandler { editor, action_kind }
    }

    /// The kind of actions that the handler carries out.
    pub fn action_key(&self) -> (r: &'static str)
        ensures
            r@ == self@.action_kind.key_text(),
    {
        self.action_kind.key()
    }

    /// What the handler needs of the platform.
    pub fn required_capabilities(&self) -> (r: CapabilitySet)
        ensures
            r@ == set_of(
                seq![
                    CapabilityId::DesktopWindows,
                    editor_capability(self@.editor.editor_kind),
                ],
            ),
    {
        let capability = match self.editor.editor_kind() {
            ProjectEditorKind::Zed => CapabilityId::Zed,
            ProjectEditorKind::VsCode => CapabilityId::VsCode,
            ProjectEditorKind::Cursor => CapabilityId::Cursor,
        };
        let mut required: Vec<CapabilityId> = Vec::new();
        required.push(CapabilityId::DesktopWindows);
        required.push(capability);
        assert(required@ =~= seq![
            CapabilityId::DesktopWindows,
            editor_capability(self@.editor.editor_kind),
        ]);
        CapabilitySet::of(&required)
    }

    /// Whether the workspace of an action must be known before it can be observed.
    pub fn requires_workspace_target_for_observation(&self) -> (r: bool)
        ensures
            r,
    {
        true
    }

    /// Refuses an action of another kind, one without an application, and one whose application is
    /// another editor.
    pub fn validate(&self, action: &ActionSpec) -> (r: Result<(), WorkstateError>)
        ensures
            seen(r) == editor_validated(self@.editor.editor_kind, self@.action_kind, action@),
    {
        let editor = self.editor.editor_kind.display_name();
        if action.kind != self.action_kind {
            return Err(
                WorkstateError::new(
                    ErrorCategory::Integration,
                    join3(
                        "the ",
                        editor,
                        " project handler received an incompatible action",
                    ).as_str(),
                ),
            );
        }
        match &action.parameters.application {
            None => Err(
                WorkstateError::new(
                    ErrorCategory::Integration,
                    join3(
                        "the ",
                        editor,
                        " action does not contain an application identity",
                    ).as_str(),
                ),
            ),
            Some(application) => if self.editor.editor_kind.matches_application(
                application.as_str(),
            ) {
                Ok(())
            } else {
                Err(
                    WorkstateError::new(
                        ErrorCategory::Integration,
                        join2("the open-project action application is not ", editor).as_str(),
                    ).with_context("application", application.as_str()),
                )
            },
        }
    }

    /// The project path of an action.
    pub fn project_path(&self, action: &ActionSpec) -> (r: Result<String, WorkstateError>)
        ensures
            seen(r) == project_of(self@.editor.editor_kind, action@),
    {
        match &action.parameters.project_path {
            Some(path) => Ok(path.clone()),
            None => Err(
                WorkstateError::new(
                    ErrorCategory::Integration,
                    join3(
                        "the ",
                        self.editor.editor_kind.display_name(),
                        " action does not contain a project path",
                    ).as_str(),
                ),
            ),
        }
    }

    /// The workspace that a target means, in a snapshot, given what the target was resolved to.
    pub fn observed_destination(
        &self,
        snapshot: &DesktopSnapshot,
        target: &WorkspaceTarget,
        resolved: Result<DesktopWorkspaceResolution, WorkstateError>,
    ) -> (r: Result<DesktopWorkspaceResolution, WorkstateError>)
        ensures
            seen(r) == workspace_observed(snapshot@, target@, seen(resolved)),
    {
        WorkspaceHandler::tiling().observed_workspace(snapshot, target, resolved)
    }

    fn find_window(
        &self,
        windows: &Vec<EditorWindowSnapshot>,
        project_path: &str,
        previous_resources: &Vec<ResourceRecord>,
        normalized: &TextMap,
    ) -> (r: Result<Option<EditorWindowSnapshot>, WorkstateError>)
        ensures
            seen(r) == window_of_project(
                self@.editor.editor_kind,
                windows.deep_view(),
                project_path@,
                previous_resources.deep_view(),
                normalized@,
            ),
    {
        match self.editor.matching_project_window(windows, project_path, normalized) {
            Err(error) => {
                return Err(error);
            },
            Ok(Some(window)) => {
                return Ok(Some(window));
            },
            Ok(None) => {},
        }
        let persisted = matching_persisted_projects(
            windows,
            project_path,
            previous_resources,
            &self.editor,
            normalized,
        );
        assert(persisted.deep_view().len() == persisted@.len());
        if persisted.len() == 0 {
            Ok(None)
        } else if persisted.len() == 1 {
            assert(persisted.deep_view()[0] == persisted@[0]@);
            Ok(Some(persisted[0].replicate()))
        } else {
            Err(
                WorkstateError::new(
                    ErrorCategory::Integration,
                    join3(
                        "more than one ",
                        self.editor.editor_kind.display_name(),
                        " window owns the configured project identity",
                    ).as_str(),
                ).with_context("project_path", project_path).with_context(
                    "matches",
                    text_decimal(persisted.len() as u128).as_str(),
                ),
            )
        }
    }

    /// What is known of a project, whose path is resolved already, after a look at the windows.
    /// `previous_resources` are the records of earlier runs.
    pub fn observe(
        &self,
        action: &ActionSpec,
        project_path: &str,
        snapshot: &DesktopSnapshot,
        normalized: &TextMap,
        previous_resources: &Vec<ResourceRecord>,
    ) -> (r: Result<EditorLook, WorkstateError>)
        ensures
            seen(r) == project_looked(
                self@.editor.editor_kind,
                action@,
                project_path@,
                snapshot@,
                normalized@,
                previous_resources.deep_view(),
            ),
    {
        let windows = self.editor.observe_projects(snapshot);
        let window = match self.find_window(
            &windows,
            project_path,
            previous_resources,
            normalized,
        ) {
            Err(error) => {
                return Err(error);
            },
            Ok(None) => {
                return Ok(EditorLook::Settled(ActionObservation::requires_change()));
            },
            Ok(Some(window)) => window,
        };
        let record = match window_record(
            action,
            &window,
            OwnershipStatus::ReusedExisting,
            true,
            project_path,
        ) {
            Err(error) => {
                return Err(error);
            },
            Ok(record) => record,
        };
        match action.workspace_target() {
            None | Some(WorkspaceTarget::Nowhere) => Ok(
                EditorLook::Settled(
                    ActionObservation::already_correct().with_resources(list_of(record)),
                ),
            ),
            Some(target) => Ok(EditorLook::LookFor { target, window, record }),
        }
    }

    /// What is observed of a project once its workspace was looked for.
    pub fn judge(
        &self,
        window: &EditorWindowSnapshot,
        record: ResourceRecord,
        destination: &DesktopWorkspaceResolution,
    ) -> (r: ActionObservation)
        ensures
            r@ == placement_judged(self@.editor.editor_kind, window@, record@, destination@),
    {
        let satisfied = match &destination.workspace {
            None => false,
            Some(workspace) => option_is_text(
                &window.workspace_identity,
                workspace.identity.as_str(),
            ),
        };
        if satisfied {
            ActionObservation::already_correct().with_resources(list_of(record))
        } else {
            ActionObservation::requires_change().with_detail(
                join3(
                    "the ",
                    self.editor.editor_kind.display_name(),
                    " project window is not in the requested workspace",
                ).as_str(),
            ).with_resources(list_of(record))
        }
    }

    fn judge_window(
        &self,
        observed: Vec<ResourceRecord>,
        resource: &ResourceRecord,
        snapshot: &DesktopSnapshot,
    ) -> (r: Result<Vec<ResourceRecord>, String>)
        ensures
            match r {
                Ok(list) => !foreign(self@.editor.editor_kind, resource@, snapshot@)
                    && list.deep_view() == if listed(resource@, snapshot@) {
                    observed.deep_view().push(resource@)
                } else {
                    observed.deep_view()
                },
                Err(detail) => foreign(self@.editor.editor_kind, resource@, snapshot@) && detail@
                    == foreign_report(self@.editor.editor_kind, resource@, snapshot@),
            },
    {
        if resource.resource.kind != ResourceKind::DesktopWindow {
            return Ok(observed);
        }
        let window = match snapshot.window(resource.resource.stable_identity.as_str()) {
            None => {
                return Ok(observed);
            },
            Some(window) => window,
        };
        if let Some(application) = &window.application {
            if !self.editor.editor_kind.matches_application(application.as_str()) {
                return Err(
                    join7(
                        "persisted ",
                        self.editor.editor_kind.display_name(),
                        " window '",
                        resource.resource.stable_identity.as_str(),
                        "' now identifies application '",
                        application.as_str(),
                        "'",
                    ),
                );
            }
        }
        let mut list = observed;
        append(&mut list, resource.replicate());
        Ok(list)
    }

    /// What is observed before cleanup.
    pub fn observe_for_cleanup(&self, resources: &Vec<ResourceRecord>, snapshot: &DesktopSnapshot) -> (r:
        ActionObservation)
        ensures
            r@ == (match editor_cleanup(
                self@.editor.editor_kind,
                resources.deep_view(),
                snapshot@,
            ) {
                Ok(observed) => observed_correct().holding(observed),
                Err(detail) => observed_unknown(detail),
            }),
    {
        let mut result: Result<Vec<ResourceRecord>, String> = Ok(empty_list());
        let mut i: usize = 0;
        let ghost all = resources.deep_view();
        let ghost kind = self@.editor.editor_kind;
        assert(all.take(0) =~= Seq::<ResourceRecordView>::empty());
        while i < resources.len()
            invariant
                i <= resources@.len(),
                all == resources.deep_view(),
                kind == self@.editor.editor_kind,
                editor_cleanup(kind, all.take(i as int), snapshot@) == (match result {
                    Ok(observed) => Ok::<Seq<ResourceRecordView>, Seq<char>>(
                        observed.deep_view(),
                    ),
                    Err(detail) => Err(detail@),
                }),
            decreases resources@.len() - i,
        {
            assert(all[i as int] == resources@[i as int]@);
            assert(all.take(i as int + 1).drop_last() =~= all.take(i as int));
            result = match result {
                Err(detail) => Err(detail),
                Ok(observed) => self.judge_window(observed, &resources[i], snapshot),
            };
            i = i + 1;
        }
        assert(all.take(i as int) =~= all);
        match result {
            Ok(observed) => ActionObservation::already_correct().with_resources(observed),
            Err(detail) => ActionObservation::unknown(detail.as_str()),
        }
    }
}

/// Registers the handler of an editor.
pub fn register_handlers(registry: &mut ActionHandlerRegistry, editor: ZedBackend) -> (r: Result<
    (),
    WorkstateError,
>)
    ensures
        (final(registry)@.keys, seen(r)) == registering(
            old(registry)@.keys,
            seq![editor_action(editor@.editor_kind).key_text()],
        ),
{
    registry.register(ProjectEditorHandler::new(editor).action_key())
}

/// Registers the handler of an editor.
pub fn register_editor_handler(registry: &mut ActionHandlerRegistry, editor: ZedBackend) -> (r:
    Result<(), WorkstateError>)
    ensures
        (final(registry)@.keys, seen(r)) == registering(
            old(registry)@.keys,
            seq![editor_action(editor@.editor_kind).key_text()],
        ),
{
    registry.register(ProjectEditorHandler::for_editor(editor).action_key())
}

// ---------------------------------------------------------------------------------------------
// Opening a project and placing its window
// ---------------------------------------------------------------------------------------------
/// What the work is doing.
#[derive(Debug)]
pub enum ApplyStage {
    Anchor,
    Open(EditorOpen),
    Place(WindowPlacing),
    Close,
    Over,
}

/// What a `ApplyStage` stands for.
#[verifier::ext_equal]
pub enum ApplyStageView {
    Anchor,
    Open(EditorOpenView),
    Place(WindowPlacingView),
    Close,
    Over,
}

impl View for ApplyStage {
    type V = ApplyStageView;

    open spec fn view(&self) -> ApplyStageView {
        match self {
            ApplyStage::Anchor => ApplyStageView::Anchor,
            ApplyStage::Open(value) => ApplyStageView::Open(value.deep_view()),
            ApplyStage::Place(value) => ApplyStageView::Place(value.deep_view()),
            ApplyStage::Close => ApplyStageView::Close,
            ApplyStage::Over => ApplyStageView::Over,
        }
    }
}

impl DeepView for ApplyStage {
    type V = ApplyStageView;

    open spec fn deep_view(&self) -> ApplyStageView {
        self.view()
    }
}

impl Replicate for ApplyStage {
    fn replicate(&self) -> (r: Self) {
        match self {
            ApplyStage::Anchor => ApplyStage::Anchor,
            ApplyStage::Open(value) => ApplyStage::Open(value.replicate()),
            ApplyStage::Place(value) => ApplyStage::Place(value.replicate()),
            ApplyStage::Close => ApplyStage::Close,
            ApplyStage::Over => ApplyStage::Over,
        }
    }
}

/// Opening a project and placing its window. `target` is the workspace that is asked for, `outcome` the window that was opened, and `error` why the work is given up.
#[derive(Debug)]
pub struct EditorApply {
    pub editor: ZedBackend,
    pub action: ActionSpec,
    pub project: String,
    pub target: Option<WorkspaceTarget>,
    pub outcome: Option<EditorOpenOutcome>,
    pub error: Option<WorkstateError>,
    pub stage: ApplyStage,
}

/// What a `EditorApply` stands for.
#[verifier::ext_equal]
pub struct EditorApplyView {
    pub editor: ZedBackendView,
    pub action: ActionSpecView,
    pub project: Seq<char>,
    pub target: Option<WorkspaceTargetView>,
    pub outcome: Option<EditorOpenOutcomeView>,
    pub error: Option<WorkstateErrorView>,
    pub stage: ApplyStageView,
}

impl View for EditorApply {
    type V = EditorApplyView;

    open spec fn view(&self) -> EditorApplyView {
        EditorApplyView {
            editor: self.editor.deep_view(),
            action: self.action.deep_view(),
            project: self.project.deep_view(),
            target: self.target.deep_view(),
            outcome: self.outcome.deep_view(),
            error: self.error.deep_view(),
            stage: self.stage.deep_view(),
        }
    }
}

impl DeepView for EditorApply {
    type V = EditorApplyView;

    open spec fn deep_view(&self) -> EditorApplyView {
        self.view()
    }
}

impl Replicate for EditorApply {
    fn replicate(&self) -> (r: Self) {
        EditorApply {
            editor: self.editor.replicate(),
            action: self.action.replicate(),
            project: self.project.replicate(),
            target: self.target.replicate(),
            outcome: self.outcome.replicate(),
            error: self.error.replicate(),
            stage: self.stage.replicate(),
        }
    }
}

/// What the desktop and the processes replied.
#[derive(Debug)]
pub enum ApplyEvent {
    Anchored(DesktopWorkspaceResolution),
    Snapshot { snapshot: DesktopSnapshot, normalized: TextMap },
    Locked,
    Started(BackgroundProcess),
    Rested,
    Expired,
    Cancelled,
    Stopped,
    Ensured(DesktopWorkspaceResolution),
    Checked,
    Moved,
    Closed,
    Failed(WorkstateError),
}

/// What a `ApplyEvent` stands for.
#[verifier::ext_equal]
pub enum ApplyEventView {
    Anchored(DesktopWorkspaceResolutionView),
    Snapshot { snapshot: DesktopSnapshotView, normalized: Map<Seq<char>, Seq<char>> },
    Locked,
    Started(BackgroundProcessView),
    Rested,
    Expired,
    Cancelled,
    Stopped,
    Ensured(DesktopWorkspaceResolutionView),
    Checked,
    Moved,
    Closed,
    Failed(WorkstateErrorView),
}

impl View for ApplyEvent {
    type V = ApplyEventView;

    open spec fn view(&self) -> ApplyEventView {
        match self {
            ApplyEvent::Anchored(value) => ApplyEventView::Anchored(value.deep_view()),
            ApplyEvent::Snapshot { snapshot, normalized } => ApplyEventView::Snapshot { snapshot: snapshot.deep_view(), normalized: normalized.deep_view() },
            ApplyEvent::Locked => ApplyEventView::Locked,
            ApplyEvent::Started(value) => ApplyEventView::Started(value.deep_view()),
            ApplyEvent::Rested => ApplyEventView::Rested,
            ApplyEvent::Expired => ApplyEventView::Expired,
            ApplyEvent::Cancelled => ApplyEventView::Cancelled,
            ApplyEvent::Stopped => ApplyEventView::Stopped,
            ApplyEvent::Ensured(value) => ApplyEventView::Ensured(value.deep_view()),
            ApplyEvent::Checked => ApplyEventView::Checked,
            ApplyEvent::Moved => ApplyEventView::Moved,
            ApplyEvent::Closed => ApplyEventView::Closed,
            ApplyEvent::Failed(value) => ApplyEventView::Failed(value.deep_view()),
        }
    }
}

impl DeepView for ApplyEvent {
    type V = ApplyEventView;

    open spec fn deep_view(&self) -> ApplyEventView {
        self.view()
    }
}

/// What is asked next. `Anchor` asks for the workspace that a target means at present.
#[derive(Debug)]
pub enum ApplyStep {
    Anchor(WorkspaceTarget),
    Snapshot,
    Lock,
    Start(ProcessRequest),
    Rest(TimeSpan),
    Stop(BackgroundProcess),
    Ensure(WorkspaceTarget),
    Check,
    Move { window: String, workspace: String },
    Close(String),
    Finish(ActionExecutionResult),
    Fail(WorkstateError),
    Idle,
}

/// What a `ApplyStep` stands for.
#[verifier::ext_equal]
pub enum ApplyStepView {
    Anchor(WorkspaceTargetView),
    Snapshot,
    Lock,
    Start(ProcessRequestView),
    Rest(TimeSpan),
    Stop(BackgroundProcessView),
    Ensure(WorkspaceTargetView),
    Check,
    Move { window: Seq<char>, workspace: Seq<char> },
    Close(Seq<char>),
    Finish(ActionExecutionResultView),
    Fail(WorkstateErrorView),
    Idle,
}

impl View for ApplyStep {
    type V = ApplyStepView;

    open spec fn view(&self) -> ApplyStepView {
        match self {
            ApplyStep::Anchor(value) => ApplyStepView::Anchor(value.deep_view()),
            ApplyStep::Snapshot => ApplyStepView::Snapshot,
            ApplyStep::Lock => ApplyStepView::Lock,
            ApplyStep::Start(value) => ApplyStepView::Start(value.deep_view()),
            ApplyStep::Rest(value) => ApplyStepView::Rest(value.deep_view()),
            ApplyStep::Stop(value) => ApplyStepView::Stop(value.deep_view()),
            ApplyStep::Ensure(value) => ApplyStepView::Ensure(value.deep_view()),
            ApplyStep::Check => ApplyStepView::Check,
            ApplyStep::Move { window, workspace } => ApplyStepView::Move { window: window.deep_view(), workspace: workspace.deep_view() },
            ApplyStep::Close(value) => ApplyStepView::Close(value.deep_view()),
            ApplyStep::Finish(value) => ApplyStepView::Finish(value.deep_view()),
            ApplyStep::Fail(value) => ApplyStepView::Fail(value.deep_view()),
            ApplyStep::Idle => ApplyStepView::Idle,
        }
    }
}

impl DeepView for ApplyStep {
    type V = ApplyStepView;

    open spec fn deep_view(&self) -> ApplyStepView {
        self.view()
    }
}

/// The work and what it asks for.
pub type ApplyMove = (EditorApplyView, ApplyStepView);

/// A reply as one to the opening.
pub open spec fn opening_reply(event: ApplyEventView) -> Option<EditorEventView> {
    match event {
        ApplyEventView::Snapshot { snapshot, normalized } => Some(
            EditorEventView::Snapshot { snapshot, normalized },
        ),
        ApplyEventView::Locked => Some(EditorEventView::Locked),
        ApplyEventView::Started(process) => Some(EditorEventView::Started(process)),
        ApplyEventView::Rested => Some(EditorEventView::Rested),
        ApplyEventView::Expired => Some(EditorEventView::Expired),
        ApplyEventView::Cancelled => Some(EditorEventView::Cancelled),
        ApplyEventView::Stopped => Some(EditorEventView::Stopped),
        ApplyEventView::Failed(error) => Some(EditorEventView::Failed(error)),
        _ => None,
    }
}

/// A reply as one to the placing.
pub open spec fn placing_reply(event: ApplyEventView) -> Option<PlacingEventView> {
    match event {
        ApplyEventView::Ensured(resolution) => Some(PlacingEventView::Ensured(resolution)),
        ApplyEventView::Snapshot { snapshot, normalized } => Some(
            PlacingEventView::Snapshot(snapshot),
        ),
        ApplyEventView::Checked => Some(PlacingEventView::Checked),
        ApplyEventView::Moved => Some(PlacingEventView::Moved),
        ApplyEventView::Failed(error) => Some(PlacingEventView::Failed(error)),
        _ => None,
    }
}

impl EditorApplyView {
    pub open spec fn to(self, stage: ApplyStageView, step: ApplyStepView) -> ApplyMove {
        (EditorApplyView { stage, ..self }, step)
    }

    pub open spec fn failed(self, error: WorkstateErrorView) -> ApplyMove {
        self.to(ApplyStageView::Over, ApplyStepView::Fail(error))
    }

    pub open spec fn name(self) -> Seq<char> {
        self.editor.editor_kind.display_name_text()
    }

    /// The project is opened.
    pub open spec fn opening(self) -> ApplyMove {
        self.through_opening(editor_open_begun(self.editor, self.project))
    }

    /// A step of the opening.
    pub open spec fn through_opening(self, made: EditorMove) -> ApplyMove {
        let stage = ApplyStageView::Open(made.0);
        match made.1 {
            EditorStepView::Snapshot => self.to(stage, ApplyStepView::Snapshot),
            EditorStepView::Lock => self.to(stage, ApplyStepView::Lock),
            EditorStepView::Start(request) => self.to(stage, ApplyStepView::Start(request)),
            EditorStepView::Rest(span) => self.to(stage, ApplyStepView::Rest(span)),
            EditorStepView::Stop(process) => self.to(stage, ApplyStepView::Stop(process)),
            EditorStepView::Finish(outcome) => self.opened(outcome),
            EditorStepView::Fail(error) => self.failed(error),
            EditorStepView::Idle => self.to(stage, ApplyStepView::Idle),
        }
    }

    /// The record of the window that was opened.
    pub open spec fn recorded(self, outcome: EditorOpenOutcomeView) -> Result<
        ResourceRecordView,
        WorkstateErrorView,
    > {
        editor_window_recorded(
            self.action,
            outcome.window,
            if outcome.owned {
                OwnershipStatus::CreatedByCurrentRun
            } else {
                OwnershipStatus::ReusedExisting
            },
            !outcome.owned,
            self.project,
        )
    }

    /// The project is open: its window is placed, where a workspace is asked for.
    pub open spec fn opened(self, outcome: EditorOpenOutcomeView) -> ApplyMove {
        let work = EditorApplyView { outcome: Some(outcome), ..self };
        match self.recorded(outcome) {
            Err(error) => work.failed(error),
            Ok(_) => match self.target {
                None => work.finished(outcome, None),
                Some(target) => work.through_placing(
                    placing_begun(self.name(), outcome.window.identity, target),
                ),
            },
        }
    }

    /// A step of the placing.
    pub open spec fn through_placing(self, made: PlacingMove) -> ApplyMove {
        let stage = ApplyStageView::Place(made.0);
        match made.1 {
            PlacingStepView::Ensure(target) => self.to(stage, ApplyStepView::Ensure(target)),
            PlacingStepView::Snapshot => self.to(stage, ApplyStepView::Snapshot),
            PlacingStepView::Check => self.to(stage, ApplyStepView::Check),
            PlacingStepView::Move { window, workspace } => self.to(
                stage,
                ApplyStepView::Move { window, workspace },
            ),
            PlacingStepView::Finish(moved) => match self.outcome {
                Some(outcome) => self.finished(outcome, moved),
                None => (self, ApplyStepView::Idle),
            },
            PlacingStepView::Fail(error) => self.misplaced(error),
            PlacingStepView::Idle => self.to(stage, ApplyStepView::Idle),
        }
    }

    /// The window could not be placed: it is closed where it was opened just now.
    pub open spec fn misplaced(self, error: WorkstateErrorView) -> ApplyMove {
        match self.outcome {
            Some(outcome) if outcome.owned => EditorApplyView { error: Some(error), ..self }.to(
                ApplyStageView::Close,
                ApplyStepView::Close(outcome.window.identity),
            ),
            _ => self.failed(error),
        }
    }

    /// Why the work was given up, once the window is closed, or could not be.
    pub open spec fn given_up(self, failure: Option<WorkstateErrorView>) -> ApplyMove {
        match (self.error, failure) {
            (None, _) => (self, ApplyStepView::Idle),
            (Some(error), None) => self.failed(error),
            (Some(error), Some(failure)) => self.failed(
                error.with("launched_window_cleanup"@, rendered(failure)),
            ),
        }
    }

    /// The lines of a project that is open.
    pub open spec fn lines(self, outcome: EditorOpenOutcomeView, moved: Option<WindowMovedView>) -> Seq<
        Seq<char>,
    > {
        let name = self.name();
        let first = seq!["inspected "@ + name + " windows before opening project"@];
        let second = if outcome.owned {
            first.push("launched "@ + name + " for '"@ + self.project + "'"@).push(
                "waited for the launched "@ + name + " project window to become observable"@,
            )
        } else {
            first.push("reused "@ + name + " for '"@ + self.project + "'"@)
        };
        let third = match self.target {
            Some(target) => second.push(
                "resolved "@ + name + " destination workspace '"@ + target_label(target) + "'"@,
            ),
            None => second,
        };
        match moved {
            Some(moved) => third.push(
                "moved "@ + name + " window to desktop workspace '"@ + moved.destination + "'"@,
            ),
            None => third,
        }
    }

    /// The change that a move is: there is one where the window was in a workspace before.
    pub open spec fn change(self, outcome: EditorOpenOutcomeView, moved: Option<WindowMovedView>) -> Result<
        Seq<MutationRecordView>,
        WorkstateErrorView,
    > {
        match moved {
            Some(moved) if moved.previous is Some => match window_moved(
                outcome.window.identity,
                moved.previous,
                moved.destination,
                self.action.id,
                self.action.cleanup_policy,
            ) {
                Err(error) => Err(error),
                Ok(mutation) => Ok(seq![mutation]),
            },
            _ => Ok(Seq::empty()),
        }
    }

    /// The project is open, and its window is where it should be.
    pub open spec fn result(self, outcome: EditorOpenOutcomeView, moved: Option<WindowMovedView>) -> Result<
        ActionExecutionResultView,
        WorkstateErrorView,
    > {
        match (self.recorded(outcome), self.change(outcome, moved)) {
            (Err(error), _) => Err(error),
            (Ok(_), Err(error)) => Err(error),
            (Ok(record), Ok(mutations)) => Ok(
                ActionExecutionResultView {
                    changed: outcome.status == EditorOperationStatus::Launched || moved is Some,
                    resources: seq![
                        match moved {
                            Some(moved) => record.noting(
                                "workspace_identity"@,
                                moved.destination,
                            ),
                            None => record,
                        },
                    ],
                    mutations,
                    outputs: log_lines(self.lines(outcome, moved)),
                },
            ),
        }
    }

    pub open spec fn finished(self, outcome: EditorOpenOutcomeView, moved: Option<WindowMovedView>) -> ApplyMove {
        match self.result(outcome, moved) {
            Err(error) => self.failed(error),
            Ok(result) => self.to(ApplyStageView::Over, ApplyStepView::Finish(result)),
        }
    }

    /// What follows a reply. A reply that does not belong to what the work is waiting for changes
    /// nothing.
    pub open spec fn next(self, event: ApplyEventView) -> ApplyMove {
        match self.stage {
            ApplyStageView::Over => (self, ApplyStepView::Idle),
            ApplyStageView::Anchor => match (event, self.target) {
                (ApplyEventView::Anchored(destination), Some(target)) => EditorApplyView {
                    target: Some(anchored(target, destination)),
                    ..self
                }.opening(),
                (ApplyEventView::Failed(error), _) => self.failed(error),
                _ => (self, ApplyStepView::Idle),
            },
            ApplyStageView::Open(work) => match opening_reply(event) {
                Some(reply) => self.through_opening(work.next(reply)),
                None => (self, ApplyStepView::Idle),
            },
            ApplyStageView::Place(work) => match placing_reply(event) {
                Some(reply) => self.through_placing(work.next(reply)),
                None => (self, ApplyStepView::Idle),
            },
            ApplyStageView::Close => match event {
                ApplyEventView::Closed => self.given_up(None),
                ApplyEventView::Failed(error) => self.given_up(Some(error)),
                _ => (self, ApplyStepView::Idle),
            },
        }
    }
}

/// The work at its beginning: a workspace that is asked for is held on to, then the project is opened.
pub open spec fn apply_begun(editor: ZedBackendView, action: ActionSpecView, project: Seq<char>) -> ApplyMove {
    let work = EditorApplyView {
        editor,
        action,
        project,
        target: named_target(action),
        outcome: None,
        error: None,
        stage: ApplyStageView::Anchor,
    };
    match named_target(action) {
        Some(target) if target !is Nowhere => (work, ApplyStepView::Anchor(target)),
        _ => work.opening(),
    }
}

impl ProjectEditorHandler {
    /// Begins to open a project, whose path is resolved already.
    pub fn apply(&self, action: &ActionSpec, project_path: String) -> (r: (EditorApply, ApplyStep))
        ensures
            (r.0@, r.1@) == apply_begun(self@.editor, action@, project_path@),
    {
        let target = action.workspace_target();
        let asked = target.replicate();
        let work = EditorApply {
            editor: self.editor.replicate(),
            action: action.replicate(),
            project: project_path,
            target,
            outcome: None,
            error: None,
            stage: ApplyStage::Anchor,
        };
        match asked {
            None | Some(WorkspaceTarget::Nowhere) => work.opening(),
            Some(target) => (work, ApplyStep::Anchor(target)),
        }
    }
}

impl EditorApply {
    fn to(self, stage: ApplyStage, step: ApplyStep) -> (r: (EditorApply, ApplyStep))
        ensures
            (r.0@, r.1@) == self@.to(stage@, step@),
    {
        let mut work = self;
        work.stage = stage;
        (work, step)
    }

    fn failed(self, error: WorkstateError) -> (r: (EditorApply, ApplyStep))
        ensures
            (r.0@, r.1@) == self@.failed(error@),
    {
        self.to(ApplyStage::Over, ApplyStep::Fail(error))
    }

    fn opening(self) -> (r: (EditorApply, ApplyStep))
        ensures
            (r.0@, r.1@) == self@.opening(),
    {
        let made = self.editor.open_project(self.project.clone());
        self.through_opening(made.0, made.1)
    }

    fn through_opening(self, work: EditorOpen, step: EditorStep) -> (r: (EditorApply, ApplyStep))
        ensures
            (r.0@, r.1@) == self@.through_opening((work@, step@)),
    {
        match step {
            EditorStep::Snapshot => self.to(ApplyStage::Open(work), ApplyStep::Snapshot),
            EditorStep::Lock => self.to(ApplyStage::Open(work), ApplyStep::Lock),
            EditorStep::Start(request) => self.to(
                ApplyStage::Open(work),
                ApplyStep::Start(request),
            ),
            EditorStep::Rest(span) => self.to(ApplyStage::Open(work), ApplyStep::Rest(span)),
            EditorStep::Stop(process) => self.to(ApplyStage::Open(work), ApplyStep::Stop(process)),
            EditorStep::Finish(outcome) => self.opened(outcome),
            EditorStep::Fail(error) => self.failed(error),
            EditorStep::Idle => self.to(ApplyStage::Open(work), ApplyStep::Idle),
        }
    }

    fn recorded(&self, outcome: &EditorOpenOutcome) -> (r: Result<ResourceRecord, WorkstateError>)
        ensures
            seen(r) == self@.recorded(outcome@),
    {
        let ownership = if outcome.owned {
            OwnershipStatus::CreatedByCurrentRun
        } else {
            OwnershipStatus::ReusedExisting
        };
        window_record(
            &self.action,
            &outcome.window,
            ownership,
            !outcome.owned,
            self.project.as_str(),
        )
    }

    fn opened(self, outcome: EditorOpenOutcome) -> (r: (EditorApply, ApplyStep))
        ensures
            (r.0@, r.1@) == self@.opened(outcome@),
    {
        let recorded = self.recorded(&outcome);
        let mut work = self;
        work.outcome = Some(outcome.replicate());
        if let Err(error) = recorded {
            return work.failed(error);
        }
        let target = work.target.replicate();
        match target {
            None => work.finished(outcome, None),
            Some(target) => {
                let made = WindowPlacing::begin(
                    work.editor.editor_kind.display_name(),
                    outcome.window.identity.as_str(),
                    target,
                );
                work.through_placing(made.0, made.1)
            },
        }
    }

    fn through_placing(self, work: WindowPlacing, step: PlacingStep) -> (r: (
        EditorApply,
        ApplyStep,
    ))
        ensures
            (r.0@, r.1@) == self@.through_placing((work@, step@)),
    {
        match step {
            PlacingStep::Ensure(target) => self.to(
                ApplyStage::Place(work),
                ApplyStep::Ensure(target),
            ),
            PlacingStep::Snapshot => self.to(ApplyStage::Place(work), ApplyStep::Snapshot),
            PlacingStep::Check => self.to(ApplyStage::Place(work), ApplyStep::Check),
            PlacingStep::Move { window, workspace } => self.to(
                ApplyStage::Place(work),
                ApplyStep::Move { window, workspace },
            ),
            PlacingStep::Finish(moved) => {
                let outcome = self.outcome.replicate();
                match outcome {
                    Some(outcome) => self.finished(outcome, moved),
                    None => (self, ApplyStep::Idle),
                }
            },
            PlacingStep::Fail(error) => self.misplaced(error),
            PlacingStep::Idle => self.to(ApplyStage::Place(work), ApplyStep::Idle),
        }
    }

    fn misplaced(self, error: WorkstateError) -> (r: (EditorApply, ApplyStep))
        ensures
            (r.0@, r.1@) == self@.misplaced(error@),
    {
        let own = match &self.outcome {
            Some(outcome) => if outcome.owned {
                Some(outcome.window.identity.clone())
            } else {
                None
            },
            None => None,
        };
        match own {
            None => self.failed(error),
            Some(window) => {
                let mut work = self;
                work.error = Some(error);
                work.to(ApplyStage::Close, ApplyStep::Close(window))
            },
        }
    }

    fn given_up(self, failure: Option<WorkstateError>) -> (r: (EditorApply, ApplyStep))
        ensures
            (r.0@, r.1@) == self@.given_up(failure.deep_view()),
    {
        let error = match &self.error {
            None => {
                return (self, ApplyStep::Idle);
            },
            Some(error) => error.replicate(),
        };
        match failure {
            None => self.failed(error),
            Some(failure) => {
                let error = error.with_context(
                    "launched_window_cleanup",
                    failure.render().as_str(),
                );
                self.failed(error)
            },
        }
    }

    fn lines(&self, outcome: &EditorOpenOutcome, moved: &Option<WindowMoved>) -> (r: Vec<String>)
        ensures
            r.deep_view() == self@.lines(outcome@, moved.deep_view()),
    {
        let name = self.editor.editor_kind.display_name();
        let mut lines = list_of(join3("inspected ", name, " windows before opening project"));
        if outcome.owned {
            append(&mut lines, join5("launched ", name, " for '", self.project.as_str(), "'"));
            append(
                &mut lines,
                join3(
                    "waited for the launched ",
                    name,
                    " project window to become observable",
                ),
            );
        } else {
            append(&mut lines, join5("reused ", name, " for '", self.project.as_str(), "'"));
        }
        if let Some(target) = &self.target {
            append(
                &mut lines,
                join5(
                    "resolved ",
                    name,
                    " destination workspace '",
                    workspace_target_label(target).as_str(),
                    "'",
                ),
            );
        }
        if let Some(moved) = moved {
            append(
                &mut lines,
                join5(
                    "moved ",
                    name,
                    " window to desktop workspace '",
                    moved.destination.as_str(),
                    "'",
                ),
            );
        }
        assert(lines.deep_view() =~= self@.lines(outcome@, moved.deep_view()));
        lines
    }

    fn change(&self, outcome: &EditorOpenOutcome, moved: &Option<WindowMoved>) -> (r: Result<
        Vec<MutationRecord>,
        WorkstateError,
    >)
        ensures
            seen(r) == self@.change(outcome@, moved.deep_view()),
    {
        match moved {
            Some(moved) => if moved.previous.is_some() {
                match record_window_move(
                    outcome.window.identity.as_str(),
                    moved.previous.replicate(),
                    moved.destination.as_str(),
                    self.action.id.as_str(),
                    self.action.cleanup_policy,
                ) {
                    Err(error) => Err(error),
                    Ok(mutation) => Ok(list_of(mutation)),
                }
            } else {
                Ok(empty_list())
            },
            None => Ok(empty_list()),
        }
    }

    fn finished(self, outcome: EditorOpenOutcome, moved: Option<WindowMoved>) -> (r: (
        EditorApply,
        ApplyStep,
    ))
        ensures
            (r.0@, r.1@) == self@.finished(outcome@, moved.deep_view()),
    {
        let mut record = match self.recorded(&outcome) {
            Err(error) => {
                return self.failed(error);
            },
            Ok(record) => record,
        };
        let mutations = match self.change(&outcome, &moved) {
            Err(error) => {
                return self.failed(error);
            },
            Ok(mutations) => mutations,
        };
        let outputs = logged(&self.lines(&outcome, &moved));
        let launched = match outcome.status {
            EditorOperationStatus::Launched => true,
            EditorOperationStatus::Reused => false,
        };
        let changed = launched || moved.is_some();
        if let Some(moved) = &moved {
            record.note("workspace_identity", moved.destination.as_str());
        }
        let result = ActionExecutionResult {
            changed,
            resources: list_of(record),
            mutations,
            outputs,
        };
        assert(result@ == self@.result(outcome@, moved.deep_view())->Ok_0);
        self.to(ApplyStage::Over, ApplyStep::Finish(result))
    }

    /// What follows a reply. A reply that does not belong to what the work is waiting for changes
    /// nothing.
    pub fn advance(self, event: ApplyEvent) -> (r: (EditorApply, ApplyStep))
        ensures
            (r.0@, r.1@) == self@.next(event@),
    {
        let stage = self.stage.replicate();
        match stage {
            ApplyStage::Over => (self, ApplyStep::Idle),
            ApplyStage::Anchor => {
                let target = self.target.replicate();
                match (event, target) {
                    (ApplyEvent::Anchored(destination), Some(target)) => {
                        let mut work = self;
                        work.target = Some(anchor_target(target, destination));
                        work.opening()
                    },
                    (ApplyEvent::Failed(error), _) => self.failed(error),
                    _ => (self, ApplyStep::Idle),
                }
            },
            ApplyStage::Open(work) => {
                let reply = match event {
                    ApplyEvent::Snapshot { snapshot, normalized } => EditorEvent::Snapshot {
                        snapshot,
                        normalized,
                    },
                    ApplyEvent::Locked => EditorEvent::Locked,
                    ApplyEvent::Started(process) => EditorEvent::Started(process),
                    ApplyEvent::Rested => EditorEvent::Rested,
                    ApplyEvent::Expired => EditorEvent::Expired,
                    ApplyEvent::Cancelled => EditorEvent::Cancelled,
                    ApplyEvent::Stopped => EditorEvent::Stopped,
                    ApplyEvent::Failed(error) => EditorEvent::Failed(error),
                    _ => {
                        return (self, ApplyStep::Idle);
                    },
                };
                let made = work.advance(reply);
                self.through_opening(made.0, made.1)
            },
            ApplyStage::Place(work) => {
                let reply = match event {
                    ApplyEvent::Ensured(resolution) => PlacingEvent::Ensured(resolution),
                    ApplyEvent::Snapshot { snapshot, normalized: _ } => PlacingEvent::Snapshot(
                        snapshot,
                    ),
                    ApplyEvent::Checked => PlacingEvent::Checked,
                    ApplyEvent::Moved => PlacingEvent::Moved,
                    ApplyEvent::Failed(error) => PlacingEvent::Failed(error),
                    _ => {
                        return (self, ApplyStep::Idle);
                    },
                };
                let made = work.advance(reply);
                self.through_placing(made.0, made.1)
            },
            ApplyStage::Close => match event {
                ApplyEvent::Closed => self.given_up(None),
                ApplyEvent::Failed(error) => self.given_up(Some(error)),
                _ => (self, ApplyStep::Idle),
            },
        }
    }
}

// ---------------------------------------------------------------------------------------------
// Laws
// ---------------------------------------------------------------------------------------------
/// A window that could not be placed is closed where it was opened just now, and left alone where it was
/// there before.
pub proof fn law_only_own_window_is_closed(work: EditorApplyView, event: ApplyEventView)
    ensures
        work.next(event).1 matches ApplyStepView::Close(window) ==> (work.stage is Place
            && work.outcome is Some && work.outcome->Some_0.owned
            && work.outcome->Some_0.window.identity == window),
{
}

/// After the window was closed, the error of the placing is what is reported.
pub proof fn law_placing_error_is_reported(work: EditorApplyView, error: WorkstateErrorView)
    requires
        work.stage is Close,
        work.error == Some(error),
    ensures
        work.next(ApplyEventView::Closed).1 == ApplyStepView::Fail(error),
{
}

/// A result that says that nothing changed names a window that was there before, and holds no change.
pub proof fn law_unchanged_result_has_no_change(
    work: EditorApplyView,
    outcome: EditorOpenOutcomeView,
    moved: Option<WindowMovedView>,
)
    ensures
        work.result(outcome, moved) matches Ok(result) ==> (!result.changed ==> (
        result.mutations.len() == 0 && outcome.status == EditorOperationStatus::Reused)),
{
}

/// A window that belongs to another application by now keeps everything from being cleaned up.
pub proof fn law_foreign_window_is_noticed(
    kind: ProjectEditorKind,
    resources: Seq<ResourceRecordView>,
    snapshot: DesktopSnapshotView,
    i: int,
)
    requires
        0 <= i < resources.len(),
        foreign(kind, resources[i], snapshot),
    ensures
        editor_cleanup(kind, resources, snapshot) is Err,
    decreases resources.len(),
{
    if i < resources.len() - 1 {
        assert(resources.drop_last()[i] == resources[i]);
        law_foreign_window_is_noticed(kind, resources.drop_last(), snapshot, i);
    } else {
        assert(resources.last() == resources[i]);
    }
}

/// Once the work is over, no reply brings anything about.
pub proof fn law_over_is_over(work: EditorApplyView, event: ApplyEventView)
    requires
        work.stage == ApplyStageView::Over,
    ensures
        work.next(event) == (work, ApplyStepView::Idle),
{
}

/// An editor takes the actions of its own kind that name its application.
pub proof fn law_editor_takes_its_own_actions(
    kind: ProjectEditorKind,
    action: ActionSpecView,
    editor: ZedBackendView,
)
    ensures
        editor_validated(kind, editor_action(kind), action) is Ok <==> action.kind == (match kind {
            ProjectEditorKind::Zed => ActionKind::OpenProject,
            ProjectEditorKind::VsCode => ActionKind::OpenProjectWithVsCode,
            ProjectEditorKind::Cursor => ActionKind::OpenProjectWithCursor,
        }) && (action.parameters.application matches Some(application) && kind.is_application(
            application,
        )),
        handler_of(editor).action_kind == editor_action(editor.editor_kind),
        handler_of(editor).editor == editor,
        action.parameters.project_path matches Some(path) ==> project_of(kind, action) == Ok::<
            Seq<char>,
            WorkstateErrorView,
        >(path),
        action.parameters.project_path is None ==> project_of(kind, action) is Err,
{
}

/// A project that is open where it belongs needs nothing; one that is not open, or stands elsewhere, needs
/// a change. What is open belongs to somebody else.
pub proof fn law_open_project_is_correct(
    kind: ProjectEditorKind,
    action: ActionSpecView,
    project: Seq<char>,
    snapshot: DesktopSnapshotView,
    normalized: Map<Seq<char>, Seq<char>>,
    records: Seq<ResourceRecordView>,
    window: EditorWindowSnapshotView,
    target: WorkspaceTargetView,
    workspace: DesktopWorkspaceSnapshotView,
    record: ResourceRecordView,
    destination: DesktopWorkspaceResolutionView,
)
    requires
        editor_windows(kind, snapshot.windows) == seq![window],
        kind.is_application(window.application),
        window.project_path == Some(project),
        !is_blank(window.identity),
    ensures
        action.resolved_workspace_target is None && action.parameters.workspace_id is None
            && action.desktop_workspace is None ==> (project_looked(
            kind,
            action,
            project,
            snapshot,
            normalized,
            records,
        ) matches Ok(EditorLookView::Settled(observed)) && observed.status
            == ObservationStatus::AlreadyCorrect && observed.resources.len() == 1
            && observed.resources[0].resource.stable_identity == window.identity
            && observed.resources[0].ownership == OwnershipStatus::ReusedExisting),
        action.resolved_workspace_target == Some(target) && target !is Nowhere ==> (project_looked(
            kind,
            action,
            project,
            snapshot,
            normalized,
            records,
        ) matches Ok(EditorLookView::LookFor { target: asked, window: found, record: _ })
            && asked == target && found == window),
        destination.workspace == Some(workspace) ==> (placement_judged(
            kind,
            window,
            record,
            destination,
        ).status == ObservationStatus::AlreadyCorrect <==> window.workspace_identity == Some(
            workspace.identity,
        )),
        destination.workspace is None ==> placement_judged(
            kind,
            window,
            record,
            destination,
        ).status == ObservationStatus::RequiresChange,
        placement_judged(kind, window, record, destination).resources == seq![record],
{
    law_one_window_shows_the_project(kind, window, window, project, normalized);
}

/// Without a window of the editor the project has to be opened.
pub proof fn law_closed_project_needs_a_change(
    kind: ProjectEditorKind,
    action: ActionSpecView,
    project: Seq<char>,
    snapshot: DesktopSnapshotView,
    normalized: Map<Seq<char>, Seq<char>>,
    records: Seq<ResourceRecordView>,
)
    requires
        snapshot.windows.len() == 0,
    ensures
        project_looked(kind, action, project, snapshot, normalized, records) matches Ok(
            EditorLookView::Settled(observed),
        ) && observed.status == ObservationStatus::RequiresChange,
{
    let empty = Seq::<EditorWindowSnapshotView>::empty();
    assert(editor_windows(kind, snapshot.windows) =~= empty);
    reveal_with_fuel(Seq::filter, 2);
    assert(project_windows(kind, empty, project, normalized, true) =~= empty);
    assert(project_windows(kind, empty, project, normalized, false) =~= empty);
    assert(persisted_windows(kind, empty, project, records, normalized) =~= empty);
}

/// What was done is told as it was: a window that was launched belongs to this run and is cleaned up as
/// the action says, one that was reused does not, and a move is told with where the window came from.
pub proof fn law_opened_project_is_recorded(
    work: EditorApplyView,
    outcome: EditorOpenOutcomeView,
    moved: WindowMovedView,
)
    requires
        !is_blank(outcome.window.identity),
    ensures
        work.result(outcome, None) matches Ok(result) && result.resources.len() == 1
            && result.resources[0].resource.stable_identity == outcome.window.identity
            && result.resources[0].resource.kind == ResourceKind::DesktopWindow
            && result.resources[0].action_id == Some(work.action.id)
            && result.resources[0].cleanup_policy == work.action.cleanup_policy
            && result.mutations.len() == 0 && (outcome.owned ==> result.resources[0].ownership
            == OwnershipStatus::CreatedByCurrentRun) && (!outcome.owned
            ==> result.resources[0].ownership == OwnershipStatus::ReusedExisting)
            && result.changed == (outcome.status == EditorOperationStatus::Launched),
        work.result(outcome, Some(moved)) matches Ok(result) && result.changed
            && result.resources[0].note("workspace_identity"@) == Some(moved.destination) && (
        moved.previous is Some ==> result.mutations.len() == 1
            && result.mutations[0].previous_value == moved.previous
            && result.mutations[0].applied_value == Some(moved.destination)) && (moved.previous
            is None ==> result.mutations.len() == 0),
{
    if moved.previous is Some {
        law_move_is_recorded(
            outcome.window.identity,
            moved.previous,
            moved.destination,
            work.action.id,
            work.action.cleanup_policy,
        );
    }
}

/// The workspace that an action names is settled before the editor starts, and the window is brought to
/// that workspace and no other; a window of this run that does not get there is closed.
pub proof fn law_project_goes_to_its_workspace(
    editor: ZedBackendView,
    action: ActionSpecView,
    project: Seq<char>,
    target: WorkspaceTargetView,
    destination: DesktopWorkspaceResolutionView,
    workspace: DesktopWorkspaceSnapshotView,
    outcome: EditorOpenOutcomeView,
    work: EditorApplyView,
    placing: WindowPlacingView,
    error: WorkstateErrorView,
)
    requires
        action.resolved_workspace_target == Some(target),
        target !is Nowhere,
        destination.workspace == Some(workspace),
        !is_blank(outcome.window.identity),
    ensures
        apply_begun(editor, action, project).1 == ApplyStepView::Anchor(target),
        apply_begun(editor, action, project).0.next(ApplyEventView::Anchored(destination)).1
            is Snapshot,
        apply_begun(editor, action, project).0.next(
            ApplyEventView::Anchored(destination),
        ).0.opened(outcome).1 == ApplyStepView::Ensure(
            (WorkspaceTargetView::Existing {
                reference: WorkspaceReferenceView::Identifier(workspace.identity),
            }),
        ),
        work.outcome == Some(outcome) && outcome.owned && work.stage == ApplyStageView::Place(
            placing,
        ) && placing.phase == PlacingPhase::Ensure ==> work.next(ApplyEventView::Failed(error)).1
            == ApplyStepView::Close(outcome.window.identity),
        work.outcome == Some(outcome) && !outcome.owned && work.stage == ApplyStageView::Place(
            placing,
        ) && placing.phase == PlacingPhase::Ensure ==> work.next(ApplyEventView::Failed(error)).1
            == ApplyStepView::Fail(error),
{
}

/// Of the windows that were recorded, those that the editor still shows are left to close.
pub proof fn law_open_editor_windows_are_left(
    kind: ProjectEditorKind,
    earlier: Seq<ResourceRecordView>,
    record: ResourceRecordView,
    snapshot: DesktopSnapshotView,
    left: Seq<ResourceRecordView>,
    window: DesktopWindowSnapshotView,
    application: Seq<char>,
)
    requires
        editor_cleanup(kind, earlier, snapshot) == Ok::<Seq<ResourceRecordView>, Seq<char>>(left),
        record.resource.kind == ResourceKind::DesktopWindow,
        window.application == Some(application),
        kind.is_application(application),
    ensures
        snapshot.window(record.resource.stable_identity) == Some(window) ==> editor_cleanup(
            kind,
            earlier.push(record),
            snapshot,
        ) == Ok::<Seq<ResourceRecordView>, Seq<char>>(left.push(record)),
        snapshot.window(record.resource.stable_identity) is None ==> editor_cleanup(
            kind,
            earlier.push(record),
            snapshot,
        ) == Ok::<Seq<ResourceRecordView>, Seq<char>>(left),
{
    assert(earlier.push(record).drop_last() =~= earlier);
}

} // verus!
