//! Opening an application, and placing its windows.
use vstd::prelude::*;
use vstd::string::*;
use crate::domain::{
    identity_of, named_target, places_window, record_of, target_places_window, ActionSpec,
    ActionSpecView, MutationRecord, MutationRecordView, OwnershipStatus, ResourceIdentity,
    ResourceIdentityView, ResourceKind, ResourceRecord, ResourceRecordView, WorkspaceTarget,
    WorkspaceTargetView,
};
use crate::error::{
    error_of, rendered, seen, ErrorCategory, WorkstateError, WorkstateErrorView,
};
use crate::integrations::windows::{law_move_is_recorded, record_window_move, window_moved};
use crate::planner::{
    log_lines, logged, ActionExecutionResult, ActionExecutionResultView,
};
use crate::platform::linux::applications::{ApplicationLaunchSpec, ApplicationLaunchSpecView};
use crate::ports::{
    DesktopOperationOutcome, DesktopOperationOutcomeView, DesktopOperationStatus, DesktopSnapshot,
    DesktopSnapshotView, DesktopWindowSnapshot, DesktopWindowSnapshotView,
    DesktopWorkspaceResolution, DesktopWorkspaceResolutionView, DesktopWorkspaceSnapshotView,
    ProcessRequest, ProcessRequestView,
};
use crate::text::{decimal, is_blank, join3, text_decimal};
use crate::time::TimeSpan;
use crate::values::{
    append, append_all, empty_list, lemma_filter_ends, lemma_filter_step, list_holds, list_of,
    option_is_text, rest, Replicate,
};

verus! {

/// The windows of an application.
pub open spec fn application_windows(
    windows: Seq<DesktopWindowSnapshotView>,
    application: Seq<char>,
) -> Seq<DesktopWindowSnapshotView> {
    windows.filter(|window: DesktopWindowSnapshotView| window.application == Some(application))
}

/// The windows that were not there before.
pub open spec fn new_windows(
    windows: Seq<DesktopWindowSnapshotView>,
    before: Seq<Seq<char>>,
) -> Seq<DesktopWindowSnapshotView> {
    windows.filter(|window: DesktopWindowSnapshotView| !before.contains(window.identity))
}

/// The identities of windows.
pub open spec fn window_identities(windows: Seq<DesktopWindowSnapshotView>) -> Seq<Seq<char>> {
    windows.map_values(|window: DesktopWindowSnapshotView| window.identity)
}

/// The windows of an application.
pub fn matching_windows(windows: &Vec<DesktopWindowSnapshot>, application_id: &str) -> (r: Vec<
    DesktopWindowSnapshot,
>)
    ensures
        r.deep_view() == application_windows(windows.deep_view(), application_id@),
{
    let mut found: Vec<DesktopWindowSnapshot> = empty_list();
    let mut i: usize = 0;
    let ghost all = windows.deep_view();
    let ghost keep = |window: DesktopWindowSnapshotView| window.application == Some(
        application_id@,
    );
    proof {
        lemma_filter_ends(all, keep);
    }
    while i < windows.len()
        invariant
            i <= windows@.len(),
            all == windows.deep_view(),
            keep == (|window: DesktopWindowSnapshotView| window.application == Some(
                application_id@,
            )),
            found.deep_view() == all.take(i as int).filter(keep),
        decreases windows@.len() - i,
    {
        assert(all[i as int] == windows@[i as int]@);
        proof {
            lemma_filter_step(all, i as int, keep);
        }
        if option_is_text(&windows[i].application, application_id) {
            append(&mut found, windows[i].replicate());
        }
        i = i + 1;
    }
    proof {
        lemma_filter_ends(all, keep);
        assert(all.take(i as int) =~= all);
    }
    found
}

fn windows_not_in(windows: &Vec<DesktopWindowSnapshot>, before: &Vec<String>) -> (r: Vec<
    DesktopWindowSnapshot,
>)
    ensures
        r.deep_view() == new_windows(windows.deep_view(), before.deep_view()),
{
    let mut found: Vec<DesktopWindowSnapshot> = empty_list();
    let mut i: usize = 0;
    let ghost all = windows.deep_view();
    let ghost keep = |window: DesktopWindowSnapshotView| !before.deep_view().contains(
        window.identity,
    );
    proof {
        lemma_filter_ends(all, keep);
    }
    while i < windows.len()
        invariant
            i <= windows@.len(),
            all == windows.deep_view(),
            keep == (|window: DesktopWindowSnapshotView| !before.deep_view().contains(
                window.identity,
            )),
            found.deep_view() == all.take(i as int).filter(keep),
        decreases windows@.len() - i,
    {
        assert(all[i as int] == windows@[i as int]@);
        proof {
            lemma_filter_step(all, i as int, keep);
        }
        if !list_holds(before, &windows[i].identity) {
            append(&mut found, windows[i].replicate());
        }
        i = i + 1;
    }
    proof {
        lemma_filter_ends(all, keep);
        assert(all.take(i as int) =~= all);
    }
    found
}

fn identities_of(windows: &Vec<DesktopWindowSnapshot>) -> (r: Vec<String>)
    ensures
        r.deep_view() == window_identities(windows.deep_view()),
{
    let mut texts: Vec<String> = empty_list();
    let mut i: usize = 0;
    let ghost all = windows.deep_view();
    let ghost convert = |window: DesktopWindowSnapshotView| window.identity;
    assert(all.take(0).map_values(convert) =~= Seq::<Seq<char>>::empty());
    while i < windows.len()
        invariant
            i <= windows@.len(),
            all == windows.deep_view(),
            convert == (|window: DesktopWindowSnapshotView| window.identity),
            texts.deep_view() == all.take(i as int).map_values(convert),
        decreases windows@.len() - i,
    {
        assert(all[i as int] == windows@[i as int]@);
        append(&mut texts, windows[i].identity.clone());
        assert(all.take(i as int + 1).map_values(convert) =~= all.take(i as int).map_values(
            convert,
        ).push(convert(all[i as int])));
        i = i + 1;
    }
    assert(all.take(i as int) =~= all);
    texts
}

/// The record of a window of an application.
pub open spec fn window_recorded(
    action: ActionSpecView,
    window: DesktopWindowSnapshotView,
    ownership: OwnershipStatus,
    observed_before: bool,
    application: Seq<char>,
) -> Result<ResourceRecordView, WorkstateErrorView> {
    match identity_of(ResourceKind::DesktopWindow, window.identity) {
        Err(error) => Err(error),
        Ok(identity) => {
            let record = record_of(
                identity,
                ownership,
                action.id,
                observed_before,
                action.cleanup_policy,
            ).noting("application_id"@, application);
            let first = match window.application {
                Some(application) => record.noting("application"@, application),
                None => record,
            };
            let second = match window.title {
                Some(title) => first.noting("title"@, title),
                None => first,
            };
            Ok(
                match window.workspace_identity {
                    Some(workspace) => second.noting("workspace_identity"@, workspace),
                    None => second,
                },
            )
        },
    }
}

/// The records of the windows of an application, the first that is refused deciding.
pub open spec fn windows_recorded(
    action: ActionSpecView,
    windows: Seq<DesktopWindowSnapshotView>,
    ownership: OwnershipStatus,
    observed_before: bool,
    application: Seq<char>,
) -> Result<Seq<ResourceRecordView>, WorkstateErrorView>
    decreases windows.len(),
{
    if windows.len() == 0 {
        Ok(Seq::empty())
    } else {
        match windows_recorded(
            action,
            windows.drop_last(),
            ownership,
            observed_before,
            application,
        ) {
            Err(error) => Err(error),
            Ok(earlier) => match window_recorded(
                action,
                windows.last(),
                ownership,
                observed_before,
                application,
            ) {
                Err(error) => Err(error),
                Ok(record) => Ok(earlier.push(record)),
            },
        }
    }
}

fn window_record(
    action: &ActionSpec,
    window: &DesktopWindowSnapshot,
    ownership: OwnershipStatus,
    observed_before: bool,
    application_id: &str,
) -> (r: Result<ResourceRecord, WorkstateError>)
    ensures
        seen(r) == window_recorded(action@, window@, ownership, observed_before, application_id@),
{
    match ResourceIdentity::new(ResourceKind::DesktopWindow, window.identity.clone()) {
        Err(error) => Err(error),
        Ok(identity) => {
            let mut record = ResourceRecord::of_action(
                identity,
                ownership,
                action.id.as_str(),
                observed_before,
                action.cleanup_policy,
            );
            record.note("application_id", application_id);
            if let Some(application) = &window.application {
                record.note("application", application.as_str());
            }
            if let Some(title) = &window.title {
                record.note("title", title.as_str());
            }
            if let Some(workspace) = &window.workspace_identity {
                record.note("workspace_identity", workspace.as_str());
            }
            Ok(record)
        },
    }
}

/// The records of the windows of an application.
pub fn window_records(
    action: &ActionSpec,
    windows: &Vec<DesktopWindowSnapshot>,
    ownership: OwnershipStatus,
    observed_before: bool,
    application_id: &str,
) -> (r: Result<Vec<ResourceRecord>, WorkstateError>)
    ensures
        seen(r) == windows_recorded(
            action@,
            windows.deep_view(),
            ownership,
            observed_before,
            application_id@,
        ),
{
    let mut result: Result<Vec<ResourceRecord>, WorkstateError> = Ok(empty_list());
    let mut i: usize = 0;
    let ghost all = windows.deep_view();
    assert(all.take(0) =~= Seq::<DesktopWindowSnapshotView>::empty());
    while i < windows.len()
        invariant
            i <= windows@.len(),
            all == windows.deep_view(),
            seen(result) == windows_recorded(
                action@,
                all.take(i as int),
                ownership,
                observed_before,
                application_id@,
            ),
        decreases windows@.len() - i,
    {
        assert(all[i as int] == windows@[i as int]@);
        assert(all.take(i as int + 1).drop_last() =~= all.take(i as int));
        result = match result {
            Err(error) => Err(error),
            Ok(earlier) => match window_record(
                action,
                &windows[i],
                ownership,
                observed_before,
                application_id,
            ) {
                Err(error) => Err(error),
                Ok(record) => {
                    let mut records = earlier;
                    append(&mut records, record);
                    Ok(records)
                },
            },
        };
        i = i + 1;
    }
    assert(all.take(i as int) =~= all);
    result
}

/// The process that an application is launched with.
pub open spec fn launch_request(
    launch: ApplicationLaunchSpecView,
    arguments: Seq<Seq<char>>,
    directory: Seq<char>,
) -> ProcessRequestView {
    ProcessRequestView {
        program: launch.program,
        arguments: launch.arguments + arguments,
        working_directory: Some(directory),
        environment: Seq::empty(),
    }
}

/// The process that an application is launched with.
pub fn process_request(
    launch: ApplicationLaunchSpec,
    arguments: Vec<String>,
    working_directory: String,
) -> (r: ProcessRequest)
    ensures
        r@ == launch_request(launch@, arguments.deep_view(), working_directory@),
{
    let mut all = launch.arguments;
    append_all(&mut all, arguments);
    let environment: Vec<(String, String)> = Vec::new();
    assert(environment.deep_view() =~= Seq::<(Seq<char>, Seq<char>)>::empty());
    ProcessRequest {
        program: launch.program,
        arguments: all,
        working_directory: Some(working_directory),
        environment,
    }
}

/// What the work is waiting for.
#[derive(Debug, Clone, Copy, PartialEq, Eq, Structural)]
pub enum OpenPhase {
    Before,
    Launch,
    Windows,
    Rest,
    StopProcess,
    Workspace,
    Moving,
    Confirm,
    CloseWindows,
    Over,
}

impl DeepView for OpenPhase {
    type V = OpenPhase;

    open spec fn deep_view(&self) -> OpenPhase {
        *self
    }
}

impl Replicate for OpenPhase {
    fn replicate(&self) -> (r: Self) {
        *self
    }
}

/// Opening an application. `before` are the windows that were open, `process` is what was launched, `pending` are the windows that are not placed yet, `placed` those that are, and `error` is why the work is given up.
#[derive(Debug)]
pub struct ApplicationOpen {
    pub action: ActionSpec,
    pub application_id: String,
    pub request: ProcessRequest,
    pub poll_interval: TimeSpan,
    pub poll_timeout: TimeSpan,
    pub before: Vec<String>,
    pub process: Option<String>,
    pub pending: Vec<DesktopWindowSnapshot>,
    pub placed: Vec<DesktopWindowSnapshot>,
    pub workspace: Option<String>,
    pub mutations: Vec<MutationRecord>,
    pub error: Option<WorkstateError>,
    pub phase: OpenPhase,
}

/// What a `ApplicationOpen` stands for.
#[verifier::ext_equal]
pub struct ApplicationOpenView {
    pub action: ActionSpecView,
    pub application_id: Seq<char>,
    pub request: ProcessRequestView,
    pub poll_interval: TimeSpan,
    pub poll_timeout: TimeSpan,
    pub before: Seq<Seq<char>>,
    pub process: Option<Seq<char>>,
    pub pending: Seq<DesktopWindowSnapshotView>,
    pub placed: Seq<DesktopWindowSnapshotView>,
    pub workspace: Option<Seq<char>>,
    pub mutations: Seq<MutationRecordView>,
    pub error: Option<WorkstateErrorView>,
    pub phase: OpenPhase,
}

impl View for ApplicationOpen {
    type V = ApplicationOpenView;

    open spec fn view(&self) -> ApplicationOpenView {
        ApplicationOpenView {
            action: self.action.deep_view(),
            application_id: self.application_id.deep_view(),
            request: self.request.deep_view(),
            poll_interval: self.poll_interval.deep_view(),
            poll_timeout: self.poll_timeout.deep_view(),
            before: self.before.deep_view(),
            process: self.process.deep_view(),
            pending: self.pending.deep_view(),
            placed: self.placed.deep_view(),
            workspace: self.workspace.deep_view(),
            mutations: self.mutations.deep_view(),
            error: self.error.deep_view(),
            phase: self.phase.deep_view(),
        }
    }
}

impl DeepView for ApplicationOpen {
    type V = ApplicationOpenView;

    open spec fn deep_view(&self) -> ApplicationOpenView {
        self.view()
    }
}

impl Replicate for ApplicationOpen {
    fn replicate(&self) -> (r: Self) {
        ApplicationOpen {
            action: self.action.replicate(),
            application_id: self.application_id.replicate(),
            request: self.request.replicate(),
            poll_interval: self.poll_interval.replicate(),
            poll_timeout: self.poll_timeout.replicate(),
            before: self.before.replicate(),
            process: self.process.replicate(),
            pending: self.pending.replicate(),
            placed: self.placed.replicate(),
            workspace: self.workspace.replicate(),
            mutations: self.mutations.replicate(),
            error: self.error.replicate(),
            phase: self.phase.replicate(),
        }
    }
}

/// What the desktop replied. `Expired` says that the time for the windows is over.
#[derive(Debug)]
pub enum OpenEvent {
    Snapshot(DesktopSnapshot),
    Launched(DesktopOperationOutcome),
    Rested,
    Expired,
    Cancelled,
    Stopped,
    Ensured(DesktopWorkspaceResolution),
    Moved,
    WindowsClosed,
    Failed(WorkstateError),
}

/// What a `OpenEvent` stands for.
#[verifier::ext_equal]
pub enum OpenEventView {
    Snapshot(DesktopSnapshotView),
    Launched(DesktopOperationOutcomeView),
    Rested,
    Expired,
    Cancelled,
    Stopped,
    Ensured(DesktopWorkspaceResolutionView),
    Moved,
    WindowsClosed,
    Failed(WorkstateErrorView),
}

impl View for OpenEvent {
    type V = OpenEventView;

    open spec fn view(&self) -> OpenEventView {
        match self {
            OpenEvent::Snapshot(value) => OpenEventView::Snapshot(value.deep_view()),
            OpenEvent::Launched(value) => OpenEventView::Launched(value.deep_view()),
            OpenEvent::Rested => OpenEventView::Rested,
            OpenEvent::Expired => OpenEventView::Expired,
            OpenEvent::Cancelled => OpenEventView::Cancelled,
            OpenEvent::Stopped => OpenEventView::Stopped,
            OpenEvent::Ensured(value) => OpenEventView::Ensured(value.deep_view()),
            OpenEvent::Moved => OpenEventView::Moved,
            OpenEvent::WindowsClosed => OpenEventView::WindowsClosed,
            OpenEvent::Failed(value) => OpenEventView::Failed(value.deep_view()),
        }
    }
}

impl DeepView for OpenEvent {
    type V = OpenEventView;

    open spec fn deep_view(&self) -> OpenEventView {
        self.view()
    }
}

/// What is asked of the desktop next.
#[derive(Debug)]
pub enum OpenStep {
    Snapshot,
    Launch(ProcessRequest),
    Rest(TimeSpan),
    StopProcess(String),
    Ensure(WorkspaceTarget),
    Move { window: String, workspace: String },
    CloseWindows(Vec<String>),
    Finish(ActionExecutionResult),
    Fail(WorkstateError),
    Idle,
}

/// What a `OpenStep` stands for.
#[verifier::ext_equal]
pub enum OpenStepView {
    Snapshot,
    Launch(ProcessRequestView),
    Rest(TimeSpan),
    StopProcess(Seq<char>),
    Ensure(WorkspaceTargetView),
    Move { window: Seq<char>, workspace: Seq<char> },
    CloseWindows(Seq<Seq<char>>),
    Finish(ActionExecutionResultView),
    Fail(WorkstateErrorView),
    Idle,
}

impl View for OpenStep {
    type V = OpenStepView;

    open spec fn view(&self) -> OpenStepView {
        match self {
            OpenStep::Snapshot => OpenStepView::Snapshot,
            OpenStep::Launch(value) => OpenStepView::Launch(value.deep_view()),
            OpenStep::Rest(value) => OpenStepView::Rest(value.deep_view()),
            OpenStep::StopProcess(value) => OpenStepView::StopProcess(value.deep_view()),
            OpenStep::Ensure(value) => OpenStepView::Ensure(value.deep_view()),
            OpenStep::Move { window, workspace } => OpenStepView::Move { window: window.deep_view(), workspace: workspace.deep_view() },
            OpenStep::CloseWindows(value) => OpenStepView::CloseWindows(value.deep_view()),
            OpenStep::Finish(value) => OpenStepView::Finish(value.deep_view()),
            OpenStep::Fail(value) => OpenStepView::Fail(value.deep_view()),
            OpenStep::Idle => OpenStepView::Idle,
        }
    }
}

impl DeepView for OpenStep {
    type V = OpenStepView;

    open spec fn deep_view(&self) -> OpenStepView {
        self.view()
    }
}

/// The work and what it asks of the desktop.
pub type OpenMove = (ApplicationOpenView, OpenStepView);

/// The process that an outcome speaks of, where one was started.
pub open spec fn launched_process(outcome: DesktopOperationOutcomeView) -> Option<Seq<char>> {
    if outcome.status == DesktopOperationStatus::Created || outcome.status
        == DesktopOperationStatus::Changed {
        outcome.identity
    } else {
        None
    }
}

impl ApplicationOpenView {
    pub open spec fn to(self, phase: OpenPhase, step: OpenStepView) -> OpenMove {
        (ApplicationOpenView { phase, ..self }, step)
    }

    pub open spec fn failed(self, error: WorkstateErrorView) -> OpenMove {
        self.to(OpenPhase::Over, OpenStepView::Fail(error))
    }

    pub open spec fn finished(self, result: Result<ActionExecutionResultView, WorkstateErrorView>) -> OpenMove {
        match result {
            Err(error) => self.failed(error),
            Ok(result) => self.to(OpenPhase::Over, OpenStepView::Finish(result)),
        }
    }

    /// The application is open already.
    pub open spec fn reused(self, windows: Seq<DesktopWindowSnapshotView>) -> Result<
        ActionExecutionResultView,
        WorkstateErrorView,
    > {
        match windows_recorded(
            self.action,
            windows,
            OwnershipStatus::ReusedExisting,
            true,
            self.application_id,
        ) {
            Err(error) => Err(error),
            Ok(resources) => Ok(
                ActionExecutionResultView {
                    changed: false,
                    resources,
                    mutations: Seq::empty(),
                    outputs: log_lines(
                        seq![
                            "reused the already-open application '"@ + self.application_id + "'"@,
                        ],
                    ),
                },
            ),
        }
    }

    /// The lines of an application that was opened.
    pub open spec fn opened_lines(self) -> Seq<Seq<char>> {
        let id = self.application_id;
        let lines = seq![
            "inspected desktop windows before opening application '"@ + id + "'"@,
            "launched application '"@ + id + "'"@,
            "waited for application '"@ + id + "' to become observable"@,
        ];
        if places_window(named_target(self.action)) {
            lines.push("resolved the desktop workspace for application '"@ + id + "'"@)
        } else {
            lines
        }
    }

    /// The application was opened, and its windows are where they should be.
    pub open spec fn opened(self) -> Result<ActionExecutionResultView, WorkstateErrorView> {
        match windows_recorded(
            self.action,
            self.placed,
            OwnershipStatus::CreatedByCurrentRun,
            false,
            self.application_id,
        ) {
            Err(error) => Err(error),
            Ok(resources) => Ok(
                ActionExecutionResultView {
                    changed: true,
                    resources,
                    mutations: self.mutations,
                    outputs: log_lines(self.opened_lines()),
                },
            ),
        }
    }

    /// After the first look: an application that is open is used again.
    pub open spec fn after_before(self, snapshot: DesktopSnapshotView) -> OpenMove {
        let existing = application_windows(snapshot.windows, self.application_id);
        if existing.len() > 0 {
            self.finished(self.reused(existing))
        } else {
            ApplicationOpenView { before: window_identities(snapshot.windows), ..self }.to(
                OpenPhase::Launch,
                OpenStepView::Launch(self.request),
            )
        }
    }

    /// The windows did not come up: what was launched is stopped.
    pub open spec fn giving_up(self, error: WorkstateErrorView) -> OpenMove {
        match self.process {
            None => self.failed(error),
            Some(process) => ApplicationOpenView { error: Some(error), ..self }.to(
                OpenPhase::StopProcess,
                OpenStepView::StopProcess(process),
            ),
        }
    }

    /// The time for the windows is over.
    pub open spec fn timed_out(self) -> WorkstateErrorView {
        error_of(
            ErrorCategory::Runtime,
            "application '"@ + self.application_id
                + "' did not become observable before the timeout"@,
        ).with("application_id"@, self.application_id).with(
            "timeout_milliseconds"@,
            decimal(self.poll_timeout.millis()),
        )
    }

    pub open spec fn cancelled(self) -> WorkstateErrorView {
        error_of(
            ErrorCategory::Runtime,
            "opening application '"@ + self.application_id + "' was cancelled"@,
        )
    }

    /// After a look for windows: those that are new belong to the application that was launched.
    pub open spec fn after_windows(self, snapshot: DesktopSnapshotView) -> OpenMove {
        let found = new_windows(
            application_windows(snapshot.windows, self.application_id),
            self.before,
        );
        if found.len() == 0 {
            self.to(OpenPhase::Rest, OpenStepView::Rest(self.poll_interval))
        } else {
            let work = ApplicationOpenView { pending: found, ..self };
            match named_target(self.action) {
                Some(target) if target !is Nowhere => work.to(
                    OpenPhase::Workspace,
                    OpenStepView::Ensure(target),
                ),
                _ => {
                    let done = ApplicationOpenView {
                        pending: Seq::empty(),
                        placed: found,
                        ..self
                    };
                    done.finished(done.opened())
                },
            }
        }
    }

    /// A window could not be placed: all windows that were opened are closed.
    pub open spec fn misplaced(self, error: WorkstateErrorView) -> OpenMove {
        ApplicationOpenView { error: Some(error), ..self }.to(
            OpenPhase::CloseWindows,
            OpenStepView::CloseWindows(window_identities(self.placed + self.pending)),
        )
    }

    /// The window in front is where it should be.
    pub open spec fn past_window(self, window: DesktopWindowSnapshotView) -> ApplicationOpenView {
        ApplicationOpenView {
            pending: self.pending.drop_first(),
            placed: self.placed.push(window),
            ..self
        }
    }

    /// The next window that is not in the workspace is moved; once there is none, the work is done.
    pub open spec fn to_front(self, workspace: Seq<char>) -> OpenMove
        decreases self.pending.len(),
    {
        if self.pending.len() == 0 {
            self.finished(self.opened())
        } else if self.pending[0].workspace_identity == Some(workspace) {
            self.past_window(self.pending[0]).to_front(workspace)
        } else {
            self.to(
                OpenPhase::Moving,
                OpenStepView::Move { window: self.pending[0].identity, workspace },
            )
        }
    }

    /// After the workspace was looked for.
    pub open spec fn after_ensure(self, resolution: DesktopWorkspaceResolutionView) -> OpenMove {
        match resolution.workspace {
            None => self.misplaced(
                error_of(
                    ErrorCategory::Integration,
                    "the application workspace target could not be resolved"@,
                ),
            ),
            Some(workspace) => ApplicationOpenView {
                workspace: Some(workspace.identity),
                ..self
            }.to_front(workspace.identity),
        }
    }

    /// After a window was moved: a fresh snapshot must show it.
    pub open spec fn after_confirm(self, snapshot: DesktopSnapshotView) -> OpenMove {
        match self.workspace {
            None => self.finished(self.opened()),
            Some(workspace) => if self.pending.len() == 0 {
                self.to_front(workspace)
            } else {
                let window = self.pending[0];
                match snapshot.window(window.identity) {
                    None => self.misplaced(
                        error_of(
                            ErrorCategory::Integration,
                            "the application window disappeared after workspace placement"@,
                        ).with("window_identity"@, window.identity),
                    ),
                    Some(updated) => if updated.workspace_identity != Some(workspace) {
                        self.misplaced(
                            error_of(
                                ErrorCategory::Integration,
                                "the desktop backend did not confirm application workspace placement"@,
                            ).with("window_identity"@, window.identity).with(
                                "workspace_identity"@,
                                workspace,
                            ),
                        )
                    } else {
                        self.confirmed(window, workspace)
                    },
                }
            },
        }
    }

    /// The window in front was moved; where it came from is kept, as far as that is known.
    pub open spec fn confirmed(self, window: DesktopWindowSnapshotView, workspace: Seq<char>) -> OpenMove {
        let moved = DesktopWindowSnapshotView { workspace_identity: Some(workspace), ..window };
        match window.workspace_identity {
            None => self.past_window(moved).to_front(workspace),
            Some(previous) => match window_moved(
                window.identity,
                Some(previous),
                workspace,
                self.action.id,
                self.action.cleanup_policy,
            ) {
                Err(error) => self.misplaced(error),
                Ok(mutation) => ApplicationOpenView {
                    mutations: self.mutations.push(mutation),
                    ..self.past_window(moved)
                }.to_front(workspace),
            },
        }
    }

    /// Why the work was given up, once what was opened is taken down again, or could not be.
    pub open spec fn given_up(self, key: Seq<char>, failure: Option<WorkstateErrorView>) -> OpenMove {
        match (self.error, failure) {
            (None, _) => (self, OpenStepView::Idle),
            (Some(error), None) => self.failed(error),
            (Some(error), Some(failure)) => self.failed(error.with(key, rendered(failure))),
        }
    }

    /// A reply that says that something failed.
    pub open spec fn after_failure(self, error: WorkstateErrorView) -> OpenMove {
        match self.phase {
            OpenPhase::Before | OpenPhase::Launch => self.failed(error),
            OpenPhase::Windows | OpenPhase::Rest => self.giving_up(error),
            OpenPhase::StopProcess => self.given_up("launched_process_cleanup"@, Some(error)),
            OpenPhase::Workspace | OpenPhase::Confirm => self.misplaced(error),
            OpenPhase::Moving => if self.pending.len() == 0 {
                self.misplaced(error)
            } else {
                self.misplaced(error.with("window_identity"@, self.pending[0].identity))
            },
            OpenPhase::CloseWindows => self.given_up("launched_window_cleanup"@, Some(error)),
            OpenPhase::Over => (self, OpenStepView::Idle),
        }
    }

    /// What follows a reply. A reply that does not belong to what the work is waiting for changes
    /// nothing.
    pub open spec fn next(self, event: OpenEventView) -> OpenMove {
        match (self.phase, event) {
            (_, OpenEventView::Failed(error)) => self.after_failure(error),
            (OpenPhase::Before, OpenEventView::Snapshot(snapshot)) => self.after_before(snapshot),
            (OpenPhase::Launch, OpenEventView::Launched(outcome)) => ApplicationOpenView {
                process: launched_process(outcome),
                ..self
            }.to(OpenPhase::Windows, OpenStepView::Snapshot),
            (OpenPhase::Windows, OpenEventView::Snapshot(snapshot)) => self.after_windows(snapshot),
            (OpenPhase::Rest, OpenEventView::Rested) => self.to(
                OpenPhase::Windows,
                OpenStepView::Snapshot,
            ),
            (OpenPhase::Windows, OpenEventView::Expired)
            | (OpenPhase::Rest, OpenEventView::Expired) => self.giving_up(self.timed_out()),
            (OpenPhase::Windows, OpenEventView::Cancelled)
            | (OpenPhase::Rest, OpenEventView::Cancelled) => self.giving_up(self.cancelled()),
            (OpenPhase::StopProcess, OpenEventView::Stopped) => self.given_up(
                "launched_process_cleanup"@,
                None,
            ),
            (OpenPhase::Workspace, OpenEventView::Ensured(resolution)) => self.after_ensure(
                resolution,
            ),
            (OpenPhase::Moving, OpenEventView::Moved) => self.to(
                OpenPhase::Confirm,
                OpenStepView::Snapshot,
            ),
            (OpenPhase::Confirm, OpenEventView::Snapshot(snapshot)) => self.after_confirm(snapshot),
            (OpenPhase::CloseWindows, OpenEventView::WindowsClosed) => self.given_up(
                "launched_window_cleanup"@,
                None,
            ),
            _ => (self, OpenStepView::Idle),
        }
    }
}

/// The work at its beginning.
pub open spec fn open_begun(
    action: ActionSpecView,
    application_id: Seq<char>,
    request: ProcessRequestView,
    poll_interval: TimeSpan,
    poll_timeout: TimeSpan,
) -> OpenMove {
    (
        ApplicationOpenView {
            action,
            application_id,
            request,
            poll_interval,
            poll_timeout,
            before: Seq::empty(),
            process: None,
            pending: Seq::empty(),
            placed: Seq::empty(),
            workspace: None,
            mutations: Seq::empty(),
            error: None,
            phase: OpenPhase::Before,
        },
        OpenStepView::Snapshot,
    )
}

impl ApplicationOpen {
    /// Begins with a look at the desktop.
    pub fn begin(
        action: ActionSpec,
        application_id: String,
        request: ProcessRequest,
        poll_interval: TimeSpan,
        poll_timeout: TimeSpan,
    ) -> (r: (ApplicationOpen, OpenStep))
        ensures
            (r.0@, r.1@) == open_begun(
                action@,
                application_id@,
                request@,
                poll_interval,
                poll_timeout,
            ),
    {
        (
            ApplicationOpen {
                action,
                application_id,
                request,
                poll_interval,
                poll_timeout,
                before: empty_list(),
                process: None,
                pending: empty_list(),
                placed: empty_list(),
                workspace: None,
                mutations: empty_list(),
                error: None,
                phase: OpenPhase::Before,
            },
            OpenStep::Snapshot,
        )
    }

    fn to(self, phase: OpenPhase, step: OpenStep) -> (r: (ApplicationOpen, OpenStep))
        ensures
            (r.0@, r.1@) == self@.to(phase, step@),
    {
        let mut work = self;
        work.phase = phase;
        (work, step)
    }

    fn failed(self, error: WorkstateError) -> (r: (ApplicationOpen, OpenStep))
        ensures
            (r.0@, r.1@) == self@.failed(error@),
    {
        self.to(OpenPhase::Over, OpenStep::Fail(error))
    }

    fn finished(self, result: Result<ActionExecutionResult, WorkstateError>) -> (r: (
        ApplicationOpen,
        OpenStep,
    ))
        ensures
            (r.0@, r.1@) == self@.finished(seen(result)),
    {
        match result {
            Err(error) => self.failed(error),
            Ok(result) => self.to(OpenPhase::Over, OpenStep::Finish(result)),
        }
    }

    fn reused_result(&self, windows: &Vec<DesktopWindowSnapshot>) -> (r: Result<
        ActionExecutionResult,
        WorkstateError,
    >)
        ensures
            seen(r) == self@.reused(windows.deep_view()),
    {
        match window_records(
            &self.action,
            windows,
            OwnershipStatus::ReusedExisting,
            true,
            self.application_id.as_str(),
        ) {
            Err(error) => Err(error),
            Ok(resources) => {
                let line = join3(
                    "reused the already-open application '",
                    self.application_id.as_str(),
                    "'",
                );
                Ok(
                    ActionExecutionResult {
                        changed: false,
                        resources,
                        mutations: empty_list(),
                        outputs: logged(&list_of(line)),
                    },
                )
            },
        }
    }

    fn opened_lines(&self) -> (r: Vec<String>)
        ensures
            r.deep_view() == self@.opened_lines(),
    {
        let id = self.application_id.as_str();
        let mut lines = list_of(
            join3("inspected desktop windows before opening application '", id, "'"),
        );
        append(&mut lines, join3("launched application '", id, "'"));
        append(&mut lines, join3("waited for application '", id, "' to become observable"));
        if target_places_window(&self.action.workspace_target()) {
            append(
                &mut lines,
                join3("resolved the desktop workspace for application '", id, "'"),
            );
        }
        assert(lines.deep_view() =~= self@.opened_lines());
        lines
    }

    fn opened(&self) -> (r: Result<ActionExecutionResult, WorkstateError>)
        ensures
            seen(r) == self@.opened(),
    {
        match window_records(
            &self.action,
            &self.placed,
            OwnershipStatus::CreatedByCurrentRun,
            false,
            self.application_id.as_str(),
        ) {
            Err(error) => Err(error),
            Ok(resources) => Ok(
                ActionExecutionResult {
                    changed: true,
                    resources,
                    mutations: self.mutations.replicate(),
                    outputs: logged(&self.opened_lines()),
                },
            ),
        }
    }

    fn end(self) -> (r: (ApplicationOpen, OpenStep))
        ensures
            (r.0@, r.1@) == self@.finished(self@.opened()),
    {
        let result = self.opened();
        self.finished(result)
    }

    fn after_before(self, snapshot: DesktopSnapshot) -> (r: (ApplicationOpen, OpenStep))
        ensures
            (r.0@, r.1@) == self@.after_before(snapshot@),
    {
        let existing = matching_windows(&snapshot.windows, self.application_id.as_str());
        assert(existing.deep_view().len() == existing@.len());
        if existing.len() > 0 {
            let result = self.reused_result(&existing);
            return self.finished(result);
        }
        let request = self.request.replicate();
        let mut work = self;
        work.before = identities_of(&snapshot.windows);
        work.to(OpenPhase::Launch, OpenStep::Launch(request))
    }

    fn giving_up(self, error: WorkstateError) -> (r: (ApplicationOpen, OpenStep))
        ensures
            (r.0@, r.1@) == self@.giving_up(error@),
    {
        let process = self.process.replicate();
        match process {
            None => self.failed(error),
            Some(process) => {
                let mut work = self;
                work.error = Some(error);
                work.to(OpenPhase::StopProcess, OpenStep::StopProcess(process))
            },
        }
    }

    fn timed_out(&self) -> (r: WorkstateError)
        ensures
            r@ == self@.timed_out(),
    {
        let id = self.application_id.as_str();
        WorkstateError::new(
            ErrorCategory::Runtime,
            join3(
                "application '",
                id,
                "' did not become observable before the timeout",
            ).as_str(),
        ).with_context("application_id", id).with_context(
            "timeout_milliseconds",
            text_decimal(self.poll_timeout.as_millis()).as_str(),
        )
    }

    fn cancelled(&self) -> (r: WorkstateError)
        ensures
            r@ == self@.cancelled(),
    {
        WorkstateError::new(
            ErrorCategory::Runtime,
            join3(
                "opening application '",
                self.application_id.as_str(),
                "' was cancelled",
            ).as_str(),
        )
    }

    fn after_windows(self, snapshot: DesktopSnapshot) -> (r: (ApplicationOpen, OpenStep))
        ensures
            (r.0@, r.1@) == self@.after_windows(snapshot@),
    {
        let matching = matching_windows(&snapshot.windows, self.application_id.as_str());
        let found = windows_not_in(&matching, &self.before);
        assert(found.deep_view().len() == found@.len());
        if found.len() == 0 {
            let pause = self.poll_interval;
            return self.to(OpenPhase::Rest, OpenStep::Rest(pause));
        }
        let target = self.action.workspace_target();
        let mut work = self;
        match target {
            None | Some(WorkspaceTarget::Nowhere) => {
                work.pending = empty_list();
                work.placed = found;
                work.end()
            },
            Some(target) => {
                work.pending = found;
                work.to(OpenPhase::Workspace, OpenStep::Ensure(target))
            },
        }
    }

    fn misplaced(self, error: WorkstateError) -> (r: (ApplicationOpen, OpenStep))
        ensures
            (r.0@, r.1@) == self@.misplaced(error@),
    {
        let mut windows = self.placed.replicate();
        append_all(&mut windows, self.pending.replicate());
        let identities = identities_of(&windows);
        let mut work = self;
        work.error = Some(error);
        work.to(OpenPhase::CloseWindows, OpenStep::CloseWindows(identities))
    }

    fn past_window(self, window: DesktopWindowSnapshot) -> (r: ApplicationOpen)
        requires
            self.pending@.len() > 0,
        ensures
            r@ == self@.past_window(window@),
    {
        let mut work = self;
        let pending = rest(&work.pending);
        work.pending = pending;
        append(&mut work.placed, window);
        work
    }

    fn to_front(self, workspace: &str) -> (r: (ApplicationOpen, OpenStep))
        ensures
            (r.0@, r.1@) == self@.to_front(workspace@),
    {
        let ghost goal = self@.to_front(workspace@);
        let mut work = self;
        while work.pending.len() > 0
            invariant
                goal == self@.to_front(workspace@),
                work@.to_front(workspace@) == goal,
            ensures
                work@.to_front(workspace@) == goal,
                work.pending@.len() == 0,
            decreases work.pending@.len(),
        {
            let ghost view = work@;
            assert(work.pending.deep_view()[0] == work.pending@[0]@);
            if option_is_text(&work.pending[0].workspace_identity, workspace) {
                let window = work.pending[0].replicate();
                work = work.past_window(window);
            } else {
                let window = work.pending[0].identity.clone();
                return work.to(
                    OpenPhase::Moving,
                    OpenStep::Move { window, workspace: workspace.to_owned() },
                );
            }
            assert(work.pending.deep_view().len() == work.pending@.len());
            assert(work@.pending.len() < view.pending.len());
        }
        assert(work.pending.deep_view().len() == 0);
        work.end()
    }

    fn after_ensure(self, resolution: DesktopWorkspaceResolution) -> (r: (
        ApplicationOpen,
        OpenStep,
    ))
        ensures
            (r.0@, r.1@) == self@.after_ensure(resolution@),
    {
        match resolution.workspace {
            None => self.misplaced(
                WorkstateError::new(
                    ErrorCategory::Integration,
                    "the application workspace target could not be resolved",
                ),
            ),
            Some(workspace) => {
                let identity = workspace.identity;
                let mut work = self;
                work.workspace = Some(identity.clone());
                work.to_front(identity.as_str())
            },
        }
    }

    fn confirmed(self, window: DesktopWindowSnapshot, workspace: &str) -> (r: (
        ApplicationOpen,
        OpenStep,
    ))
        requires
            self.pending@.len() > 0,
        ensures
            (r.0@, r.1@) == self@.confirmed(window@, workspace@),
    {
        let previous = window.workspace_identity.replicate();
        let identity = window.identity.clone();
        let mut moved = window;
        moved.workspace_identity = Some(workspace.to_owned());
        match previous {
            None => self.past_window(moved).to_front(workspace),
            Some(previous) => match record_window_move(
                identity.as_str(),
                Some(previous),
                workspace,
                self.action.id.as_str(),
                self.action.cleanup_policy,
            ) {
                Err(error) => self.misplaced(error),
                Ok(mutation) => {
                    let mut work = self.past_window(moved);
                    append(&mut work.mutations, mutation);
                    work.to_front(workspace)
                },
            },
        }
    }

    fn after_confirm(self, snapshot: DesktopSnapshot) -> (r: (ApplicationOpen, OpenStep))
        ensures
            (r.0@, r.1@) == self@.after_confirm(snapshot@),
    {
        let workspace = match &self.workspace {
            None => {
                return self.end();
            },
            Some(workspace) => workspace.clone(),
        };
        assert(self.pending.deep_view().len() == self.pending@.len());
        if self.pending.len() == 0 {
            return self.to_front(workspace.as_str());
        }
        assert(self.pending.deep_view()[0] == self.pending@[0]@);
        let window = self.pending[0].replicate();
        match snapshot.window(window.identity.as_str()) {
            None => self.misplaced(
                WorkstateError::new(
                    ErrorCategory::Integration,
                    "the application window disappeared after workspace placement",
                ).with_context("window_identity", window.identity.as_str()),
            ),
            Some(updated) => if !option_is_text(&updated.workspace_identity, workspace.as_str()) {
                self.misplaced(
                    WorkstateError::new(
                        ErrorCategory::Integration,
                        "the desktop backend did not confirm application workspace placement",
                    ).with_context("window_identity", window.identity.as_str()).with_context(
                        "workspace_identity",
                        workspace.as_str(),
                    ),
                )
            } else {
                self.confirmed(window, workspace.as_str())
            },
        }
    }

    fn given_up(self, key: &str, failure: Option<WorkstateError>) -> (r: (
        ApplicationOpen,
        OpenStep,
    ))
        ensures
            (r.0@, r.1@) == self@.given_up(key@, failure.deep_view()),
    {
        let error = match &self.error {
            None => {
                return (self, OpenStep::Idle);
            },
            Some(error) => error.replicate(),
        };
        match failure {
            None => self.failed(error),
            Some(failure) => {
                let error = error.with_context(key, failure.render().as_str());
                self.failed(error)
            },
        }
    }

    fn after_failure(self, error: WorkstateError) -> (r: (ApplicationOpen, OpenStep))
        ensures
            (r.0@, r.1@) == self@.after_failure(error@),
    {
        match self.phase {
            OpenPhase::Before | OpenPhase::Launch => self.failed(error),
            OpenPhase::Windows | OpenPhase::Rest => self.giving_up(error),
            OpenPhase::StopProcess => self.given_up("launched_process_cleanup", Some(error)),
            OpenPhase::Workspace | OpenPhase::Confirm => self.misplaced(error),
            OpenPhase::Moving => {
                assert(self.pending.deep_view().len() == self.pending@.len());
                if self.pending.len() == 0 {
                    self.misplaced(error)
                } else {
                    assert(self.pending.deep_view()[0] == self.pending@[0]@);
                    let error = error.with_context(
                        "window_identity",
                        self.pending[0].identity.as_str(),
                    );
                    self.misplaced(error)
                }
            },
            OpenPhase::CloseWindows => self.given_up("launched_window_cleanup", Some(error)),
            OpenPhase::Over => (self, OpenStep::Idle),
        }
    }

    /// What follows a reply. A reply that does not belong to what the work is waiting for changes
    /// nothing.
    pub fn advance(self, event: OpenEvent) -> (r: (ApplicationOpen, OpenStep))
        ensures
            (r.0@, r.1@) == self@.next(event@),
    {
        match (self.phase, event) {
            (_, OpenEvent::Failed(error)) => self.after_failure(error),
            (OpenPhase::Before, OpenEvent::Snapshot(snapshot)) => self.after_before(snapshot),
            (OpenPhase::Launch, OpenEvent::Launched(outcome)) => {
                let process = match outcome.status {
                    DesktopOperationStatus::Created | DesktopOperationStatus::Changed => outcome.identity,
                    _ => None,
                };
                let mut work = self;
                work.process = process;
                work.to(OpenPhase::Windows, OpenStep::Snapshot)
            },
            (OpenPhase::Windows, OpenEvent::Snapshot(snapshot)) => self.after_windows(snapshot),
            (OpenPhase::Rest, OpenEvent::Rested) => self.to(OpenPhase::Windows, OpenStep::Snapshot),
            (OpenPhase::Windows, OpenEvent::Expired) | (OpenPhase::Rest, OpenEvent::Expired) => {
                let error = self.timed_out();
                self.giving_up(error)
            },
            (OpenPhase::Windows, OpenEvent::Cancelled) | (OpenPhase::Rest, OpenEvent::Cancelled) => {
                let error = self.cancelled();
                self.giving_up(error)
            },
            (OpenPhase::StopProcess, OpenEvent::Stopped) => self.given_up(
                "launched_process_cleanup",
                None,
            ),
            (OpenPhase::Workspace, OpenEvent::Ensured(resolution)) => self.after_ensure(resolution),
            (OpenPhase::Moving, OpenEvent::Moved) => self.to(OpenPhase::Confirm, OpenStep::Snapshot),
            (OpenPhase::Confirm, OpenEvent::Snapshot(snapshot)) => self.after_confirm(snapshot),
            (OpenPhase::CloseWindows, OpenEvent::WindowsClosed) => self.given_up(
                "launched_window_cleanup",
                None,
            ),
            _ => (self, OpenStep::Idle),
        }
    }
}

// ---------------------------------------------------------------------------------------------
// Laws
// ---------------------------------------------------------------------------------------------
/// An application that is open is never launched a second time.
pub proof fn law_open_application_is_reused(
    work: ApplicationOpenView,
    snapshot: DesktopSnapshotView,
)
    requires
        work.phase == OpenPhase::Before,
        application_windows(snapshot.windows, work.application_id).len() > 0,
    ensures
        match work.next(OpenEventView::Snapshot(snapshot)).1 {
            OpenStepView::Finish(result) => !result.changed && result.mutations.len() == 0,
            OpenStepView::Fail(_) => true,
            _ => false,
        },
{
}

/// What was launched is stopped where its windows do not come up, and the error that is reported says
/// so.
pub proof fn law_launched_process_is_stopped(work: ApplicationOpenView, process: Seq<char>)
    requires
        work.phase == OpenPhase::Windows || work.phase == OpenPhase::Rest,
        work.process == Some(process),
    ensures
        work.next(OpenEventView::Expired).1 == OpenStepView::StopProcess(process),
        work.next(OpenEventView::Expired).0.next(OpenEventView::Stopped).1 == OpenStepView::Fail(
            work.timed_out(),
        ),
        work.next(OpenEventView::Cancelled).1 == OpenStepView::StopProcess(process),
{
}

/// Windows that cannot be placed are closed, all of them, before the error is reported.
pub proof fn law_misplaced_windows_are_closed(
    work: ApplicationOpenView,
    error: WorkstateErrorView,
)
    requires
        work.phase == OpenPhase::Workspace,
    ensures
        work.next(OpenEventView::Failed(error)).1 == OpenStepView::CloseWindows(
            window_identities(work.placed + work.pending),
        ),
        work.next(OpenEventView::Failed(error)).0.next(OpenEventView::WindowsClosed).1
            == OpenStepView::Fail(error),
{
}

/// Once the work is over, no reply brings anything about.
pub proof fn law_over_is_over(work: ApplicationOpenView, event: OpenEventView)
    requires
        work.phase == OpenPhase::Over,
    ensures
        work.next(event) == (work, OpenStepView::Idle),
{
}

/// An application of which no window is open is launched, with its own arguments followed by those of the
/// action, in the directory of the action; then its windows are looked for until one shows that was not
/// there before.
pub proof fn law_closed_application_is_launched(
    action: ActionSpecView,
    application: Seq<char>,
    launch: ApplicationLaunchSpecView,
    arguments: Seq<Seq<char>>,
    directory: Seq<char>,
    poll_interval: TimeSpan,
    poll_timeout: TimeSpan,
    before: DesktopSnapshotView,
    outcome: DesktopOperationOutcomeView,
    after: DesktopSnapshotView,
)
    requires
        forall|i: int|
            0 <= i < before.windows.len() ==> (#[trigger] before.windows[i]).application != Some(
                application,
            ),
        forall|i: int|
            0 <= i < after.windows.len() ==> (#[trigger] after.windows[i]).application != Some(
                application,
            ) || exists|j: int|
                0 <= j < before.windows.len() && (#[trigger] before.windows[j]).identity
                    == after.windows[i].identity,
    ensures
        ({
            let begun = open_begun(
                action,
                application,
                launch_request(launch, arguments, directory),
                poll_interval,
                poll_timeout,
            );
            let looked = begun.0.next(OpenEventView::Snapshot(before));
            let launched = looked.0.next(OpenEventView::Launched(outcome));
            let waiting = launched.0.next(OpenEventView::Snapshot(after));
            &&& begun.1 is Snapshot
            &&& looked.1 matches OpenStepView::Launch(request) && request.program == launch.program
                && request.arguments == launch.arguments + arguments && request.working_directory
                == Some(directory) && request.environment.len() == 0
            &&& launched.1 is Snapshot
            &&& outcome.status == DesktopOperationStatus::Created ==> launched.0.process
                == outcome.identity
            &&& waiting.1 == OpenStepView::Rest(poll_interval)
            &&& waiting.0.next(OpenEventView::Rested).1 is Snapshot
        }),
{
    let of_application = |window: DesktopWindowSnapshotView|
        window.application == Some(application);
    lemma_no_window_is_kept(before.windows, of_application);
    assert(application_windows(before.windows, application).len() == 0);
    let known = window_identities(before.windows);
    let own = application_windows(after.windows, application);
    let is_new = |window: DesktopWindowSnapshotView| !known.contains(window.identity);
    assert forall|k: int| 0 <= k < own.len() implies !is_new(#[trigger] own[k]) by {
        lemma_kept_window_was_there(after.windows, of_application, k);
        let i = choose|i: int| 0 <= i < after.windows.len() && after.windows[i] == own[k];
        let j = choose|j: int|
            0 <= j < before.windows.len() && (#[trigger] before.windows[j]).identity
                == after.windows[i].identity;
        assert(known[j] == own[k].identity);
    }
    lemma_no_window_is_kept(own, is_new);
    assert(new_windows(own, known).len() == 0);
}

proof fn lemma_no_window_is_kept(
    windows: Seq<DesktopWindowSnapshotView>,
    wanted: spec_fn(DesktopWindowSnapshotView) -> bool,
)
    requires
        forall|i: int| 0 <= i < windows.len() ==> !wanted(#[trigger] windows[i]),
    ensures
        windows.filter(wanted) == Seq::<DesktopWindowSnapshotView>::empty(),
    decreases windows.len(),
{
    reveal(Seq::filter);
    if windows.len() > 0 {
        lemma_no_window_is_kept(windows.drop_last(), wanted);
        assert(!wanted(windows[windows.len() - 1]));
    }
}

proof fn lemma_kept_window_was_there(
    windows: Seq<DesktopWindowSnapshotView>,
    wanted: spec_fn(DesktopWindowSnapshotView) -> bool,
    k: int,
)
    requires
        0 <= k < windows.filter(wanted).len(),
    ensures
        wanted(windows.filter(wanted)[k]),
        windows.contains(windows.filter(wanted)[k]),
    decreases windows.len(),
{
    reveal(Seq::filter);
    if windows.len() > 0 {
        let kept = windows.drop_last().filter(wanted);
        if k < kept.len() {
            lemma_kept_window_was_there(windows.drop_last(), wanted, k);
            let i = choose|i: int|
                0 <= i < windows.drop_last().len() && windows.drop_last()[i] == kept[k];
            assert(windows[i] == kept[k]);
        } else {
            assert(windows[windows.len() - 1] == windows.last());
        }
    }
}

/// A new window of the application is what was opened: it belongs to this run, is to be cleaned up as the
/// action says, and bears the identity that the desktop gave it. Where the action names a workspace, that
/// workspace is asked for first.
pub proof fn law_new_window_is_the_applications(
    work: ApplicationOpenView,
    window: DesktopWindowSnapshotView,
    snapshot: DesktopSnapshotView,
    target: WorkspaceTargetView,
)
    requires
        work.phase == OpenPhase::Windows,
        snapshot.windows == seq![window],
        window.application == Some(work.application_id),
        !work.before.contains(window.identity),
        !is_blank(window.identity),
    ensures
        ({
            let found = work.next(OpenEventView::Snapshot(snapshot));
            &&& work.action.resolved_workspace_target == Some(target) && target !is Nowhere
                ==> found.1 == OpenStepView::Ensure(target) && found.0.pending == seq![window]
            &&& work.action.resolved_workspace_target is None
                && work.action.parameters.workspace_id is None && work.action.desktop_workspace
                is None ==> (found.1 matches OpenStepView::Finish(result) && result.changed
                && result.resources.len() == 1 && result.resources[0].resource.kind
                == ResourceKind::DesktopWindow && result.resources[0].resource.stable_identity
                == window.identity && result.resources[0].ownership
                == OwnershipStatus::CreatedByCurrentRun && result.resources[0].cleanup_policy
                == work.action.cleanup_policy && result.resources[0].action_id == Some(
                work.action.id,
            ) && !result.resources[0].observed_before && result.mutations == work.mutations)
        }),
{
    let of_application = |window: DesktopWindowSnapshotView|
        window.application == Some(work.application_id);
    let is_new = |window: DesktopWindowSnapshotView| !work.before.contains(window.identity);
    lemma_one_window_is_kept(window, of_application);
    lemma_one_window_is_kept(window, is_new);
    assert(application_windows(snapshot.windows, work.application_id) == seq![window]);
    assert(new_windows(seq![window], work.before) == seq![window]);
    reveal_with_fuel(windows_recorded, 2);
    assert(seq![window].drop_last() =~= Seq::<DesktopWindowSnapshotView>::empty());
    assert(seq![window].last() == window);
}

proof fn lemma_one_window_is_kept(
    window: DesktopWindowSnapshotView,
    wanted: spec_fn(DesktopWindowSnapshotView) -> bool,
)
    requires
        wanted(window),
    ensures
        seq![window].filter(wanted) == seq![window],
{
    reveal_with_fuel(Seq::filter, 2);
    assert(seq![window].drop_last() =~= Seq::<DesktopWindowSnapshotView>::empty());
    assert(seq![window].last() == window);
    assert(seq![window].filter(wanted) =~= seq![window]);
}

/// A window that stands elsewhere is moved to the workspace that was found, and the move counts once the
/// desktop shows the window there; where it came from is recorded. A window that does not get there, and
/// all others of the application, are closed.
pub proof fn law_window_is_moved_to_its_workspace(
    work: ApplicationOpenView,
    window: DesktopWindowSnapshotView,
    workspace: DesktopWorkspaceSnapshotView,
    resolution: DesktopWorkspaceResolutionView,
    previous: Seq<char>,
    shown: DesktopSnapshotView,
    updated: DesktopWindowSnapshotView,
)
    requires
        work.phase == OpenPhase::Workspace,
        work.pending == seq![window],
        work.placed.len() == 0,
        resolution.workspace == Some(workspace),
        window.workspace_identity == Some(previous),
        !is_blank(window.identity),
    ensures
        ({
            let asked = work.next(OpenEventView::Ensured(resolution));
            let moved = asked.0.next(OpenEventView::Moved);
            let confirmed = moved.0.next(OpenEventView::Snapshot(shown));
            &&& previous != workspace.identity ==> asked.1 == (OpenStepView::Move {
                window: window.identity,
                workspace: workspace.identity,
            }) && moved.1 is Snapshot
            &&& previous == workspace.identity ==> asked.1 is Finish
            &&& previous != workspace.identity && shown.window(window.identity) == Some(updated)
                && updated.workspace_identity == Some(workspace.identity) ==> (
            confirmed.1 matches OpenStepView::Finish(result) && result.resources.len() == 1
                && result.resources[0].resource.stable_identity == window.identity
                && result.mutations.len() == work.mutations.len() + 1
                && result.mutations.last().previous_value == Some(previous)
                && result.mutations.last().applied_value == Some(workspace.identity)
                && result.mutations.last().resource == Some(
                (ResourceIdentityView {
                    kind: ResourceKind::DesktopWindow,
                    stable_identity: window.identity,
                }),
            ))
            &&& previous != workspace.identity && shown.window(window.identity) == Some(updated)
                && updated.workspace_identity != Some(workspace.identity) ==> (
            confirmed.1 matches OpenStepView::CloseWindows(windows) && windows == seq![
                window.identity,
            ])
            &&& previous != workspace.identity && shown.window(window.identity) is None ==> (
            confirmed.1 matches OpenStepView::CloseWindows(windows) && windows == seq![
                window.identity,
            ])
        }),
{
    let empty = Seq::<DesktopWindowSnapshotView>::empty();
    let moved = DesktopWindowSnapshotView {
        workspace_identity: Some(workspace.identity),
        ..window
    };
    assert(seq![window].drop_first() =~= empty);
    assert(work.placed =~= empty);
    assert(empty.push(window) =~= seq![window]);
    assert(empty.push(moved) =~= seq![moved]);
    reveal_with_fuel(ApplicationOpenView::to_front, 3);
    reveal_with_fuel(windows_recorded, 2);
    assert(seq![window].drop_last() =~= empty && seq![window].last() == window);
    assert(seq![moved].drop_last() =~= empty && seq![moved].last() == moved);
    assert(window_identities(empty + seq![window]) =~= seq![window.identity]);
    law_move_is_recorded(
        window.identity,
        Some(previous),
        workspace.identity,
        work.action.id,
        work.action.cleanup_policy,
    );
}

} // verus!
