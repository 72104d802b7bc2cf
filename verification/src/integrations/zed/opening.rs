//! Opening a project in its editor.
use vstd::prelude::*;
use vstd::string::*;
use crate::collections::TextMap;
use crate::error::{rendered, WorkstateError, WorkstateErrorView};
use crate::integrations::zed::backend::project_windows;
use crate::ports::{
    BackgroundProcess, BackgroundProcessView, DesktopSnapshot, DesktopSnapshotView,
    EditorOpenOutcome, EditorOpenOutcomeView, EditorOperationStatus, EditorWindowSnapshot,
    EditorWindowSnapshotView, ProcessRequest, ProcessRequestView,
};
use crate::time::TimeSpan;
use crate::values::{
    append, empty_list, lemma_filter_ends, lemma_filter_step, list_holds, Replicate,
};
use super::backend::{
    editor_windows, project_ambiguous, project_window, ProjectEditorKind, ZedBackend,
    ZedBackendView,
};
use super::errors::{operation_error, operation_failure, zed_error, ZedError, ZedErrorView};

verus! {

/// The windows that were not there before.
pub open spec fn fresh_windows(
    windows: Seq<EditorWindowSnapshotView>,
    before: Seq<Seq<char>>,
) -> Seq<EditorWindowSnapshotView> {
    windows.filter(|window: EditorWindowSnapshotView| !before.contains(window.identity))
}

/// The identities of windows.
pub open spec fn editor_identities(windows: Seq<EditorWindowSnapshotView>) -> Seq<Seq<char>> {
    windows.map_values(|window: EditorWindowSnapshotView| window.identity)
}

fn windows_not_in(windows: &Vec<EditorWindowSnapshot>, before: &Vec<String>) -> (r: Vec<
    EditorWindowSnapshot,
>)
    ensures
        r.deep_view() == fresh_windows(windows.deep_view(), before.deep_view()),
{
    let mut found: Vec<EditorWindowSnapshot> = empty_list();
    let mut i: usize = 0;
    let ghost all = windows.deep_view();
    let ghost keep = |window: EditorWindowSnapshotView| !before.deep_view().contains(
        window.identity,
    );
    proof {
        lemma_filter_ends(all, keep);
    }
    while i < windows.len()
        invariant
            i <= windows@.len(),
            all == windows.deep_view(),
            keep == (|window: EditorWindowSnapshotView| !before.deep_view().contains(
                window.identity,
            )),
            found.deep_view() == all.take(i as int).filter(keep),
        decreases windows@.len() - i,
    {
        assert(all[i as int] == windows@[i as int]@);
        proof {
            lemma_filter_step(all, i as int, keep);
        }
        if !list_holds(before, &windows[i].identity) {
            append(&mut found, windows[i].replicate());
        }
        i = i + 1;
    }
    proof {
        lemma_filter_ends(all, keep);
        assert(all.take(i as int) =~= all);
    }
    found
}

fn identities_of(windows: &Vec<EditorWindowSnapshot>) -> (r: Vec<String>)
    ensures
        r.deep_view() == editor_identities(windows.deep_view()),
{
    let mut texts: Vec<String> = empty_list();
    let mut i: usize = 0;
    let ghost all = windows.deep_view();
    let ghost convert = |window: EditorWindowSnapshotView| window.identity;
    assert(all.take(0).map_values(convert) =~= Seq::<Seq<char>>::empty());
    while i < windows.len()
        invariant
            i <= windows@.len(),
            all == windows.deep_view(),
            convert == (|window: EditorWindowSnapshotView| window.identity),
            texts.deep_view() == all.take(i as int).map_values(convert),
        decreases windows@.len() - i,
    {
        assert(all[i as int] == windows@[i as int]@);
        append(&mut texts, windows[i].identity.clone());
        assert(all.take(i as int + 1).map_values(convert) =~= all.take(i as int).map_values(
            convert,
        ).push(convert(all[i as int])));
        i = i + 1;
    }
    assert(all.take(i as int) =~= all);
    texts
}

/// What the work is waiting for.
#[derive(Debug, Clone, Copy, PartialEq, Eq, Structural)]
pub enum EditorPhase {
    FirstLook,
    Lock,
    SecondLook,
    Launch,
    Windows,
    Rest,
    Stop,
    Over,
}

impl DeepView for EditorPhase {
    type V = EditorPhase;

    open spec fn deep_view(&self) -> EditorPhase {
        *self
    }
}

impl Replicate for EditorPhase {
    fn replicate(&self) -> (r: Self) {
        *self
    }
}

/// Opening a project. `before` are the windows that were open, `process` is what was launched, and `error` is why the work is given up.
#[derive(Debug)]
pub struct EditorOpen {
    pub backend: ZedBackend,
    pub project: String,
    pub before: Vec<String>,
    pub process: Option<BackgroundProcess>,
    pub error: Option<WorkstateError>,
    pub phase: EditorPhase,
}

/// What a `EditorOpen` stands for.
#[verifier::ext_equal]
pub struct EditorOpenView {
    pub backend: ZedBackendView,
    pub project: Seq<char>,
    pub before: Seq<Seq<char>>,
    pub process: Option<BackgroundProcessView>,
    pub error: Option<WorkstateErrorView>,
    pub phase: EditorPhase,
}

impl View for EditorOpen {
    type V = EditorOpenView;

    open spec fn view(&self) -> EditorOpenView {
        EditorOpenView {
            backend: self.backend.deep_view(),
            project: self.project.deep_view(),
            before: self.before.deep_view(),
            process: self.process.deep_view(),
            error: self.error.deep_view(),
            phase: self.phase.deep_view(),
        }
    }
}

impl DeepView for EditorOpen {
    type V = EditorOpenView;

    open spec fn deep_view(&self) -> EditorOpenView {
        self.view()
    }
}

impl Replicate for EditorOpen {
    fn replicate(&self) -> (r: Self) {
        EditorOpen {
            backend: self.backend.replicate(),
            project: self.project.replicate(),
            before: self.before.replicate(),
            process: self.process.replicate(),
            error: self.error.replicate(),
            phase: self.phase.replicate(),
        }
    }
}

/// What the desktop and the processes replied. A snapshot comes with the paths that were looked up for it; `Locked` says that nothing else is being launched, `Expired` that the time for the window is over.
#[derive(Debug)]
pub enum EditorEvent {
    Snapshot { snapshot: DesktopSnapshot, normalized: TextMap },
    Locked,
    Started(BackgroundProcess),
    Rested,
    Expired,
    Cancelled,
    Stopped,
    Failed(WorkstateError),
}

/// What a `EditorEvent` stands for.
#[verifier::ext_equal]
pub enum EditorEventView {
    Snapshot { snapshot: DesktopSnapshotView, normalized: Map<Seq<char>, Seq<char>> },
    Locked,
    Started(BackgroundProcessView),
    Rested,
    Expired,
    Cancelled,
    Stopped,
    Failed(WorkstateErrorView),
}

impl View for EditorEvent {
    type V = EditorEventView;

    open spec fn view(&self) -> EditorEventView {
        match self {
            EditorEvent::Snapshot { snapshot, normalized } => EditorEventView::Snapshot { snapshot: snapshot.deep_view(), normalized: normalized.deep_view() },
            EditorEvent::Locked => EditorEventView::Locked,
            EditorEvent::Started(value) => EditorEventView::Started(value.deep_view()),
            EditorEvent::Rested => EditorEventView::Rested,
            EditorEvent::Expired => EditorEventView::Expired,
            EditorEvent::Cancelled => EditorEventView::Cancelled,
            EditorEvent::Stopped => EditorEventView::Stopped,
            EditorEvent::Failed(value) => EditorEventView::Failed(value.deep_view()),
        }
    }
}

impl DeepView for EditorEvent {
    type V = EditorEventView;

    open spec fn deep_view(&self) -> EditorEventView {
        self.view()
    }
}

/// What is asked next.
#[derive(Debug)]
pub enum EditorStep {
    Snapshot,
    Lock,
    Start(ProcessRequest),
    Rest(TimeSpan),
    Stop(BackgroundProcess),
    Finish(EditorOpenOutcome),
    Fail(WorkstateError),
    Idle,
}

/// What a `EditorStep` stands for.
#[verifier::ext_equal]
pub enum EditorStepView {
    Snapshot,
    Lock,
    Start(ProcessRequestView),
    Rest(TimeSpan),
    Stop(BackgroundProcessView),
    Finish(EditorOpenOutcomeView),
    Fail(WorkstateErrorView),
    Idle,
}

impl View for EditorStep {
    type V = EditorStepView;

    open spec fn view(&self) -> EditorStepView {
        match self {
            EditorStep::Snapshot => EditorStepView::Snapshot,
            EditorStep::Lock => EditorStepView::Lock,
            EditorStep::Start(value) => EditorStepView::Start(value.deep_view()),
            EditorStep::Rest(value) => EditorStepView::Rest(value.deep_view()),
            EditorStep::Stop(value) => EditorStepView::Stop(value.deep_view()),
            EditorStep::Finish(value) => EditorStepView::Finish(value.deep_view()),
            EditorStep::Fail(value) => EditorStepView::Fail(value.deep_view()),
            EditorStep::Idle => EditorStepView::Idle,
        }
    }
}

impl DeepView for EditorStep {
    type V = EditorStepView;

    open spec fn deep_view(&self) -> EditorStepView {
        self.view()
    }
}

/// The work and what it asks for.
pub type EditorMove = (EditorOpenView, EditorStepView);

/// A window that was open already.
pub open spec fn reused(window: EditorWindowSnapshotView) -> EditorOpenOutcomeView {
    EditorOpenOutcomeView {
        status: EditorOperationStatus::Reused,
        window,
        owned: false,
        process_identity: None,
    }
}

/// A window that a process opened.
pub open spec fn launched(
    window: EditorWindowSnapshotView,
    process: Option<BackgroundProcessView>,
) -> EditorOpenOutcomeView {
    EditorOpenOutcomeView {
        status: EditorOperationStatus::Launched,
        window,
        owned: true,
        process_identity: match process {
            Some(process) => Some(process.identity),
            None => None,
        },
    }
}

fn reused_outcome(window: EditorWindowSnapshot) -> (r: EditorOpenOutcome)
    ensures
        r@ == reused(window@),
{
    EditorOpenOutcome {
        status: EditorOperationStatus::Reused,
        window,
        owned: false,
        process_identity: None,
    }
}

impl EditorOpenView {
    pub open spec fn to(self, phase: EditorPhase, step: EditorStepView) -> EditorMove {
        (EditorOpenView { phase, ..self }, step)
    }

    pub open spec fn failed(self, error: WorkstateErrorView) -> EditorMove {
        self.to(EditorPhase::Over, EditorStepView::Fail(error))
    }

    pub open spec fn finished(self, outcome: EditorOpenOutcomeView) -> EditorMove {
        self.to(EditorPhase::Over, EditorStepView::Finish(outcome))
    }

    pub open spec fn editor(self) -> Seq<char> {
        self.backend.editor_kind.display_name_text()
    }

    /// The process that opens the project.
    pub open spec fn request(self) -> ProcessRequestView {
        ProcessRequestView {
            program: self.backend.command.program,
            arguments: self.backend.command.arguments(self.project),
            working_directory: Some(self.project),
            environment: Seq::empty(),
        }
    }

    /// The window of the project among those of a snapshot.
    pub open spec fn found(
        self,
        snapshot: DesktopSnapshotView,
        normalized: Map<Seq<char>, Seq<char>>,
    ) -> Result<Option<EditorWindowSnapshotView>, WorkstateErrorView> {
        project_window(
            self.backend.editor_kind,
            editor_windows(self.backend.editor_kind, snapshot.windows),
            self.project,
            normalized,
        )
    }

    /// After a look before the launch: a project that is open is used again.
    pub open spec fn after_look(
        self,
        snapshot: DesktopSnapshotView,
        normalized: Map<Seq<char>, Seq<char>>,
    ) -> EditorMove {
        match self.found(snapshot, normalized) {
            Err(error) => self.failed(error),
            Ok(Some(window)) => self.finished(reused(window)),
            Ok(None) => if self.phase == EditorPhase::FirstLook {
                self.to(EditorPhase::Lock, EditorStepView::Lock)
            } else {
                EditorOpenView {
                    before: editor_identities(
                        editor_windows(self.backend.editor_kind, snapshot.windows),
                    ),
                    ..self
                }.to(EditorPhase::Launch, EditorStepView::Start(self.request()))
            },
        }
    }

    /// The window did not come up: what was launched is stopped.
    pub open spec fn giving_up(self, error: WorkstateErrorView) -> EditorMove {
        match self.process {
            None => self.failed(error),
            Some(process) => EditorOpenView { error: Some(error), ..self }.to(
                EditorPhase::Stop,
                EditorStepView::Stop(process),
            ),
        }
    }

    /// After a look for the window: the one of the project, or the only one that is new.
    pub open spec fn after_windows(
        self,
        snapshot: DesktopSnapshotView,
        normalized: Map<Seq<char>, Seq<char>>,
    ) -> EditorMove {
        let fresh = fresh_windows(
            editor_windows(self.backend.editor_kind, snapshot.windows),
            self.before,
        );
        match self.found(snapshot, normalized) {
            Err(error) => self.giving_up(error),
            Ok(Some(window)) => if self.before.contains(window.identity) {
                self.finished(reused(window))
            } else {
                self.finished(launched(window, self.process))
            },
            Ok(None) => if fresh.len() == 1 {
                self.finished(launched(fresh[0], self.process))
            } else if fresh.len() > 1 {
                self.giving_up(
                    project_ambiguous(self.backend.editor_kind, self.project, fresh.len()),
                )
            } else {
                self.to(EditorPhase::Rest, EditorStepView::Rest(self.backend.poll_interval))
            },
        }
    }

    /// The time for the window is over.
    pub open spec fn timed_out(self) -> WorkstateErrorView {
        zed_error(
            ZedErrorView::WindowTimeout { editor: self.editor(), project: self.project },
        )
    }

    pub open spec fn cancelled(self) -> WorkstateErrorView {
        zed_error(
            ZedErrorView::OperationFailed {
                editor: self.editor(),
                operation: "wait-for-project-window"@,
                detail: "the operation was cancelled"@,
            },
        )
    }

    /// Why the work was given up, once what was launched is stopped, or could not be.
    pub open spec fn given_up(self, failure: Option<WorkstateErrorView>) -> EditorMove {
        match (self.error, failure) {
            (None, _) => (self, EditorStepView::Idle),
            (Some(error), None) => self.failed(error),
            (Some(error), Some(failure)) => self.failed(
                error.with("launched_process_cleanup"@, rendered(failure)),
            ),
        }
    }

    /// A reply that says that something failed.
    pub open spec fn after_failure(self, error: WorkstateErrorView) -> EditorMove {
        match self.phase {
            EditorPhase::FirstLook | EditorPhase::Lock | EditorPhase::SecondLook => self.failed(
                error,
            ),
            EditorPhase::Launch => self.failed(
                operation_failure(self.editor(), "launch-project"@, error),
            ),
            EditorPhase::Windows | EditorPhase::Rest => self.giving_up(error),
            EditorPhase::Stop => self.given_up(Some(error)),
            EditorPhase::Over => (self, EditorStepView::Idle),
        }
    }

    /// What follows a reply. A reply that does not belong to what the work is waiting for changes
    /// nothing.
    pub open spec fn next(self, event: EditorEventView) -> EditorMove {
        match (self.phase, event) {
            (_, EditorEventView::Failed(error)) => self.after_failure(error),
            (EditorPhase::FirstLook, EditorEventView::Snapshot { snapshot, normalized })
            | (EditorPhase::SecondLook, EditorEventView::Snapshot { snapshot, normalized }) => {
                self.after_look(snapshot, normalized)
            },
            (EditorPhase::Lock, EditorEventView::Locked) => self.to(
                EditorPhase::SecondLook,
                EditorStepView::Snapshot,
            ),
            (EditorPhase::Launch, EditorEventView::Started(process)) => EditorOpenView {
                process: Some(process),
                ..self
            }.to(EditorPhase::Windows, EditorStepView::Snapshot),
            (EditorPhase::Windows, EditorEventView::Snapshot { snapshot, normalized }) => {
                self.after_windows(snapshot, normalized)
            },
            (EditorPhase::Rest, EditorEventView::Rested) => self.to(
                EditorPhase::Windows,
                EditorStepView::Snapshot,
            ),
            (EditorPhase::Windows, EditorEventView::Expired)
            | (EditorPhase::Rest, EditorEventView::Expired) => self.giving_up(self.timed_out()),
            (EditorPhase::Windows, EditorEventView::Cancelled)
            | (EditorPhase::Rest, EditorEventView::Cancelled) => self.giving_up(self.cancelled()),
            (EditorPhase::Stop, EditorEventView::Stopped) => self.given_up(None),
            _ => (self, EditorStepView::Idle),
        }
    }
}

/// The work at its beginning.
pub open spec fn editor_open_begun(backend: ZedBackendView, project: Seq<char>) -> EditorMove {
    (
        EditorOpenView {
            backend,
            project,
            before: Seq::empty(),
            process: None,
            error: None,
            phase: EditorPhase::FirstLook,
        },
        EditorStepView::Snapshot,
    )
}

impl ZedBackend {
    /// Begins to open a project, whose path is resolved already, with a look at the desktop.
    pub fn open_project(&self, project_path: String) -> (r: (EditorOpen, EditorStep))
        ensures
            (r.0@, r.1@) == editor_open_begun(self@, project_path@),
    {
        (
            EditorOpen {
                backend: self.replicate(),
                project: project_path,
                before: empty_list(),
                process: None,
                error: None,
                phase: EditorPhase::FirstLook,
            },
            EditorStep::Snapshot,
        )
    }
}

impl EditorOpen {
    fn to(self, phase: EditorPhase, step: EditorStep) -> (r: (EditorOpen, EditorStep))
        ensures
            (r.0@, r.1@) == self@.to(phase, step@),
    {
        let mut work = self;
        work.phase = phase;
        (work, step)
    }

    fn failed(self, error: WorkstateError) -> (r: (EditorOpen, EditorStep))
        ensures
            (r.0@, r.1@) == self@.failed(error@),
    {
        self.to(EditorPhase::Over, EditorStep::Fail(error))
    }

    fn finished(self, outcome: EditorOpenOutcome) -> (r: (EditorOpen, EditorStep))
        ensures
            (r.0@, r.1@) == self@.finished(outcome@),
    {
        self.to(EditorPhase::Over, EditorStep::Finish(outcome))
    }

    fn request(&self) -> (r: ProcessRequest)
        ensures
            r@ == self@.request(),
    {
        let environment: Vec<(String, String)> = Vec::new();
        assert(environment.deep_view() =~= Seq::<(Seq<char>, Seq<char>)>::empty());
        ProcessRequest {
            program: self.backend.command.program().to_owned(),
            arguments: self.backend.command.arguments(self.project.as_str()),
            working_directory: Some(self.project.clone()),
            environment,
        }
    }

    fn launched_outcome(&self, window: EditorWindowSnapshot) -> (r: EditorOpenOutcome)
        ensures
            r@ == launched(window@, self@.process),
    {
        EditorOpenOutcome {
            status: EditorOperationStatus::Launched,
            window,
            owned: true,
            process_identity: match &self.process {
                Some(process) => Some(process.identity.clone()),
                None => None,
            },
        }
    }

    fn after_look(self, snapshot: DesktopSnapshot, normalized: TextMap) -> (r: (
        EditorOpen,
        EditorStep,
    ))
        ensures
            (r.0@, r.1@) == self@.after_look(snapshot@, normalized@),
    {
        let windows = self.backend.observe_projects(&snapshot);
        match self.backend.matching_project_window(&windows, self.project.as_str(), &normalized) {
            Err(error) => self.failed(error),
            Ok(Some(window)) => self.finished(reused_outcome(window)),
            Ok(None) => match self.phase {
                EditorPhase::FirstLook => self.to(EditorPhase::Lock, EditorStep::Lock),
                _ => {
                    let request = self.request();
                    let mut work = self;
                    work.before = identities_of(&windows);
                    work.to(EditorPhase::Launch, EditorStep::Start(request))
                },
            },
        }
    }

    fn giving_up(self, error: WorkstateError) -> (r: (EditorOpen, EditorStep))
        ensures
            (r.0@, r.1@) == self@.giving_up(error@),
    {
        let process = self.process.replicate();
        match process {
            None => self.failed(error),
            Some(process) => {
                let mut work = self;
                work.error = Some(error);
                work.to(EditorPhase::Stop, EditorStep::Stop(process))
            },
        }
    }

    fn after_windows(self, snapshot: DesktopSnapshot, normalized: TextMap) -> (r: (
        EditorOpen,
        EditorStep,
    ))
        ensures
            (r.0@, r.1@) == self@.after_windows(snapshot@, normalized@),
    {
        let windows = self.backend.observe_projects(&snapshot);
        let found = match self.backend.matching_project_window(
            &windows,
            self.project.as_str(),
            &normalized,
        ) {
            Err(error) => {
                return self.giving_up(error);
            },
            Ok(found) => found,
        };
        if let Some(window) = found {
            if list_holds(&self.before, &window.identity) {
                return self.finished(reused_outcome(window));
            }
            let outcome = self.launched_outcome(window);
            return self.finished(outcome);
        }
        let fresh = windows_not_in(&windows, &self.before);
        assert(fresh.deep_view().len() == fresh@.len());
        if fresh.len() == 1 {
            assert(fresh.deep_view()[0] == fresh@[0]@);
            let outcome = self.launched_outcome(fresh[0].replicate());
            self.finished(outcome)
        } else if fresh.len() > 1 {
            let error = ZedError::AmbiguousProject {
                editor: self.backend.editor_kind.display_name().to_owned(),
                project: self.project.clone(),
                matches: fresh.len(),
            }.into_workstate();
            self.giving_up(error)
        } else {
            let pause = self.backend.poll_interval;
            self.to(EditorPhase::Rest, EditorStep::Rest(pause))
        }
    }

    fn timed_out(&self) -> (r: WorkstateError)
        ensures
            r@ == self@.timed_out(),
    {
        ZedError::WindowTimeout {
            editor: self.backend.editor_kind.display_name().to_owned(),
            project: self.project.clone(),
        }.into_workstate()
    }

    fn cancelled(&self) -> (r: WorkstateError)
        ensures
            r@ == self@.cancelled(),
    {
        ZedError::OperationFailed {
            editor: self.backend.editor_kind.display_name().to_owned(),
            operation: "wait-for-project-window".to_owned(),
            detail: "the operation was cancelled".to_owned(),
        }.into_workstate()
    }

    fn given_up(self, failure: Option<WorkstateError>) -> (r: (EditorOpen, EditorStep))
        ensures
            (r.0@, r.1@) == self@.given_up(failure.deep_view()),
    {
        let error = match &self.error {
            None => {
                return (self, EditorStep::Idle);
            },
            Some(error) => error.replicate(),
        };
        match failure {
            None => self.failed(error),
            Some(failure) => {
                let error = error.with_context(
                    "launched_process_cleanup",
                    failure.render().as_str(),
                );
                self.failed(error)
            },
        }
    }

    fn after_failure(self, error: WorkstateError) -> (r: (EditorOpen, EditorStep))
        ensures
            (r.0@, r.1@) == self@.after_failure(error@),
    {
        match self.phase {
            EditorPhase::FirstLook | EditorPhase::Lock | EditorPhase::SecondLook => self.failed(
                error,
            ),
            EditorPhase::Launch => {
                let error = operation_error(
                    self.backend.editor_kind.display_name(),
                    "launch-project",
                    error,
                );
                self.failed(error)
            },
            EditorPhase::Windows | EditorPhase::Rest => self.giving_up(error),
            EditorPhase::Stop => self.given_up(Some(error)),
            EditorPhase::Over => (self, EditorStep::Idle),
        }
    }

    /// What follows a reply. A reply that does not belong to what the work is waiting for changes
    /// nothing.
    pub fn advance(self, event: EditorEvent) -> (r: (EditorOpen, EditorStep))
        ensures
            (r.0@, r.1@) == self@.next(event@),
    {
        match (self.phase, event) {
            (_, EditorEvent::Failed(error)) => self.after_failure(error),
            (EditorPhase::FirstLook, EditorEvent::Snapshot { snapshot, normalized })
            | (EditorPhase::SecondLook, EditorEvent::Snapshot { snapshot, normalized }) => {
                self.after_look(snapshot, normalized)
            },
            (EditorPhase::Lock, EditorEvent::Locked) => self.to(
                EditorPhase::SecondLook,
                EditorStep::Snapshot,
            ),
            (EditorPhase::Launch, EditorEvent::Started(process)) => {
                let mut work = self;
                work.process = Some(process);
                work.to(EditorPhase::Windows, EditorStep::Snapshot)
            },
            (EditorPhase::Windows, EditorEvent::Snapshot { snapshot, normalized }) => {
                self.after_windows(snapshot, normalized)
            },
            (EditorPhase::Rest, EditorEvent::Rested) => self.to(
                EditorPhase::Windows,
                EditorStep::Snapshot,
            ),
            (EditorPhase::Windows, EditorEvent::Expired)
            | (EditorPhase::Rest, EditorEvent::Expired) => {
                let error = self.timed_out();
                self.giving_up(error)
            },
            (EditorPhase::Windows, EditorEvent::Cancelled)
            | (EditorPhase::Rest, EditorEvent::Cancelled) => {
                let error = self.cancelled();
                self.giving_up(error)
            },
            (EditorPhase::Stop, EditorEvent::Stopped) => self.given_up(None),
            _ => (self, EditorStep::Idle),
        }
    }
}

// ---------------------------------------------------------------------------------------------
// Laws
// ---------------------------------------------------------------------------------------------
/// A project that is open is never opened a second time: neither look before the launch is followed by
/// one where it finds the window.
pub proof fn law_open_project_is_reused(
    work: EditorOpenView,
    snapshot: DesktopSnapshotView,
    normalized: Map<Seq<char>, Seq<char>>,
    window: EditorWindowSnapshotView,
)
    requires
        work.phase == EditorPhase::FirstLook || work.phase == EditorPhase::SecondLook,
        work.found(snapshot, normalized) == Ok::<_, WorkstateErrorView>(Some(window)),
    ensures
        work.next(EditorEventView::Snapshot { snapshot, normalized }).1 == EditorStepView::Finish(
            reused(window),
        ),
{
}

/// An editor is only launched while nothing else is being launched, and after a look that did not find
/// the project.
pub proof fn law_launch_follows_second_look(work: EditorOpenView, event: EditorEventView)
    requires
        work.next(event).1 is Start,
    ensures
        work.phase == EditorPhase::SecondLook,
        event matches EditorEventView::Snapshot { snapshot, normalized } && work.found(
            snapshot,
            normalized,
        ) == Ok::<Option<EditorWindowSnapshotView>, WorkstateErrorView>(None),
{
}

/// A window that was there before the launch is never claimed as one's own.
pub proof fn law_owned_window_is_new(work: EditorOpenView, event: EditorEventView)
    ensures
        work.next(event).1 matches EditorStepView::Finish(outcome) ==> (outcome.owned ==> (
        work.phase == EditorPhase::Windows && !work.before.contains(outcome.window.identity))),
        work.next(event).1 matches EditorStepView::Finish(outcome) ==> outcome.owned == (
        outcome.status == EditorOperationStatus::Launched),
{
    if let EditorEventView::Snapshot { snapshot, normalized } = event {
        let windows = editor_windows(work.backend.editor_kind, snapshot.windows);
        let keep = |window: EditorWindowSnapshotView| !work.before.contains(window.identity);
        let fresh = fresh_windows(windows, work.before);
        if fresh.len() == 1 {
            windows.lemma_filter_pred(keep, 0);
        }
    }
}

/// What was launched is stopped where its window does not come up, and only then the error is reported.
pub proof fn law_launched_editor_is_stopped(work: EditorOpenView, process: BackgroundProcessView)
    requires
        work.phase == EditorPhase::Windows || work.phase == EditorPhase::Rest,
        work.process == Some(process),
    ensures
        work.next(EditorEventView::Expired).1 == EditorStepView::Stop(process),
        work.next(EditorEventView::Expired).0.next(EditorEventView::Stopped).1
            == EditorStepView::Fail(work.timed_out()),
        work.next(EditorEventView::Cancelled).1 == EditorStepView::Stop(process),
        work.next(EditorEventView::Cancelled).0.next(EditorEventView::Stopped).1
            == EditorStepView::Fail(work.cancelled()),
{
}

/// Once the work is over, no reply brings anything about.
pub proof fn law_over_is_over(work: EditorOpenView, event: EditorEventView)
    requires
        work.phase == EditorPhase::Over,
    ensures
        work.next(event) == (work, EditorStepView::Idle),
{
}

/// A project that no window shows is opened: only after the lock is held and a second look found none
/// either, by the command of the editor, in the directory of the project. A new window is then waited for,
/// and it belongs to this run.
pub proof fn law_closed_project_is_opened(
    backend: ZedBackendView,
    project: Seq<char>,
    snapshot: DesktopSnapshotView,
    normalized: Map<Seq<char>, Seq<char>>,
    process: BackgroundProcessView,
    after: DesktopSnapshotView,
    window: EditorWindowSnapshotView,
)
    requires
        snapshot.windows.len() == 0,
        editor_windows(backend.editor_kind, after.windows) == seq![window],
        project_window(backend.editor_kind, seq![window], project, normalized) == Ok::<
            Option<EditorWindowSnapshotView>,
            WorkstateErrorView,
        >(None) || project_window(backend.editor_kind, seq![window], project, normalized) == Ok::<
            Option<EditorWindowSnapshotView>,
            WorkstateErrorView,
        >(Some(window)),
    ensures
        ({
            let begun = editor_open_begun(backend, project);
            let looked = begun.0.next((EditorEventView::Snapshot { snapshot, normalized }));
            let locked = looked.0.next(EditorEventView::Locked);
            let again = locked.0.next(EditorEventView::Snapshot { snapshot, normalized });
            let started = again.0.next(EditorEventView::Started(process));
            let waiting = started.0.next(EditorEventView::Snapshot { snapshot, normalized });
            let shown = started.0.next(EditorEventView::Snapshot { snapshot: after, normalized });
            &&& begun.1 is Snapshot && looked.1 is Lock && locked.1 is Snapshot
            &&& again.1 matches EditorStepView::Start(request) && request.program
                == backend.command.program && request.arguments == backend.command.arguments(
                project,
            ) && request.working_directory == Some(project)
            &&& started.1 is Snapshot
            &&& waiting.1 == EditorStepView::Rest(backend.poll_interval) && waiting.0.next(
                EditorEventView::Rested,
            ).1 is Snapshot
            &&& shown.1 matches EditorStepView::Finish(outcome) && outcome.owned && outcome.window
                == window && outcome.process_identity == Some(process.identity) && outcome.status
                == EditorOperationStatus::Launched
        }),
{
    let empty = Seq::<EditorWindowSnapshotView>::empty();
    assert(editor_windows(backend.editor_kind, snapshot.windows) =~= empty);
    reveal_with_fuel(Seq::filter, 2);
    assert(project_windows(backend.editor_kind, empty, project, normalized, true) =~= empty);
    assert(project_windows(backend.editor_kind, empty, project, normalized, false) =~= empty);
    let none = editor_identities(empty);
    assert(none =~= Seq::empty());
    assert(fresh_windows(empty, none) =~= empty);
    assert(seq![window].drop_last() =~= empty && seq![window].last() == window);
    assert(fresh_windows(seq![window], none) =~= seq![window]);
}

/// Of two new windows that do not tell their project neither is taken: the editor is stopped.
pub proof fn law_two_new_windows_are_not_told_apart(
    work: EditorOpenView,
    snapshot: DesktopSnapshotView,
    normalized: Map<Seq<char>, Seq<char>>,
    process: BackgroundProcessView,
    one: EditorWindowSnapshotView,
    other: EditorWindowSnapshotView,
)
    requires
        work.phase == EditorPhase::Windows,
        work.process == Some(process),
        editor_windows(work.backend.editor_kind, snapshot.windows) == seq![one, other],
        work.found(snapshot, normalized) == Ok::<
            Option<EditorWindowSnapshotView>,
            WorkstateErrorView,
        >(None),
        !work.before.contains(one.identity),
        !work.before.contains(other.identity),
    ensures
        work.next((EditorEventView::Snapshot { snapshot, normalized })).1 == EditorStepView::Stop(
            process,
        ),
{
    reveal_with_fuel(Seq::filter, 3);
    let two = seq![one, other];
    assert(two.drop_last() =~= seq![one] && two.last() == other);
    assert(seq![one].drop_last() =~= Seq::<EditorWindowSnapshotView>::empty() && seq![one].last()
        == one);
    assert(fresh_windows(two, work.before) =~= two);
}

} // verus!
