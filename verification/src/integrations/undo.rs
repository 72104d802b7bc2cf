//! Undoing what was done to windows: moving them back, and closing those that the environment owns.
use vstd::prelude::*;
use vstd::string::*;
use crate::domain::{MutationRecord, MutationRecordView, ResourceRecord, ResourceRecordView};
use crate::error::{WorkstateError, WorkstateErrorView};
use crate::integrations::closing::{
    closing_begun, open_windows, owned_window_identities, owned_windows, windows_still_open,
    ClosingEvent, ClosingEventView, ClosingMove, ClosingStep, ClosingStepView, ClosingStyle,
    ClosingStyleView, WindowClosing, WindowClosingView,
};
use crate::integrations::windows::{
    restore_begun, RestoreEvent, RestoreEventView, RestoreMove, RestoreStep, RestoreStepView,
    WindowRestore, WindowRestoreView,
};
use crate::planner::{log_lines, logged, CompensationResult, CompensationResultView};
use crate::ports::{window_named, DesktopSnapshot, DesktopSnapshotView};
use crate::text::{join3, join5};
use crate::time::TimeSpan;
use crate::values::{append, append_all, empty_list, Replicate};

verus! {

/// Whose windows they are: those of an application, or those of an editor.
#[derive(Debug, Clone, PartialEq, Eq)]
pub enum UndoStyle {
    Application,
    Editor(String),
}

/// What a `UndoStyle` stands for.
#[verifier::ext_equal]
pub enum UndoStyleView {
    Application,
    Editor(Seq<char>),
}

impl View for UndoStyle {
    type V = UndoStyleView;

    open spec fn view(&self) -> UndoStyleView {
        match self {
            UndoStyle::Application => UndoStyleView::Application,
            UndoStyle::Editor(value) => UndoStyleView::Editor(value.deep_view()),
        }
    }
}

impl DeepView for UndoStyle {
    type V = UndoStyleView;

    open spec fn deep_view(&self) -> UndoStyleView {
        self.view()
    }
}

impl Replicate for UndoStyle {
    fn replicate(&self) -> (r: Self) {
        match self {
            UndoStyle::Application => UndoStyle::Application,
            UndoStyle::Editor(value) => UndoStyle::Editor(value.replicate()),
        }
    }
}

/// What the work is doing.
#[derive(Debug)]
pub enum UndoStage {
    Restore(WindowRestore),
    Look,
    Close(WindowClosing),
    Over,
}

/// What a `UndoStage` stands for.
#[verifier::ext_equal]
pub enum UndoStageView {
    Restore(WindowRestoreView),
    Look,
    Close(WindowClosingView),
    Over,
}

impl View for UndoStage {
    type V = UndoStageView;

    open spec fn view(&self) -> UndoStageView {
        match self {
            UndoStage::Restore(value) => UndoStageView::Restore(value.deep_view()),
            UndoStage::Look => UndoStageView::Look,
            UndoStage::Close(value) => UndoStageView::Close(value.deep_view()),
            UndoStage::Over => UndoStageView::Over,
        }
    }
}

impl DeepView for UndoStage {
    type V = UndoStageView;

    open spec fn deep_view(&self) -> UndoStageView {
        self.view()
    }
}

impl Replicate for UndoStage {
    fn replicate(&self) -> (r: Self) {
        match self {
            UndoStage::Restore(value) => UndoStage::Restore(value.replicate()),
            UndoStage::Look => UndoStage::Look,
            UndoStage::Close(value) => UndoStage::Close(value.replicate()),
            UndoStage::Over => UndoStage::Over,
        }
    }
}

/// Undoing what was done to windows. `windows` are those that are being closed, `outputs` what was said so far.
#[derive(Debug)]
pub struct WindowUndo {
    pub style: UndoStyle,
    pub resources: Vec<ResourceRecord>,
    pub windows: Vec<String>,
    pub outputs: Vec<String>,
    pub stage: UndoStage,
}

/// What a `WindowUndo` stands for.
#[verifier::ext_equal]
pub struct WindowUndoView {
    pub style: UndoStyleView,
    pub resources: Seq<ResourceRecordView>,
    pub windows: Seq<Seq<char>>,
    pub outputs: Seq<Seq<char>>,
    pub stage: UndoStageView,
}

impl View for WindowUndo {
    type V = WindowUndoView;

    open spec fn view(&self) -> WindowUndoView {
        WindowUndoView {
            style: self.style.deep_view(),
            resources: self.resources.deep_view(),
            windows: self.windows.deep_view(),
            outputs: self.outputs.deep_view(),
            stage: self.stage.deep_view(),
        }
    }
}

impl DeepView for WindowUndo {
    type V = WindowUndoView;

    open spec fn deep_view(&self) -> WindowUndoView {
        self.view()
    }
}

impl Replicate for WindowUndo {
    fn replicate(&self) -> (r: Self) {
        WindowUndo {
            style: self.style.replicate(),
            resources: self.resources.replicate(),
            windows: self.windows.replicate(),
            outputs: self.outputs.replicate(),
            stage: self.stage.replicate(),
        }
    }
}

/// What the desktop replied.
#[derive(Debug)]
pub enum UndoEvent {
    Snapshot { snapshot: DesktopSnapshot, late: bool },
    Moved,
    Closed,
    Rested,
    Expired,
    Cancelled,
    Failed(WorkstateError),
}

/// What a `UndoEvent` stands for.
#[verifier::ext_equal]
pub enum UndoEventView {
    Snapshot { snapshot: DesktopSnapshotView, late: bool },
    Moved,
    Closed,
    Rested,
    Expired,
    Cancelled,
    Failed(WorkstateErrorView),
}

impl View for UndoEvent {
    type V = UndoEventView;

    open spec fn view(&self) -> UndoEventView {
        match self {
            UndoEvent::Snapshot { snapshot, late } => UndoEventView::Snapshot { snapshot: snapshot.deep_view(), late: late.deep_view() },
            UndoEvent::Moved => UndoEventView::Moved,
            UndoEvent::Closed => UndoEventView::Closed,
            UndoEvent::Rested => UndoEventView::Rested,
            UndoEvent::Expired => UndoEventView::Expired,
            UndoEvent::Cancelled => UndoEventView::Cancelled,
            UndoEvent::Failed(value) => UndoEventView::Failed(value.deep_view()),
        }
    }
}

impl DeepView for UndoEvent {
    type V = UndoEventView;

    open spec fn deep_view(&self) -> UndoEventView {
        self.view()
    }
}

/// What is asked of the desktop next.
#[derive(Debug)]
pub enum UndoStep {
    Snapshot,
    Move { window: String, workspace: String },
    Close { window: String },
    Rest(TimeSpan),
    Finish(CompensationResult),
    Fail(WorkstateError),
    Idle,
}

/// What a `UndoStep` stands for.
#[verifier::ext_equal]
pub enum UndoStepView {
    Snapshot,
    Move { window: Seq<char>, workspace: Seq<char> },
    Close { window: Seq<char> },
    Rest(TimeSpan),
    Finish(CompensationResultView),
    Fail(WorkstateErrorView),
    Idle,
}

impl View for UndoStep {
    type V = UndoStepView;

    open spec fn view(&self) -> UndoStepView {
        match self {
            UndoStep::Snapshot => UndoStepView::Snapshot,
            UndoStep::Move { window, workspace } => UndoStepView::Move { window: window.deep_view(), workspace: workspace.deep_view() },
            UndoStep::Close { window } => UndoStepView::Close { window: window.deep_view() },
            UndoStep::Rest(value) => UndoStepView::Rest(value.deep_view()),
            UndoStep::Finish(value) => UndoStepView::Finish(value.deep_view()),
            UndoStep::Fail(value) => UndoStepView::Fail(value.deep_view()),
            UndoStep::Idle => UndoStepView::Idle,
        }
    }
}

impl DeepView for UndoStep {
    type V = UndoStepView;

    open spec fn deep_view(&self) -> UndoStepView {
        self.view()
    }
}

/// The work and what it asks of the desktop.
pub type UndoMove = (WindowUndoView, UndoStepView);

impl UndoStyleView {
    /// What a window is called where it is moved back.
    pub open spec fn label(self) -> Seq<char> {
        match self {
            UndoStyleView::Application => "application window"@,
            UndoStyleView::Editor(_) => "window"@,
        }
    }

    /// How windows are closed where something is stopped.
    pub open spec fn stopping(self) -> ClosingStyleView {
        match self {
            UndoStyleView::Application => ClosingStyleView::Application,
            UndoStyleView::Editor(editor) => ClosingStyleView::EditorStop(editor),
        }
    }

    /// What is said of a window that was closed.
    pub open spec fn closed_line(self, window: Seq<char>) -> Seq<char> {
        match self {
            UndoStyleView::Application => "closed owned application window '"@ + window + "'"@,
            UndoStyleView::Editor(editor) => "closed owned "@ + editor + " window '"@ + window
                + "'"@,
        }
    }

    pub open spec fn closed_lines(self, windows: Seq<Seq<char>>) -> Seq<Seq<char>> {
        windows.map_values(|window: Seq<char>| self.closed_line(window))
    }
}

/// A reply, as moving back takes it.
pub open spec fn restore_reply(event: UndoEventView) -> Option<RestoreEventView> {
    match event {
        UndoEventView::Snapshot { snapshot, late } => Some(RestoreEventView::Snapshot(snapshot)),
        UndoEventView::Moved => Some(RestoreEventView::Moved),
        UndoEventView::Failed(error) => Some(RestoreEventView::Failed(error)),
        _ => None,
    }
}

/// A reply, as closing takes it.
pub open spec fn closing_reply(event: UndoEventView) -> Option<ClosingEventView> {
    match event {
        UndoEventView::Snapshot { snapshot, late } => Some(
            ClosingEventView::Snapshot { snapshot, late },
        ),
        UndoEventView::Moved => None,
        UndoEventView::Closed => Some(ClosingEventView::Closed),
        UndoEventView::Rested => Some(ClosingEventView::Rested),
        UndoEventView::Expired => Some(ClosingEventView::Expired),
        UndoEventView::Cancelled => Some(ClosingEventView::Cancelled),
        UndoEventView::Failed(error) => Some(ClosingEventView::Failed(error)),
    }
}

impl WindowUndoView {
    pub open spec fn to(self, stage: UndoStageView, step: UndoStepView) -> UndoMove {
        (WindowUndoView { stage, ..self }, step)
    }

    pub open spec fn failed(self, error: WorkstateErrorView) -> UndoMove {
        self.to(UndoStageView::Over, UndoStepView::Fail(error))
    }

    /// The windows are closed in a given way.
    pub open spec fn closing(self, style: ClosingStyleView, windows: Seq<Seq<char>>) -> UndoMove {
        WindowUndoView { windows, ..self }.through_closing(closing_begun(style, windows))
    }

    /// After moving back: the windows of an application are looked for, those of an editor are closed
    /// one by one.
    pub open spec fn restored(self, lines: Seq<Seq<char>>) -> UndoMove {
        let work = WindowUndoView { outputs: lines, ..self };
        match self.style {
            UndoStyleView::Application => work.to(UndoStageView::Look, UndoStepView::Snapshot),
            UndoStyleView::Editor(editor) => work.closing(
                ClosingStyleView::EditorUndo(editor),
                owned_windows(self.resources),
            ),
        }
    }

    /// A step of moving back.
    pub open spec fn through_restore(self, made: RestoreMove) -> UndoMove {
        let stage = UndoStageView::Restore(made.0);
        match made.1 {
            RestoreStepView::Snapshot => self.to(stage, UndoStepView::Snapshot),
            RestoreStepView::Move { window, workspace } => self.to(
                stage,
                UndoStepView::Move { window, workspace },
            ),
            RestoreStepView::Finish(lines) => self.restored(lines),
            RestoreStepView::Fail(error) => self.failed(error),
            RestoreStepView::Idle => self.to(stage, UndoStepView::Idle),
        }
    }

    /// A step of closing.
    pub open spec fn through_closing(self, made: ClosingMove) -> UndoMove {
        let stage = UndoStageView::Close(made.0);
        match made.1 {
            ClosingStepView::Snapshot => self.to(stage, UndoStepView::Snapshot),
            ClosingStepView::Close { window } => self.to(stage, UndoStepView::Close { window }),
            ClosingStepView::Rest(span) => self.to(stage, UndoStepView::Rest(span)),
            ClosingStepView::Finish(closed) => self.finished(
                if self.style is Application {
                    self.windows
                } else {
                    closed
                },
            ),
            ClosingStepView::Fail(error) => self.failed(error),
            ClosingStepView::Idle => self.to(stage, UndoStepView::Idle),
        }
    }

    /// Everything is undone.
    pub open spec fn finished(self, closed: Seq<Seq<char>>) -> UndoMove {
        self.to(
            UndoStageView::Over,
            UndoStepView::Finish(
                CompensationResultView {
                    outputs: log_lines(self.outputs + self.style.closed_lines(closed)),
                },
            ),
        )
    }

    /// What follows a reply. A reply that does not belong to what the work is waiting for changes
    /// nothing.
    pub open spec fn next(self, event: UndoEventView) -> UndoMove {
        match self.stage {
            UndoStageView::Over => (self, UndoStepView::Idle),
            UndoStageView::Restore(work) => match restore_reply(event) {
                Some(reply) => self.through_restore(work.next(reply)),
                None => (self, UndoStepView::Idle),
            },
            UndoStageView::Look => match event {
                UndoEventView::Snapshot { snapshot, late } => self.closing(
                    self.style.stopping(),
                    open_windows(snapshot, owned_windows(self.resources)),
                ),
                UndoEventView::Failed(error) => self.failed(error),
                _ => (self, UndoStepView::Idle),
            },
            UndoStageView::Close(work) => match closing_reply(event) {
                Some(reply) => self.through_closing(work.next(reply)),
                None => (self, UndoStepView::Idle),
            },
        }
    }
}

/// Nothing is undone yet.
pub open spec fn undo_at(
    style: UndoStyleView,
    resources: Seq<ResourceRecordView>,
    stage: UndoStageView,
) -> WindowUndoView {
    WindowUndoView { style, resources, windows: Seq::empty(), outputs: Seq::empty(), stage }
}

/// The work that undoes what was done.
pub open spec fn undo_begun(
    style: UndoStyleView,
    mutations: Seq<MutationRecordView>,
    resources: Seq<ResourceRecordView>,
) -> UndoMove {
    undo_at(style, resources, UndoStageView::Look).through_restore(
        restore_begun(style.label(), style is Application, mutations),
    )
}

/// The work that stops what is running.
pub open spec fn stop_begun(style: UndoStyleView, resources: Seq<ResourceRecordView>) -> UndoMove {
    (undo_at(style, resources, UndoStageView::Look), UndoStepView::Snapshot)
}

impl UndoStyle {
    fn stopping(&self) -> (r: ClosingStyle)
        ensures
            r@ == self@.stopping(),
    {
        match self {
            UndoStyle::Application => ClosingStyle::Application,
            UndoStyle::Editor(editor) => ClosingStyle::EditorStop(editor.clone()),
        }
    }

    fn closed_line(&self, window: &str) -> (r: String)
        ensures
            r@ == self@.closed_line(window@),
    {
        match self {
            UndoStyle::Application => join3("closed owned application window '", window, "'"),
            UndoStyle::Editor(editor) => join5(
                "closed owned ",
                editor.as_str(),
                " window '",
                window,
                "'",
            ),
        }
    }

    fn closed_lines(&self, windows: &Vec<String>) -> (r: Vec<String>)
        ensures
            r.deep_view() == self@.closed_lines(windows.deep_view()),
    {
        let mut lines: Vec<String> = empty_list();
        let mut i: usize = 0;
        let ghost all = windows.deep_view();
        let ghost convert = |window: Seq<char>| self@.closed_line(window);
        assert(all.take(0).map_values(convert) =~= Seq::<Seq<char>>::empty());
        while i < windows.len()
            invariant
                i <= windows@.len(),
                all == windows.deep_view(),
                convert == (|window: Seq<char>| self@.closed_line(window)),
                lines.deep_view() == all.take(i as int).map_values(convert),
            decreases windows@.len() - i,
        {
            assert(all[i as int] == windows@[i as int]@);
            append(&mut lines, self.closed_line(windows[i].as_str()));
            assert(all.take(i as int + 1).map_values(convert) =~= all.take(i as int).map_values(
                convert,
            ).push(convert(all[i as int])));
            i = i + 1;
        }
        assert(all.take(i as int) =~= all);
        lines
    }
}

impl WindowUndo {
    /// Begins to undo what was done.
    pub fn compensate(
        style: UndoStyle,
        mutations: Vec<MutationRecord>,
        resources: Vec<ResourceRecord>,
    ) -> (r: (WindowUndo, UndoStep))
        ensures
            (r.0@, r.1@) == undo_begun(style@, mutations.deep_view(), resources.deep_view()),
    {
        let made = match &style {
            UndoStyle::Application => WindowRestore::begin("application window", true, mutations),
            UndoStyle::Editor(_) => WindowRestore::begin("window", false, mutations),
        };
        WindowUndo {
            style,
            resources,
            windows: empty_list(),
            outputs: empty_list(),
            stage: UndoStage::Look,
        }.through_restore(made.0, made.1)
    }

    /// Begins to stop what is running.
    pub fn stop(style: UndoStyle, resources: Vec<ResourceRecord>) -> (r: (WindowUndo, UndoStep))
        ensures
            (r.0@, r.1@) == stop_begun(style@, resources.deep_view()),
    {
        (
            WindowUndo {
                style,
                resources,
                windows: empty_list(),
                outputs: empty_list(),
                stage: UndoStage::Look,
            },
            UndoStep::Snapshot,
        )
    }

    fn to(self, stage: UndoStage, step: UndoStep) -> (r: (WindowUndo, UndoStep))
        ensures
            (r.0@, r.1@) == self@.to(stage@, step@),
    {
        (
            WindowUndo {
                style: self.style,
                resources: self.resources,
                windows: self.windows,
                outputs: self.outputs,
                stage,
            },
            step,
        )
    }

    fn failed(self, error: WorkstateError) -> (r: (WindowUndo, UndoStep))
        ensures
            (r.0@, r.1@) == self@.failed(error@),
    {
        self.to(UndoStage::Over, UndoStep::Fail(error))
    }

    fn finished(self, closed: &Vec<String>) -> (r: (WindowUndo, UndoStep))
        ensures
            (r.0@, r.1@) == self@.finished(closed.deep_view()),
    {
        let mut lines = self.outputs.replicate();
        append_all(&mut lines, self.style.closed_lines(closed));
        let outputs = logged(&lines);
        self.to(UndoStage::Over, UndoStep::Finish(CompensationResult { outputs }))
    }

    fn through_closing(self, work: WindowClosing, step: ClosingStep) -> (r: (WindowUndo, UndoStep))
        ensures
            (r.0@, r.1@) == self@.through_closing((work@, step@)),
    {
        match step {
            ClosingStep::Snapshot => self.to(UndoStage::Close(work), UndoStep::Snapshot),
            ClosingStep::Close { window } => self.to(
                UndoStage::Close(work),
                UndoStep::Close { window },
            ),
            ClosingStep::Rest(span) => self.to(UndoStage::Close(work), UndoStep::Rest(span)),
            ClosingStep::Finish(closed) => {
                let application = match &self.style {
                    UndoStyle::Application => true,
                    UndoStyle::Editor(_) => false,
                };
                if application {
                    let windows = self.windows.replicate();
                    self.finished(&windows)
                } else {
                    self.finished(&closed)
                }
            },
            ClosingStep::Fail(error) => self.failed(error),
            ClosingStep::Idle => self.to(UndoStage::Close(work), UndoStep::Idle),
        }
    }

    fn closing(self, style: ClosingStyle, windows: Vec<String>) -> (r: (WindowUndo, UndoStep))
        ensures
            (r.0@, r.1@) == self@.closing(style@, windows.deep_view()),
    {
        let made = WindowClosing::begin(style, windows.replicate());
        WindowUndo {
            style: self.style,
            resources: self.resources,
            windows,
            outputs: self.outputs,
            stage: self.stage,
        }.through_closing(made.0, made.1)
    }

    fn restored(self, lines: Vec<String>) -> (r: (WindowUndo, UndoStep))
        ensures
            (r.0@, r.1@) == self@.restored(lines.deep_view()),
    {
        let owned = owned_window_identities(&self.resources);
        let editor = match &self.style {
            UndoStyle::Application => None,
            UndoStyle::Editor(editor) => Some(editor.clone()),
        };
        let work = WindowUndo {
            style: self.style,
            resources: self.resources,
            windows: self.windows,
            outputs: lines,
            stage: self.stage,
        };
        match editor {
            None => work.to(UndoStage::Look, UndoStep::Snapshot),
            Some(editor) => work.closing(ClosingStyle::EditorUndo(editor), owned),
        }
    }

    fn through_restore(self, work: WindowRestore, step: RestoreStep) -> (r: (WindowUndo, UndoStep))
        ensures
            (r.0@, r.1@) == self@.through_restore((work@, step@)),
    {
        match step {
            RestoreStep::Snapshot => self.to(UndoStage::Restore(work), UndoStep::Snapshot),
            RestoreStep::Move { window, workspace } => self.to(
                UndoStage::Restore(work),
                UndoStep::Move { window, workspace },
            ),
            RestoreStep::Finish(lines) => self.restored(lines),
            RestoreStep::Fail(error) => self.failed(error),
            RestoreStep::Idle => self.to(UndoStage::Restore(work), UndoStep::Idle),
        }
    }

    /// What follows a reply. A reply that does not belong to what the work is waiting for changes
    /// nothing.
    pub fn advance(self, event: UndoEvent) -> (r: (WindowUndo, UndoStep))
        ensures
            (r.0@, r.1@) == self@.next(event@),
    {
        let stage = self.stage.replicate();
        match stage {
            UndoStage::Over => (self, UndoStep::Idle),
            UndoStage::Restore(work) => {
                let reply = match event {
                    UndoEvent::Snapshot { snapshot, late: _ } => RestoreEvent::Snapshot(snapshot),
                    UndoEvent::Moved => RestoreEvent::Moved,
                    UndoEvent::Failed(error) => RestoreEvent::Failed(error),
                    _ => {
                        return (self, UndoStep::Idle);
                    },
                };
                let made = work.advance(reply);
                self.through_restore(made.0, made.1)
            },
            UndoStage::Look => match event {
                UndoEvent::Snapshot { snapshot, late: _ } => {
                    let owned = owned_window_identities(&self.resources);
                    let windows = windows_still_open(&snapshot, &owned);
                    let style = self.style.stopping();
                    self.closing(style, windows)
                },
                UndoEvent::Failed(error) => self.failed(error),
                _ => (self, UndoStep::Idle),
            },
            UndoStage::Close(work) => {
                let reply = match event {
                    UndoEvent::Snapshot { snapshot, late } => ClosingEvent::Snapshot {
                        snapshot,
                        late,
                    },
                    UndoEvent::Moved => {
                        return (self, UndoStep::Idle);
                    },
                    UndoEvent::Closed => ClosingEvent::Closed,
                    UndoEvent::Rested => ClosingEvent::Rested,
                    UndoEvent::Expired => ClosingEvent::Expired,
                    UndoEvent::Cancelled => ClosingEvent::Cancelled,
                    UndoEvent::Failed(error) => ClosingEvent::Failed(error),
                };
                let made = work.advance(reply);
                self.through_closing(made.0, made.1)
            },
        }
    }
}

/// Stopping looks at the desktop once, and then closes nothing but windows that are open and that the
/// environment owns.
pub proof fn law_stop_closes_owned_windows(
    style: UndoStyleView,
    resources: Seq<ResourceRecordView>,
    snapshot: DesktopSnapshotView,
    late: bool,
)
    ensures
        stop_begun(style, resources).1 == UndoStepView::Snapshot,
        stop_begun(style, resources).0.next(UndoEventView::Snapshot { snapshot, late }).0.windows
            == open_windows(snapshot, owned_windows(resources)),
{
}

/// Once the work is over, no reply brings anything about.
pub proof fn law_over_is_over(work: WindowUndoView, event: UndoEventView)
    requires
        work.stage == UndoStageView::Over,
    ensures
        work.next(event) == (work, UndoStepView::Idle),
{
}

/// First what was moved goes back, then what was opened is closed: with nothing to move back an
/// application is looked at and an editor's windows are taken up, and only windows that this run opened
/// are ever closed.
pub proof fn law_undo_closes_what_was_opened(
    resources: Seq<ResourceRecordView>,
    editor: Seq<char>,
    snapshot: DesktopSnapshotView,
    late: bool,
)
    ensures
        undo_begun(UndoStyleView::Application, Seq::empty(), resources).1 is Snapshot,
        undo_begun(UndoStyleView::Application, Seq::empty(), resources).0.next(
            (UndoEventView::Snapshot { snapshot, late }),
        ).0.windows == owned_windows(resources).filter(
            |window: Seq<char>| window_named(snapshot.windows, window) is Some,
        ),
        undo_begun(UndoStyleView::Editor(editor), Seq::empty(), resources).0.windows
            == owned_windows(resources),
{
    let begun = undo_begun(UndoStyleView::Application, Seq::empty(), resources);
    assert(begun.0.stage == UndoStageView::Look);
    let open = open_windows(snapshot, owned_windows(resources));
    assert(open == owned_windows(resources).filter(
        |window: Seq<char>| window_named(snapshot.windows, window) is Some,
    )) by {
        assert((|window: Seq<char>| snapshot.window(window) is Some) =~= (|window: Seq<char>|
            window_named(snapshot.windows, window) is Some));
    }
}

/// While windows are moved back or closed, the undo asks for exactly what that work asks for, and hands it
/// the answer; a failure of the work is the failure of the undo.
pub proof fn law_undo_does_the_work(
    undo: WindowUndoView,
    restore: WindowRestoreView,
    closing: WindowClosingView,
    window: Seq<char>,
    workspace: Seq<char>,
    error: WorkstateErrorView,
)
    ensures
        ({
            let moving = WindowUndoView { stage: UndoStageView::Restore(restore), ..undo };
            let shutting = WindowUndoView { stage: UndoStageView::Close(closing), ..undo };
            &&& restore.next(RestoreEventView::Moved).1 == (RestoreStepView::Move {
                window,
                workspace,
            }) ==> moving.next(UndoEventView::Moved).1 == (UndoStepView::Move {
                window,
                workspace,
            })
            &&& restore.next(RestoreEventView::Failed(error)).1 == RestoreStepView::Fail(error)
                ==> moving.next(UndoEventView::Failed(error)).1 == UndoStepView::Fail(error)
            &&& closing.next(ClosingEventView::Closed).1 == (ClosingStepView::Close { window })
                ==> shutting.next(UndoEventView::Closed).1 == (UndoStepView::Close { window })
            &&& closing.next(ClosingEventView::Closed).1 is Snapshot ==> shutting.next(
                UndoEventView::Closed,
            ).1 is Snapshot
            &&& closing.next(ClosingEventView::Expired).1 == ClosingStepView::Fail(error)
                ==> shutting.next(UndoEventView::Expired).1 == UndoStepView::Fail(error)
            &&& closing.next(ClosingEventView::Closed).1 is Finish ==> shutting.next(
                UndoEventView::Closed,
            ).1 is Finish
        }),
{
}

} // verus!
