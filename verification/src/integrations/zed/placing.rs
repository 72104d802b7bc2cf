//! Moving an editor window to its workspace, with one retry.
use vstd::prelude::*;
use vstd::string::*;
use crate::domain::{WorkspaceTarget, WorkspaceTargetView};
use crate::error::{error_of, ErrorCategory, WorkstateError, WorkstateErrorView};
use crate::ports::{
    DesktopSnapshot, DesktopSnapshotView, DesktopWindowSnapshot, DesktopWindowSnapshotView,
    DesktopWorkspaceResolution, DesktopWorkspaceResolutionView, DesktopWorkspaceSnapshotView,
};
use crate::text::join3;
use crate::values::{option_is_text, Replicate};

verus! {

/// What the work is waiting for.
#[derive(Debug, Clone, Copy, PartialEq, Eq, Structural)]
pub enum PlacingPhase {
    Ensure,
    Look,
    Check,
    Moving,
    Confirm,
    Over,
}

impl DeepView for PlacingPhase {
    type V = PlacingPhase;

    open spec fn deep_view(&self) -> PlacingPhase {
        *self
    }
}

impl Replicate for PlacingPhase {
    fn replicate(&self) -> (r: Self) {
        *self
    }
}

/// Moving a window. `window` is what was seen of it last, and `again` says that the first attempt failed.
#[derive(Debug)]
pub struct WindowPlacing {
    pub editor: String,
    pub identity: String,
    pub target: WorkspaceTarget,
    pub workspace: String,
    pub window: Option<DesktopWindowSnapshot>,
    pub again: bool,
    pub phase: PlacingPhase,
}

/// What a `WindowPlacing` stands for.
#[verifier::ext_equal]
pub struct WindowPlacingView {
    pub editor: Seq<char>,
    pub identity: Seq<char>,
    pub target: WorkspaceTargetView,
    pub workspace: Seq<char>,
    pub window: Option<DesktopWindowSnapshotView>,
    pub again: bool,
    pub phase: PlacingPhase,
}

impl View for WindowPlacing {
    type V = WindowPlacingView;

    open spec fn view(&self) -> WindowPlacingView {
        WindowPlacingView {
            editor: self.editor.deep_view(),
            identity: self.identity.deep_view(),
            target: self.target.deep_view(),
            workspace: self.workspace.deep_view(),
            window: self.window.deep_view(),
            again: self.again.deep_view(),
            phase: self.phase.deep_view(),
        }
    }
}

impl DeepView for WindowPlacing {
    type V = WindowPlacingView;

    open spec fn deep_view(&self) -> WindowPlacingView {
        self.view()
    }
}

impl Replicate for WindowPlacing {
    fn replicate(&self) -> (r: Self) {
        WindowPlacing {
            editor: self.editor.replicate(),
            identity: self.identity.replicate(),
            target: self.target.replicate(),
            workspace: self.workspace.replicate(),
            window: self.window.replicate(),
            again: self.again.replicate(),
            phase: self.phase.replicate(),
        }
    }
}

/// What the desktop replied. `Checked` says that the work was not cancelled.
#[derive(Debug)]
pub enum PlacingEvent {
    Ensured(DesktopWorkspaceResolution),
    Snapshot(DesktopSnapshot),
    Checked,
    Moved,
    Failed(WorkstateError),
}

/// What a `PlacingEvent` stands for.
#[verifier::ext_equal]
pub enum PlacingEventView {
    Ensured(DesktopWorkspaceResolutionView),
    Snapshot(DesktopSnapshotView),
    Checked,
    Moved,
    Failed(WorkstateErrorView),
}

impl View for PlacingEvent {
    type V = PlacingEventView;

    open spec fn view(&self) -> PlacingEventView {
        match self {
            PlacingEvent::Ensured(value) => PlacingEventView::Ensured(value.deep_view()),
            PlacingEvent::Snapshot(value) => PlacingEventView::Snapshot(value.deep_view()),
            PlacingEvent::Checked => PlacingEventView::Checked,
            PlacingEvent::Moved => PlacingEventView::Moved,
            PlacingEvent::Failed(value) => PlacingEventView::Failed(value.deep_view()),
        }
    }
}

impl DeepView for PlacingEvent {
    type V = PlacingEventView;

    open spec fn deep_view(&self) -> PlacingEventView {
        self.view()
    }
}

/// A window that was moved: where it was, and where it is.
#[derive(Debug, Clone, PartialEq, Eq)]
pub struct WindowMoved {
    pub previous: Option<String>,
    pub destination: String,
}

/// What a `WindowMoved` stands for.
#[verifier::ext_equal]
pub struct WindowMovedView {
    pub previous: Option<Seq<char>>,
    pub destination: Seq<char>,
}

impl View for WindowMoved {
    type V = WindowMovedView;

    open spec fn view(&self) -> WindowMovedView {
        WindowMovedView {
            previous: self.previous.deep_view(),
            destination: self.destination.deep_view(),
        }
    }
}

impl DeepView for WindowMoved {
    type V = WindowMovedView;

    open spec fn deep_view(&self) -> WindowMovedView {
        self.view()
    }
}

impl Replicate for WindowMoved {
    fn replicate(&self) -> (r: Self) {
        WindowMoved {
            previous: self.previous.replicate(),
            destination: self.destination.replicate(),
        }
    }
}

/// What is asked of the desktop next.
#[derive(Debug)]
pub enum PlacingStep {
    Ensure(WorkspaceTarget),
    Snapshot,
    Check,
    Move { window: String, workspace: String },
    Finish(Option<WindowMoved>),
    Fail(WorkstateError),
    Idle,
}

/// What a `PlacingStep` stands for.
#[verifier::ext_equal]
pub enum PlacingStepView {
    Ensure(WorkspaceTargetView),
    Snapshot,
    Check,
    Move { window: Seq<char>, workspace: Seq<char> },
    Finish(Option<WindowMovedView>),
    Fail(WorkstateErrorView),
    Idle,
}

impl View for PlacingStep {
    type V = PlacingStepView;

    open spec fn view(&self) -> PlacingStepView {
        match self {
            PlacingStep::Ensure(value) => PlacingStepView::Ensure(value.deep_view()),
            PlacingStep::Snapshot => PlacingStepView::Snapshot,
            PlacingStep::Check => PlacingStepView::Check,
            PlacingStep::Move { window, workspace } => PlacingStepView::Move { window: window.deep_view(), workspace: workspace.deep_view() },
            PlacingStep::Finish(value) => PlacingStepView::Finish(value.deep_view()),
            PlacingStep::Fail(value) => PlacingStepView::Fail(value.deep_view()),
            PlacingStep::Idle => PlacingStepView::Idle,
        }
    }
}

impl DeepView for PlacingStep {
    type V = PlacingStepView;

    open spec fn deep_view(&self) -> PlacingStepView {
        self.view()
    }
}

/// The work and what it asks of the desktop.
pub type PlacingMove = (WindowPlacingView, PlacingStepView);

impl WindowPlacingView {
    pub open spec fn to(self, phase: PlacingPhase, step: PlacingStepView) -> PlacingMove {
        (WindowPlacingView { phase, ..self }, step)
    }

    pub open spec fn failed(self, error: WorkstateErrorView) -> PlacingMove {
        self.to(PlacingPhase::Over, PlacingStepView::Fail(error))
    }

    pub open spec fn finished(self, moved: Option<WindowMovedView>) -> PlacingMove {
        self.to(PlacingPhase::Over, PlacingStepView::Finish(moved))
    }

    /// Something that went wrong with the window.
    pub open spec fn trouble(self, message: Seq<char>) -> WorkstateErrorView {
        error_of(ErrorCategory::Integration, message).with("window_identity"@, self.identity)
    }

    /// The window is gone before it was moved.
    pub open spec fn gone_before(self) -> WorkstateErrorView {
        self.trouble("the "@ + self.editor + " window disappeared before it could be moved"@)
    }

    /// The window is gone after it was moved.
    pub open spec fn gone_after(self) -> WorkstateErrorView {
        self.trouble("the "@ + self.editor + " window disappeared after it was moved"@)
    }

    /// The window was moved, and is not there.
    pub open spec fn unconfirmed(self) -> WorkstateErrorView {
        self.trouble(
            "the desktop backend did not confirm the "@ + self.editor + " window movement"@,
        ).with("workspace_identity"@, self.workspace)
    }

    /// After the workspace was looked for: without one, nothing is moved.
    pub open spec fn after_ensure(self, resolution: DesktopWorkspaceResolutionView) -> PlacingMove {
        match resolution.workspace {
            None => self.finished(None),
            Some(workspace) => WindowPlacingView { workspace: workspace.identity, ..self }.to(
                PlacingPhase::Look,
                PlacingStepView::Snapshot,
            ),
        }
    }

    /// An attempt begins with what was seen of the window.
    pub open spec fn attempt(self, snapshot: DesktopSnapshotView) -> PlacingMove {
        WindowPlacingView { window: snapshot.window(self.identity), ..self }.to(
            PlacingPhase::Check,
            PlacingStepView::Check,
        )
    }

    /// A window that is in the workspace already is not moved.
    pub open spec fn after_check(self) -> PlacingMove {
        match self.window {
            None => self.failed(self.gone_before()),
            Some(window) => if window.workspace_identity == Some(self.workspace) {
                self.finished(None)
            } else {
                self.to(
                    PlacingPhase::Moving,
                    PlacingStepView::Move { window: self.identity, workspace: self.workspace },
                )
            },
        }
    }

    /// Where the window was before it was moved.
    pub open spec fn previous(self) -> Option<Seq<char>> {
        match self.window {
            Some(window) => window.workspace_identity,
            None => None,
        }
    }

    /// After the window was moved: a fresh snapshot must show it, or there is one more attempt.
    pub open spec fn after_confirm(self, snapshot: DesktopSnapshotView) -> PlacingMove {
        match snapshot.window(self.identity) {
            None => self.failed(self.gone_after()),
            Some(updated) => if updated.workspace_identity == Some(self.workspace) {
                self.finished(
                    Some(
                        WindowMovedView {
                            previous: self.previous(),
                            destination: self.workspace,
                        },
                    ),
                )
            } else if !self.again {
                WindowPlacingView { again: true, ..self }.attempt(snapshot)
            } else {
                self.failed(self.unconfirmed())
            },
        }
    }

    /// A reply that says that something failed: where the first move did, the workspace is looked for
    /// once more.
    pub open spec fn after_failure(self, error: WorkstateErrorView) -> PlacingMove {
        match self.phase {
            PlacingPhase::Over => (self, PlacingStepView::Idle),
            PlacingPhase::Moving => if self.again {
                self.failed(error)
            } else {
                WindowPlacingView { again: true, ..self }.to(
                    PlacingPhase::Ensure,
                    PlacingStepView::Ensure(self.target),
                )
            },
            _ => self.failed(error),
        }
    }

    /// What follows a reply. A reply that does not belong to what the work is waiting for changes
    /// nothing.
    pub open spec fn next(self, event: PlacingEventView) -> PlacingMove {
        match (self.phase, event) {
            (_, PlacingEventView::Failed(error)) => self.after_failure(error),
            (PlacingPhase::Ensure, PlacingEventView::Ensured(resolution)) => self.after_ensure(
                resolution,
            ),
            (PlacingPhase::Look, PlacingEventView::Snapshot(snapshot)) => self.attempt(snapshot),
            (PlacingPhase::Check, PlacingEventView::Checked) => self.after_check(),
            (PlacingPhase::Moving, PlacingEventView::Moved) => self.to(
                PlacingPhase::Confirm,
                PlacingStepView::Snapshot,
            ),
            (PlacingPhase::Confirm, PlacingEventView::Snapshot(snapshot)) => self.after_confirm(
                snapshot,
            ),
            _ => (self, PlacingStepView::Idle),
        }
    }
}

/// The work at its beginning.
pub open spec fn placing_begun(
    editor: Seq<char>,
    identity: Seq<char>,
    target: WorkspaceTargetView,
) -> PlacingMove {
    (
        WindowPlacingView {
            editor,
            identity,
            target,
            workspace: Seq::empty(),
            window: None,
            again: false,
            phase: PlacingPhase::Ensure,
        },
        PlacingStepView::Ensure(target),
    )
}

impl WindowPlacing {
    /// Begins with the workspace that the window is to be moved to.
    pub fn begin(editor: &str, identity: &str, target: WorkspaceTarget) -> (r: (
        WindowPlacing,
        PlacingStep,
    ))
        ensures
            (r.0@, r.1@) == placing_begun(editor@, identity@, target@),
    {
        let wanted = target.replicate();
        let workspace = String::new();
        assert(workspace@ =~= Seq::<char>::empty());
        (
            WindowPlacing {
                editor: editor.to_owned(),
                identity: identity.to_owned(),
                target,
                workspace,
                window: None,
                again: false,
                phase: PlacingPhase::Ensure,
            },
            PlacingStep::Ensure(wanted),
        )
    }

    fn to(self, phase: PlacingPhase, step: PlacingStep) -> (r: (WindowPlacing, PlacingStep))
        ensures
            (r.0@, r.1@) == self@.to(phase, step@),
    {
        let mut work = self;
        work.phase = phase;
        (work, step)
    }

    fn failed(self, error: WorkstateError) -> (r: (WindowPlacing, PlacingStep))
        ensures
            (r.0@, r.1@) == self@.failed(error@),
    {
        self.to(PlacingPhase::Over, PlacingStep::Fail(error))
    }

    fn finished(self, moved: Option<WindowMoved>) -> (r: (WindowPlacing, PlacingStep))
        ensures
            (r.0@, r.1@) == self@.finished(moved.deep_view()),
    {
        self.to(PlacingPhase::Over, PlacingStep::Finish(moved))
    }

    fn trouble(&self, before: &str, after: &str) -> (r: WorkstateError)
        ensures
            r@ == self@.trouble(before@ + self@.editor + after@),
    {
        WorkstateError::new(
            ErrorCategory::Integration,
            join3(before, self.editor.as_str(), after).as_str(),
        ).with_context("window_identity", self.identity.as_str())
    }

    fn after_ensure(self, resolution: DesktopWorkspaceResolution) -> (r: (
        WindowPlacing,
        PlacingStep,
    ))
        ensures
            (r.0@, r.1@) == self@.after_ensure(resolution@),
    {
        match resolution.workspace {
            None => self.finished(None),
            Some(workspace) => {
                let mut work = self;
                work.workspace = workspace.identity;
                work.to(PlacingPhase::Look, PlacingStep::Snapshot)
            },
        }
    }

    fn attempt(self, snapshot: &DesktopSnapshot) -> (r: (WindowPlacing, PlacingStep))
        ensures
            (r.0@, r.1@) == self@.attempt(snapshot@),
    {
        let mut work = self;
        work.window = match snapshot.window(work.identity.as_str()) {
            Some(window) => Some(window.replicate()),
            None => None,
        };
        work.to(PlacingPhase::Check, PlacingStep::Check)
    }

    fn after_check(self) -> (r: (WindowPlacing, PlacingStep))
        ensures
            (r.0@, r.1@) == self@.after_check(),
    {
        let settled = match &self.window {
            None => {
                let error = self.trouble(
                    "the ",
                    " window disappeared before it could be moved",
                );
                return self.failed(error);
            },
            Some(window) => option_is_text(&window.workspace_identity, self.workspace.as_str()),
        };
        if settled {
            self.finished(None)
        } else {
            let window = self.identity.clone();
            let workspace = self.workspace.clone();
            self.to(PlacingPhase::Moving, PlacingStep::Move { window, workspace })
        }
    }

    fn after_confirm(self, snapshot: DesktopSnapshot) -> (r: (WindowPlacing, PlacingStep))
        ensures
            (r.0@, r.1@) == self@.after_confirm(snapshot@),
    {
        let confirmed = match snapshot.window(self.identity.as_str()) {
            None => {
                let error = self.trouble("the ", " window disappeared after it was moved");
                return self.failed(error);
            },
            Some(updated) => option_is_text(&updated.workspace_identity, self.workspace.as_str()),
        };
        if confirmed {
            let previous = match &self.window {
                Some(window) => window.workspace_identity.replicate(),
                None => None,
            };
            let destination = self.workspace.clone();
            self.finished(Some(WindowMoved { previous, destination }))
        } else if !self.again {
            let mut work = self;
            work.again = true;
            work.attempt(&snapshot)
        } else {
            let error = self.trouble(
                "the desktop backend did not confirm the ",
                " window movement",
            ).with_context("workspace_identity", self.workspace.as_str());
            self.failed(error)
        }
    }

    fn after_failure(self, error: WorkstateError) -> (r: (WindowPlacing, PlacingStep))
        ensures
            (r.0@, r.1@) == self@.after_failure(error@),
    {
        match self.phase {
            PlacingPhase::Over => (self, PlacingStep::Idle),
            PlacingPhase::Moving => if self.again {
                self.failed(error)
            } else {
                let target = self.target.replicate();
                let mut work = self;
                work.again = true;
                work.to(PlacingPhase::Ensure, PlacingStep::Ensure(target))
            },
            _ => self.failed(error),
        }
    }

    /// What follows a reply. A reply that does not belong to what the work is waiting for changes
    /// nothing.
    pub fn advance(self, event: PlacingEvent) -> (r: (WindowPlacing, PlacingStep))
        ensures
            (r.0@, r.1@) == self@.next(event@),
    {
        match (self.phase, event) {
            (_, PlacingEvent::Failed(error)) => self.after_failure(error),
            (PlacingPhase::Ensure, PlacingEvent::Ensured(resolution)) => self.after_ensure(
                resolution,
            ),
            (PlacingPhase::Look, PlacingEvent::Snapshot(snapshot)) => self.attempt(&snapshot),
            (PlacingPhase::Check, PlacingEvent::Checked) => self.after_check(),
            (PlacingPhase::Moving, PlacingEvent::Moved) => self.to(
                PlacingPhase::Confirm,
                PlacingStep::Snapshot,
            ),
            (PlacingPhase::Confirm, PlacingEvent::Snapshot(snapshot)) => self.after_confirm(
                snapshot,
            ),
            _ => (self, PlacingStep::Idle),
        }
    }
}

// ---------------------------------------------------------------------------------------------
// Laws
// ---------------------------------------------------------------------------------------------
/// A window is reported as moved only where a fresh snapshot shows it in its workspace.
pub proof fn law_reported_move_is_there(work: WindowPlacingView, event: PlacingEventView)
    ensures
        work.next(event).1 matches PlacingStepView::Finish(Some(moved)) ==> (event matches
            PlacingEventView::Snapshot(snapshot) && snapshot.window(work.identity) is Some
            && snapshot.window(work.identity)->Some_0.workspace_identity == Some(
            moved.destination,
        ) && moved.destination == work.workspace),
{
}

/// There are at most two attempts: after a second move, the work only finishes or fails.
pub proof fn law_one_retry(work: WindowPlacingView, event: PlacingEventView)
    requires
        work.again,
        work.phase == PlacingPhase::Moving || work.phase == PlacingPhase::Confirm,
    ensures
        work.next(event).1 is Finish || work.next(event).1 is Fail || work.next(event).0.phase
            == PlacingPhase::Confirm || work.next(event).1 is Idle,
        work.next(event).0.again,
{
}

/// A window that is in its workspace already is not moved.
pub proof fn law_settled_window_is_left(work: WindowPlacingView)
    requires
        work.phase == PlacingPhase::Check,
        work.window is Some,
        work.window->Some_0.workspace_identity == Some(work.workspace),
    ensures
        work.next(PlacingEventView::Checked).1 == PlacingStepView::Finish(None),
{
}

/// Once the work is over, no reply brings anything about.
pub proof fn law_over_is_over(work: WindowPlacingView, event: PlacingEventView)
    requires
        work.phase == PlacingPhase::Over,
    ensures
        work.next(event) == (work, PlacingStepView::Idle),
{
}

/// A window is moved to the workspace that was asked for: it is looked for by its identity, moved where it
/// stands elsewhere, and the move counts once the desktop shows the window there; where it came from is
/// told.
pub proof fn law_window_is_placed(
    editor: Seq<char>,
    identity: Seq<char>,
    target: WorkspaceTargetView,
    resolution: DesktopWorkspaceResolutionView,
    workspace: DesktopWorkspaceSnapshotView,
    before: DesktopSnapshotView,
    window: DesktopWindowSnapshotView,
    after: DesktopSnapshotView,
    updated: DesktopWindowSnapshotView,
)
    requires
        resolution.workspace == Some(workspace),
        before.window(identity) == Some(window),
        window.workspace_identity != Some(workspace.identity),
        after.window(identity) == Some(updated),
        updated.workspace_identity == Some(workspace.identity),
    ensures
        ({
            let begun = placing_begun(editor, identity, target);
            let ensured = begun.0.next(PlacingEventView::Ensured(resolution));
            let looked = ensured.0.next(PlacingEventView::Snapshot(before));
            let moving = looked.0.next(PlacingEventView::Checked);
            let moved = moving.0.next(PlacingEventView::Moved);
            let shown = moved.0.next(PlacingEventView::Snapshot(after));
            let still = moved.0.next(PlacingEventView::Snapshot(before));
            &&& begun.1 == PlacingStepView::Ensure(target) && ensured.1 is Snapshot && looked.1
                is Check
            &&& moving.1 == (PlacingStepView::Move {
                window: identity,
                workspace: workspace.identity,
            })
            &&& moved.1 is Snapshot
            &&& shown.1 matches PlacingStepView::Finish(Some(told)) && told.previous
                == window.workspace_identity && told.destination == workspace.identity
            &&& still.1 is Check && still.0.next(PlacingEventView::Checked).1 == moving.1
        }),
{
}

/// A move that fails is tried once more, from the start; a window that is gone is a failure.
pub proof fn law_failed_move_is_tried_again(
    work: WindowPlacingView,
    error: WorkstateErrorView,
    snapshot: DesktopSnapshotView,
)
    requires
        work.phase == PlacingPhase::Moving,
    ensures
        !work.again ==> work.next(PlacingEventView::Failed(error)).1 == PlacingStepView::Ensure(
            work.target,
        ),
        work.again ==> work.next(PlacingEventView::Failed(error)).1 == PlacingStepView::Fail(error),
        snapshot.window(work.identity) is None ==> work.next(PlacingEventView::Moved).0.next(
            PlacingEventView::Snapshot(snapshot),
        ).1 is Fail,
{
}

} // verus!
