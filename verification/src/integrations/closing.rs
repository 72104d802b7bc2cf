//! Closing windows that the environment owns.
use vstd::prelude::*;
use vstd::string::*;
use crate::domain::{OwnershipStatus, ResourceKind, ResourceRecord, ResourceRecordView};
use crate::error::{error_of, ErrorCategory, WorkstateError, WorkstateErrorView};
use crate::integrations::zed::errors::{zed_error, ZedError, ZedErrorView};
use crate::ports::{DesktopSnapshot, DesktopSnapshotView};
use crate::text::join3;
use crate::time::{span_of_millis, TimeSpan};
use crate::values::{append, empty_list, lemma_filter_ends, lemma_filter_step, rest, Replicate};

verus! {

/// The pause between two looks for a window that is being closed, in milliseconds.
pub const CLOSE_POLL_MILLIS: u64 = 25;

/// The windows among the resources that the environment owns, in their order.
pub open spec fn owned_windows(resources: Seq<ResourceRecordView>) -> Seq<Seq<char>>
    decreases resources.len(),
{
    if resources.len() == 0 {
        Seq::empty()
    } else {
        let earlier = owned_windows(resources.drop_last());
        if resources.last().resource.kind == ResourceKind::DesktopWindow
            && resources.last().ownership.owned() {
            earlier.push(resources.last().resource.stable_identity)
        } else {
            earlier
        }
    }
}

/// The windows among the resources that the environment owns, in their order.
pub fn owned_window_identities(resources: &Vec<ResourceRecord>) -> (r: Vec<String>)
    ensures
        r.deep_view() == owned_windows(resources.deep_view()),
{
    let mut owned: Vec<String> = empty_list();
    let mut i: usize = 0;
    let ghost all = resources.deep_view();
    assert(all.take(0) =~= Seq::<ResourceRecordView>::empty());
    while i < resources.len()
        invariant
            i <= resources@.len(),
            all == resources.deep_view(),
            owned.deep_view() == owned_windows(all.take(i as int)),
        decreases resources@.len() - i,
    {
        assert(all[i as int] == resources@[i as int]@);
        assert(all.take(i as int + 1).drop_last() =~= all.take(i as int));
        if resources[i].resource.kind == ResourceKind::DesktopWindow
            && resources[i].ownership.is_environment_owned() {
            append(&mut owned, resources[i].resource.stable_identity.clone());
        }
        i = i + 1;
    }
    assert(all.take(i as int) =~= all);
    owned
}

/// The windows that are open.
pub open spec fn open_windows(snapshot: DesktopSnapshotView, windows: Seq<Seq<char>>) -> Seq<
    Seq<char>,
> {
    windows.filter(|window: Seq<char>| snapshot.window(window) is Some)
}

/// The windows that are open.
pub fn windows_still_open(snapshot: &DesktopSnapshot, windows: &Vec<String>) -> (r: Vec<String>)
    ensures
        r.deep_view() == open_windows(snapshot@, windows.deep_view()),
{
    let mut found: Vec<String> = empty_list();
    let mut i: usize = 0;
    let ghost all = windows.deep_view();
    let ghost keep = |window: Seq<char>| snapshot@.window(window) is Some;
    proof {
        lemma_filter_ends(all, keep);
    }
    while i < windows.len()
        invariant
            i <= windows@.len(),
            all == windows.deep_view(),
            keep == (|window: Seq<char>| snapshot@.window(window) is Some),
            found.deep_view() == all.take(i as int).filter(keep),
        decreases windows@.len() - i,
    {
        assert(all[i as int] == windows@[i as int]@);
        proof {
            lemma_filter_step(all, i as int, keep);
        }
        if snapshot.window(windows[i].as_str()).is_some() {
            append(&mut found, windows[i].clone());
        }
        i = i + 1;
    }
    proof {
        lemma_filter_ends(all, keep);
        assert(all.take(i as int) =~= all);
    }
    found
}

/// How windows are closed: those of an application are looked for first and waited for until the time is over; those of an editor are looked for first and not waited for where something is undone, and closed at once and waited for until the deadline where it is stopped.
#[derive(Debug, Clone, PartialEq, Eq)]
pub enum ClosingStyle {
    Application,
    EditorUndo(String),
    EditorStop(String),
}

/// What a `ClosingStyle` stands for.
#[verifier::ext_equal]
pub enum ClosingStyleView {
    Application,
    EditorUndo(Seq<char>),
    EditorStop(Seq<char>),
}

impl View for ClosingStyle {
    type V = ClosingStyleView;

    open spec fn view(&self) -> ClosingStyleView {
        match self {
            ClosingStyle::Application => ClosingStyleView::Application,
            ClosingStyle::EditorUndo(value) => ClosingStyleView::EditorUndo(value.deep_view()),
            ClosingStyle::EditorStop(value) => ClosingStyleView::EditorStop(value.deep_view()),
        }
    }
}

impl DeepView for ClosingStyle {
    type V = ClosingStyleView;

    open spec fn deep_view(&self) -> ClosingStyleView {
        self.view()
    }
}

impl Replicate for ClosingStyle {
    fn replicate(&self) -> (r: Self) {
        match self {
            ClosingStyle::Application => ClosingStyle::Application,
            ClosingStyle::EditorUndo(value) => ClosingStyle::EditorUndo(value.replicate()),
            ClosingStyle::EditorStop(value) => ClosingStyle::EditorStop(value.replicate()),
        }
    }
}

/// What the work is waiting for.
#[derive(Debug, Clone, Copy, PartialEq, Eq, Structural)]
pub enum ClosingPhase {
    Look,
    Close,
    Watch,
    Rest,
    Over,
}

impl DeepView for ClosingPhase {
    type V = ClosingPhase;

    open spec fn deep_view(&self) -> ClosingPhase {
        *self
    }
}

impl Replicate for ClosingPhase {
    fn replicate(&self) -> (r: Self) {
        *self
    }
}

/// Closing windows: those that are left, the one in front first, and those that were closed so far.
#[derive(Debug)]
pub struct WindowClosing {
    pub style: ClosingStyle,
    pub pending: Vec<String>,
    pub closed: Vec<String>,
    pub phase: ClosingPhase,
}

/// What a `WindowClosing` stands for.
#[verifier::ext_equal]
pub struct WindowClosingView {
    pub style: ClosingStyleView,
    pub pending: Seq<Seq<char>>,
    pub closed: Seq<Seq<char>>,
    pub phase: ClosingPhase,
}

impl View for WindowClosing {
    type V = WindowClosingView;

    open spec fn view(&self) -> WindowClosingView {
        WindowClosingView {
            style: self.style.deep_view(),
            pending: self.pending.deep_view(),
            closed: self.closed.deep_view(),
            phase: self.phase.deep_view(),
        }
    }
}

impl DeepView for WindowClosing {
    type V = WindowClosingView;

    open spec fn deep_view(&self) -> WindowClosingView {
        self.view()
    }
}

impl Replicate for WindowClosing {
    fn replicate(&self) -> (r: Self) {
        WindowClosing {
            style: self.style.replicate(),
            pending: self.pending.replicate(),
            closed: self.closed.replicate(),
            phase: self.phase.replicate(),
        }
    }
}

/// What the desktop replied. `late` tells whether the deadline has passed, `Expired` that the time is over.
#[derive(Debug)]
pub enum ClosingEvent {
    Snapshot { snapshot: DesktopSnapshot, late: bool },
    Closed,
    Rested,
    Expired,
    Cancelled,
    Failed(WorkstateError),
}

/// What a `ClosingEvent` stands for.
#[verifier::ext_equal]
pub enum ClosingEventView {
    Snapshot { snapshot: DesktopSnapshotView, late: bool },
    Closed,
    Rested,
    Expired,
    Cancelled,
    Failed(WorkstateErrorView),
}

impl View for ClosingEvent {
    type V = ClosingEventView;

    open spec fn view(&self) -> ClosingEventView {
        match self {
            ClosingEvent::Snapshot { snapshot, late } => ClosingEventView::Snapshot { snapshot: snapshot.deep_view(), late: late.deep_view() },
            ClosingEvent::Closed => ClosingEventView::Closed,
            ClosingEvent::Rested => ClosingEventView::Rested,
            ClosingEvent::Expired => ClosingEventView::Expired,
            ClosingEvent::Cancelled => ClosingEventView::Cancelled,
            ClosingEvent::Failed(value) => ClosingEventView::Failed(value.deep_view()),
        }
    }
}

impl DeepView for ClosingEvent {
    type V = ClosingEventView;

    open spec fn deep_view(&self) -> ClosingEventView {
        self.view()
    }
}

/// What is asked of the desktop next.
#[derive(Debug)]
pub enum ClosingStep {
    Snapshot,
    Close { window: String },
    Rest(TimeSpan),
    Finish(Vec<String>),
    Fail(WorkstateError),
    Idle,
}

/// What a `ClosingStep` stands for.
#[verifier::ext_equal]
pub enum ClosingStepView {
    Snapshot,
    Close { window: Seq<char> },
    Rest(TimeSpan),
    Finish(Seq<Seq<char>>),
    Fail(WorkstateErrorView),
    Idle,
}

impl View for ClosingStep {
    type V = ClosingStepView;

    open spec fn view(&self) -> ClosingStepView {
        match self {
            ClosingStep::Snapshot => ClosingStepView::Snapshot,
            ClosingStep::Close { window } => ClosingStepView::Close { window: window.deep_view() },
            ClosingStep::Rest(value) => ClosingStepView::Rest(value.deep_view()),
            ClosingStep::Finish(value) => ClosingStepView::Finish(value.deep_view()),
            ClosingStep::Fail(value) => ClosingStepView::Fail(value.deep_view()),
            ClosingStep::Idle => ClosingStepView::Idle,
        }
    }
}

impl DeepView for ClosingStep {
    type V = ClosingStepView;

    open spec fn deep_view(&self) -> ClosingStepView {
        self.view()
    }
}

/// The work and what it asks of the desktop.
pub type ClosingMove = (WindowClosingView, ClosingStepView);

impl ClosingStyleView {
    pub open spec fn looks_first(self) -> bool {
        !(self is EditorStop)
    }

    pub open spec fn waits(self) -> bool {
        !(self is EditorUndo)
    }
}

impl ClosingStyle {
    fn looks_first(&self) -> (r: bool)
        ensures
            r == self@.looks_first(),
    {
        match self {
            ClosingStyle::EditorStop(_) => false,
            _ => true,
        }
    }

    fn waits(&self) -> (r: bool)
        ensures
            r == self@.waits(),
    {
        match self {
            ClosingStyle::EditorUndo(_) => false,
            _ => true,
        }
    }
}

/// The error of an application whose window does not close.
pub open spec fn application_stays_open(window: Seq<char>) -> WorkstateErrorView {
    error_of(
        ErrorCategory::Runtime,
        "the application window did not close before the timeout"@,
    ).with("window_identity"@, window)
}

/// The error of an editor whose window was no longer waited for.
pub open spec fn close_cancelled(editor: Seq<char>) -> WorkstateErrorView {
    error_of(
        ErrorCategory::Runtime,
        "operation was cancelled while verifying the "@ + editor + " window close"@,
    )
}

impl WindowClosingView {
    pub open spec fn to(self, phase: ClosingPhase, step: ClosingStepView) -> ClosingMove {
        (WindowClosingView { phase, ..self }, step)
    }

    pub open spec fn failed(self, error: WorkstateErrorView) -> ClosingMove {
        self.to(ClosingPhase::Over, ClosingStepView::Fail(error))
    }

    /// The window in front is looked for, or closed at once.
    pub open spec fn to_front(self) -> ClosingMove {
        if self.pending.len() == 0 {
            self.to(ClosingPhase::Over, ClosingStepView::Finish(self.closed))
        } else if self.style.looks_first() {
            self.to(ClosingPhase::Look, ClosingStepView::Snapshot)
        } else {
            self.closing()
        }
    }

    pub open spec fn closing(self) -> ClosingMove {
        self.to(ClosingPhase::Close, ClosingStepView::Close { window: self.pending[0] })
    }

    /// The window in front is not there.
    pub open spec fn passing(self) -> WindowClosingView {
        WindowClosingView { pending: self.pending.drop_first(), ..self }
    }

    /// The window in front was closed.
    pub open spec fn done(self) -> WindowClosingView {
        WindowClosingView {
            pending: self.pending.drop_first(),
            closed: self.closed.push(self.pending[0]),
            ..self
        }
    }

    /// What follows a reply, as long as a window is left.
    pub open spec fn going_on(self, event: ClosingEventView) -> ClosingMove {
        match (self.phase, event) {
            (ClosingPhase::Look, ClosingEventView::Snapshot { snapshot, late }) => if snapshot.window(
                self.pending[0],
            ) is None {
                self.passing().to_front()
            } else {
                self.closing()
            },
            (ClosingPhase::Close, ClosingEventView::Closed) => if self.style.waits() {
                self.to(ClosingPhase::Watch, ClosingStepView::Snapshot)
            } else {
                self.done().to_front()
            },
            (ClosingPhase::Watch, ClosingEventView::Snapshot { snapshot, late }) => if snapshot.window(
                self.pending[0],
            ) is None {
                self.done().to_front()
            } else {
                match self.style {
                    ClosingStyleView::EditorStop(editor) if late => self.failed(
                        zed_error(
                            ZedErrorView::WindowCloseTimeout { editor, window: self.pending[0] },
                        ),
                    ),
                    _ => self.to(
                        ClosingPhase::Rest,
                        ClosingStepView::Rest(span_of_millis(CLOSE_POLL_MILLIS)),
                    ),
                }
            },
            (ClosingPhase::Rest, ClosingEventView::Rested) => self.to(
                ClosingPhase::Watch,
                ClosingStepView::Snapshot,
            ),
            (ClosingPhase::Watch, ClosingEventView::Expired)
            | (ClosingPhase::Rest, ClosingEventView::Expired) => self.failed(
                match self.style {
                    ClosingStyleView::Application => application_stays_open(self.pending[0]),
                    ClosingStyleView::EditorUndo(editor)
                    | ClosingStyleView::EditorStop(editor) => zed_error(
                        ZedErrorView::WindowCloseTimeout { editor, window: self.pending[0] },
                    ),
                },
            ),
            (ClosingPhase::Rest, ClosingEventView::Cancelled) => match self.style {
                ClosingStyleView::EditorStop(editor) => self.failed(close_cancelled(editor)),
                _ => self.to(ClosingPhase::Watch, ClosingStepView::Snapshot),
            },
            _ => (self, ClosingStepView::Idle),
        }
    }

    /// What follows a reply. A reply that does not belong to what the work is waiting for changes
    /// nothing.
    pub open spec fn next(self, event: ClosingEventView) -> ClosingMove {
        match (self.phase, event) {
            (ClosingPhase::Over, _) => (self, ClosingStepView::Idle),
            (_, ClosingEventView::Failed(error)) => self.failed(error),
            _ => if self.pending.len() == 0 {
                self.to_front()
            } else {
                self.going_on(event)
            },
        }
    }
}

/// The work before its first window.
pub open spec fn closing_begun(style: ClosingStyleView, windows: Seq<Seq<char>>) -> ClosingMove {
    WindowClosingView {
        style,
        pending: windows,
        closed: Seq::empty(),
        phase: ClosingPhase::Look,
    }.to_front()
}

impl WindowClosing {
    /// Begins with the first window.
    pub fn begin(style: ClosingStyle, windows: Vec<String>) -> (r: (WindowClosing, ClosingStep))
        ensures
            (r.0@, r.1@) == closing_begun(style@, windows.deep_view()),
    {
        WindowClosing {
            style,
            pending: windows,
            closed: empty_list(),
            phase: ClosingPhase::Look,
        }.to_front()
    }

    fn to(self, phase: ClosingPhase, step: ClosingStep) -> (r: (WindowClosing, ClosingStep))
        ensures
            (r.0@, r.1@) == self@.to(phase, step@),
    {
        (
            WindowClosing {
                style: self.style,
                pending: self.pending,
                closed: self.closed,
                phase,
            },
            step,
        )
    }

    fn failed(self, error: WorkstateError) -> (r: (WindowClosing, ClosingStep))
        ensures
            (r.0@, r.1@) == self@.failed(error@),
    {
        self.to(ClosingPhase::Over, ClosingStep::Fail(error))
    }

    fn to_front(self) -> (r: (WindowClosing, ClosingStep))
        ensures
            (r.0@, r.1@) == self@.to_front(),
    {
        assert(self.pending.deep_view().len() == self.pending@.len());
        if self.pending.len() == 0 {
            let closed = self.closed.replicate();
            self.to(ClosingPhase::Over, ClosingStep::Finish(closed))
        } else if self.style.looks_first() {
            self.to(ClosingPhase::Look, ClosingStep::Snapshot)
        } else {
            self.closing()
        }
    }

    fn closing(self) -> (r: (WindowClosing, ClosingStep))
        requires
            self.pending@.len() > 0,
        ensures
            (r.0@, r.1@) == self@.closing(),
    {
        assert(self.pending.deep_view()[0] == self.pending@[0]@);
        let window = self.pending[0].clone();
        self.to(ClosingPhase::Close, ClosingStep::Close { window })
    }

    fn passing(self) -> (r: WindowClosing)
        requires
            self.pending@.len() > 0,
        ensures
            r@ == self@.passing(),
    {
        let pending = rest(&self.pending);
        WindowClosing { style: self.style, pending, closed: self.closed, phase: self.phase }
    }

    fn done(self) -> (r: WindowClosing)
        requires
            self.pending@.len() > 0,
        ensures
            r@ == self@.done(),
    {
        assert(self.pending.deep_view()[0] == self.pending@[0]@);
        let pending = rest(&self.pending);
        let mut closed = self.closed;
        append(&mut closed, self.pending[0].clone());
        WindowClosing { style: self.style, pending, closed, phase: self.phase }
    }

    fn watched(self, snapshot: DesktopSnapshot, late: bool) -> (r: (WindowClosing, ClosingStep))
        requires
            self.pending@.len() > 0,
            self.phase == ClosingPhase::Watch,
        ensures
            (r.0@, r.1@) == self@.going_on(
                ClosingEventView::Snapshot { snapshot: snapshot@, late },
            ),
    {
        assert(self.pending.deep_view()[0] == self.pending@[0]@);
        if snapshot.window(self.pending[0].as_str()).is_none() {
            return self.done().to_front();
        }
        if late {
            if let ClosingStyle::EditorStop(editor) = &self.style {
                let error = ZedError::WindowCloseTimeout {
                    editor: editor.clone(),
                    window: self.pending[0].clone(),
                }.into_workstate();
                return self.failed(error);
            }
        }
        self.to(ClosingPhase::Rest, ClosingStep::Rest(TimeSpan::from_millis(CLOSE_POLL_MILLIS)))
    }

    fn expired(self) -> (r: (WindowClosing, ClosingStep))
        requires
            self.pending@.len() > 0,
            self.phase == ClosingPhase::Watch || self.phase == ClosingPhase::Rest,
        ensures
            (r.0@, r.1@) == self@.going_on(ClosingEventView::Expired),
    {
        assert(self.pending.deep_view()[0] == self.pending@[0]@);
        let window = self.pending[0].clone();
        let error = match &self.style {
            ClosingStyle::Application => WorkstateError::new(
                ErrorCategory::Runtime,
                "the application window did not close before the timeout",
            ).with_context("window_identity", window.as_str()),
            ClosingStyle::EditorUndo(editor) => (ZedError::WindowCloseTimeout {
                editor: editor.clone(),
                window,
            }).into_workstate(),
            ClosingStyle::EditorStop(editor) => (ZedError::WindowCloseTimeout {
                editor: editor.clone(),
                window,
            }).into_workstate(),
        };
        self.failed(error)
    }

    fn cancelled(self) -> (r: (WindowClosing, ClosingStep))
        requires
            self.phase == ClosingPhase::Rest,
        ensures
            (r.0@, r.1@) == self@.going_on(ClosingEventView::Cancelled),
    {
        if let ClosingStyle::EditorStop(editor) = &self.style {
            let error = WorkstateError::new(
                ErrorCategory::Runtime,
                join3(
                    "operation was cancelled while verifying the ",
                    editor.as_str(),
                    " window close",
                ).as_str(),
            );
            return self.failed(error);
        }
        self.to(ClosingPhase::Watch, ClosingStep::Snapshot)
    }

    /// What follows a reply. A reply that does not belong to what the work is waiting for changes
    /// nothing.
    pub fn advance(self, event: ClosingEvent) -> (r: (WindowClosing, ClosingStep))
        ensures
            (r.0@, r.1@) == self@.next(event@),
    {
        let phase = self.phase;
        if phase == ClosingPhase::Over {
            return (self, ClosingStep::Idle);
        }
        if let ClosingEvent::Failed(error) = event {
            return self.failed(error);
        }
        assert(self.pending.deep_view().len() == self.pending@.len());
        if self.pending.len() == 0 {
            return self.to_front();
        }
        assert(self.pending.deep_view()[0] == self.pending@[0]@);
        match (phase, event) {
            (ClosingPhase::Look, ClosingEvent::Snapshot { snapshot, late: _ }) => {
                if snapshot.window(self.pending[0].as_str()).is_none() {
                    self.passing().to_front()
                } else {
                    self.closing()
                }
            },
            (ClosingPhase::Close, ClosingEvent::Closed) => if self.style.waits() {
                self.to(ClosingPhase::Watch, ClosingStep::Snapshot)
            } else {
                self.done().to_front()
            },
            (ClosingPhase::Watch, ClosingEvent::Snapshot { snapshot, late }) => self.watched(
                snapshot,
                late,
            ),
            (ClosingPhase::Rest, ClosingEvent::Rested) => self.to(
                ClosingPhase::Watch,
                ClosingStep::Snapshot,
            ),
            (ClosingPhase::Watch, ClosingEvent::Expired) => self.expired(),
            (ClosingPhase::Rest, ClosingEvent::Expired) => self.expired(),
            (ClosingPhase::Rest, ClosingEvent::Cancelled) => self.cancelled(),
            _ => (self, ClosingStep::Idle),
        }
    }
}

// ---------------------------------------------------------------------------------------------
// Laws
// ---------------------------------------------------------------------------------------------
/// Each of the windows is one that the environment owns.
pub proof fn law_only_owned_windows(resources: Seq<ResourceRecordView>, i: int)
    requires
        0 <= i < owned_windows(resources).len(),
    ensures
        exists|j: int|
            0 <= j < resources.len() && (#[trigger] resources[j]).resource.kind
                == ResourceKind::DesktopWindow && resources[j].ownership.owned()
                && resources[j].resource.stable_identity == owned_windows(resources)[i],
    decreases resources.len(),
{
    let front = resources.drop_last();
    if i < owned_windows(front).len() {
        law_only_owned_windows(front, i);
        let j = choose|j: int|
            0 <= j < front.len() && (#[trigger] front[j]).resource.kind
                == ResourceKind::DesktopWindow && front[j].ownership.owned()
                && front[j].resource.stable_identity == owned_windows(front)[i];
        assert(resources[j] == front[j]);
    } else {
        assert(resources[resources.len() - 1] == resources.last());
    }
}

/// Only windows of the list are closed.
pub proof fn law_only_listed_windows_are_closed(work: WindowClosingView, event: ClosingEventView)
    ensures
        work.next(event).1 matches ClosingStepView::Close { window } ==> work.pending.contains(window),
{
    if work.pending.len() > 0 {
        assert(work.pending.contains(work.pending[0]));
        if work.pending.len() > 1 {
            assert(work.pending.drop_first()[0] == work.pending[1]);
            assert(work.pending.contains(work.pending[1]));
        }
    }
}

/// Where windows are waited for, one is reported as closed only after a snapshot that no longer holds
/// it.
pub proof fn law_reported_window_is_gone(work: WindowClosingView, event: ClosingEventView)
    requires
        work.style.waits(),
        work.next(event).0.closed != work.closed,
    ensures
        work.pending.len() > 0,
        work.next(event).0.closed == work.closed.push(work.pending[0]),
        event matches ClosingEventView::Snapshot { snapshot, late } && snapshot.window(
            work.pending[0],
        ) is None,
{
}

/// Once the work is over, no reply brings anything about.
pub proof fn law_over_is_over(work: WindowClosingView, event: ClosingEventView)
    requires
        work.phase == ClosingPhase::Over,
    ensures
        work.next(event) == (work, ClosingStepView::Idle),
{
}

/// A window that is listed and open is closed, and where the closing is awaited the desktop is looked at
/// until the window is gone; then the next one follows. A window that is not open any more is passed by.
pub proof fn law_open_window_is_closed(
    work: WindowClosingView,
    snapshot: DesktopSnapshotView,
    gone: DesktopSnapshotView,
    late: bool,
)
    requires
        work.pending.len() > 0,
        snapshot.window(work.pending[0]) is Some,
        gone.window(work.pending[0]) is None,
    ensures
        ({
            let looking = WindowClosingView { phase: ClosingPhase::Look, ..work };
            let watching = WindowClosingView { phase: ClosingPhase::Watch, ..work };
            let closing = looking.next(ClosingEventView::Snapshot { snapshot, late });
            let closed = closing.0.next(ClosingEventView::Closed);
            let absent = looking.next(ClosingEventView::Snapshot { snapshot: gone, late });
            let done = watching.next(ClosingEventView::Snapshot { snapshot: gone, late });
            let open = watching.next(ClosingEventView::Snapshot { snapshot, late: false });
            &&& closing.1 == (ClosingStepView::Close { window: work.pending[0] })
            &&& work.style !is EditorUndo ==> closed.1 is Snapshot && closed.0.pending
                == work.pending && closed.0.phase == ClosingPhase::Watch
            &&& work.style is EditorUndo ==> closed.0.pending == work.pending.drop_first()
                && closed.0.closed == work.closed.push(work.pending[0])
            &&& absent.0.pending == work.pending.drop_first() && absent.0.closed == work.closed
            &&& done.0.pending == work.pending.drop_first() && done.0.closed == work.closed.push(
                work.pending[0],
            )
            &&& open.1 is Rest && open.0.pending == work.pending && open.0.next(
                ClosingEventView::Rested,
            ).1 is Snapshot
            &&& watching.next(ClosingEventView::Expired).1 is Fail
        }),
{
}

/// The windows that are closed are those that were listed: with none left the work is done, and the ones
/// that were closed are told in their order.
pub proof fn law_windows_are_closed_in_order(style: ClosingStyleView, windows: Seq<Seq<char>>)
    ensures
        windows.len() == 0 ==> closing_begun(style, windows).1 == ClosingStepView::Finish(
            Seq::empty(),
        ),
        windows.len() > 0 && style !is EditorStop ==> closing_begun(style, windows).1 is Snapshot,
        windows.len() > 0 && style is EditorStop ==> closing_begun(style, windows).1 == (
        ClosingStepView::Close { window: windows[0] }),
        closing_begun(style, windows).0.pending == windows,
        closing_begun(style, windows).0.style == style,
{
}

/// Every window that this run opened is among the owned ones, in the order of the records.
pub proof fn law_opened_windows_are_owned(
    earlier: Seq<ResourceRecordView>,
    record: ResourceRecordView,
    snapshot: DesktopSnapshotView,
    window: Seq<char>,
)
    ensures
        record.resource.kind == ResourceKind::DesktopWindow && record.ownership
            == OwnershipStatus::CreatedByCurrentRun ==> owned_windows(earlier.push(record))
            == owned_windows(earlier).push(record.resource.stable_identity),
        record.resource.kind != ResourceKind::DesktopWindow || record.ownership
            == OwnershipStatus::ReusedExisting || record.ownership == OwnershipStatus::PreExisting
            ==> owned_windows(earlier.push(record)) == owned_windows(earlier),
        snapshot.window(window) is Some ==> open_windows(snapshot, seq![window]) == seq![window],
        snapshot.window(window) is None ==> open_windows(snapshot, seq![window]).len() == 0,
{
    assert(earlier.push(record).drop_last() =~= earlier);
    reveal_with_fuel(Seq::filter, 2);
    assert(seq![window].drop_last() =~= Seq::<Seq<char>>::empty());
    assert(seq![window].last() == window);
    let kept = open_windows(snapshot, seq![window]);
    assert(snapshot.window(window) is Some ==> kept =~= seq![window]);
    assert(snapshot.window(window) is None ==> kept =~= Seq::empty());
}

} // verus!
