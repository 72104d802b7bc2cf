//! Moving windows between workspaces, and moving them back.
use vstd::prelude::*;
use vstd::string::*;
use crate::domain::{
    identity_of, mutation_of, CleanupPolicy, CompensationOperation, MutationRecord,
    MutationRecordView, ResourceIdentity, ResourceIdentityView, ResourceKind,
};
use crate::error::{seen, WorkstateError, WorkstateErrorView};
use crate::ports::{DesktopSnapshot, DesktopSnapshotView, DesktopWindowSnapshotView};
use crate::text::{
    has_prefix, is_blank, is_white, join3, join5, join7, law_trim_takes_only_white_space,
    text_starts_with,
};
use crate::values::{append, empty_list, option_is_text, rest, Replicate};

verus! {

/// The record of a window that an action moved to another workspace.
pub open spec fn window_moved(
    window: Seq<char>,
    previous: Option<Seq<char>>,
    workspace: Seq<char>,
    action_id: Seq<char>,
    cleanup_policy: CleanupPolicy,
) -> Result<MutationRecordView, WorkstateErrorView> {
    match identity_of(ResourceKind::DesktopWindow, window) {
        Err(error) => Err(error),
        Ok(resource) => mutation_of(
            "desktop.window."@ + window + ".workspace"@,
            action_id,
            resource,
            previous,
            workspace,
            cleanup_policy,
        ),
    }
}

/// The record of a window that an action moved to another workspace.
pub fn record_window_move(
    window: &str,
    previous: Option<String>,
    workspace: &str,
    action_id: &str,
    cleanup_policy: CleanupPolicy,
) -> (r: Result<MutationRecord, WorkstateError>)
    ensures
        seen(r) == window_moved(
            window@,
            previous.deep_view(),
            workspace@,
            action_id@,
            cleanup_policy,
        ),
{
    match ResourceIdentity::new(ResourceKind::DesktopWindow, window.to_owned()) {
        Err(error) => Err(error),
        Ok(resource) => MutationRecord::of_action(
            join3("desktop.window.", window, ".workspace"),
            action_id,
            resource,
            previous,
            workspace.to_owned(),
            cleanup_policy,
        ),
    }
}

/// What the work is waiting for.
#[derive(Debug, Clone, Copy, PartialEq, Eq, Structural)]
pub enum RestorePhase {
    Look,
    Move,
    Over,
}

impl DeepView for RestorePhase {
    type V = RestorePhase;

    open spec fn deep_view(&self) -> RestorePhase {
        *self
    }
}

impl Replicate for RestorePhase {
    fn replicate(&self) -> (r: Self) {
        *self
    }
}

/// Moving windows back: the changes that are left, the one in front first, and what was said so far.
/// `label` is what a window is called; a quiet work says nothing of changes that cannot be undone for
/// want of information.
#[derive(Debug)]
pub struct WindowRestore {
    pub label: String,
    pub quiet: bool,
    pub pending: Vec<MutationRecord>,
    pub outputs: Vec<String>,
    pub phase: RestorePhase,
}

/// What a `WindowRestore` stands for.
#[verifier::ext_equal]
pub struct WindowRestoreView {
    pub label: Seq<char>,
    pub quiet: bool,
    pub pending: Seq<MutationRecordView>,
    pub outputs: Seq<Seq<char>>,
    pub phase: RestorePhase,
}

impl View for WindowRestore {
    type V = WindowRestoreView;

    open spec fn view(&self) -> WindowRestoreView {
        WindowRestoreView {
            label: self.label.deep_view(),
            quiet: self.quiet.deep_view(),
            pending: self.pending.deep_view(),
            outputs: self.outputs.deep_view(),
            phase: self.phase.deep_view(),
        }
    }
}

impl DeepView for WindowRestore {
    type V = WindowRestoreView;

    open spec fn deep_view(&self) -> WindowRestoreView {
        self.view()
    }
}

impl Replicate for WindowRestore {
    fn replicate(&self) -> (r: Self) {
        WindowRestore {
            label: self.label.replicate(),
            quiet: self.quiet.replicate(),
            pending: self.pending.replicate(),
            outputs: self.outputs.replicate(),
            phase: self.phase.replicate(),
        }
    }
}

/// What the world replied.
#[derive(Debug)]
pub enum RestoreEvent {
    Snapshot(DesktopSnapshot),
    Moved,
    Failed(WorkstateError),
}

/// What a `RestoreEvent` stands for.
#[verifier::ext_equal]
pub enum RestoreEventView {
    Snapshot(DesktopSnapshotView),
    Moved,
    Failed(WorkstateErrorView),
}

impl View for RestoreEvent {
    type V = RestoreEventView;

    open spec fn view(&self) -> RestoreEventView {
        match self {
            RestoreEvent::Snapshot(value) => RestoreEventView::Snapshot(value.deep_view()),
            RestoreEvent::Moved => RestoreEventView::Moved,
            RestoreEvent::Failed(value) => RestoreEventView::Failed(value.deep_view()),
        }
    }
}

impl DeepView for RestoreEvent {
    type V = RestoreEventView;

    open spec fn deep_view(&self) -> RestoreEventView {
        self.view()
    }
}

/// What is asked of the world next.
#[derive(Debug)]
pub enum RestoreStep {
    Snapshot,
    Move { window: String, workspace: String },
    Finish(Vec<String>),
    Fail(WorkstateError),
    Idle,
}

/// What a `RestoreStep` stands for.
#[verifier::ext_equal]
pub enum RestoreStepView {
    Snapshot,
    Move { window: Seq<char>, workspace: Seq<char> },
    Finish(Seq<Seq<char>>),
    Fail(WorkstateErrorView),
    Idle,
}

impl View for RestoreStep {
    type V = RestoreStepView;

    open spec fn view(&self) -> RestoreStepView {
        match self {
            RestoreStep::Snapshot => RestoreStepView::Snapshot,
            RestoreStep::Move { window, workspace } => RestoreStepView::Move { window: window.deep_view(), workspace: workspace.deep_view() },
            RestoreStep::Finish(value) => RestoreStepView::Finish(value.deep_view()),
            RestoreStep::Fail(value) => RestoreStepView::Fail(value.deep_view()),
            RestoreStep::Idle => RestoreStepView::Idle,
        }
    }
}

impl DeepView for RestoreStep {
    type V = RestoreStepView;

    open spec fn deep_view(&self) -> RestoreStepView {
        self.view()
    }
}

/// The work and what it asks of the world.
pub type RestoreMove = (WindowRestoreView, RestoreStepView);

/// A change to a window that its handler can undo.
pub open spec fn changes_window(mutation: MutationRecordView) -> bool {
    mutation.compensation != CompensationOperation::Nothing && has_prefix(
        mutation.target,
        "desktop.window."@,
    )
}

fn is_window_change(mutation: &MutationRecord) -> (r: bool)
    ensures
        r == changes_window(mutation@),
{
    mutation.compensation != CompensationOperation::Nothing && text_starts_with(
        mutation.target.as_str(),
        "desktop.window.",
    )
}

impl WindowRestoreView {
    pub open spec fn waiting_for(self, phase: RestorePhase) -> WindowRestoreView {
        WindowRestoreView { phase, ..self }
    }

    pub open spec fn failed(self, error: WorkstateErrorView) -> RestoreMove {
        (self.waiting_for(RestorePhase::Over), RestoreStepView::Fail(error))
    }

    /// The change in front is done with.
    pub open spec fn passing(self) -> WindowRestoreView {
        WindowRestoreView { pending: self.pending.drop_first(), ..self }
    }

    /// The change in front is done with, and something is said of it.
    pub open spec fn passing_with(self, line: Seq<char>) -> WindowRestoreView {
        WindowRestoreView {
            pending: self.pending.drop_first(),
            outputs: self.outputs.push(line),
            ..self
        }
    }

    /// The change in front cannot be undone for want of information.
    pub open spec fn passing_unless_quiet(self, line: Seq<char>) -> WindowRestoreView {
        if self.quiet {
            self.passing()
        } else {
            self.passing_with(line)
        }
    }

    /// The desktop is looked at for the change in front; changes that are none of a window, or that
    /// do not say of which, are passed over.
    pub open spec fn to_front(self) -> RestoreMove
        decreases self.pending.len(),
    {
        if self.pending.len() == 0 {
            (self.waiting_for(RestorePhase::Over), RestoreStepView::Finish(self.outputs))
        } else if !changes_window(self.pending[0]) {
            self.passing().to_front()
        } else if self.pending[0].resource is None {
            self.passing_unless_quiet(
                "preserved "@ + self.label + " mutation '"@ + self.pending[0].target
                    + "' because its window identity is unavailable"@,
            ).to_front()
        } else if self.quiet && self.pending[0].previous_value is None {
            self.passing().to_front()
        } else {
            (self.waiting_for(RestorePhase::Look), RestoreStepView::Snapshot)
        }
    }

    /// A window is left where it is.
    pub open spec fn keeping(self, window: Seq<char>, why: Seq<char>) -> RestoreMove {
        self.passing_with("preserved "@ + self.label + " '"@ + window + why).to_front()
    }

    /// After the desktop was looked at: the window is moved back only where it is still where it was
    /// moved to, and the workspace that it came from is still there.
    pub open spec fn after_look(self, snapshot: DesktopSnapshotView) -> RestoreMove {
        if self.pending.len() == 0 {
            self.to_front()
        } else {
            let mutation = self.pending[0];
            match mutation.resource {
                None => self.to_front(),
                Some(resource) => match snapshot.window(resource.stable_identity) {
                    None => self.passing_unless_quiet(
                        "preserved "@ + self.label + " '"@ + resource.stable_identity
                            + "' because it no longer exists"@,
                    ).to_front(),
                    Some(window) => if mutation.applied_value is Some && window.workspace_identity
                        != mutation.applied_value {
                        self.keeping(
                            resource.stable_identity,
                            "' because its workspace changed after Workstate"@,
                        )
                    } else {
                        match mutation.previous_value {
                            None => self.keeping(
                                resource.stable_identity,
                                "' because its previous workspace is unavailable"@,
                            ),
                            Some(previous) => if snapshot.workspace(previous) is None {
                                self.keeping(
                                    resource.stable_identity,
                                    "' because its previous workspace no longer exists"@,
                                )
                            } else {
                                (
                                    self.waiting_for(RestorePhase::Move),
                                    RestoreStepView::Move {
                                        window: resource.stable_identity,
                                        workspace: previous,
                                    },
                                )
                            },
                        }
                    },
                },
            }
        }
    }

    /// After the window was moved back.
    pub open spec fn after_move(self) -> RestoreMove {
        if self.pending.len() == 0 {
            self.to_front()
        } else {
            match (self.pending[0].resource, self.pending[0].previous_value) {
                (Some(resource), Some(previous)) => self.passing_with(
                    "restored "@ + self.label + " '"@ + resource.stable_identity
                        + "' to desktop workspace '"@ + previous + "'"@,
                ).to_front(),
                _ => self.passing().to_front(),
            }
        }
    }

    /// What follows a reply. A reply that does not belong to what the work is waiting for changes
    /// nothing.
    pub open spec fn next(self, event: RestoreEventView) -> RestoreMove {
        match (self.phase, event) {
            (RestorePhase::Over, _) => (self, RestoreStepView::Idle),
            (_, RestoreEventView::Failed(error)) => self.failed(error),
            (RestorePhase::Look, RestoreEventView::Snapshot(snapshot)) => self.after_look(snapshot),
            (RestorePhase::Move, RestoreEventView::Moved) => self.after_move(),
            _ => (self, RestoreStepView::Idle),
        }
    }
}

/// The work before its first change.
pub open spec fn restore_begun(
    label: Seq<char>,
    quiet: bool,
    mutations: Seq<MutationRecordView>,
) -> RestoreMove {
    WindowRestoreView {
        label,
        quiet,
        pending: mutations,
        outputs: Seq::empty(),
        phase: RestorePhase::Look,
    }.to_front()
}

impl WindowRestore {
    /// Begins with the first change.
    pub fn begin(label: &str, quiet: bool, mutations: Vec<MutationRecord>) -> (r: (
        WindowRestore,
        RestoreStep,
    ))
        ensures
            (r.0@, r.1@) == restore_begun(label@, quiet, mutations.deep_view()),
    {
        WindowRestore {
            label: label.to_owned(),
            quiet,
            pending: mutations,
            outputs: empty_list(),
            phase: RestorePhase::Look,
        }.to_front()
    }

    fn waiting_for(self, phase: RestorePhase) -> (r: WindowRestore)
        ensures
            r@ == self@.waiting_for(phase),
    {
        WindowRestore {
            label: self.label,
            quiet: self.quiet,
            pending: self.pending,
            outputs: self.outputs,
            phase,
        }
    }

    fn passing(self) -> (r: WindowRestore)
        requires
            self.pending@.len() > 0,
        ensures
            r@ == self@.passing(),
    {
        let pending = rest(&self.pending);
        WindowRestore {
            label: self.label,
            quiet: self.quiet,
            pending,
            outputs: self.outputs,
            phase: self.phase,
        }
    }

    fn passing_with(self, line: String) -> (r: WindowRestore)
        requires
            self.pending@.len() > 0,
        ensures
            r@ == self@.passing_with(line@),
    {
        let pending = rest(&self.pending);
        let mut outputs = self.outputs;
        append(&mut outputs, line);
        WindowRestore {
            label: self.label,
            quiet: self.quiet,
            pending,
            outputs,
            phase: self.phase,
        }
    }

    fn passing_unless_quiet(self, line: String) -> (r: WindowRestore)
        requires
            self.pending@.len() > 0,
        ensures
            r@ == self@.passing_unless_quiet(line@),
    {
        if self.quiet {
            self.passing()
        } else {
            self.passing_with(line)
        }
    }

    fn to_front(self) -> (r: (WindowRestore, RestoreStep))
        ensures
            (r.0@, r.1@) == self@.to_front(),
    {
        let ghost goal = self@.to_front();
        let mut work = self;
        while work.pending.len() > 0
            invariant
                goal == self@.to_front(),
                work@.to_front() == goal,
            ensures
                work@.to_front() == goal,
                work.pending@.len() == 0,
            decreases work.pending@.len(),
        {
            let ghost view = work@;
            assert(work.pending.deep_view()[0] == work.pending@[0]@);
            if !is_window_change(&work.pending[0]) {
                work = work.passing();
            } else if work.pending[0].resource.is_none() {
                let line = join5(
                    "preserved ",
                    work.label.as_str(),
                    " mutation '",
                    work.pending[0].target.as_str(),
                    "' because its window identity is unavailable",
                );
                work = work.passing_unless_quiet(line);
            } else if work.quiet && work.pending[0].previous_value.is_none() {
                work = work.passing();
            } else {
                return (work.waiting_for(RestorePhase::Look), RestoreStep::Snapshot);
            }
            assert(work.pending.deep_view().len() == work.pending@.len());
            assert(work@.pending.len() < view.pending.len());
        }
        let outputs = work.outputs.replicate();
        (work.waiting_for(RestorePhase::Over), RestoreStep::Finish(outputs))
    }

    fn keeping(self, window: &str, why: &str) -> (r: (WindowRestore, RestoreStep))
        requires
            self.pending@.len() > 0,
        ensures
            (r.0@, r.1@) == self@.keeping(window@, why@),
    {
        let line = join5("preserved ", self.label.as_str(), " '", window, why);
        self.passing_with(line).to_front()
    }

    fn after_look(self, snapshot: DesktopSnapshot) -> (r: (WindowRestore, RestoreStep))
        ensures
            (r.0@, r.1@) == self@.after_look(snapshot@),
    {
        if self.pending.len() == 0 {
            return self.to_front();
        }
        assert(self.pending.deep_view()[0] == self.pending@[0]@);
        let mutation = self.pending[0].replicate();
        let identity = match &mutation.resource {
            None => {
                return self.to_front();
            },
            Some(resource) => resource.stable_identity.clone(),
        };
        let window = match snapshot.window(identity.as_str()) {
            None => {
                let line = join5(
                    "preserved ",
                    self.label.as_str(),
                    " '",
                    identity.as_str(),
                    "' because it no longer exists",
                );
                return self.passing_unless_quiet(line).to_front();
            },
            Some(window) => window,
        };
        if let Some(applied) = &mutation.applied_value {
            if !option_is_text(&window.workspace_identity, applied.as_str()) {
                return self.keeping(
                    identity.as_str(),
                    "' because its workspace changed after Workstate",
                );
            }
        }
        match mutation.previous_value {
            None => self.keeping(
                identity.as_str(),
                "' because its previous workspace is unavailable",
            ),
            Some(previous) => if snapshot.workspace(previous.as_str()).is_none() {
                self.keeping(
                    identity.as_str(),
                    "' because its previous workspace no longer exists",
                )
            } else {
                (
                    self.waiting_for(RestorePhase::Move),
                    RestoreStep::Move { window: identity, workspace: previous },
                )
            },
        }
    }

    fn after_move(self) -> (r: (WindowRestore, RestoreStep))
        ensures
            (r.0@, r.1@) == self@.after_move(),
    {
        if self.pending.len() == 0 {
            return self.to_front();
        }
        assert(self.pending.deep_view()[0] == self.pending@[0]@);
        let mutation = self.pending[0].replicate();
        match (mutation.resource, mutation.previous_value) {
            (Some(resource), Some(previous)) => {
                let line = join7(
                    "restored ",
                    self.label.as_str(),
                    " '",
                    resource.stable_identity.as_str(),
                    "' to desktop workspace '",
                    previous.as_str(),
                    "'",
                );
                self.passing_with(line).to_front()
            },
            _ => self.passing().to_front(),
        }
    }

    /// What follows a reply. A reply that does not belong to what the work is waiting for changes
    /// nothing.
    pub fn advance(self, event: RestoreEvent) -> (r: (WindowRestore, RestoreStep))
        ensures
            (r.0@, r.1@) == self@.next(event@),
    {
        match (self.phase, event) {
            (RestorePhase::Over, _) => (self, RestoreStep::Idle),
            (_, RestoreEvent::Failed(error)) => (
                self.waiting_for(RestorePhase::Over),
                RestoreStep::Fail(error),
            ),
            (RestorePhase::Look, RestoreEvent::Snapshot(snapshot)) => self.after_look(snapshot),
            (RestorePhase::Move, RestoreEvent::Moved) => self.after_move(),
            _ => (self, RestoreStep::Idle),
        }
    }
}

// ---------------------------------------------------------------------------------------------
// Laws
// ---------------------------------------------------------------------------------------------
proof fn lemma_front_moves_nothing(work: WindowRestoreView)
    ensures
        !(work.to_front().1 is Move),
    decreases work.pending.len(),
{
    if work.pending.len() > 0 && !(changes_window(work.pending[0]) && work.pending[0].resource
        is Some && !(work.quiet && work.pending[0].previous_value is None)) {
        let line = "preserved "@ + work.label + " mutation '"@ + work.pending[0].target
            + "' because its window identity is unavailable"@;
        lemma_front_moves_nothing(work.passing());
        lemma_front_moves_nothing(work.passing_unless_quiet(line));
    }
}

/// A window is moved back only where it still is where it was moved to, and only to a workspace that
/// exists; one that was moved on since is left alone.
pub proof fn law_only_unchanged_windows_are_restored(
    work: WindowRestoreView,
    event: RestoreEventView,
)
    requires
        work.next(event).1 is Move,
    ensures
        event matches RestoreEventView::Snapshot(snapshot) && work.pending.len() > 0
            && work.pending[0].resource is Some && (snapshot.window(
            work.pending[0].resource->Some_0.stable_identity,
        ) matches Some(window) && (work.pending[0].applied_value is Some
            ==> window.workspace_identity == work.pending[0].applied_value))
            && work.pending[0].previous_value is Some && snapshot.workspace(
            work.pending[0].previous_value->Some_0,
        ) is Some,
{
    lemma_front_moves_nothing(work);
    if work.pending.len() > 0 {
        let mutation = work.pending[0];
        lemma_front_moves_nothing(work.passing());
        if let Some(resource) = mutation.resource {
            let id = resource.stable_identity;
            lemma_front_moves_nothing(
                work.passing_unless_quiet(
                    "preserved "@ + work.label + " '"@ + id + "' because it no longer exists"@,
                ),
            );
            lemma_front_moves_nothing(
                work.passing_with(
                    "preserved "@ + work.label + " '"@ + id
                        + "' because its workspace changed after Workstate"@,
                ),
            );
            lemma_front_moves_nothing(
                work.passing_with(
                    "preserved "@ + work.label + " '"@ + id
                        + "' because its previous workspace is unavailable"@,
                ),
            );
            lemma_front_moves_nothing(
                work.passing_with(
                    "preserved "@ + work.label + " '"@ + id
                        + "' because its previous workspace no longer exists"@,
                ),
            );
            if let Some(previous) = mutation.previous_value {
                lemma_front_moves_nothing(
                    work.passing_with(
                        "restored "@ + work.label + " '"@ + id + "' to desktop workspace '"@
                            + previous + "'"@,
                    ),
                );
            }
        }
    }
}

/// A move that was recorded is undone: where nothing changed since, the window goes back to the
/// workspace that it came from.
pub proof fn law_recorded_move_is_undone(
    label: Seq<char>,
    quiet: bool,
    window: Seq<char>,
    previous: Seq<char>,
    workspace: Seq<char>,
    action_id: Seq<char>,
    cleanup_policy: CleanupPolicy,
    mutation: MutationRecordView,
    snapshot: DesktopSnapshotView,
)
    requires
        window_moved(window, Some(previous), workspace, action_id, cleanup_policy) == Ok::<
            MutationRecordView,
            WorkstateErrorView,
        >(mutation),
        snapshot.window(window) matches Some(found) && found.workspace_identity == Some(workspace),
        snapshot.workspace(previous) is Some,
    ensures
        restore_begun(label, quiet, seq![mutation]).1 == RestoreStepView::Snapshot,
        restore_begun(label, quiet, seq![mutation]).0.next(
            RestoreEventView::Snapshot(snapshot),
        ).1 == (RestoreStepView::Move { window, workspace: previous }),
{
    let target = "desktop.window."@ + window + ".workspace"@;
    assert(has_prefix(target, "desktop.window."@)) by {
        assert(target.subrange(0, "desktop.window."@.len() as int) =~= "desktop.window."@);
    }
}

/// Once the work is over, no reply brings anything about.
pub proof fn law_over_is_over(work: WindowRestoreView, event: RestoreEventView)
    requires
        work.phase == RestorePhase::Over,
    ensures
        work.next(event) == (work, RestoreStepView::Idle),
{
}

/// A move is recorded so that it can be undone: under the window, with where it came from and where it
/// went.
pub proof fn law_move_is_recorded(
    window: Seq<char>,
    previous: Option<Seq<char>>,
    workspace: Seq<char>,
    action_id: Seq<char>,
    cleanup_policy: CleanupPolicy,
)
    requires
        !is_blank(window),
    ensures
        window_moved(window, previous, workspace, action_id, cleanup_policy) matches Ok(mutation)
            && mutation.previous_value == previous && mutation.applied_value == Some(workspace)
            && mutation.action_id == Some(action_id) && mutation.cleanup_policy == cleanup_policy
            && mutation.resource == Some(
            (ResourceIdentityView { kind: ResourceKind::DesktopWindow, stable_identity: window }),
        ) && changes_window(mutation),
{
    reveal_strlit("desktop.window.");
    let target = "desktop.window."@ + window + ".workspace"@;
    assert("desktop.window."@.len() == 15);
    assert(target[0] == 'd' && !is_white(target[0]));
    law_trim_takes_only_white_space(target);
    assert(target.subrange(0, 15) =~= "desktop.window."@);
}

/// A change that is not about a window is passed by, one after the other is taken up, and a window that
/// went elsewhere since, or that cannot go back, stays where it is.
pub proof fn law_changes_are_undone_one_by_one(
    work: WindowRestoreView,
    mutation: MutationRecordView,
    resource: ResourceIdentityView,
    window: DesktopWindowSnapshotView,
    snapshot: DesktopSnapshotView,
)
    requires
        work.phase == RestorePhase::Look,
        work.pending == seq![mutation],
        mutation.resource == Some(resource),
    ensures
        ({
            let looked = work.next(RestoreEventView::Snapshot(snapshot));
            &&& snapshot.window(resource.stable_identity) is None ==> looked.1 is Finish
            &&& snapshot.window(resource.stable_identity) == Some(window)
                && mutation.applied_value is Some && window.workspace_identity
                != mutation.applied_value ==> looked.1 is Finish
            &&& mutation.previous_value is None ==> looked.1 is Finish
        }),
        ({
            let moving = WindowRestoreView { phase: RestorePhase::Move, ..work };
            moving.next(RestoreEventView::Moved).1 is Finish
        }),
{
    assert(seq![mutation].drop_first() =~= Seq::<MutationRecordView>::empty());
    reveal_with_fuel(WindowRestoreView::to_front, 2);
}

/// Where there is nothing that concerns a window, nothing is undone.
pub proof fn law_other_changes_are_passed_by(
    label: Seq<char>,
    quiet: bool,
    mutations: Seq<MutationRecordView>,
)
    requires
        forall|i: int|
            0 <= i < mutations.len() ==> (#[trigger] mutations[i]).compensation
                == CompensationOperation::Nothing,
    ensures
        restore_begun(label, quiet, mutations).1 == RestoreStepView::Finish(Seq::empty()),
    decreases mutations.len(),
{
    if mutations.len() > 0 {
        let rest = mutations.drop_first();
        assert forall|i: int| 0 <= i < rest.len() implies (#[trigger] rest[i]).compensation
            == CompensationOperation::Nothing by {
            assert(rest[i] == mutations[i + 1]);
        }
        law_other_changes_are_passed_by(label, quiet, rest);
        assert(mutations[0].compensation == CompensationOperation::Nothing);
    }
}

} // verus!
