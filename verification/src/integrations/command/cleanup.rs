//! Taking down the windows and sessions of commands.
use vstd::prelude::*;
use vstd::string::*;
use crate::domain::{
    law_every_owned_resource_is_taken_up, law_only_owned_resources, owned_of_kind, owned_resources,
    CleanupPolicy, EnvironmentSlug, OwnershipStatus, ResourceKind, ResourceRecord,
    ResourceRecordView,
};
use crate::error::{error_of, seen, ErrorCategory, WorkstateError, WorkstateErrorView};
use crate::integrations::tmux::models::{session_name, session_named};
use crate::planner::{
    log_lines, logged, observed_correct, ActionObservation, CompensationResult,
    CompensationResultView,
};
use crate::ports::{
    TmuxSessionSnapshot, TmuxSessionSnapshotView, TmuxWindowSnapshot, TmuxWindowSnapshotView,
};
use crate::text::{join3, same_text};
use crate::values::{append, empty_list, rest, text_or, Replicate};

verus! {

/// The session of a resource: the one that it was recorded with, else the one of the environment.
pub open spec fn recorded_session(environment: Option<Seq<char>>, resource: ResourceRecordView) -> Result<
    Seq<char>,
    WorkstateErrorView,
> {
    match (resource.note("session_name"@), environment) {
        (Some(name), _) => Ok(name),
        (None, Some(environment)) => Ok(session_named(environment)),
        (None, None) => Err(
            error_of(
                ErrorCategory::Persistence,
                "tmux resource is missing its canonical session name"@,
            ).with(
                "resource"@,
                resource.resource.kind.label_text() + ":"@ + resource.resource.stable_identity,
            ),
        ),
    }
}

fn session_name_from_record(environment: &Option<EnvironmentSlug>, resource: &ResourceRecord) -> (r: Result<
    String,
    WorkstateError,
>)
    ensures
        seen(r) == recorded_session(environment.deep_view(), resource@),
{
    match (resource.integration_metadata.get("session_name"), environment) {
        (Some(name), _) => Ok(name),
        (None, Some(environment)) => Ok(session_name(environment)),
        (None, None) => Err(
            WorkstateError::new(
                ErrorCategory::Persistence,
                "tmux resource is missing its canonical session name",
            ).with_context("resource", resource.resource.to_text().as_str()),
        ),
    }
}

/// A window that was recorded is still there, under the name of its record.
pub open spec fn lists_recorded_window(
    windows: Seq<TmuxWindowSnapshotView>,
    identity: Seq<char>,
    name: Seq<char>,
) -> bool {
    exists|i: int|
        0 <= i < windows.len() && (#[trigger] windows[i]).identity == identity && windows[i].name
            == name
}

/// A session holds the window of a record.
pub open spec fn holds_recorded(
    session: TmuxSessionSnapshotView,
    name: Seq<char>,
    resource: ResourceRecordView,
) -> bool {
    session.name == name && (resource.note("session_identity"@) matches Some(identity)
        ==> identity == session.identity) && lists_recorded_window(
        session.windows,
        resource.resource.stable_identity,
        match resource.note("window_name"@) {
            Some(name) => name,
            None => ""@,
        },
    )
}

/// One of the sessions holds the window of a record.
pub open spec fn window_is_there(
    sessions: Seq<TmuxSessionSnapshotView>,
    name: Seq<char>,
    resource: ResourceRecordView,
) -> bool {
    exists|i: int| 0 <= i < sessions.len() && holds_recorded(#[trigger] sessions[i], name, resource)
}

/// The first session of a name and an identity.
pub open spec fn session_there(
    sessions: Seq<TmuxSessionSnapshotView>,
    name: Seq<char>,
    identity: Seq<char>,
) -> Option<TmuxSessionSnapshotView>
    decreases sessions.len(),
{
    if sessions.len() == 0 {
        None
    } else if sessions[0].name == name && sessions[0].identity == identity {
        Some(sessions[0])
    } else {
        session_there(sessions.drop_first(), name, identity)
    }
}

fn lists_window(windows: &Vec<TmuxWindowSnapshot>, identity: &str, name: &str) -> (r: bool)
    ensures
        r == lists_recorded_window(windows.deep_view(), identity@, name@),
{
    let mut i: usize = 0;
    let ghost all = windows.deep_view();
    while i < windows.len()
        invariant
            i <= windows@.len(),
            all == windows.deep_view(),
            forall|j: int|
                0 <= j < i ==> !((#[trigger] all[j]).identity == identity@ && all[j].name == name@),
        decreases windows@.len() - i,
    {
        assert(all[i as int] == windows@[i as int]@);
        if same_text(windows[i].identity.as_str(), identity) && same_text(
            windows[i].name.as_str(),
            name,
        ) {
            assert(all[i as int].identity == identity@);
            return true;
        }
        i = i + 1;
    }
    false
}

fn find_window(sessions: &Vec<TmuxSessionSnapshot>, name: &str, resource: &ResourceRecord) -> (r: bool)
    ensures
        r == window_is_there(sessions.deep_view(), name@, resource@),
{
    let identity = resource.integration_metadata.get("session_identity");
    let window = text_or(&resource.integration_metadata.get("window_name"), "");
    let mut i: usize = 0;
    let ghost all = sessions.deep_view();
    while i < sessions.len()
        invariant
            i <= sessions@.len(),
            all == sessions.deep_view(),
            identity.deep_view() == resource@.note("session_identity"@),
            window@ == (match resource@.note("window_name"@) {
                Some(name) => name,
                None => ""@,
            }),
            forall|j: int| 0 <= j < i ==> !holds_recorded(#[trigger] all[j], name@, resource@),
        decreases sessions@.len() - i,
    {
        assert(all[i as int] == sessions@[i as int]@);
        let of_record = match &identity {
            Some(identity) => same_text(identity.as_str(), sessions[i].identity.as_str()),
            None => true,
        };
        if of_record && same_text(sessions[i].name.as_str(), name) && lists_window(
            &sessions[i].windows,
            resource.resource.stable_identity.as_str(),
            window.as_str(),
        ) {
            assert(holds_recorded(all[i as int], name@, resource@));
            return true;
        }
        i = i + 1;
    }
    false
}

fn find_session(sessions: &Vec<TmuxSessionSnapshot>, name: &str, identity: &str) -> (r: Option<
    TmuxSessionSnapshot,
>)
    ensures
        r.deep_view() == session_there(sessions.deep_view(), name@, identity@),
{
    let mut i: usize = 0;
    let ghost all = sessions.deep_view();
    assert(all.skip(0) =~= all);
    while i < sessions.len()
        invariant
            i <= sessions@.len(),
            all == sessions.deep_view(),
            session_there(all, name@, identity@) == session_there(
                all.skip(i as int),
                name@,
                identity@,
            ),
        decreases sessions@.len() - i,
    {
        assert(all.skip(i as int)[0] == sessions@[i as int]@);
        assert(all.skip(i as int).drop_first() =~= all.skip(i as int + 1));
        if same_text(sessions[i].name.as_str(), name) && same_text(
            sessions[i].identity.as_str(),
            identity,
        ) {
            return Some(sessions[i].replicate());
        }
        i = i + 1;
    }
    None
}

/// What the work is waiting for.
#[derive(Debug, Clone, Copy, PartialEq, Eq, Structural)]
pub enum CommandCleanupPhase {
    LookForWindow,
    KillWindow,
    LookForSession,
    KillSession,
    Over,
}

impl DeepView for CommandCleanupPhase {
    type V = CommandCleanupPhase;

    open spec fn deep_view(&self) -> CommandCleanupPhase {
        *self
    }
}

impl Replicate for CommandCleanupPhase {
    fn replicate(&self) -> (r: Self) {
        *self
    }
}

/// Taking down windows and sessions: those that are left, the one in front first, and what was said so far.
#[derive(Debug)]
pub struct CommandCleanup {
    pub environment: Option<EnvironmentSlug>,
    pub windows: Vec<ResourceRecord>,
    pub sessions: Vec<ResourceRecord>,
    pub outputs: Vec<String>,
    pub phase: CommandCleanupPhase,
}

/// What a `CommandCleanup` stands for.
#[verifier::ext_equal]
pub struct CommandCleanupView {
    pub environment: Option<Seq<char>>,
    pub windows: Seq<ResourceRecordView>,
    pub sessions: Seq<ResourceRecordView>,
    pub outputs: Seq<Seq<char>>,
    pub phase: CommandCleanupPhase,
}

impl View for CommandCleanup {
    type V = CommandCleanupView;

    open spec fn view(&self) -> CommandCleanupView {
        CommandCleanupView {
            environment: self.environment.deep_view(),
            windows: self.windows.deep_view(),
            sessions: self.sessions.deep_view(),
            outputs: self.outputs.deep_view(),
            phase: self.phase.deep_view(),
        }
    }
}

impl DeepView for CommandCleanup {
    type V = CommandCleanupView;

    open spec fn deep_view(&self) -> CommandCleanupView {
        self.view()
    }
}

impl Replicate for CommandCleanup {
    fn replicate(&self) -> (r: Self) {
        CommandCleanup {
            environment: self.environment.replicate(),
            windows: self.windows.replicate(),
            sessions: self.sessions.replicate(),
            outputs: self.outputs.replicate(),
            phase: self.phase.replicate(),
        }
    }
}

/// What tmux replied.
#[derive(Debug)]
pub enum CommandCleanupEvent {
    Sessions(Vec<TmuxSessionSnapshot>),
    Killed,
    Failed(WorkstateError),
}

/// What a `CommandCleanupEvent` stands for.
#[verifier::ext_equal]
pub enum CommandCleanupEventView {
    Sessions(Seq<TmuxSessionSnapshotView>),
    Killed,
    Failed(WorkstateErrorView),
}

impl View for CommandCleanupEvent {
    type V = CommandCleanupEventView;

    open spec fn view(&self) -> CommandCleanupEventView {
        match self {
            CommandCleanupEvent::Sessions(value) => CommandCleanupEventView::Sessions(value.deep_view()),
            CommandCleanupEvent::Killed => CommandCleanupEventView::Killed,
            CommandCleanupEvent::Failed(value) => CommandCleanupEventView::Failed(value.deep_view()),
        }
    }
}

impl DeepView for CommandCleanupEvent {
    type V = CommandCleanupEventView;

    open spec fn deep_view(&self) -> CommandCleanupEventView {
        self.view()
    }
}

/// What is asked of tmux next.
#[derive(Debug)]
pub enum CommandCleanupStep {
    Observe,
    KillWindow { session: String, window: String },
    KillSession { session: String },
    Finish(CompensationResult),
    Fail(WorkstateError),
    Idle,
}

/// What a `CommandCleanupStep` stands for.
#[verifier::ext_equal]
pub enum CommandCleanupStepView {
    Observe,
    KillWindow { session: Seq<char>, window: Seq<char> },
    KillSession { session: Seq<char> },
    Finish(CompensationResultView),
    Fail(WorkstateErrorView),
    Idle,
}

impl View for CommandCleanupStep {
    type V = CommandCleanupStepView;

    open spec fn view(&self) -> CommandCleanupStepView {
        match self {
            CommandCleanupStep::Observe => CommandCleanupStepView::Observe,
            CommandCleanupStep::KillWindow { session, window } => CommandCleanupStepView::KillWindow { session: session.deep_view(), window: window.deep_view() },
            CommandCleanupStep::KillSession { session } => CommandCleanupStepView::KillSession { session: session.deep_view() },
            CommandCleanupStep::Finish(value) => CommandCleanupStepView::Finish(value.deep_view()),
            CommandCleanupStep::Fail(value) => CommandCleanupStepView::Fail(value.deep_view()),
            CommandCleanupStep::Idle => CommandCleanupStepView::Idle,
        }
    }
}

impl DeepView for CommandCleanupStep {
    type V = CommandCleanupStepView;

    open spec fn deep_view(&self) -> CommandCleanupStepView {
        self.view()
    }
}

/// The work and what it asks of tmux.
pub type CommandCleanupMove = (CommandCleanupView, CommandCleanupStepView);

impl CommandCleanupView {
    pub open spec fn to(self, phase: CommandCleanupPhase, step: CommandCleanupStepView) -> CommandCleanupMove {
        (CommandCleanupView { phase, ..self }, step)
    }

    pub open spec fn failed(self, error: WorkstateErrorView) -> CommandCleanupMove {
        self.to(CommandCleanupPhase::Over, CommandCleanupStepView::Fail(error))
    }

    /// tmux is looked at for the resource in front: windows come first.
    pub open spec fn to_front(self) -> CommandCleanupMove {
        if self.windows.len() > 0 {
            match recorded_session(self.environment, self.windows[0]) {
                Err(error) => self.failed(error),
                Ok(_) => self.to(
                    CommandCleanupPhase::LookForWindow,
                    CommandCleanupStepView::Observe,
                ),
            }
        } else if self.sessions.len() > 0 {
            match recorded_session(self.environment, self.sessions[0]) {
                Err(error) => self.failed(error),
                Ok(_) => self.to(
                    CommandCleanupPhase::LookForSession,
                    CommandCleanupStepView::Observe,
                ),
            }
        } else {
            self.to(
                CommandCleanupPhase::Over,
                CommandCleanupStepView::Finish(
                    CompensationResultView { outputs: log_lines(self.outputs) },
                ),
            )
        }
    }

    /// The window in front is done with.
    pub open spec fn past_window(self, line: Seq<char>) -> CommandCleanupMove {
        CommandCleanupView {
            windows: self.windows.drop_first(),
            outputs: self.outputs.push(line),
            ..self
        }.to_front()
    }

    /// The session in front is done with.
    pub open spec fn past_session(self, line: Seq<char>) -> CommandCleanupMove {
        CommandCleanupView {
            sessions: self.sessions.drop_first(),
            outputs: self.outputs.push(line),
            ..self
        }.to_front()
    }

    /// After tmux was looked at for a window: it is closed where it is still the one of its record.
    pub open spec fn after_window_look(self, sessions: Seq<TmuxSessionSnapshotView>) -> CommandCleanupMove {
        if self.windows.len() == 0 {
            self.to_front()
        } else {
            let window = self.windows[0].resource.stable_identity;
            match recorded_session(self.environment, self.windows[0]) {
                Err(error) => self.failed(error),
                Ok(session) => if !window_is_there(sessions, session, self.windows[0]) {
                    self.past_window("tmux window '"@ + window + "' was already absent"@)
                } else {
                    self.to(
                        CommandCleanupPhase::KillWindow,
                        CommandCleanupStepView::KillWindow { session, window },
                    )
                },
            }
        }
    }

    /// After a window was closed.
    pub open spec fn after_window_kill(self) -> CommandCleanupMove {
        if self.windows.len() == 0 {
            self.to_front()
        } else {
            self.past_window(
                "stopped owned tmux window '"@ + self.windows[0].resource.stable_identity + "'"@,
            )
        }
    }

    /// After tmux was looked at for a session: it is closed where no window is left in it.
    pub open spec fn after_session_look(self, sessions: Seq<TmuxSessionSnapshotView>) -> CommandCleanupMove {
        if self.sessions.len() == 0 {
            self.to_front()
        } else {
            match recorded_session(self.environment, self.sessions[0]) {
                Err(error) => self.failed(error),
                Ok(name) => match session_there(
                    sessions,
                    name,
                    self.sessions[0].resource.stable_identity,
                ) {
                    None => self.past_session("tmux session '"@ + name + "' was already absent"@),
                    Some(session) => if session.windows.len() > 0 {
                        self.past_session(
                            "preserved tmux session '"@ + name
                                + "' because unmanaged windows remain"@,
                        )
                    } else {
                        self.to(
                            CommandCleanupPhase::KillSession,
                            CommandCleanupStepView::KillSession { session: name },
                        )
                    },
                },
            }
        }
    }

    /// After a session was closed.
    pub open spec fn after_session_kill(self) -> CommandCleanupMove {
        if self.sessions.len() == 0 {
            self.to_front()
        } else {
            match recorded_session(self.environment, self.sessions[0]) {
                Err(error) => self.failed(error),
                Ok(name) => self.past_session("stopped owned tmux session '"@ + name + "'"@),
            }
        }
    }

    /// What follows a reply. A reply that does not belong to what the work is waiting for changes
    /// nothing.
    pub open spec fn next(self, event: CommandCleanupEventView) -> CommandCleanupMove {
        match (self.phase, event) {
            (CommandCleanupPhase::Over, _) => (self, CommandCleanupStepView::Idle),
            (_, CommandCleanupEventView::Failed(error)) => self.failed(error),
            (CommandCleanupPhase::LookForWindow, CommandCleanupEventView::Sessions(sessions)) => self.after_window_look(
                sessions,
            ),
            (CommandCleanupPhase::KillWindow, CommandCleanupEventView::Killed) => self.after_window_kill(),
            (CommandCleanupPhase::LookForSession, CommandCleanupEventView::Sessions(sessions)) => self.after_session_look(
                sessions,
            ),
            (CommandCleanupPhase::KillSession, CommandCleanupEventView::Killed) => self.after_session_kill(),
            _ => (self, CommandCleanupStepView::Idle),
        }
    }
}

/// The work before its first resource.
pub open spec fn command_cleanup_begun(
    environment: Option<Seq<char>>,
    resources: Seq<ResourceRecordView>,
) -> CommandCleanupMove {
    CommandCleanupView {
        environment,
        windows: owned_of_kind(resources, ResourceKind::TmuxWindow),
        sessions: owned_of_kind(resources, ResourceKind::TmuxSession),
        outputs: Seq::empty(),
        phase: CommandCleanupPhase::LookForWindow,
    }.to_front()
}

impl CommandCleanup {
    /// Begins with the first window that may be taken down.
    pub fn begin(environment: Option<EnvironmentSlug>, resources: &Vec<ResourceRecord>) -> (r: (
        CommandCleanup,
        CommandCleanupStep,
    ))
        ensures
            (r.0@, r.1@) == command_cleanup_begun(
                environment.deep_view(),
                resources.deep_view(),
            ),
    {
        CommandCleanup {
            environment,
            windows: owned_resources(resources, ResourceKind::TmuxWindow),
            sessions: owned_resources(resources, ResourceKind::TmuxSession),
            outputs: empty_list(),
            phase: CommandCleanupPhase::LookForWindow,
        }.to_front()
    }

    fn to(self, phase: CommandCleanupPhase, step: CommandCleanupStep) -> (r: (
        CommandCleanup,
        CommandCleanupStep,
    ))
        ensures
            (r.0@, r.1@) == self@.to(phase, step@),
    {
        (
            CommandCleanup {
                environment: self.environment,
                windows: self.windows,
                sessions: self.sessions,
                outputs: self.outputs,
                phase,
            },
            step,
        )
    }

    fn failed(self, error: WorkstateError) -> (r: (CommandCleanup, CommandCleanupStep))
        ensures
            (r.0@, r.1@) == self@.failed(error@),
    {
        self.to(CommandCleanupPhase::Over, CommandCleanupStep::Fail(error))
    }

    fn to_front(self) -> (r: (CommandCleanup, CommandCleanupStep))
        ensures
            (r.0@, r.1@) == self@.to_front(),
    {
        assert(self.windows.deep_view().len() == self.windows@.len());
        assert(self.sessions.deep_view().len() == self.sessions@.len());
        if self.windows.len() > 0 {
            assert(self.windows.deep_view()[0] == self.windows@[0]@);
            match session_name_from_record(&self.environment, &self.windows[0]) {
                Err(error) => self.failed(error),
                Ok(_) => self.to(
                    CommandCleanupPhase::LookForWindow,
                    CommandCleanupStep::Observe,
                ),
            }
        } else if self.sessions.len() > 0 {
            assert(self.sessions.deep_view()[0] == self.sessions@[0]@);
            match session_name_from_record(&self.environment, &self.sessions[0]) {
                Err(error) => self.failed(error),
                Ok(_) => self.to(
                    CommandCleanupPhase::LookForSession,
                    CommandCleanupStep::Observe,
                ),
            }
        } else {
            let outputs = logged(&self.outputs);
            self.to(
                CommandCleanupPhase::Over,
                CommandCleanupStep::Finish(CompensationResult { outputs }),
            )
        }
    }

    fn past_window(self, line: String) -> (r: (CommandCleanup, CommandCleanupStep))
        requires
            self.windows@.len() > 0,
        ensures
            (r.0@, r.1@) == self@.past_window(line@),
    {
        let windows = rest(&self.windows);
        let mut outputs = self.outputs;
        append(&mut outputs, line);
        CommandCleanup {
            environment: self.environment,
            windows,
            sessions: self.sessions,
            outputs,
            phase: self.phase,
        }.to_front()
    }

    fn past_session(self, line: String) -> (r: (CommandCleanup, CommandCleanupStep))
        requires
            self.sessions@.len() > 0,
        ensures
            (r.0@, r.1@) == self@.past_session(line@),
    {
        let sessions = rest(&self.sessions);
        let mut outputs = self.outputs;
        append(&mut outputs, line);
        CommandCleanup {
            environment: self.environment,
            windows: self.windows,
            sessions,
            outputs,
            phase: self.phase,
        }.to_front()
    }

    fn after_window_look(self, sessions: Vec<TmuxSessionSnapshot>) -> (r: (
        CommandCleanup,
        CommandCleanupStep,
    ))
        ensures
            (r.0@, r.1@) == self@.after_window_look(sessions.deep_view()),
    {
        assert(self.windows.deep_view().len() == self.windows@.len());
        if self.windows.len() == 0 {
            return self.to_front();
        }
        assert(self.windows.deep_view()[0] == self.windows@[0]@);
        let window = self.windows[0].resource.stable_identity.clone();
        match session_name_from_record(&self.environment, &self.windows[0]) {
            Err(error) => self.failed(error),
            Ok(session) => if !find_window(&sessions, session.as_str(), &self.windows[0]) {
                let line = join3("tmux window '", window.as_str(), "' was already absent");
                self.past_window(line)
            } else {
                self.to(
                    CommandCleanupPhase::KillWindow,
                    CommandCleanupStep::KillWindow { session, window },
                )
            },
        }
    }

    fn after_window_kill(self) -> (r: (CommandCleanup, CommandCleanupStep))
        ensures
            (r.0@, r.1@) == self@.after_window_kill(),
    {
        assert(self.windows.deep_view().len() == self.windows@.len());
        if self.windows.len() == 0 {
            return self.to_front();
        }
        assert(self.windows.deep_view()[0] == self.windows@[0]@);
        let line = join3(
            "stopped owned tmux window '",
            self.windows[0].resource.stable_identity.as_str(),
            "'",
        );
        self.past_window(line)
    }

    fn after_session_look(self, sessions: Vec<TmuxSessionSnapshot>) -> (r: (
        CommandCleanup,
        CommandCleanupStep,
    ))
        ensures
            (r.0@, r.1@) == self@.after_session_look(sessions.deep_view()),
    {
        assert(self.sessions.deep_view().len() == self.sessions@.len());
        if self.sessions.len() == 0 {
            return self.to_front();
        }
        assert(self.sessions.deep_view()[0] == self.sessions@[0]@);
        let name = match session_name_from_record(&self.environment, &self.sessions[0]) {
            Err(error) => {
                return self.failed(error);
            },
            Ok(name) => name,
        };
        match find_session(
            &sessions,
            name.as_str(),
            self.sessions[0].resource.stable_identity.as_str(),
        ) {
            None => {
                let line = join3("tmux session '", name.as_str(), "' was already absent");
                self.past_session(line)
            },
            Some(session) => {
                assert(session.windows.deep_view().len() == session.windows@.len());
                if session.windows.len() > 0 {
                    let line = join3(
                        "preserved tmux session '",
                        name.as_str(),
                        "' because unmanaged windows remain",
                    );
                    self.past_session(line)
                } else {
                    self.to(
                        CommandCleanupPhase::KillSession,
                        CommandCleanupStep::KillSession { session: name },
                    )
                }
            },
        }
    }

    fn after_session_kill(self) -> (r: (CommandCleanup, CommandCleanupStep))
        ensures
            (r.0@, r.1@) == self@.after_session_kill(),
    {
        assert(self.sessions.deep_view().len() == self.sessions@.len());
        if self.sessions.len() == 0 {
            return self.to_front();
        }
        assert(self.sessions.deep_view()[0] == self.sessions@[0]@);
        match session_name_from_record(&self.environment, &self.sessions[0]) {
            Err(error) => self.failed(error),
            Ok(name) => {
                let line = join3("stopped owned tmux session '", name.as_str(), "'");
                self.past_session(line)
            },
        }
    }

    /// What follows a reply. A reply that does not belong to what the work is waiting for changes
    /// nothing.
    pub fn advance(self, event: CommandCleanupEvent) -> (r: (CommandCleanup, CommandCleanupStep))
        ensures
            (r.0@, r.1@) == self@.next(event@),
    {
        match (self.phase, event) {
            (CommandCleanupPhase::Over, _) => (self, CommandCleanupStep::Idle),
            (_, CommandCleanupEvent::Failed(error)) => self.failed(error),
            (CommandCleanupPhase::LookForWindow, CommandCleanupEvent::Sessions(sessions)) => self.after_window_look(
                sessions,
            ),
            (CommandCleanupPhase::KillWindow, CommandCleanupEvent::Killed) => self.after_window_kill(),
            (CommandCleanupPhase::LookForSession, CommandCleanupEvent::Sessions(sessions)) => self.after_session_look(
                sessions,
            ),
            (CommandCleanupPhase::KillSession, CommandCleanupEvent::Killed) => self.after_session_kill(),
            _ => (self, CommandCleanupStep::Idle),
        }
    }
}

// ---------------------------------------------------------------------------------------------
// Observing before cleanup
// ---------------------------------------------------------------------------------------------
/// The identity of the session that a resource belongs to.
pub open spec fn session_identity_of(resource: ResourceRecordView) -> Seq<char> {
    if resource.resource.kind == ResourceKind::TmuxSession {
        resource.resource.stable_identity
    } else {
        match resource.note("session_identity"@) {
            Some(identity) => identity,
            None => ""@,
        }
    }
}

/// A session, or a window of one, that is still there.
pub open spec fn still_there(sessions: Seq<TmuxSessionSnapshotView>, resource: ResourceRecordView) -> bool {
    match resource.note("session_name"@) {
        None => false,
        Some(name) => match session_there(sessions, name, session_identity_of(resource)) {
            None => false,
            Some(session) => resource.resource.kind == ResourceKind::TmuxSession || (
            resource.resource.kind == ResourceKind::TmuxWindow && (match resource.note(
                "window_name"@,
            ) {
                Some(window) => lists_recorded_window(
                    session.windows,
                    resource.resource.stable_identity,
                    window,
                ),
                None => false,
            })),
        },
    }
}

/// The resources that are still there, in their order.
pub open spec fn left_there(sessions: Seq<TmuxSessionSnapshotView>, resources: Seq<ResourceRecordView>) -> Seq<
    ResourceRecordView,
>
    decreases resources.len(),
{
    if resources.len() == 0 {
        Seq::empty()
    } else {
        let earlier = left_there(sessions, resources.drop_last());
        if still_there(sessions, resources.last()) {
            earlier.push(resources.last())
        } else {
            earlier
        }
    }
}

fn is_still_there(sessions: &Vec<TmuxSessionSnapshot>, resource: &ResourceRecord) -> (r: bool)
    ensures
        r == still_there(sessions.deep_view(), resource@),
{
    let name = match resource.integration_metadata.get("session_name") {
        None => {
            return false;
        },
        Some(name) => name,
    };
    let identity = if resource.resource.kind == ResourceKind::TmuxSession {
        resource.resource.stable_identity.clone()
    } else {
        text_or(&resource.integration_metadata.get("session_identity"), "")
    };
    let session = match find_session(sessions, name.as_str(), identity.as_str()) {
        None => {
            return false;
        },
        Some(session) => session,
    };
    if resource.resource.kind == ResourceKind::TmuxSession {
        return true;
    }
    if resource.resource.kind != ResourceKind::TmuxWindow {
        return false;
    }
    match resource.integration_metadata.get("window_name") {
        Some(window) => lists_window(
            &session.windows,
            resource.resource.stable_identity.as_str(),
            window.as_str(),
        ),
        None => false,
    }
}

/// What is observed before cleanup: the resources that are still there.
pub fn observe_cleanup(resources: &Vec<ResourceRecord>, sessions: &Vec<TmuxSessionSnapshot>) -> (r:
    ActionObservation)
    ensures
        r@ == observed_correct().holding(
            left_there(sessions.deep_view(), resources.deep_view()),
        ),
{
    let mut observed: Vec<ResourceRecord> = empty_list();
    let mut i: usize = 0;
    let ghost all = resources.deep_view();
    assert(all.take(0) =~= Seq::<ResourceRecordView>::empty());
    while i < resources.len()
        invariant
            i <= resources@.len(),
            all == resources.deep_view(),
            observed.deep_view() == left_there(sessions.deep_view(), all.take(i as int)),
        decreases resources@.len() - i,
    {
        assert(all[i as int] == resources@[i as int]@);
        assert(all.take(i as int + 1).drop_last() =~= all.take(i as int));
        if is_still_there(sessions, &resources[i]) {
            append(&mut observed, resources[i].replicate());
        }
        i = i + 1;
    }
    assert(all.take(i as int) =~= all);
    ActionObservation::already_correct().with_resources(observed)
}

// ---------------------------------------------------------------------------------------------
// Laws
// ---------------------------------------------------------------------------------------------
/// Every window that is left is one that the environment owns.
pub open spec fn owns_what_is_left(work: CommandCleanupView) -> bool {
    (forall|i: int|
        0 <= i < work.windows.len() ==> (#[trigger] work.windows[i]).resource.kind
            == ResourceKind::TmuxWindow && work.windows[i].cleanup_candidate()) && forall|i: int|
        0 <= i < work.sessions.len() ==> (#[trigger] work.sessions[i]).resource.kind
            == ResourceKind::TmuxSession && work.sessions[i].cleanup_candidate()
}

/// Only windows and sessions that the environment owns are ever taken down: they are all that the
/// work begins with, and no reply adds others.
pub proof fn law_only_owned_is_taken_down(
    environment: Option<Seq<char>>,
    resources: Seq<ResourceRecordView>,
    work: CommandCleanupView,
    event: CommandCleanupEventView,
)
    requires
        owns_what_is_left(work),
    ensures
        owns_what_is_left(command_cleanup_begun(environment, resources).0),
        owns_what_is_left(work.next(event).0),
        work.next(event).1 matches CommandCleanupStepView::KillWindow { session, window }
            ==> work.windows.len() > 0 && work.windows[0].resource.stable_identity == window
            && work.windows[0].cleanup_candidate(),
{
    let begun = command_cleanup_begun(environment, resources).0;
    assert forall|i: int| 0 <= i < begun.windows.len() implies (
    #[trigger] begun.windows[i]).resource.kind == ResourceKind::TmuxWindow
        && begun.windows[i].cleanup_candidate() by {
        law_only_owned_resources(resources, ResourceKind::TmuxWindow, i);
    }
    assert forall|i: int| 0 <= i < begun.sessions.len() implies (
    #[trigger] begun.sessions[i]).resource.kind == ResourceKind::TmuxSession
        && begun.sessions[i].cleanup_candidate() by {
        law_only_owned_resources(resources, ResourceKind::TmuxSession, i);
    }
}

/// A session is closed only where no window is left in it.
pub proof fn law_session_with_windows_is_preserved(
    work: CommandCleanupView,
    event: CommandCleanupEventView,
)
    requires
        work.next(event).1 is KillSession,
    ensures
        event matches CommandCleanupEventView::Sessions(sessions) && work.sessions.len() > 0 && (
        recorded_session(work.environment, work.sessions[0]) matches Ok(name) && (session_there(
            sessions,
            name,
            work.sessions[0].resource.stable_identity,
        ) matches Some(session) && session.windows.len() == 0)),
{
}

/// Once the work is over, no reply brings anything about.
pub proof fn law_over_is_over(work: CommandCleanupView, event: CommandCleanupEventView)
    requires
        work.phase == CommandCleanupPhase::Over,
    ensures
        work.next(event) == (work, CommandCleanupStepView::Idle),
{
}

/// A window that this run opened and that is still listed under its name is killed, in the session that
/// was recorded; one that is gone is left alone, and the next one follows.
pub proof fn law_listed_window_is_killed(
    work: CommandCleanupView,
    sessions: Seq<TmuxSessionSnapshotView>,
    name: Seq<char>,
    window_name: Seq<char>,
    i: int,
    k: int,
)
    requires
        work.phase == CommandCleanupPhase::LookForWindow,
        work.windows.len() > 0,
        work.windows[0].note("session_name"@) == Some(name),
        work.windows[0].note("window_name"@) == Some(window_name),
    ensures
        ({
            let record = work.windows[0];
            let looked = work.next(CommandCleanupEventView::Sessions(sessions));
            let killed = looked.0.next(CommandCleanupEventView::Killed);
            &&& 0 <= i < sessions.len() && sessions[i].name == name && (record.note(
                "session_identity"@,
            ) matches Some(identity) ==> identity == sessions[i].identity) && 0 <= k
                < sessions[i].windows.len() && sessions[i].windows[k].identity
                == record.resource.stable_identity && sessions[i].windows[k].name == window_name
                ==> looked.1 == (CommandCleanupStepView::KillWindow {
                session: name,
                window: record.resource.stable_identity,
            }) && killed.0.windows == work.windows.drop_first() && killed.0.sessions
                == work.sessions
            &&& (forall|j: int, l: int|
                0 <= j < sessions.len() && 0 <= l < sessions[j].windows.len() ==> (
                #[trigger] sessions[j].windows[l]).identity != record.resource.stable_identity)
                ==> !(looked.1 is KillWindow) && looked.0.windows == work.windows.drop_first()
        }),
{
    let record = work.windows[0];
    if 0 <= i < sessions.len() && 0 <= k < sessions[i].windows.len()
        && sessions[i].windows[k].identity == record.resource.stable_identity
        && sessions[i].windows[k].name == window_name && sessions[i].name == name && (record.note(
        "session_identity"@,
    ) matches Some(identity) ==> identity == sessions[i].identity) {
        assert(lists_recorded_window(
            sessions[i].windows,
            record.resource.stable_identity,
            window_name,
        ));
        assert(holds_recorded(sessions[i], name, record));
        assert(window_is_there(sessions, name, record));
    }
    if forall|j: int, l: int|
        0 <= j < sessions.len() && 0 <= l < sessions[j].windows.len() ==> (
        #[trigger] sessions[j].windows[l]).identity != record.resource.stable_identity {
        assert(!window_is_there(sessions, name, record));
    }
}

/// A session that this run opened and that holds no window any more is killed; one in which windows are
/// left stays. Windows go before sessions.
pub proof fn law_empty_session_is_killed(
    work: CommandCleanupView,
    session: TmuxSessionSnapshotView,
)
    requires
        work.phase == CommandCleanupPhase::LookForSession,
        work.sessions.len() > 0,
        work.sessions[0].note("session_name"@) == Some(session.name),
        work.sessions[0].resource.stable_identity == session.identity,
    ensures
        ({
            let looked = work.next(CommandCleanupEventView::Sessions(seq![session]));
            let gone = work.next(CommandCleanupEventView::Sessions(Seq::empty()));
            &&& session.windows.len() == 0 ==> looked.1 == (CommandCleanupStepView::KillSession {
                session: session.name,
            }) && looked.0.next(CommandCleanupEventView::Killed).0.sessions
                == work.sessions.drop_first()
            &&& session.windows.len() > 0 ==> !(looked.1 is KillSession) && looked.0.sessions
                == work.sessions.drop_first()
            &&& !(gone.1 is KillSession) && gone.0.sessions == work.sessions.drop_first()
        }),
{
    assert(seq![session][0] == session);
}

/// The cleanup takes up exactly what this run opened, windows first, and is done when nothing is left.
pub proof fn law_cleanup_takes_up_what_was_opened(
    environment: Seq<char>,
    resources: Seq<ResourceRecordView>,
)
    ensures
        ({
            let begun = command_cleanup_begun(Some(environment), resources);
            &&& forall|i: int|
                0 <= i < resources.len() && (#[trigger] resources[i]).ownership
                    == OwnershipStatus::CreatedByCurrentRun && resources[i].cleanup_policy
                    != CleanupPolicy::Preserve ==> (resources[i].resource.kind
                    == ResourceKind::TmuxWindow ==> begun.0.windows.contains(resources[i])) && (
                resources[i].resource.kind == ResourceKind::TmuxSession
                    ==> begun.0.sessions.contains(resources[i]))
            &&& begun.0.windows.len() > 0 ==> begun.1 is Observe && begun.0.phase
                == CommandCleanupPhase::LookForWindow
            &&& begun.0.windows.len() == 0 && begun.0.sessions.len() > 0 ==> begun.1 is Observe
                && begun.0.phase == CommandCleanupPhase::LookForSession
            &&& begun.0.windows.len() == 0 && begun.0.sessions.len() == 0 <==> begun.1 is Finish
        }),
{
    law_every_owned_resource_is_taken_up(resources, ResourceKind::TmuxWindow);
    law_every_owned_resource_is_taken_up(resources, ResourceKind::TmuxSession);
}

/// What is still listed after the cleanup is told, and nothing else.
pub proof fn law_what_is_left_is_told(
    earlier: Seq<ResourceRecordView>,
    record: ResourceRecordView,
    session: TmuxSessionSnapshotView,
    window: TmuxWindowSnapshotView,
)
    requires
        record.note("session_name"@) == Some(session.name),
    ensures
        record.resource.kind == ResourceKind::TmuxSession && record.resource.stable_identity
            == session.identity ==> left_there(seq![session], earlier.push(record)) == left_there(
            seq![session],
            earlier,
        ).push(record),
        record.resource.kind == ResourceKind::TmuxWindow && record.note("session_identity"@) == Some(
            session.identity,
        ) && record.note("window_name"@) == Some(window.name) && record.resource.stable_identity
            == window.identity && session.windows.contains(window) ==> left_there(
            seq![session],
            earlier.push(record),
        ) == left_there(seq![session], earlier).push(record),
        left_there(Seq::empty(), earlier) == Seq::<ResourceRecordView>::empty(),
    decreases earlier.len(),
{
    assert(earlier.push(record).drop_last() =~= earlier);
    assert(seq![session][0] == session);
    if session.windows.contains(window) {
        let k = choose|k: int| 0 <= k < session.windows.len() && session.windows[k] == window;
        assert(lists_recorded_window(session.windows, session.windows[k].identity, window.name));
    }
    if earlier.len() > 0 {
        law_what_is_left_is_told(earlier.drop_last(), record, session, window);
    }
}

} // verus!
