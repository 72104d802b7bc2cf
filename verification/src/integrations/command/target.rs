//! Commands that go on running in a terminal window.
use vstd::prelude::*;
use vstd::string::*;
use crate::domain::{
    identity_of, record_of, ActionSpec, ActionSpecView, CleanupPolicy, OwnershipStatus,
    ResourceIdentity, ResourceKind, ResourceRecord, ResourceRecordView,
};
use crate::error::{error_of, seen, ErrorCategory, WorkstateError, WorkstateErrorView};
use crate::integrations::tmux::backend::{find_sessions, sessions_called};
use crate::integrations::tmux::models::{
    session_name, session_named, window_name, window_named, SESSION_PREFIX, WINDOW_PREFIX,
};
use crate::paths::{file_name, path_file_name, paths_agree, same_path};
use crate::planner::{
    log_lines, logged, observed_change, observed_correct, observed_unknown, ActionExecutionResult,
    ActionExecutionResultView, ActionObservation, ActionObservationView, ObservationStatus,
};
use crate::ports::{
    ProcessRequest, ProcessRequestView, TmuxSessionSnapshot, TmuxSessionSnapshotView,
    TmuxWindowRequest, TmuxWindowRequestView, TmuxWindowSnapshot, TmuxWindowSnapshotView,
};
use crate::text::{decimal, is_blank, join3, same_text, text_decimal};
use crate::values::{
    append, empty_list, lemma_filter_ends, lemma_filter_step, list_of, option_is_text, Replicate,
};

verus! {

/// A command that goes on running, with the session and the window that are its own.
#[derive(Debug)]
pub struct TmuxCommandTarget {
    pub action: ActionSpec,
    pub session_name: String,
    pub window_name: String,
    pub request: ProcessRequest,
}

/// What a `TmuxCommandTarget` stands for.
#[verifier::ext_equal]
pub struct TmuxCommandTargetView {
    pub action: ActionSpecView,
    pub session_name: Seq<char>,
    pub window_name: Seq<char>,
    pub request: ProcessRequestView,
}

impl View for TmuxCommandTarget {
    type V = TmuxCommandTargetView;

    open spec fn view(&self) -> TmuxCommandTargetView {
        TmuxCommandTargetView {
            action: self.action.deep_view(),
            session_name: self.session_name.deep_view(),
            window_name: self.window_name.deep_view(),
            request: self.request.deep_view(),
        }
    }
}

impl DeepView for TmuxCommandTarget {
    type V = TmuxCommandTargetView;

    open spec fn deep_view(&self) -> TmuxCommandTargetView {
        self.view()
    }
}

impl Replicate for TmuxCommandTarget {
    fn replicate(&self) -> (r: Self) {
        TmuxCommandTarget {
            action: self.action.replicate(),
            session_name: self.session_name.replicate(),
            window_name: self.window_name.replicate(),
            request: self.request.replicate(),
        }
    }
}

/// The error of an action outside of an environment.
pub open spec fn environment_missing(action: Seq<char>) -> WorkstateErrorView {
    error_of(
        ErrorCategory::Runtime,
        "command action '"@ + action + "' was executed without an environment context"@,
    )
}

/// What a command that goes on running is about: the session of its environment, and the window of
/// its action.
pub open spec fn command_target(action: ActionSpecView, request: ProcessRequestView) -> Result<
    TmuxCommandTargetView,
    WorkstateErrorView,
> {
    match action.resolved_environment {
        None => Err(environment_missing(action.id)),
        Some(environment) => Ok(
            TmuxCommandTargetView {
                action,
                session_name: session_named(environment),
                window_name: window_named(action.id),
                request,
            },
        ),
    }
}

/// The name of an executable.
pub open spec fn executable_named(value: Seq<char>) -> Seq<char> {
    match file_name(value) {
        Some(name) => name,
        None => value,
    }
}

fn executable_name(value: &str) -> (r: String)
    ensures
        r@ == executable_named(value@),
{
    match path_file_name(value) {
        Some(name) => name,
        None => value.to_owned(),
    }
}

/// A window still runs what it should, as far as it tells.
pub open spec fn runs_as_asked(window: TmuxWindowSnapshotView, request: ProcessRequestView) -> bool {
    (window.command matches Some(command) ==> executable_named(command) == executable_named(
        request.program,
    )) && (match (window.working_directory, request.working_directory) {
        (Some(actual), Some(expected)) => same_path(actual, expected),
        _ => true,
    })
}

/// Whether a window still runs what it should, as far as it tells.
pub fn window_is_healthy(window: &TmuxWindowSnapshot, request: &ProcessRequest) -> (r: bool)
    ensures
        r == runs_as_asked(window@, request@),
{
    let command_matches = match &window.command {
        Some(command) => same_text(
            executable_name(command.as_str()).as_str(),
            executable_name(request.program.as_str()).as_str(),
        ),
        None => true,
    };
    let directory_matches = match (&window.working_directory, &request.working_directory) {
        (Some(actual), Some(expected)) => paths_agree(actual.as_str(), expected.as_str()),
        _ => true,
    };
    command_matches && directory_matches
}

/// The windows of a name.
pub open spec fn windows_called(windows: Seq<TmuxWindowSnapshotView>, name: Seq<char>) -> Seq<
    TmuxWindowSnapshotView,
> {
    windows.filter(|window: TmuxWindowSnapshotView| window.name == name)
}

fn find_windows(windows: &Vec<TmuxWindowSnapshot>, name: &str) -> (r: Vec<TmuxWindowSnapshot>)
    ensures
        r.deep_view() == windows_called(windows.deep_view(), name@),
{
    let mut found: Vec<TmuxWindowSnapshot> = empty_list();
    let mut i: usize = 0;
    let ghost all = windows.deep_view();
    let ghost keep = |window: TmuxWindowSnapshotView| window.name == name@;
    proof {
        lemma_filter_ends(all, keep);
    }
    while i < windows.len()
        invariant
            i <= windows@.len(),
            all == windows.deep_view(),
            keep == (|window: TmuxWindowSnapshotView| window.name == name@),
            found.deep_view() == all.take(i as int).filter(keep),
        decreases windows@.len() - i,
    {
        assert(all[i as int] == windows@[i as int]@);
        proof {
            lemma_filter_step(all, i as int, keep);
        }
        if same_text(windows[i].name.as_str(), name) {
            append(&mut found, windows[i].replicate());
        }
        i = i + 1;
    }
    proof {
        lemma_filter_ends(all, keep);
        assert(all.take(i as int) =~= all);
    }
    found
}

/// The record of the session of a command.
pub open spec fn session_recorded(
    action: ActionSpecView,
    session: TmuxSessionSnapshotView,
    ownership: OwnershipStatus,
    observed_before: bool,
    session_name: Seq<char>,
) -> Result<ResourceRecordView, WorkstateErrorView> {
    match identity_of(ResourceKind::TmuxSession, session.identity) {
        Err(error) => Err(error),
        Ok(identity) => Ok(
            record_of(
                identity,
                ownership,
                action.id,
                observed_before,
                CleanupPolicy::OwnedOnly,
            ).noting("session_name"@, session_name).noting(
                "environment_slug"@,
                match action.resolved_environment {
                    Some(environment) => environment,
                    None => "unknown"@,
                },
            ),
        ),
    }
}

fn session_record(
    action: &ActionSpec,
    session: &TmuxSessionSnapshot,
    ownership: OwnershipStatus,
    observed_before: bool,
    session_name: &str,
) -> (r: Result<ResourceRecord, WorkstateError>)
    ensures
        seen(r) == session_recorded(action@, session@, ownership, observed_before, session_name@),
{
    match ResourceIdentity::new(ResourceKind::TmuxSession, session.identity.clone()) {
        Err(error) => Err(error),
        Ok(identity) => {
            let mut record = ResourceRecord::of_action(
                identity,
                ownership,
                action.id.as_str(),
                observed_before,
                CleanupPolicy::OwnedOnly,
            );
            record.note("session_name", session_name);
            let environment = match &action.resolved_environment {
                Some(environment) => environment.clone(),
                None => "unknown".to_owned(),
            };
            record.note("environment_slug", environment.as_str());
            Ok(record)
        },
    }
}

pub open spec fn truth_text(value: bool) -> Seq<char> {
    if value {
        "true"@
    } else {
        "false"@
    }
}

impl TmuxCommandTargetView {
    /// The record of the window of the command.
    pub open spec fn window_recorded(
        self,
        session: TmuxSessionSnapshotView,
        window: TmuxWindowSnapshotView,
        ownership: OwnershipStatus,
        observed_before: bool,
        session_ownership: OwnershipStatus,
    ) -> Result<ResourceRecordView, WorkstateErrorView> {
        match identity_of(ResourceKind::TmuxWindow, window.identity) {
            Err(error) => Err(error),
            Ok(identity) => {
                let record = record_of(
                    identity,
                    ownership,
                    self.action.id,
                    observed_before,
                    CleanupPolicy::OwnedOnly,
                ).noting("session_name"@, self.session_name).noting(
                    "session_identity"@,
                    session.identity,
                ).noting("window_name"@, self.window_name).noting(
                    "session_owned"@,
                    truth_text(session_ownership.owned()),
                ).noting("command_program"@, self.request.program).noting(
                    "working_directory"@,
                    match self.request.working_directory {
                        Some(directory) => directory,
                        None => ""@,
                    },
                );
                Ok(
                    match window.process_id {
                        Some(process_id) => record.noting(
                            "process_id"@,
                            decimal(process_id as nat),
                        ),
                        None => record,
                    },
                )
            },
        }
    }

    /// The records of the session and of the window.
    pub open spec fn both_recorded(
        self,
        session: TmuxSessionSnapshotView,
        window: TmuxWindowSnapshotView,
        session_ownership: OwnershipStatus,
        window_ownership: OwnershipStatus,
    ) -> Result<Seq<ResourceRecordView>, WorkstateErrorView> {
        match session_recorded(
            self.action,
            session,
            session_ownership,
            session_ownership != OwnershipStatus::CreatedByCurrentRun,
            self.session_name,
        ) {
            Err(error) => Err(error),
            Ok(first) => match self.window_recorded(
                session,
                window,
                window_ownership,
                window_ownership != OwnershipStatus::CreatedByCurrentRun,
                session_ownership,
            ) {
                Err(error) => Err(error),
                Ok(second) => Ok(seq![first, second]),
            },
        }
    }

    /// An earlier record of the window.
    pub open spec fn knows(self, record: ResourceRecordView, window: Seq<char>) -> bool {
        record.resource.kind == ResourceKind::TmuxWindow && record.resource.stable_identity == window
            && record.note("session_name"@) == Some(self.session_name) && record.note(
            "window_name"@,
        ) == Some(self.window_name)
    }

    /// One of the earlier records is of the window.
    pub open spec fn known(self, previous: Seq<ResourceRecordView>, window: Seq<char>) -> bool {
        exists|i: int| 0 <= i < previous.len() && self.knows(#[trigger] previous[i], window)
    }

    /// What is observed of the command: it is there where the one window of its name, in the one
    /// session of its name, was recorded before and still runs what it should.
    pub open spec fn observed(
        self,
        previous: Seq<ResourceRecordView>,
        sessions: Seq<TmuxSessionSnapshotView>,
    ) -> Result<ActionObservationView, WorkstateErrorView> {
        let found = sessions_called(sessions, self.session_name);
        if found.len() == 0 {
            Ok(observed_change().explained("the environment tmux session is missing"@))
        } else if found.len() > 1 {
            Ok(
                observed_unknown(
                    "multiple tmux sessions have the canonical environment name"@,
                ),
            )
        } else {
            let windows = windows_called(found[0].windows, self.window_name);
            if windows.len() == 0 {
                Ok(observed_change().explained("the persistent tmux window is missing"@))
            } else if windows.len() > 1 {
                Ok(observed_unknown("multiple tmux windows have the canonical action name"@))
            } else if !self.known(previous, windows[0].identity) {
                Ok(
                    observed_unknown(
                        "the canonical tmux window exists but is not owned by Workstate"@,
                    ),
                )
            } else if !runs_as_asked(windows[0], self.request) {
                Ok(
                    observed_unknown(
                        "the owned tmux window no longer matches the configured command"@,
                    ),
                )
            } else {
                match self.both_recorded(
                    found[0],
                    windows[0],
                    OwnershipStatus::ReusedExisting,
                    OwnershipStatus::ReusedExisting,
                ) {
                    Err(error) => Err(error),
                    Ok(records) => Ok(observed_correct().holding(records)),
                }
            }
        }
    }

    /// An error about the window of the command.
    pub open spec fn window_error(self, message: Seq<char>) -> WorkstateErrorView {
        error_of(ErrorCategory::Integration, message).with(
            "session_name"@,
            self.session_name,
        ).with("window_name"@, self.window_name)
    }

    /// What was done, once the window is there.
    pub open spec fn resulting(
        self,
        session: TmuxSessionSnapshotView,
        session_ownership: OwnershipStatus,
        window_ownership: OwnershipStatus,
        changed: bool,
    ) -> Result<ActionExecutionResultView, WorkstateErrorView> {
        let windows = windows_called(session.windows, self.window_name);
        if windows.len() == 0 {
            Err(
                self.window_error("tmux did not expose the persistent window after creation"@),
            )
        } else if windows.len() != 1 {
            Err(
                self.window_error(
                    "tmux exposed multiple windows with the canonical action name"@,
                ),
            )
        } else if !runs_as_asked(windows[0], self.request) {
            Err(
                self.window_error(
                    "the persistent tmux window did not remain healthy after creation"@,
                ),
            )
        } else {
            match self.both_recorded(session, windows[0], session_ownership, window_ownership) {
                Err(error) => Err(error),
                Ok(resources) => Ok(
                    ActionExecutionResultView {
                        changed,
                        resources,
                        mutations: Seq::empty(),
                        outputs: log_lines(
                            seq![
                                if changed {
                                    "started persistent command in tmux window '"@
                                        + self.window_name + "'"@
                                } else {
                                    "reused persistent tmux window '"@ + self.window_name + "'"@
                                },
                            ],
                        ),
                    },
                ),
            }
        }
    }

    /// The window that is to be opened.
    pub open spec fn window(self) -> TmuxWindowRequestView {
        TmuxWindowRequestView { name: self.window_name, process: self.request }
    }
}

impl TmuxCommandTarget {
    /// What a command that goes on running is about.
    pub fn new(action: &ActionSpec, request: ProcessRequest) -> (r: Result<Self, WorkstateError>)
        ensures
            seen(r) == command_target(action@, request@),
    {
        match &action.resolved_environment {
            None => Err(
                WorkstateError::new(
                    ErrorCategory::Runtime,
                    join3(
                        "command action '",
                        action.id.as_str(),
                        "' was executed without an environment context",
                    ).as_str(),
                ),
            ),
            Some(environment) => Ok(
                TmuxCommandTarget {
                    action: action.replicate(),
                    session_name: session_name(environment),
                    window_name: window_name(&action.id),
                    request,
                },
            ),
        }
    }

    fn window_record(
        &self,
        session: &TmuxSessionSnapshot,
        window: &TmuxWindowSnapshot,
        ownership: OwnershipStatus,
        observed_before: bool,
        session_ownership: OwnershipStatus,
    ) -> (r: Result<ResourceRecord, WorkstateError>)
        ensures
            seen(r) == self@.window_recorded(
                session@,
                window@,
                ownership,
                observed_before,
                session_ownership,
            ),
    {
        match ResourceIdentity::new(ResourceKind::TmuxWindow, window.identity.clone()) {
            Err(error) => Err(error),
            Ok(identity) => {
                let mut record = ResourceRecord::of_action(
                    identity,
                    ownership,
                    self.action.id.as_str(),
                    observed_before,
                    CleanupPolicy::OwnedOnly,
                );
                record.note("session_name", self.session_name.as_str());
                record.note("session_identity", session.identity.as_str());
                record.note("window_name", self.window_name.as_str());
                if session_ownership.is_environment_owned() {
                    record.note("session_owned", "true");
                } else {
                    record.note("session_owned", "false");
                }
                record.note("command_program", self.request.program.as_str());
                match &self.request.working_directory {
                    Some(directory) => {
                        record.note("working_directory", directory.as_str());
                    },
                    None => {
                        record.note("working_directory", "");
                    },
                }
                if let Some(process_id) = window.process_id {
                    record.note("process_id", text_decimal(process_id as u128).as_str());
                }
                Ok(record)
            },
        }
    }

    fn both_records(
        &self,
        session: &TmuxSessionSnapshot,
        window: &TmuxWindowSnapshot,
        session_ownership: OwnershipStatus,
        window_ownership: OwnershipStatus,
    ) -> (r: Result<Vec<ResourceRecord>, WorkstateError>)
        ensures
            seen(r) == self@.both_recorded(session@, window@, session_ownership, window_ownership),
    {
        let first = match session_record(
            &self.action,
            session,
            session_ownership,
            session_ownership != OwnershipStatus::CreatedByCurrentRun,
            self.session_name.as_str(),
        ) {
            Err(error) => {
                return Err(error);
            },
            Ok(record) => record,
        };
        match self.window_record(
            session,
            window,
            window_ownership,
            window_ownership != OwnershipStatus::CreatedByCurrentRun,
            session_ownership,
        ) {
            Err(error) => Err(error),
            Ok(second) => {
                let mut records = list_of(first);
                append(&mut records, second);
                assert(records.deep_view() =~= seq![first@, second@]);
                Ok(records)
            },
        }
    }

    fn is_known(&self, previous: &Vec<ResourceRecord>, window: &str) -> (r: bool)
        ensures
            r == self@.known(previous.deep_view(), window@),
    {
        let mut i: usize = 0;
        let ghost all = previous.deep_view();
        while i < previous.len()
            invariant
                i <= previous@.len(),
                all == previous.deep_view(),
                forall|j: int| 0 <= j < i ==> !self@.knows(#[trigger] all[j], window@),
            decreases previous@.len() - i,
        {
            assert(all[i as int] == previous@[i as int]@);
            let record = &previous[i];
            let session = record.integration_metadata.get("session_name");
            let name = record.integration_metadata.get("window_name");
            if record.resource.kind == ResourceKind::TmuxWindow && same_text(
                record.resource.stable_identity.as_str(),
                window,
            ) && option_is_text(&session, self.session_name.as_str()) && option_is_text(
                &name,
                self.window_name.as_str(),
            ) {
                assert(self@.knows(all[i as int], window@));
                return true;
            }
            i = i + 1;
        }
        false
    }

    /// What is observed of the command.
    pub fn observe(
        &self,
        previous_resources: &Vec<ResourceRecord>,
        sessions: &Vec<TmuxSessionSnapshot>,
    ) -> (r: Result<ActionObservation, WorkstateError>)
        ensures
            seen(r) == self@.observed(previous_resources.deep_view(), sessions.deep_view()),
    {
        let found = find_sessions(sessions, self.session_name.as_str());
        assert(found.deep_view().len() == found@.len());
        if found.len() == 0 {
            return Ok(
                ActionObservation::requires_change().with_detail(
                    "the environment tmux session is missing",
                ),
            );
        }
        if found.len() > 1 {
            return Ok(
                ActionObservation::unknown(
                    "multiple tmux sessions have the canonical environment name",
                ),
            );
        }
        assert(found.deep_view()[0] == found@[0]@);
        let windows = find_windows(&found[0].windows, self.window_name.as_str());
        assert(windows.deep_view().len() == windows@.len());
        if windows.len() == 0 {
            return Ok(
                ActionObservation::requires_change().with_detail(
                    "the persistent tmux window is missing",
                ),
            );
        }
        if windows.len() > 1 {
            return Ok(
                ActionObservation::unknown("multiple tmux windows have the canonical action name"),
            );
        }
        assert(windows.deep_view()[0] == windows@[0]@);
        if !self.is_known(previous_resources, windows[0].identity.as_str()) {
            return Ok(
                ActionObservation::unknown(
                    "the canonical tmux window exists but is not owned by Workstate",
                ),
            );
        }
        if !window_is_healthy(&windows[0], &self.request) {
            return Ok(
                ActionObservation::unknown(
                    "the owned tmux window no longer matches the configured command",
                ),
            );
        }
        match self.both_records(
            &found[0],
            &windows[0],
            OwnershipStatus::ReusedExisting,
            OwnershipStatus::ReusedExisting,
        ) {
            Err(error) => Err(error),
            Ok(records) => Ok(ActionObservation::already_correct().with_resources(records)),
        }
    }

    fn window_error(&self, message: &str) -> (r: WorkstateError)
        ensures
            r@ == self@.window_error(message@),
    {
        WorkstateError::new(ErrorCategory::Integration, message).with_context(
            "session_name",
            self.session_name.as_str(),
        ).with_context("window_name", self.window_name.as_str())
    }

    /// What was done, once the window is there.
    pub fn result_from_session(
        &self,
        session: &TmuxSessionSnapshot,
        session_ownership: OwnershipStatus,
        window_ownership: OwnershipStatus,
        changed: bool,
    ) -> (r: Result<ActionExecutionResult, WorkstateError>)
        ensures
            seen(r) == self@.resulting(session@, session_ownership, window_ownership, changed),
    {
        let windows = find_windows(&session.windows, self.window_name.as_str());
        assert(windows.deep_view().len() == windows@.len());
        if windows.len() == 0 {
            return Err(
                self.window_error("tmux did not expose the persistent window after creation"),
            );
        }
        if windows.len() != 1 {
            return Err(
                self.window_error("tmux exposed multiple windows with the canonical action name"),
            );
        }
        assert(windows.deep_view()[0] == windows@[0]@);
        if !window_is_healthy(&windows[0], &self.request) {
            return Err(
                self.window_error(
                    "the persistent tmux window did not remain healthy after creation",
                ),
            );
        }
        match self.both_records(session, &windows[0], session_ownership, window_ownership) {
            Err(error) => Err(error),
            Ok(resources) => {
                let line = if changed {
                    join3(
                        "started persistent command in tmux window '",
                        self.window_name.as_str(),
                        "'",
                    )
                } else {
                    join3("reused persistent tmux window '", self.window_name.as_str(), "'")
                };
                Ok(
                    ActionExecutionResult {
                        changed,
                        resources,
                        mutations: empty_list(),
                        outputs: logged(&list_of(line)),
                    },
                )
            },
        }
    }
}

// ---------------------------------------------------------------------------------------------
// Starting
// ---------------------------------------------------------------------------------------------
/// What the work is waiting for.
#[derive(Debug, Clone, Copy, PartialEq, Eq, Structural)]
pub enum CommandStartPhase {
    Sessions,
    Session,
    Window,
    Over,
}

impl DeepView for CommandStartPhase {
    type V = CommandStartPhase;

    open spec fn deep_view(&self) -> CommandStartPhase {
        *self
    }
}

impl Replicate for CommandStartPhase {
    fn replicate(&self) -> (r: Self) {
        *self
    }
}

/// Starting a command that goes on running.
#[derive(Debug)]
pub struct CommandStart {
    pub target: TmuxCommandTarget,
    pub phase: CommandStartPhase,
}

/// What a `CommandStart` stands for.
#[verifier::ext_equal]
pub struct CommandStartView {
    pub target: TmuxCommandTargetView,
    pub phase: CommandStartPhase,
}

impl View for CommandStart {
    type V = CommandStartView;

    open spec fn view(&self) -> CommandStartView {
        CommandStartView {
            target: self.target.deep_view(),
            phase: self.phase.deep_view(),
        }
    }
}

impl DeepView for CommandStart {
    type V = CommandStartView;

    open spec fn deep_view(&self) -> CommandStartView {
        self.view()
    }
}

impl Replicate for CommandStart {
    fn replicate(&self) -> (r: Self) {
        CommandStart {
            target: self.target.replicate(),
            phase: self.phase.replicate(),
        }
    }
}

/// What tmux replied.
#[derive(Debug)]
pub enum CommandStartEvent {
    Sessions(Vec<TmuxSessionSnapshot>),
    Opened(TmuxSessionSnapshot),
    Failed(WorkstateError),
}

/// What a `CommandStartEvent` stands for.
#[verifier::ext_equal]
pub enum CommandStartEventView {
    Sessions(Seq<TmuxSessionSnapshotView>),
    Opened(TmuxSessionSnapshotView),
    Failed(WorkstateErrorView),
}

impl View for CommandStartEvent {
    type V = CommandStartEventView;

    open spec fn view(&self) -> CommandStartEventView {
        match self {
            CommandStartEvent::Sessions(value) => CommandStartEventView::Sessions(value.deep_view()),
            CommandStartEvent::Opened(value) => CommandStartEventView::Opened(value.deep_view()),
            CommandStartEvent::Failed(value) => CommandStartEventView::Failed(value.deep_view()),
        }
    }
}

impl DeepView for CommandStartEvent {
    type V = CommandStartEventView;

    open spec fn deep_view(&self) -> CommandStartEventView {
        self.view()
    }
}

/// What is asked of tmux next.
#[derive(Debug)]
pub enum CommandStartStep {
    Observe,
    CreateSession { session: String, window: TmuxWindowRequest },
    CreateWindow { session: String, window: TmuxWindowRequest },
    Finish(ActionExecutionResult),
    Fail(WorkstateError),
    Idle,
}

/// What a `CommandStartStep` stands for.
#[verifier::ext_equal]
pub enum CommandStartStepView {
    Observe,
    CreateSession { session: Seq<char>, window: TmuxWindowRequestView },
    CreateWindow { session: Seq<char>, window: TmuxWindowRequestView },
    Finish(ActionExecutionResultView),
    Fail(WorkstateErrorView),
    Idle,
}

impl View for CommandStartStep {
    type V = CommandStartStepView;

    open spec fn view(&self) -> CommandStartStepView {
        match self {
            CommandStartStep::Observe => CommandStartStepView::Observe,
            CommandStartStep::CreateSession { session, window } => CommandStartStepView::CreateSession { session: session.deep_view(), window: window.deep_view() },
            CommandStartStep::CreateWindow { session, window } => CommandStartStepView::CreateWindow { session: session.deep_view(), window: window.deep_view() },
            CommandStartStep::Finish(value) => CommandStartStepView::Finish(value.deep_view()),
            CommandStartStep::Fail(value) => CommandStartStepView::Fail(value.deep_view()),
            CommandStartStep::Idle => CommandStartStepView::Idle,
        }
    }
}

impl DeepView for CommandStartStep {
    type V = CommandStartStepView;

    open spec fn deep_view(&self) -> CommandStartStepView {
        self.view()
    }
}

/// The work and what it asks of tmux.
pub type CommandStartMove = (CommandStartView, CommandStartStepView);

impl CommandStartView {
    pub open spec fn to(self, phase: CommandStartPhase, step: CommandStartStepView) -> CommandStartMove {
        (CommandStartView { phase, ..self }, step)
    }

    pub open spec fn failed(self, error: WorkstateErrorView) -> CommandStartMove {
        self.to(CommandStartPhase::Over, CommandStartStepView::Fail(error))
    }

    pub open spec fn ended(self, result: Result<ActionExecutionResultView, WorkstateErrorView>) -> CommandStartMove {
        match result {
            Err(error) => self.failed(error),
            Ok(result) => self.to(CommandStartPhase::Over, CommandStartStepView::Finish(result)),
        }
    }

    /// Once the sessions are known: the session or the window is opened where it is missing, and a
    /// window that runs what it should is used again.
    pub open spec fn after_sessions(self, sessions: Seq<TmuxSessionSnapshotView>) -> CommandStartMove {
        let target = self.target;
        let found = sessions_called(sessions, target.session_name);
        if found.len() == 0 {
            self.to(
                CommandStartPhase::Session,
                CommandStartStepView::CreateSession {
                    session: target.session_name,
                    window: target.window(),
                },
            )
        } else if found.len() > 1 {
            self.failed(
                error_of(
                    ErrorCategory::Integration,
                    "multiple tmux sessions have the canonical environment name"@,
                ).with("session_name"@, target.session_name),
            )
        } else {
            let windows = windows_called(found[0].windows, target.window_name);
            if windows.len() == 0 {
                self.to(
                    CommandStartPhase::Window,
                    CommandStartStepView::CreateWindow {
                        session: target.session_name,
                        window: target.window(),
                    },
                )
            } else if windows.len() > 1 {
                self.failed(
                    target.window_error(
                        "multiple tmux windows have the canonical action name"@,
                    ),
                )
            } else if runs_as_asked(windows[0], target.request) {
                self.ended(
                    target.resulting(
                        found[0],
                        OwnershipStatus::ReusedExisting,
                        OwnershipStatus::ReusedExisting,
                        false,
                    ),
                )
            } else {
                self.failed(
                    error_of(
                        ErrorCategory::Integration,
                        "the canonical tmux window exists but its command or working directory changed"@,
                    ).with("session_name"@, target.session_name).with(
                        "window_identity"@,
                        windows[0].identity,
                    ),
                )
            }
        }
    }

    /// What follows a reply. A reply that does not belong to what the work is waiting for changes
    /// nothing.
    pub open spec fn next(self, event: CommandStartEventView) -> CommandStartMove {
        match (self.phase, event) {
            (CommandStartPhase::Over, _) => (self, CommandStartStepView::Idle),
            (_, CommandStartEventView::Failed(error)) => self.failed(error),
            (CommandStartPhase::Sessions, CommandStartEventView::Sessions(sessions)) => self.after_sessions(
                sessions,
            ),
            (CommandStartPhase::Session, CommandStartEventView::Opened(session)) => self.ended(
                self.target.resulting(
                    session,
                    OwnershipStatus::CreatedByCurrentRun,
                    OwnershipStatus::CreatedByCurrentRun,
                    true,
                ),
            ),
            (CommandStartPhase::Window, CommandStartEventView::Opened(session)) => self.ended(
                self.target.resulting(
                    session,
                    OwnershipStatus::ReusedExisting,
                    OwnershipStatus::CreatedByCurrentRun,
                    true,
                ),
            ),
            _ => (self, CommandStartStepView::Idle),
        }
    }
}

impl CommandStart {
    /// Begins with the sessions that are there.
    pub fn begin(target: TmuxCommandTarget) -> (r: (CommandStart, CommandStartStep))
        ensures
            r.0@ == (CommandStartView { target: target@, phase: CommandStartPhase::Sessions }),
            r.1@ == CommandStartStepView::Observe,
    {
        (CommandStart { target, phase: CommandStartPhase::Sessions }, CommandStartStep::Observe)
    }

    fn to(self, phase: CommandStartPhase, step: CommandStartStep) -> (r: (
        CommandStart,
        CommandStartStep,
    ))
        ensures
            (r.0@, r.1@) == self@.to(phase, step@),
    {
        (CommandStart { target: self.target, phase }, step)
    }

    fn failed(self, error: WorkstateError) -> (r: (CommandStart, CommandStartStep))
        ensures
            (r.0@, r.1@) == self@.failed(error@),
    {
        self.to(CommandStartPhase::Over, CommandStartStep::Fail(error))
    }

    fn ended(self, result: Result<ActionExecutionResult, WorkstateError>) -> (r: (
        CommandStart,
        CommandStartStep,
    ))
        ensures
            (r.0@, r.1@) == self@.ended(seen(result)),
    {
        match result {
            Err(error) => self.failed(error),
            Ok(result) => self.to(CommandStartPhase::Over, CommandStartStep::Finish(result)),
        }
    }

    fn window(&self) -> (r: TmuxWindowRequest)
        ensures
            r@ == self@.target.window(),
    {
        TmuxWindowRequest {
            name: self.target.window_name.clone(),
            process: self.target.request.replicate(),
        }
    }

    fn after_sessions(self, sessions: Vec<TmuxSessionSnapshot>) -> (r: (
        CommandStart,
        CommandStartStep,
    ))
        ensures
            (r.0@, r.1@) == self@.after_sessions(sessions.deep_view()),
    {
        let session = self.target.session_name.clone();
        let found = find_sessions(&sessions, session.as_str());
        assert(found.deep_view().len() == found@.len());
        if found.len() == 0 {
            let window = self.window();
            return self.to(
                CommandStartPhase::Session,
                CommandStartStep::CreateSession { session, window },
            );
        }
        if found.len() > 1 {
            return self.failed(
                WorkstateError::new(
                    ErrorCategory::Integration,
                    "multiple tmux sessions have the canonical environment name",
                ).with_context("session_name", session.as_str()),
            );
        }
        assert(found.deep_view()[0] == found@[0]@);
        let windows = find_windows(&found[0].windows, self.target.window_name.as_str());
        assert(windows.deep_view().len() == windows@.len());
        if windows.len() == 0 {
            let window = self.window();
            return self.to(
                CommandStartPhase::Window,
                CommandStartStep::CreateWindow { session, window },
            );
        }
        if windows.len() > 1 {
            let error = self.target.window_error(
                "multiple tmux windows have the canonical action name",
            );
            return self.failed(error);
        }
        assert(windows.deep_view()[0] == windows@[0]@);
        if window_is_healthy(&windows[0], &self.target.request) {
            let result = self.target.result_from_session(
                &found[0],
                OwnershipStatus::ReusedExisting,
                OwnershipStatus::ReusedExisting,
                false,
            );
            return self.ended(result);
        }
        self.failed(
            WorkstateError::new(
                ErrorCategory::Integration,
                "the canonical tmux window exists but its command or working directory changed",
            ).with_context("session_name", session.as_str()).with_context(
                "window_identity",
                windows[0].identity.as_str(),
            ),
        )
    }

    /// What follows a reply. A reply that does not belong to what the work is waiting for changes
    /// nothing.
    pub fn advance(self, event: CommandStartEvent) -> (r: (CommandStart, CommandStartStep))
        ensures
            (r.0@, r.1@) == self@.next(event@),
    {
        match (self.phase, event) {
            (CommandStartPhase::Over, _) => (self, CommandStartStep::Idle),
            (_, CommandStartEvent::Failed(error)) => self.failed(error),
            (CommandStartPhase::Sessions, CommandStartEvent::Sessions(sessions)) => self.after_sessions(
                sessions,
            ),
            (CommandStartPhase::Session, CommandStartEvent::Opened(session)) => {
                let result = self.target.result_from_session(
                    &session,
                    OwnershipStatus::CreatedByCurrentRun,
                    OwnershipStatus::CreatedByCurrentRun,
                    true,
                );
                self.ended(result)
            },
            (CommandStartPhase::Window, CommandStartEvent::Opened(session)) => {
                let result = self.target.result_from_session(
                    &session,
                    OwnershipStatus::ReusedExisting,
                    OwnershipStatus::CreatedByCurrentRun,
                    true,
                );
                self.ended(result)
            },
            _ => (self, CommandStartStep::Idle),
        }
    }
}

// ---------------------------------------------------------------------------------------------
// Laws
// ---------------------------------------------------------------------------------------------
/// A command is taken for correct only where its window was recorded before: a window of the right
/// name that someone else opened is never taken over.
pub proof fn law_foreign_window_is_never_correct(
    target: TmuxCommandTargetView,
    previous: Seq<ResourceRecordView>,
    sessions: Seq<TmuxSessionSnapshotView>,
    observation: ActionObservationView,
)
    requires
        target.observed(previous, sessions) == Ok::<ActionObservationView, WorkstateErrorView>(
            observation,
        ),
        observation.status == crate::planner::ObservationStatus::AlreadyCorrect,
    ensures
        sessions_called(sessions, target.session_name).len() == 1,
        ({
            let session = sessions_called(sessions, target.session_name)[0];
            let windows = windows_called(session.windows, target.window_name);
            windows.len() == 1 && target.known(previous, windows[0].identity) && runs_as_asked(
                windows[0],
                target.request,
            )
        }),
{
}

/// A second start finds what the first one made: where the window still runs what it should, nothing
/// is opened, and what is there is recorded as unchanged. Only a session or a window whose identity
/// cannot be recorded is an error.
pub proof fn law_second_start_changes_nothing(
    target: TmuxCommandTargetView,
    sessions: Seq<TmuxSessionSnapshotView>,
)
    requires
        sessions_called(sessions, target.session_name).len() == 1,
        ({
            let session = sessions_called(sessions, target.session_name)[0];
            let windows = windows_called(session.windows, target.window_name);
            windows.len() == 1 && runs_as_asked(windows[0], target.request)
        }),
    ensures
        ({
            let work = CommandStartView { target, phase: CommandStartPhase::Sessions };
            let found = target.resulting(
                sessions_called(sessions, target.session_name)[0],
                OwnershipStatus::ReusedExisting,
                OwnershipStatus::ReusedExisting,
                false,
            );
            &&& work.next(CommandStartEventView::Sessions(sessions)).1 == (match found {
                Ok(result) => CommandStartStepView::Finish(result),
                Err(error) => CommandStartStepView::Fail(error),
            })
            &&& found matches Ok(result) ==> !result.changed
        }),
{
}

/// Once the work is over, no reply brings anything about.
pub proof fn law_over_is_over(work: CommandStartView, event: CommandStartEventView)
    requires
        work.phase == CommandStartPhase::Over,
    ensures
        work.next(event) == (work, CommandStartStepView::Idle),
{
}

/// The command of an action runs in the session of its environment, in the window of the action, with the
/// program, the arguments and the directory that were asked for: where there is no such session it is
/// created with that window, and where only the window is missing it is added.
pub proof fn law_command_is_started_where_it_belongs(
    action: ActionSpecView,
    environment: Seq<char>,
    request: ProcessRequestView,
    sessions: Seq<TmuxSessionSnapshotView>,
    session: TmuxSessionSnapshotView,
)
    requires
        action.resolved_environment == Some(environment),
    ensures
        command_target(action, request) matches Ok(target) && target.action == action
            && target.session_name == SESSION_PREFIX@ + environment && target.window_name
            == WINDOW_PREFIX@ + action.id && target.request == request && ({
            let start = CommandStartView { target, phase: CommandStartPhase::Sessions };
            &&& (forall|i: int|
                0 <= i < sessions.len() ==> (#[trigger] sessions[i]).name != target.session_name)
                ==> (start.next(CommandStartEventView::Sessions(sessions)).1
                matches CommandStartStepView::CreateSession { session: name, window } && name
                == target.session_name && window.name == target.window_name && window.process
                == request)
            &&& session.name == target.session_name && (forall|i: int|
                0 <= i < session.windows.len() ==> (#[trigger] session.windows[i]).name
                    != target.window_name) ==> (start.next(
                CommandStartEventView::Sessions(seq![session]),
            ).1 matches CommandStartStepView::CreateWindow { session: name, window } && name
                == target.session_name && window.name == target.window_name && window.process
                == request)
        }),
        command_target((ActionSpecView { resolved_environment: None, ..action }), request) is Err,
{
    let target = TmuxCommandTargetView {
        action,
        session_name: session_named(environment),
        window_name: window_named(action.id),
        request,
    };
    let called = |session: TmuxSessionSnapshotView| session.name == target.session_name;
    let named = |window: TmuxWindowSnapshotView| window.name == target.window_name;
    if forall|i: int|
        0 <= i < sessions.len() ==> (#[trigger] sessions[i]).name != target.session_name {
        lemma_nothing_is_kept(sessions, called);
        assert(sessions_called(sessions, target.session_name).len() == 0);
    }
    if session.name == target.session_name {
        lemma_one_is_kept(session, called);
        assert(sessions_called(seq![session], target.session_name) == seq![session]);
        if forall|i: int|
            0 <= i < session.windows.len() ==> (#[trigger] session.windows[i]).name
                != target.window_name {
            lemma_nothing_is_kept(session.windows, named);
            assert(windows_called(session.windows, target.window_name).len() == 0);
        }
    }
}

proof fn lemma_nothing_is_kept<T>(items: Seq<T>, wanted: spec_fn(T) -> bool)
    requires
        forall|i: int| 0 <= i < items.len() ==> !wanted(#[trigger] items[i]),
    ensures
        items.filter(wanted) == Seq::<T>::empty(),
    decreases items.len(),
{
    reveal(Seq::filter);
    if items.len() > 0 {
        lemma_nothing_is_kept(items.drop_last(), wanted);
        assert(!wanted(items[items.len() - 1]));
    }
}

proof fn lemma_one_is_kept<T>(item: T, wanted: spec_fn(T) -> bool)
    requires
        wanted(item),
    ensures
        seq![item].filter(wanted) == seq![item],
{
    reveal_with_fuel(Seq::filter, 2);
    assert(seq![item].drop_last() =~= Seq::<T>::empty());
    assert(seq![item].last() == item);
    assert(seq![item].filter(wanted) =~= seq![item]);
}

/// A command that was started is told as it is: a session and a window that were opened here belong to
/// this run, a session that was there before does not, and a window that shows another program than the
/// one that was asked for is no success.
pub proof fn law_started_command_is_recorded(
    start: CommandStartView,
    session: TmuxSessionSnapshotView,
    window: TmuxWindowSnapshotView,
)
    requires
        session.windows == seq![window],
        window.name == start.target.window_name,
        !is_blank(session.identity),
        !is_blank(window.identity),
        start.phase == CommandStartPhase::Session || start.phase == CommandStartPhase::Window,
    ensures
        ({
            let step = start.next(CommandStartEventView::Opened(session)).1;
            let kept = (window.command matches Some(command) ==> executable_named(command)
                == executable_named(start.target.request.program)) && (
            window.working_directory matches Some(actual) ==> (
            start.target.request.working_directory matches Some(expected) ==> same_path(
                actual,
                expected,
            )));
            &&& step is Finish <==> kept
            &&& !kept ==> step is Fail
            &&& step matches CommandStartStepView::Finish(result) ==> result.changed
                && result.resources.len() == 2 && result.resources[0].resource.kind
                == ResourceKind::TmuxSession && result.resources[0].resource.stable_identity
                == session.identity && result.resources[1].resource.kind
                == ResourceKind::TmuxWindow && result.resources[1].resource.stable_identity
                == window.identity && result.resources[1].ownership
                == OwnershipStatus::CreatedByCurrentRun && (result.resources[0].ownership
                == OwnershipStatus::CreatedByCurrentRun <==> start.phase
                == CommandStartPhase::Session) && result.resources[0].cleanup_policy
                == CleanupPolicy::OwnedOnly && result.resources[1].cleanup_policy
                == CleanupPolicy::OwnedOnly && result.resources[0].action_id == Some(
                start.target.action.id,
            ) && result.resources[1].action_id == Some(start.target.action.id)
        }),
{
    lemma_one_is_kept(
        window,
        |window: TmuxWindowSnapshotView| window.name == start.target.window_name,
    );
    assert(windows_called(session.windows, start.target.window_name) == seq![window]);
}

/// What is recorded of a window is what a later look knows it by.
pub proof fn law_recorded_window_is_known_again(
    target: TmuxCommandTargetView,
    session: TmuxSessionSnapshotView,
    window: TmuxWindowSnapshotView,
    ownership: OwnershipStatus,
    session_ownership: OwnershipStatus,
)
    requires
        !is_blank(window.identity),
    ensures
        target.window_recorded(session, window, ownership, false, session_ownership) matches Ok(
            record,
        ) && target.knows(record, window.identity) && record.note("session_identity"@) == Some(
            session.identity,
        ),
{
    lemma_keys_of_a_window();
}

proof fn lemma_keys_of_a_window()
    ensures
        "session_name"@ != "session_identity"@,
        "session_name"@ != "window_name"@,
        "session_name"@ != "session_owned"@,
        "session_name"@ != "command_program"@,
        "session_name"@ != "working_directory"@,
        "session_name"@ != "process_id"@,
        "window_name"@ != "session_owned"@,
        "window_name"@ != "command_program"@,
        "window_name"@ != "working_directory"@,
        "window_name"@ != "process_id"@,
        "session_identity"@ != "window_name"@,
        "session_identity"@ != "session_owned"@,
        "session_identity"@ != "command_program"@,
        "session_identity"@ != "working_directory"@,
        "session_identity"@ != "process_id"@,
{
    reveal_strlit("session_name");
    reveal_strlit("session_identity");
    reveal_strlit("window_name");
    reveal_strlit("session_owned");
    reveal_strlit("command_program");
    reveal_strlit("working_directory");
    reveal_strlit("process_id");
    assert("session_name"@.len() == 12);
    assert("session_identity"@.len() == 16);
    assert("window_name"@.len() == 11);
    assert("session_owned"@.len() == 13);
    assert("command_program"@.len() == 15);
    assert("working_directory"@.len() == 17);
    assert("process_id"@.len() == 10);
}

/// A window that runs the command, that an earlier run recorded, and that is the only one of its name in
/// the only session of its name needs nothing; one that is missing has to be made.
pub proof fn law_running_command_is_correct(
    target: TmuxCommandTargetView,
    session: TmuxSessionSnapshotView,
    window: TmuxWindowSnapshotView,
    record: ResourceRecordView,
    sessions: Seq<TmuxSessionSnapshotView>,
)
    requires
        session.name == target.session_name,
        session.windows == seq![window],
        window.name == target.window_name,
        !is_blank(session.identity),
        !is_blank(window.identity),
    ensures
        target.knows(record, window.identity) && window.command is None && window.working_directory
            is None ==> (target.observed(seq![record], seq![session]) matches Ok(observed)
            && observed.status == ObservationStatus::AlreadyCorrect),
        target.knows(record, window.identity) && (window.command matches Some(command)
            && executable_named(command) != executable_named(target.request.program)) ==> (
        target.observed(seq![record], seq![session]) matches Ok(observed) && observed.status
            == ObservationStatus::Unknown),
        (forall|i: int|
            0 <= i < sessions.len() ==> (#[trigger] sessions[i]).name != target.session_name) ==> (
        target.observed(seq![record], sessions) matches Ok(observed) && observed.status
            == ObservationStatus::RequiresChange),
{
    let called = |session: TmuxSessionSnapshotView| session.name == target.session_name;
    lemma_one_is_kept(
        window,
        |window: TmuxWindowSnapshotView| window.name == target.window_name,
    );
    assert(windows_called(session.windows, target.window_name) == seq![window]);
    lemma_one_is_kept(session, called);
    assert(sessions_called(seq![session], target.session_name) == seq![session]);
    if target.knows(record, window.identity) {
        assert(target.knows(seq![record][0], window.identity));
        assert(target.known(seq![record], window.identity));
    }
    if forall|i: int|
        0 <= i < sessions.len() ==> (#[trigger] sessions[i]).name != target.session_name {
        lemma_nothing_is_kept(sessions, called);
        assert(sessions_called(sessions, target.session_name).len() == 0);
    }
}

} // verus!
