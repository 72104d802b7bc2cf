//! What handlers report of the actions that they observe, apply and undo.
use vstd::prelude::*;
use vstd::string::*;
use crate::domain::{
    MutationRecord, MutationRecordView, ResourceRecord, ResourceRecordView,
};
use crate::error::{error_of, seen, ErrorCategory, WorkstateError, WorkstateErrorView};
use crate::text::join3;
use crate::values::{append, empty_list, list_holds, Replicate};

verus! {

/// Where a line of output came from.
#[derive(Debug, Clone, Copy, PartialEq, Eq, Structural)]
pub enum OutputStream {
    Log,
    Stdout,
    Stderr,
}

impl DeepView for OutputStream {
    type V = OutputStream;

    open spec fn deep_view(&self) -> OutputStream {
        *self
    }
}

impl Replicate for OutputStream {
    fn replicate(&self) -> (r: Self) {
        *self
    }
}

/// A piece of output of an action.
#[derive(Debug, Clone, PartialEq, Eq)]
pub struct ActionOutput {
    pub stream: OutputStream,
    pub text: String,
}

/// What a `ActionOutput` stands for.
#[verifier::ext_equal]
pub struct ActionOutputView {
    pub stream: OutputStream,
    pub text: Seq<char>,
}

impl View for ActionOutput {
    type V = ActionOutputView;

    open spec fn view(&self) -> ActionOutputView {
        ActionOutputView {
            stream: self.stream.deep_view(),
            text: self.text.deep_view(),
        }
    }
}

impl DeepView for ActionOutput {
    type V = ActionOutputView;

    open spec fn deep_view(&self) -> ActionOutputView {
        self.view()
    }
}

impl Replicate for ActionOutput {
    fn replicate(&self) -> (r: Self) {
        ActionOutput {
            stream: self.stream.replicate(),
            text: self.text.replicate(),
        }
    }
}

/// What an observation says of an action.
#[derive(Debug, Clone, Copy, PartialEq, Eq, Structural)]
pub enum ObservationStatus {
    AlreadyCorrect,
    RequiresChange,
    Unknown,
}

impl DeepView for ObservationStatus {
    type V = ObservationStatus;

    open spec fn deep_view(&self) -> ObservationStatus {
        *self
    }
}

impl Replicate for ObservationStatus {
    fn replicate(&self) -> (r: Self) {
        *self
    }
}

/// What was observed of the resources of an action.
#[derive(Debug, Clone, PartialEq, Eq)]
pub struct ActionObservation {
    pub status: ObservationStatus,
    pub detail: Option<String>,
    pub resources: Vec<ResourceRecord>,
}

/// What a `ActionObservation` stands for.
#[verifier::ext_equal]
pub struct ActionObservationView {
    pub status: ObservationStatus,
    pub detail: Option<Seq<char>>,
    pub resources: Seq<ResourceRecordView>,
}

impl View for ActionObservation {
    type V = ActionObservationView;

    open spec fn view(&self) -> ActionObservationView {
        ActionObservationView {
            status: self.status.deep_view(),
            detail: self.detail.deep_view(),
            resources: self.resources.deep_view(),
        }
    }
}

impl DeepView for ActionObservation {
    type V = ActionObservationView;

    open spec fn deep_view(&self) -> ActionObservationView {
        self.view()
    }
}

impl Replicate for ActionObservation {
    fn replicate(&self) -> (r: Self) {
        ActionObservation {
            status: self.status.replicate(),
            detail: self.detail.replicate(),
            resources: self.resources.replicate(),
        }
    }
}

/// What applying an action did.
#[derive(Debug, Clone, PartialEq, Eq)]
pub struct ActionExecutionResult {
    pub changed: bool,
    pub resources: Vec<ResourceRecord>,
    pub mutations: Vec<MutationRecord>,
    pub outputs: Vec<ActionOutput>,
}

/// What a `ActionExecutionResult` stands for.
#[verifier::ext_equal]
pub struct ActionExecutionResultView {
    pub changed: bool,
    pub resources: Seq<ResourceRecordView>,
    pub mutations: Seq<MutationRecordView>,
    pub outputs: Seq<ActionOutputView>,
}

impl View for ActionExecutionResult {
    type V = ActionExecutionResultView;

    open spec fn view(&self) -> ActionExecutionResultView {
        ActionExecutionResultView {
            changed: self.changed.deep_view(),
            resources: self.resources.deep_view(),
            mutations: self.mutations.deep_view(),
            outputs: self.outputs.deep_view(),
        }
    }
}

impl DeepView for ActionExecutionResult {
    type V = ActionExecutionResultView;

    open spec fn deep_view(&self) -> ActionExecutionResultView {
        self.view()
    }
}

impl Replicate for ActionExecutionResult {
    fn replicate(&self) -> (r: Self) {
        ActionExecutionResult {
            changed: self.changed.replicate(),
            resources: self.resources.replicate(),
            mutations: self.mutations.replicate(),
            outputs: self.outputs.replicate(),
        }
    }
}

/// What undoing an action said.
#[derive(Debug, Clone, PartialEq, Eq)]
pub struct CompensationResult {
    pub outputs: Vec<ActionOutput>,
}

/// What a `CompensationResult` stands for.
#[verifier::ext_equal]
pub struct CompensationResultView {
    pub outputs: Seq<ActionOutputView>,
}

impl View for CompensationResult {
    type V = CompensationResultView;

    open spec fn view(&self) -> CompensationResultView {
        CompensationResultView {
            outputs: self.outputs.deep_view(),
        }
    }
}

impl DeepView for CompensationResult {
    type V = CompensationResultView;

    open spec fn deep_view(&self) -> CompensationResultView {
        self.view()
    }
}

impl Replicate for CompensationResult {
    fn replicate(&self) -> (r: Self) {
        CompensationResult {
            outputs: self.outputs.replicate(),
        }
    }
}

/// What one readiness check said.
#[derive(Debug, Clone, PartialEq, Eq)]
pub struct ReadinessCheckResult {
    pub passed: bool,
    pub detail: Option<String>,
}

/// What a `ReadinessCheckResult` stands for.
#[verifier::ext_equal]
pub struct ReadinessCheckResultView {
    pub passed: bool,
    pub detail: Option<Seq<char>>,
}

impl View for ReadinessCheckResult {
    type V = ReadinessCheckResultView;

    open spec fn view(&self) -> ReadinessCheckResultView {
        ReadinessCheckResultView {
            passed: self.passed.deep_view(),
            detail: self.detail.deep_view(),
        }
    }
}

impl DeepView for ReadinessCheckResult {
    type V = ReadinessCheckResultView;

    open spec fn deep_view(&self) -> ReadinessCheckResultView {
        self.view()
    }
}

impl Replicate for ReadinessCheckResult {
    fn replicate(&self) -> (r: Self) {
        ReadinessCheckResult {
            passed: self.passed.replicate(),
            detail: self.detail.replicate(),
        }
    }
}

/// The keys of the handlers that are registered; none occurs twice.
#[derive(Debug, Clone, PartialEq, Eq)]
pub struct ActionHandlerRegistry {
    pub keys: Vec<String>,
}

/// What a `ActionHandlerRegistry` stands for.
#[verifier::ext_equal]
pub struct ActionHandlerRegistryView {
    pub keys: Seq<Seq<char>>,
}

impl View for ActionHandlerRegistry {
    type V = ActionHandlerRegistryView;

    open spec fn view(&self) -> ActionHandlerRegistryView {
        ActionHandlerRegistryView {
            keys: self.keys.deep_view(),
        }
    }
}

impl DeepView for ActionHandlerRegistry {
    type V = ActionHandlerRegistryView;

    open spec fn deep_view(&self) -> ActionHandlerRegistryView {
        self.view()
    }
}

impl Replicate for ActionHandlerRegistry {
    fn replicate(&self) -> (r: Self) {
        ActionHandlerRegistry {
            keys: self.keys.replicate(),
        }
    }
}


/// A line of the log.
pub open spec fn log_line(text: Seq<char>) -> ActionOutputView {
    ActionOutputView { stream: OutputStream::Log, text }
}

/// Each text as a line of the log.
pub open spec fn log_lines(texts: Seq<Seq<char>>) -> Seq<ActionOutputView> {
    texts.map_values(|text: Seq<char>| log_line(text))
}

impl ActionOutput {
    /// A line of the log.
    pub fn log(text: String) -> (r: Self)
        ensures
            r@ == log_line(text@),
    {
        ActionOutput { stream: OutputStream::Log, text }
    }

    /// What a process wrote to its standard output.
    pub fn stdout(text: String) -> (r: Self)
        ensures
            r@ == (ActionOutputView { stream: OutputStream::Stdout, text: text@ }),
    {
        ActionOutput { stream: OutputStream::Stdout, text }
    }

    /// What a process wrote to its standard error.
    pub fn stderr(text: String) -> (r: Self)
        ensures
            r@ == (ActionOutputView { stream: OutputStream::Stderr, text: text@ }),
    {
        ActionOutput { stream: OutputStream::Stderr, text }
    }
}

/// Each text as a line of the log.
pub fn logged(texts: &Vec<String>) -> (r: Vec<ActionOutput>)
    ensures
        r.deep_view() == log_lines(texts.deep_view()),
{
    let mut r: Vec<ActionOutput> = empty_list();
    let mut i: usize = 0;
    let ghost all = log_lines(texts.deep_view());
    while i < texts.len()
        invariant
            i <= texts@.len(),
            all == log_lines(texts.deep_view()),
            r.deep_view() == all.take(i as int),
        decreases texts@.len() - i,
    {
        append(&mut r, ActionOutput::log(texts[i].clone()));
        assert(texts.deep_view()[i as int] == texts@[i as int]@);
        assert(all.take(i as int + 1) =~= all.take(i as int).push(all[i as int]));
        i = i + 1;
    }
    assert(all.take(i as int) =~= all);
    r
}

/// Nothing has to be done.
pub open spec fn observed_correct() -> ActionObservationView {
    ActionObservationView {
        status: ObservationStatus::AlreadyCorrect,
        detail: None,
        resources: Seq::empty(),
    }
}

/// The action has to be applied.
pub open spec fn observed_change() -> ActionObservationView {
    ActionObservationView {
        status: ObservationStatus::RequiresChange,
        detail: None,
        resources: Seq::empty(),
    }
}

/// What has to be done cannot be told.
pub open spec fn observed_unknown(detail: Seq<char>) -> ActionObservationView {
    ActionObservationView {
        status: ObservationStatus::Unknown,
        detail: Some(detail),
        resources: Seq::empty(),
    }
}

impl ActionObservationView {
    pub open spec fn explained(self, detail: Seq<char>) -> ActionObservationView {
        ActionObservationView { detail: Some(detail), ..self }
    }

    pub open spec fn holding(self, resources: Seq<ResourceRecordView>) -> ActionObservationView {
        ActionObservationView { resources, ..self }
    }
}

impl ActionObservation {
    /// Nothing has to be done.
    pub fn already_correct() -> (r: Self)
        ensures
            r@ == observed_correct(),
    {
        ActionObservation {
            status: ObservationStatus::AlreadyCorrect,
            detail: None,
            resources: empty_list(),
        }
    }

    /// The action has to be applied.
    pub fn requires_change() -> (r: Self)
        ensures
            r@ == observed_change(),
    {
        ActionObservation {
            status: ObservationStatus::RequiresChange,
            detail: None,
            resources: empty_list(),
        }
    }

    /// What has to be done cannot be told.
    pub fn unknown(detail: &str) -> (r: Self)
        ensures
            r@ == observed_unknown(detail@),
    {
        ActionObservation {
            status: ObservationStatus::Unknown,
            detail: Some(detail.to_owned()),
            resources: empty_list(),
        }
    }

    /// The observation with an explanation.
    pub fn with_detail(self, detail: &str) -> (r: Self)
        ensures
            r@ == self@.explained(detail@),
    {
        ActionObservation {
            status: self.status,
            detail: Some(detail.to_owned()),
            resources: self.resources,
        }
    }

    /// The observation with the resources that were found.
    pub fn with_resources(self, resources: Vec<ResourceRecord>) -> (r: Self)
        ensures
            r@ == self@.holding(resources.deep_view()),
    {
        ActionObservation { status: self.status, detail: self.detail, resources }
    }
}

/// The result of an action that did nothing.
pub open spec fn nothing_done() -> ActionExecutionResultView {
    ActionExecutionResultView {
        changed: false,
        resources: Seq::empty(),
        mutations: Seq::empty(),
        outputs: Seq::empty(),
    }
}

impl ActionExecutionResult {
    /// The result of an action that did nothing.
    pub fn nothing() -> (r: Self)
        ensures
            r@ == nothing_done(),
    {
        ActionExecutionResult {
            changed: false,
            resources: empty_list(),
            mutations: empty_list(),
            outputs: empty_list(),
        }
    }
}

/// A check that was met.
pub open spec fn check_passed() -> ReadinessCheckResultView {
    ReadinessCheckResultView { passed: true, detail: None }
}

/// A check that was not met.
pub open spec fn check_failed(detail: Seq<char>) -> ReadinessCheckResultView {
    ReadinessCheckResultView { passed: false, detail: Some(detail) }
}

impl ReadinessCheckResult {
    /// A check that was met.
    pub fn passed() -> (r: Self)
        ensures
            r@ == check_passed(),
    {
        ReadinessCheckResult { passed: true, detail: None }
    }

    /// A check that was not met.
    pub fn failed(detail: &str) -> (r: Self)
        ensures
            r@ == check_failed(detail@),
    {
        ReadinessCheckResult { passed: false, detail: Some(detail.to_owned()) }
    }
}

/// The error of a key that is registered a second time.
pub open spec fn handler_taken(key: Seq<char>) -> WorkstateErrorView {
    error_of(
        ErrorCategory::Integration,
        "an action handler is already registered for '"@ + key + "'"@,
    )
}

/// The registry after the keys were registered one by one, up to the first that was taken.
pub open spec fn registering(keys: Seq<Seq<char>>, added: Seq<Seq<char>>) -> (
    Seq<Seq<char>>,
    Result<(), WorkstateErrorView>,
)
    decreases added.len(),
{
    if added.len() == 0 {
        (keys, Ok(()))
    } else if keys.contains(added[0]) {
        (keys, Err(handler_taken(added[0])))
    } else {
        registering(keys.push(added[0]), added.drop_first())
    }
}

impl ActionHandlerRegistry {
    /// A registry without handlers.
    pub fn new() -> (r: Self)
        ensures
            r@.keys == Seq::<Seq<char>>::empty(),
    {
        ActionHandlerRegistry { keys: empty_list() }
    }

    /// Registers the handler of one key; a key that is taken is refused.
    pub fn register(&mut self, key: &str) -> (r: Result<(), WorkstateError>)
        ensures
            (final(self)@.keys, seen(r)) == registering(old(self)@.keys, seq![key@]),
    {
        let wanted: String = key.to_owned();
        proof {
            reveal_with_fuel(registering, 2);
            assert(seq![key@].drop_first() =~= Seq::empty());
        }
        if list_holds(&self.keys, &wanted) {
            return Err(
                WorkstateError::new(
                    ErrorCategory::Integration,
                    join3("an action handler is already registered for '", key, "'").as_str(),
                ),
            );
        }
        append(&mut self.keys, wanted);
        Ok(())
    }

    /// Registers the handlers of two keys.
    pub fn register_two(&mut self, first: &str, second: &str) -> (r: Result<(), WorkstateError>)
        ensures
            (final(self)@.keys, seen(r)) == registering(old(self)@.keys, seq![first@, second@]),
    {
        proof {
            reveal_with_fuel(registering, 3);
            assert(seq![first@, second@].drop_first() =~= seq![second@]);
        }
        match self.register(first) {
            Ok(()) => self.register(second),
            Err(error) => Err(error),
        }
    }
}

/// Keys that are new are all registered, in their order; one that is taken stops the registration.
pub proof fn law_new_keys_are_registered(keys: Seq<Seq<char>>, added: Seq<Seq<char>>)
    requires
        forall|i: int| 0 <= i < added.len() ==> !keys.contains(#[trigger] added[i]),
        forall|i: int, j: int|
            0 <= i < j < added.len() ==> #[trigger] added[i] != #[trigger] added[j],
    ensures
        registering(keys, added) == (keys + added, Ok::<(), WorkstateErrorView>(())),
    decreases added.len(),
{
    if added.len() > 0 {
        let rest = added.drop_first();
        let more = keys.push(added[0]);
        assert(!keys.contains(added[0]));
        assert forall|i: int| 0 <= i < rest.len() implies !more.contains(#[trigger] rest[i]) by {
            assert(rest[i] == added[i + 1]);
            assert(!keys.contains(added[i + 1]));
            assert(added[0] != added[i + 1]);
        }
        assert forall|i: int, j: int| 0 <= i < j < rest.len() implies #[trigger] rest[i]
            != #[trigger] rest[j] by {
            assert(added[i + 1] != added[j + 1]);
        }
        law_new_keys_are_registered(more, rest);
        assert(more + rest =~= keys + added);
    } else {
        assert(keys + added =~= keys);
    }
}

/// A key that is taken is refused, and nothing is lost.
pub proof fn law_taken_key_is_refused(keys: Seq<Seq<char>>, key: Seq<char>)
    requires
        keys.contains(key),
    ensures
        registering(keys, seq![key]).0 == keys,
        registering(keys, seq![key]).1 is Err,
{
}

} // verus!
