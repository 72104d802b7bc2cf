//! The action that starts another environment.
use vstd::prelude::*;
use vstd::string::*;
use crate::domain::{
    identity_of, record_of, ActionKind, ActionSpec, ActionSpecView, EnvironmentSlug,
    OwnershipStatus, ResourceIdentity, ResourceKind, ResourceRecord, ResourceRecordView,
};
use crate::error::{error_of, seen, ErrorCategory, WorkstateError, WorkstateErrorView};
use crate::planner::{
    log_line, observed_change, observed_correct, registering, ActionExecutionResult,
    ActionExecutionResultView, ActionHandlerRegistry, ActionObservation, ActionObservationView,
    ActionOutput, ActionOutputView, CompensationResult, CompensationResultView, ObservationStatus,
};
use crate::text::{is_blank, join2, join3, same_text};
use crate::values::{append, append_all, empty_list, list_of, option_is_text};

verus! {

/// The handler of the actions that start other environments.
#[derive(Debug, Clone, Copy, PartialEq, Eq)]
pub struct StartOtherEnvironmentActionHandler {}

/// The error of an action that names no environment.
pub open spec fn environment_missing(action: Seq<char>) -> WorkstateErrorView {
    error_of(
        ErrorCategory::Domain,
        "Start Other Environment action '"@ + action + "' is missing its environment"@,
    )
}

/// The environment that an action starts, which must not be its own.
pub open spec fn target_identified(action: ActionSpecView) -> Result<Seq<char>, WorkstateErrorView> {
    match action.parameters.other_environment {
        None => Err(environment_missing(action.id)),
        Some(target) => if action.resolved_environment == Some(target) {
            Err(
                error_of(
                    ErrorCategory::Domain,
                    "Start Other Environment action '"@ + action.id
                        + "' cannot start its own environment"@,
                ).with("environment"@, target),
            )
        } else {
            Ok(target)
        },
    }
}

/// The environment that an action starts, which must exist.
pub open spec fn target_found(
    action: ActionSpecView,
    exists: Result<bool, WorkstateErrorView>,
) -> Result<Seq<char>, WorkstateErrorView> {
    match target_identified(action) {
        Err(error) => Err(error),
        Ok(target) => match exists {
            Err(error) => Err(error),
            Ok(found) => if found {
                Ok(target)
            } else {
                Err(
                    error_of(
                        ErrorCategory::Persistence,
                        "target environment '"@ + target + "' was not found"@,
                    ).with("suggested_command"@, "workstate new "@ + target).with(
                        "action_id"@,
                        action.id,
                    ),
                )
            },
        },
    }
}

/// The record of an environment that an action used or started.
pub open spec fn environment_recorded(
    action: ActionSpecView,
    environment: Seq<char>,
    ownership: OwnershipStatus,
    observed_before: bool,
) -> Result<ResourceRecordView, WorkstateErrorView> {
    match identity_of(ResourceKind::Environment, environment) {
        Err(error) => Err(error),
        Ok(identity) => Ok(
            record_of(
                identity,
                ownership,
                action.id,
                observed_before,
                action.cleanup_policy,
            ).noting("environment_slug"@, environment),
        ),
    }
}

/// What is observed of an environment.
pub open spec fn environment_observed(
    action: ActionSpecView,
    exists: Result<bool, WorkstateErrorView>,
    active: Result<bool, WorkstateErrorView>,
) -> Result<ActionObservationView, WorkstateErrorView> {
    match target_found(action, exists) {
        Err(error) => Err(error),
        Ok(target) => match active {
            Err(error) => Err(error),
            Ok(active) => if !active {
                Ok(
                    observed_change().explained("environment '"@ + target + "' is stopped"@),
                )
            } else {
                match environment_recorded(action, target, OwnershipStatus::ReusedExisting, true) {
                    Err(error) => Err(error),
                    Ok(record) => Ok(
                        observed_correct().explained(
                            "environment '"@ + target + "' is already active"@,
                        ).holding(seq![record]),
                    ),
                }
            },
        },
    }
}

/// What is observed of an environment before cleanup.
pub open spec fn environment_left(
    action: ActionSpecView,
    active: Result<bool, WorkstateErrorView>,
) -> Result<ActionObservationView, WorkstateErrorView> {
    match target_identified(action) {
        Err(error) => Err(error),
        Ok(target) => match active {
            Err(error) => Err(error),
            Ok(active) => if !active {
                Ok(observed_change())
            } else {
                match environment_recorded(action, target, OwnershipStatus::ReusedExisting, true) {
                    Err(error) => Err(error),
                    Ok(record) => Ok(observed_correct().holding(seq![record])),
                }
            },
        },
    }
}

/// What is said before an environment is started.
pub open spec fn starting_line(target: Seq<char>) -> Seq<char> {
    "Starting other environment '"@ + target + "'"@
}

/// What is said once an environment is there.
pub open spec fn started_line(target: Seq<char>, changed: bool) -> Seq<char> {
    if changed {
        "Other environment '"@ + target + "' is ready"@
    } else {
        "Other environment '"@ + target + "' was already active"@
    }
}

/// What was done, once the environment is there.
pub open spec fn environment_started(
    action: ActionSpecView,
    target: Seq<char>,
    changed: bool,
    outputs: Seq<ActionOutputView>,
) -> Result<ActionExecutionResultView, WorkstateErrorView> {
    match environment_recorded(
        action,
        target,
        if changed {
            OwnershipStatus::CreatedByCurrentRun
        } else {
            OwnershipStatus::ReusedExisting
        },
        !changed,
    ) {
        Err(error) => Err(error),
        Ok(record) => Ok(
            ActionExecutionResultView {
                changed,
                resources: seq![record],
                mutations: Seq::empty(),
                outputs,
            },
        ),
    }
}

/// One of the resources is the environment.
pub open spec fn tracks_environment(resources: Seq<ResourceRecordView>, target: Seq<char>) -> bool {
    exists|i: int|
        0 <= i < resources.len() && (#[trigger] resources[i]).resource.kind
            == ResourceKind::Environment && resources[i].resource.stable_identity == target
}

/// The environment that is to be stopped: none where no resource speaks of it.
pub open spec fn environment_to_stop(
    action: ActionSpecView,
    resources: Seq<ResourceRecordView>,
) -> Result<Option<Seq<char>>, WorkstateErrorView> {
    match target_identified(action) {
        Err(error) => Err(error),
        Ok(target) => if tracks_environment(resources, target) {
            Ok(Some(target))
        } else {
            Ok(None)
        },
    }
}

fn environment_record(
    action: &ActionSpec,
    environment: &str,
    ownership: OwnershipStatus,
    observed_before: bool,
) -> (r: Result<ResourceRecord, WorkstateError>)
    ensures
        seen(r) == environment_recorded(action@, environment@, ownership, observed_before),
{
    match ResourceIdentity::new(ResourceKind::Environment, environment.to_owned()) {
        Err(error) => Err(error),
        Ok(identity) => {
            let mut record = ResourceRecord::of_action(
                identity,
                ownership,
                action.id.as_str(),
                observed_before,
                action.cleanup_policy,
            );
            record.note("environment_slug", environment);
            Ok(record)
        },
    }
}

impl StartOtherEnvironmentActionHandler {
    /// The handler of the actions that start other environments.
    pub fn new() -> (r: Self) {
        StartOtherEnvironmentActionHandler {  }
    }

    /// The kind of actions that the handler carries out.
    pub fn action_key(&self) -> (r: &'static str)
        ensures
            r@ == "start_other_environment"@,
    {
        "start_other_environment"
    }

    /// The environment that an action starts, which must not be its own.
    pub fn validate_target_identity(&self, action: &ActionSpec) -> (r: Result<
        EnvironmentSlug,
        WorkstateError,
    >)
        ensures
            seen(r) == target_identified(action@),
    {
        match &action.parameters.other_environment {
            None => Err(
                WorkstateError::new(
                    ErrorCategory::Domain,
                    join3(
                        "Start Other Environment action '",
                        action.id.as_str(),
                        "' is missing its environment",
                    ).as_str(),
                ),
            ),
            Some(target) => if option_is_text(&action.resolved_environment, target.as_str()) {
                Err(
                    WorkstateError::new(
                        ErrorCategory::Domain,
                        join3(
                            "Start Other Environment action '",
                            action.id.as_str(),
                            "' cannot start its own environment",
                        ).as_str(),
                    ).with_context("environment", target.as_str()),
                )
            } else {
                Ok(target.clone())
            },
        }
    }

    /// The environment that an action starts, which must exist.
    pub fn validate_target(&self, action: &ActionSpec, exists: Result<bool, WorkstateError>) -> (r: Result<
        EnvironmentSlug,
        WorkstateError,
    >)
        ensures
            seen(r) == target_found(action@, seen(exists)),
    {
        let target = match self.validate_target_identity(action) {
            Err(error) => {
                return Err(error);
            },
            Ok(target) => target,
        };
        match exists {
            Err(error) => Err(error),
            Ok(found) => if found {
                Ok(target)
            } else {
                Err(
                    WorkstateError::new(
                        ErrorCategory::Persistence,
                        join3("target environment '", target.as_str(), "' was not found").as_str(),
                    ).with_context(
                        "suggested_command",
                        join2("workstate new ", target.as_str()).as_str(),
                    ).with_context("action_id", action.id.as_str()),
                )
            },
        }
    }

    /// Refuses an action of another kind, or one whose environment cannot be started.
    pub fn validate(&self, action: &ActionSpec, exists: Result<bool, WorkstateError>) -> (r: Result<
        (),
        WorkstateError,
    >)
        ensures
            seen(r) == (if action@.kind != ActionKind::StartOtherEnvironment {
                Err::<(), WorkstateErrorView>(
                    error_of(
                        ErrorCategory::Integration,
                        "Start Other Environment handler received an incompatible action"@,
                    ),
                )
            } else {
                match target_found(action@, seen(exists)) {
                    Err(error) => Err(error),
                    Ok(_) => Ok(()),
                }
            }),
    {
        if action.kind != ActionKind::StartOtherEnvironment {
            return Err(
                WorkstateError::new(
                    ErrorCategory::Integration,
                    "Start Other Environment handler received an incompatible action",
                ),
            );
        }
        match self.validate_target(action, exists) {
            Err(error) => Err(error),
            Ok(_) => Ok(()),
        }
    }

    /// What is observed of an environment.
    pub fn observe(
        &self,
        action: &ActionSpec,
        exists: Result<bool, WorkstateError>,
        active: Result<bool, WorkstateError>,
    ) -> (r: Result<ActionObservation, WorkstateError>)
        ensures
            seen(r) == environment_observed(action@, seen(exists), seen(active)),
    {
        let target = match self.validate_target(action, exists) {
            Err(error) => {
                return Err(error);
            },
            Ok(target) => target,
        };
        match active {
            Err(error) => Err(error),
            Ok(active) => if !active {
                Ok(
                    ActionObservation::requires_change().with_detail(
                        join3("environment '", target.as_str(), "' is stopped").as_str(),
                    ),
                )
            } else {
                match environment_record(
                    action,
                    target.as_str(),
                    OwnershipStatus::ReusedExisting,
                    true,
                ) {
                    Err(error) => Err(error),
                    Ok(record) => Ok(
                        ActionObservation::already_correct().with_detail(
                            join3("environment '", target.as_str(), "' is already active").as_str(),
                        ).with_resources(list_of(record)),
                    ),
                }
            },
        }
    }

    /// What is observed of an environment before cleanup.
    pub fn observe_for_cleanup(&self, action: &ActionSpec, active: Result<bool, WorkstateError>) -> (r: Result<
        ActionObservation,
        WorkstateError,
    >)
        ensures
            seen(r) == environment_left(action@, seen(active)),
    {
        let target = match self.validate_target_identity(action) {
            Err(error) => {
                return Err(error);
            },
            Ok(target) => target,
        };
        match active {
            Err(error) => Err(error),
            Ok(active) => if !active {
                Ok(ActionObservation::requires_change())
            } else {
                match environment_record(
                    action,
                    target.as_str(),
                    OwnershipStatus::ReusedExisting,
                    true,
                ) {
                    Err(error) => Err(error),
                    Ok(record) => Ok(
                        ActionObservation::already_correct().with_resources(list_of(record)),
                    ),
                }
            },
        }
    }

    /// What is said before an environment is started.
    pub fn starting(&self, target: &str) -> (r: ActionOutput)
        ensures
            r@ == log_line(starting_line(target@)),
    {
        ActionOutput::log(join3("Starting other environment '", target, "'"))
    }

    /// What is said once an environment is there.
    pub fn started(&self, target: &str, changed: bool) -> (r: ActionOutput)
        ensures
            r@ == log_line(started_line(target@, changed)),
    {
        if changed {
            ActionOutput::log(join3("Other environment '", target, "' is ready"))
        } else {
            ActionOutput::log(join3("Other environment '", target, "' was already active"))
        }
    }

    /// What was done, with all that was said on the way.
    pub fn apply(
        &self,
        action: &ActionSpec,
        target: &str,
        changed: bool,
        said: Vec<ActionOutput>,
    ) -> (r: Result<ActionExecutionResult, WorkstateError>)
        ensures
            seen(r) == environment_started(
                action@,
                target@,
                changed,
                (seq![log_line(starting_line(target@))] + said.deep_view()).push(
                    log_line(started_line(target@, changed)),
                ),
            ),
    {
        let mut outputs = list_of(self.starting(target));
        append_all(&mut outputs, said);
        append(&mut outputs, self.started(target, changed));
        self.run_once(action, target, changed, outputs)
    }

    fn run_once(
        &self,
        action: &ActionSpec,
        target: &str,
        changed: bool,
        outputs: Vec<ActionOutput>,
    ) -> (r: Result<ActionExecutionResult, WorkstateError>)
        ensures
            seen(r) == environment_started(action@, target@, changed, outputs.deep_view()),
    {
        let ownership = if changed {
            OwnershipStatus::CreatedByCurrentRun
        } else {
            OwnershipStatus::ReusedExisting
        };
        match environment_record(action, target, ownership, !changed) {
            Err(error) => Err(error),
            Ok(record) => Ok(
                ActionExecutionResult {
                    changed,
                    resources: list_of(record),
                    mutations: empty_list(),
                    outputs,
                },
            ),
        }
    }

    /// What was done, where all that was said was passed on.
    pub fn run_once_with_output(&self, action: &ActionSpec, target: &str, changed: bool) -> (r: Result<
        ActionExecutionResult,
        WorkstateError,
    >)
        ensures
            seen(r) == environment_started(action@, target@, changed, Seq::empty()),
    {
        self.run_once(action, target, changed, empty_list())
    }

    /// The environment that is to be stopped: none where no resource speaks of it.
    pub fn stop_target(&self, action: &ActionSpec, resources: &Vec<ResourceRecord>) -> (r: Result<
        Option<EnvironmentSlug>,
        WorkstateError,
    >)
        ensures
            seen(r) == environment_to_stop(action@, resources.deep_view()),
    {
        let target = match self.validate_target_identity(action) {
            Err(error) => {
                return Err(error);
            },
            Ok(target) => target,
        };
        let mut i: usize = 0;
        let ghost all = resources.deep_view();
        while i < resources.len()
            invariant
                i <= resources@.len(),
                all == resources.deep_view(),
                target_identified(action@) == Ok::<Seq<char>, WorkstateErrorView>(target@),
                forall|j: int|
                    0 <= j < i ==> !((#[trigger] all[j]).resource.kind == ResourceKind::Environment
                        && all[j].resource.stable_identity == target@),
            decreases resources@.len() - i,
        {
            assert(all[i as int] == resources@[i as int]@);
            if resources[i].resource.kind == ResourceKind::Environment && same_text(
                resources[i].resource.stable_identity.as_str(),
                target.as_str(),
            ) {
                assert(all[i as int].resource.stable_identity == target@);
                return Ok(Some(target));
            }
            i = i + 1;
        }
        Ok(None)
    }

    /// What was done to stop an environment, with all that was said on the way.
    pub fn stop(&self, target: &str, said: Vec<ActionOutput>) -> (r: CompensationResult)
        ensures
            r@ == (CompensationResultView {
                outputs: (seq![log_line("Stopping other environment '"@ + target@ + "'"@)]
                    + said.deep_view()).push(
                    log_line("Other environment '"@ + target@ + "' stopped"@),
                ),
            }),
    {
        let mut outputs = list_of(
            ActionOutput::log(join3("Stopping other environment '", target, "'")),
        );
        append_all(&mut outputs, said);
        append(
            &mut outputs,
            ActionOutput::log(join3("Other environment '", target, "' stopped")),
        );
        CompensationResult { outputs }
    }
}

/// Registers the handler of other environments.
pub fn register_handlers(registry: &mut ActionHandlerRegistry) -> (r: Result<(), WorkstateError>)
    ensures
        (final(registry)@.keys, seen(r)) == registering(
            old(registry)@.keys,
            seq!["start_other_environment"@],
        ),
{
    registry.register("start_other_environment")
}

/// No environment ever starts itself, nor stops itself.
pub proof fn law_no_environment_starts_itself(
    action: ActionSpecView,
    exists: Result<bool, WorkstateErrorView>,
    resources: Seq<ResourceRecordView>,
)
    requires
        action.parameters.other_environment is Some,
        action.parameters.other_environment == action.resolved_environment,
    ensures
        target_found(action, exists) is Err,
        environment_to_stop(action, resources) is Err,
{
}

/// What an action started, the same action stops; what was running before, it does not own.
pub proof fn law_started_environment_is_stopped(
    action: ActionSpecView,
    target: Seq<char>,
    changed: bool,
    outputs: Seq<ActionOutputView>,
    result: ActionExecutionResultView,
)
    requires
        target_identified(action) == Ok::<Seq<char>, WorkstateErrorView>(target),
        environment_started(action, target, changed, outputs) == Ok::<
            ActionExecutionResultView,
            WorkstateErrorView,
        >(result),
    ensures
        environment_to_stop(action, result.resources) == Ok::<
            Option<Seq<char>>,
            WorkstateErrorView,
        >(Some(target)),
        result.resources[0].ownership.owned() == changed,
{
    assert(result.resources[0].resource.stable_identity == target);
}

/// The environment that an action names is started where it is there and does not run; what was started
/// belongs to this run, and what ran already does not.
pub proof fn law_named_environment_is_started(
    action: ActionSpecView,
    target: Seq<char>,
    changed: bool,
    outputs: Seq<ActionOutputView>,
)
    requires
        action.parameters.other_environment == Some(target),
        action.resolved_environment != Some(target),
        !is_blank(target),
    ensures
        target_found(action, Ok(true)) == Ok::<Seq<char>, WorkstateErrorView>(target),
        target_found(action, Ok(false)) is Err,
        environment_observed(action, Ok(true), Ok(true)) matches Ok(observed) && observed.status
            == ObservationStatus::AlreadyCorrect && observed.resources.len() == 1
            && observed.resources[0].resource.stable_identity == target,
        environment_observed(action, Ok(true), Ok(false)) matches Ok(observed) && observed.status
            == ObservationStatus::RequiresChange,
        environment_left(action, Ok(true)) matches Ok(observed) && observed.resources.len() == 1
            && observed.resources[0].resource.stable_identity == target,
        environment_left(action, Ok(false)) matches Ok(observed) && observed.resources.len() == 0,
        environment_started(action, target, changed, outputs) matches Ok(result) && result.changed
            == changed && result.outputs == outputs && result.resources.len() == 1
            && result.resources[0].resource.kind == ResourceKind::Environment
            && result.resources[0].resource.stable_identity == target
            && result.resources[0].cleanup_policy == action.cleanup_policy && (
        result.resources[0].ownership == OwnershipStatus::CreatedByCurrentRun <==> changed),
{
}

} // verus!
