//! The desktop operations of COSMIC, over what the session and the processes reply.
use vstd::prelude::*;
use vstd::string::*;
use crate::error::{
    error_of, rendered, seen, ErrorCategory, WorkstateError, WorkstateErrorView,
};
use crate::ports::{
    background_of, BackgroundProcess, DesktopOperationOutcome, DesktopOperationOutcomeView,
    DesktopOperationStatus, DesktopSnapshot,
};
use crate::time::TimeSpan;
use crate::values::Replicate;
use super::errors::{cosmic_error, seen_native, CosmicError, CosmicErrorView};

verus! {

/// The desktop operations of COSMIC, each of which has the same time.
#[derive(Debug, Clone, PartialEq, Eq)]
pub struct CosmicBackend {
    pub timeout: TimeSpan,
}

/// What a `CosmicBackend` stands for.
#[verifier::ext_equal]
pub struct CosmicBackendView {
    pub timeout: TimeSpan,
}

impl View for CosmicBackend {
    type V = CosmicBackendView;

    open spec fn view(&self) -> CosmicBackendView {
        CosmicBackendView {
            timeout: self.timeout.deep_view(),
        }
    }
}

impl DeepView for CosmicBackend {
    type V = CosmicBackendView;

    open spec fn deep_view(&self) -> CosmicBackendView {
        self.view()
    }
}

impl Replicate for CosmicBackend {
    fn replicate(&self) -> (r: Self) {
        CosmicBackend {
            timeout: self.timeout.replicate(),
        }
    }
}

/// A result of the session as one of the program.
pub open spec fn as_program<T>(result: Result<T, CosmicErrorView>) -> Result<T, WorkstateErrorView> {
    match result {
        Ok(value) => Ok(value),
        Err(error) => Err(cosmic_error(error)),
    }
}

/// The error of a process operation that failed.
pub open spec fn process_error(operation: Seq<char>, source: WorkstateErrorView) -> WorkstateErrorView {
    cosmic_error(CosmicErrorView::CommandFailed { operation, detail: rendered(source) })
}

/// The error of an operation that the protocol does not have.
pub open spec fn missing_operation(operation: Seq<char>, detail: Seq<char>) -> WorkstateErrorView {
    cosmic_error(CosmicErrorView::Unavailable { operation, detail })
}

/// An outcome of the session as one of the desktop. Nothing of it is lost.
pub fn map_native_outcome(outcome: DesktopOperationOutcome) -> (r: DesktopOperationOutcome)
    ensures
        r@ == outcome@,
{
    match outcome.status {
        DesktopOperationStatus::Changed => {
            let mut mapped = DesktopOperationOutcome::changed(outcome.identity);
            mapped.detail = outcome.detail;
            mapped
        },
        DesktopOperationStatus::Unchanged => {
            let mut mapped = DesktopOperationOutcome::unchanged(outcome.identity);
            mapped.detail = outcome.detail;
            mapped
        },
        _ => outcome,
    }
}

/// The error of a platform without COSMIC.
pub fn unsupported_desktop_error() -> (r: WorkstateError)
    ensures
        r@ == error_of(
            ErrorCategory::Platform,
            "COSMIC desktop integration is unavailable on this platform"@,
        ),
{
    WorkstateError::new(
        ErrorCategory::Platform,
        "COSMIC desktop integration is unavailable on this platform",
    )
}

impl CosmicBackend {
    /// The operations with the given time for each.
    pub fn new(timeout: TimeSpan) -> (r: Self)
        ensures
            r@ == (CosmicBackendView { timeout }),
    {
        CosmicBackend { timeout }
    }

    /// What the session reported of the desktop.
    pub fn observe(&self, observed: Result<DesktopSnapshot, CosmicError>) -> (r: Result<
        DesktopSnapshot,
        WorkstateError,
    >)
        ensures
            seen(r) == as_program(seen_native(observed)),
    {
        match observed {
            Ok(snapshot) => Ok(snapshot),
            Err(error) => Err(error.into_workstate()),
        }
    }

    /// What the session reported of a change: to the tiling of a workspace, or to a window that is
    /// moved, closed or focused.
    pub fn native_outcome(&self, outcome: Result<DesktopOperationOutcome, CosmicError>) -> (r: Result<
        DesktopOperationOutcome,
        WorkstateError,
    >)
        ensures
            seen(r) == as_program(seen_native(outcome)),
    {
        match outcome {
            Ok(outcome) => Ok(map_native_outcome(outcome)),
            Err(error) => Err(error.into_workstate()),
        }
    }

    /// An application was started, or could not be.
    pub fn open_application(&self, started: Result<BackgroundProcess, WorkstateError>) -> (r: Result<
        DesktopOperationOutcome,
        WorkstateError,
    >)
        ensures
            seen(r) == (match seen(started) {
                Ok(process) => Ok(
                    DesktopOperationOutcomeView {
                        status: DesktopOperationStatus::Created,
                        identity: Some(process.identity),
                        detail: None,
                    },
                ),
                Err(source) => Err(process_error("open-application"@, source)),
            }),
    {
        match started {
            Ok(process) => Ok(DesktopOperationOutcome::created(process.identity)),
            Err(source) => Err(
                CosmicError::CommandFailed {
                    operation: "open-application".to_owned(),
                    detail: source.render(),
                }.into_workstate(),
            ),
        }
    }

    /// The process that is to be stopped.
    pub fn application_process(&self, process_identity: &str) -> (r: Result<
        BackgroundProcess,
        WorkstateError,
    >)
        ensures
            seen(r) == background_of(process_identity@),
    {
        BackgroundProcess::new(process_identity.to_owned())
    }

    /// An application was stopped, or could not be.
    pub fn stop_application(&self, process_identity: &str, stopped: Result<(), WorkstateError>) -> (r: Result<
        DesktopOperationOutcome,
        WorkstateError,
    >)
        ensures
            seen(r) == (match seen(stopped) {
                Ok(_) => Ok(
                    DesktopOperationOutcomeView {
                        status: DesktopOperationStatus::Changed,
                        identity: Some(process_identity@),
                        detail: None,
                    },
                ),
                Err(source) => Err(process_error("stop-application"@, source)),
            }),
    {
        match stopped {
            Ok(_) => Ok(DesktopOperationOutcome::changed(Some(process_identity.to_owned()))),
            Err(source) => Err(
                CosmicError::CommandFailed {
                    operation: "stop-application".to_owned(),
                    detail: source.render(),
                }.into_workstate(),
            ),
        }
    }

    /// Workspaces cannot be created.
    pub fn create_workspace(&self) -> (r: Result<DesktopOperationOutcome, WorkstateError>)
        ensures
            seen(r) == Err::<DesktopOperationOutcomeView, WorkstateErrorView>(
                missing_operation(
                    "create-workspace"@,
                    "the native COSMIC workspace protocol does not expose workspace creation"@,
                ),
            ),
    {
        Err(
            CosmicError::Unavailable {
                operation: "create-workspace".to_owned(),
                detail: "the native COSMIC workspace protocol does not expose workspace creation".to_owned(),
            }.into_workstate(),
        )
    }

    /// Workspaces cannot be deleted.
    pub fn delete_workspace(&self) -> (r: Result<DesktopOperationOutcome, WorkstateError>)
        ensures
            seen(r) == Err::<DesktopOperationOutcomeView, WorkstateErrorView>(
                missing_operation(
                    "delete-workspace"@,
                    "the native COSMIC workspace protocol does not expose workspace deletion"@,
                ),
            ),
    {
        Err(
            CosmicError::Unavailable {
                operation: "delete-workspace".to_owned(),
                detail: "the native COSMIC workspace protocol does not expose workspace deletion".to_owned(),
            }.into_workstate(),
        )
    }
}

} // verus!
