//! Docker Desktop: whether it runs, how it is started, and how it is stopped again.
use vstd::prelude::*;
use vstd::string::*;
use crate::domain::{
    identity_of, record_of, OwnershipStatus, ResourceIdentity, ResourceKind, ResourceRecord,
    ResourceRecordView,
};
use crate::error::{
    error_of, rendered, seen, ErrorCategory, WorkstateError, WorkstateErrorView,
};
use crate::paths::{file_name, path_file_name};
use crate::ports::{
    background_of, BackgroundProcess, BackgroundProcessView, DockerActionContext,
    DockerActionContextView, ProcessOutput, ProcessOutputView, ProcessRequest, ProcessRequestView,
};
use crate::text::{has_control, join2, join3, same_text, text_has_control};
use crate::values::{append, empty_list, text_list2, Replicate};

verus! {

/// Docker Desktop: its program, where it is installed, and the process that was started from it.
#[derive(Debug, Clone, PartialEq, Eq)]
pub struct DockerDesktopController {
    pub executable: Option<String>,
    pub started_process: Option<BackgroundProcess>,
}

/// What a `DockerDesktopController` stands for.
#[verifier::ext_equal]
pub struct DockerDesktopControllerView {
    pub executable: Option<Seq<char>>,
    pub started_process: Option<BackgroundProcessView>,
}

impl View for DockerDesktopController {
    type V = DockerDesktopControllerView;

    open spec fn view(&self) -> DockerDesktopControllerView {
        DockerDesktopControllerView {
            executable: self.executable.deep_view(),
            started_process: self.started_process.deep_view(),
        }
    }
}

impl DeepView for DockerDesktopController {
    type V = DockerDesktopControllerView;

    open spec fn deep_view(&self) -> DockerDesktopControllerView {
        self.view()
    }
}

impl Replicate for DockerDesktopController {
    fn replicate(&self) -> (r: Self) {
        DockerDesktopController {
            executable: self.executable.replicate(),
            started_process: self.started_process.replicate(),
        }
    }
}

/// What is to be done about Docker Desktop.
#[derive(Debug)]
pub enum DesktopPlan {
    Nothing,
    Running(ResourceRecord),
    Inspect { executable_name: String, request: ProcessRequest },
    Launch(ProcessRequest),
    Fail(WorkstateError),
}

/// What a `DesktopPlan` stands for.
#[verifier::ext_equal]
pub enum DesktopPlanView {
    Nothing,
    Running(ResourceRecordView),
    Inspect { executable_name: Seq<char>, request: ProcessRequestView },
    Launch(ProcessRequestView),
    Fail(WorkstateErrorView),
}

impl View for DesktopPlan {
    type V = DesktopPlanView;

    open spec fn view(&self) -> DesktopPlanView {
        match self {
            DesktopPlan::Nothing => DesktopPlanView::Nothing,
            DesktopPlan::Running(value) => DesktopPlanView::Running(value.deep_view()),
            DesktopPlan::Inspect { executable_name, request } => DesktopPlanView::Inspect { executable_name: executable_name.deep_view(), request: request.deep_view() },
            DesktopPlan::Launch(value) => DesktopPlanView::Launch(value.deep_view()),
            DesktopPlan::Fail(value) => DesktopPlanView::Fail(value.deep_view()),
        }
    }
}

impl DeepView for DesktopPlan {
    type V = DesktopPlanView;

    open spec fn deep_view(&self) -> DesktopPlanView {
        self.view()
    }
}

/// What is to be done about one resource of Docker Desktop: it is kept, its process is stopped, or stopping ends with an error.
#[derive(Debug)]
pub enum DesktopStop {
    Keep(String),
    Stop(BackgroundProcess),
    Fail(WorkstateError),
}

/// What a `DesktopStop` stands for.
#[verifier::ext_equal]
pub enum DesktopStopView {
    Keep(Seq<char>),
    Stop(BackgroundProcessView),
    Fail(WorkstateErrorView),
}

impl View for DesktopStop {
    type V = DesktopStopView;

    open spec fn view(&self) -> DesktopStopView {
        match self {
            DesktopStop::Keep(value) => DesktopStopView::Keep(value.deep_view()),
            DesktopStop::Stop(value) => DesktopStopView::Stop(value.deep_view()),
            DesktopStop::Fail(value) => DesktopStopView::Fail(value.deep_view()),
        }
    }
}

impl DeepView for DesktopStop {
    type V = DesktopStopView;

    open spec fn deep_view(&self) -> DesktopStopView {
        self.view()
    }
}

/// The name of the program, where it can be looked for among the processes.
pub open spec fn program_name(executable: Seq<char>) -> Result<Seq<char>, WorkstateErrorView> {
    match file_name(executable) {
        Some(name) if !has_control(name) => Ok(name),
        _ => Err(
            error_of(
                ErrorCategory::Integration,
                "Docker Desktop executable must have a valid file name"@,
            ),
        ),
    }
}

/// The name of the program, where it can be looked for among the processes.
pub fn executable_name(executable: &str) -> (r: Result<String, WorkstateError>)
    ensures
        seen(r) == program_name(executable@),
{
    if let Some(name) = path_file_name(executable) {
        if !text_has_control(name.as_str()) {
            return Ok(name);
        }
    }
    Err(
        WorkstateError::new(
            ErrorCategory::Integration,
            "Docker Desktop executable must have a valid file name",
        ),
    )
}

/// What is recorded of a Docker Desktop that was started.
pub open spec fn process_recorded(
    context: DockerActionContextView,
    process: BackgroundProcessView,
    executable_name: Seq<char>,
    ownership: OwnershipStatus,
) -> Result<ResourceRecordView, WorkstateErrorView> {
    match identity_of(ResourceKind::DockerDesktop, "desktop:"@ + executable_name) {
        Err(error) => Err(error),
        Ok(resource) => Ok(
            record_of(
                resource,
                ownership,
                context.action_id,
                false,
                context.cleanup_policy,
            ).noting("process_identity"@, process.identity).noting(
                "environment"@,
                context.environment,
            ),
        ),
    }
}

/// The record of a Docker Desktop that was started.
pub fn resource_for_process(
    context: &DockerActionContext,
    process: &BackgroundProcess,
    executable_name: &str,
    ownership: OwnershipStatus,
) -> (r: Result<ResourceRecord, WorkstateError>)
    ensures
        seen(r) == process_recorded(context@, process@, executable_name@, ownership),
{
    match ResourceIdentity::new(
        ResourceKind::DockerDesktop,
        join2("desktop:", executable_name),
    ) {
        Err(error) => Err(error),
        Ok(resource) => {
            let mut record = ResourceRecord::of_action(
                resource,
                ownership,
                context.action_id.as_str(),
                false,
                context.cleanup_policy,
            );
            record.note("process_identity", process.identity.as_str());
            record.note("environment", context.environment.as_str());
            Ok(record)
        },
    }
}

/// What is recorded of a Docker Desktop that ran before.
pub open spec fn existing_recorded(
    context: DockerActionContextView,
    executable_name: Seq<char>,
) -> Result<ResourceRecordView, WorkstateErrorView> {
    match identity_of(ResourceKind::DockerDesktop, "desktop:"@ + executable_name) {
        Err(error) => Err(error),
        Ok(resource) => Ok(
            record_of(
                resource,
                OwnershipStatus::PreExisting,
                context.action_id,
                true,
                context.cleanup_policy,
            ).noting("process_name"@, executable_name),
        ),
    }
}

/// The record of a Docker Desktop that ran before.
pub fn resource_for_existing(context: &DockerActionContext, executable_name: &str) -> (r: Result<
    ResourceRecord,
    WorkstateError,
>)
    ensures
        seen(r) == existing_recorded(context@, executable_name@),
{
    match ResourceIdentity::new(
        ResourceKind::DockerDesktop,
        join2("desktop:", executable_name),
    ) {
        Err(error) => Err(error),
        Ok(resource) => {
            let mut record = ResourceRecord::of_action(
                resource,
                OwnershipStatus::PreExisting,
                context.action_id.as_str(),
                true,
                context.cleanup_policy,
            );
            record.note("process_name", executable_name);
            Ok(record)
        },
    }
}

pub open spec fn running_or_failed(record: Result<ResourceRecordView, WorkstateErrorView>) -> DesktopPlanView {
    match record {
        Ok(record) => DesktopPlanView::Running(record),
        Err(error) => DesktopPlanView::Fail(error),
    }
}

fn running(record: Result<ResourceRecord, WorkstateError>) -> (r: DesktopPlan)
    ensures
        r@ == running_or_failed(seen(record)),
{
    match record {
        Ok(record) => DesktopPlan::Running(record),
        Err(error) => DesktopPlan::Fail(error),
    }
}

impl DockerDesktopControllerView {
    /// The first step: nothing where it is not installed; a process that was started counts as
    /// running; else the processes are inspected.
    pub open spec fn looking(self, context: DockerActionContextView) -> DesktopPlanView {
        match self.executable {
            None => DesktopPlanView::Nothing,
            Some(executable) => match program_name(executable) {
                Err(error) => DesktopPlanView::Fail(error),
                Ok(name) => match self.started_process {
                    Some(process) => running_or_failed(
                        process_recorded(
                            context,
                            process,
                            name,
                            OwnershipStatus::CreatedByCurrentRun,
                        ),
                    ),
                    None => DesktopPlanView::Inspect {
                        executable_name: name,
                        request: ProcessRequestView {
                            program: "pgrep"@,
                            arguments: seq!["-x"@, name],
                            working_directory: None,
                            environment: Seq::empty(),
                        },
                    },
                },
            },
        }
    }

    /// After the processes were inspected: one that runs is recorded, and where it may be launched,
    /// one that does not run is launched.
    pub open spec fn inspected(
        self,
        context: DockerActionContextView,
        executable_name: Seq<char>,
        output: ProcessOutputView,
        launch: bool,
    ) -> DesktopPlanView {
        if output.success() {
            running_or_failed(existing_recorded(context, executable_name))
        } else if !launch || self.executable is None {
            DesktopPlanView::Nothing
        } else {
            DesktopPlanView::Launch(
                ProcessRequestView {
                    program: self.executable->Some_0,
                    arguments: Seq::empty(),
                    working_directory: None,
                    environment: Seq::empty(),
                },
            )
        }
    }
}

impl DockerDesktopController {
    /// Docker Desktop from the given program, where it is installed.
    pub fn new(executable: Option<String>) -> (r: Self)
        ensures
            r@ == (DockerDesktopControllerView {
                executable: executable.deep_view(),
                started_process: None,
            }),
    {
        DockerDesktopController { executable, started_process: None }
    }

    /// The first step to a Docker Desktop that runs.
    pub fn ensure_started(&self, context: &DockerActionContext) -> (r: DesktopPlan)
        ensures
            r@ == self@.looking(context@),
    {
        match &self.executable {
            None => DesktopPlan::Nothing,
            Some(executable) => match executable_name(executable.as_str()) {
                Err(error) => DesktopPlan::Fail(error),
                Ok(name) => match &self.started_process {
                    Some(process) => running(
                        resource_for_process(
                            context,
                            process,
                            name.as_str(),
                            OwnershipStatus::CreatedByCurrentRun,
                        ),
                    ),
                    None => {
                        let request = ProcessRequest {
                            program: "pgrep".to_owned(),
                            arguments: text_list2("-x", name.as_str()),
                            working_directory: None,
                            environment: empty_list(),
                        };
                        DesktopPlan::Inspect { executable_name: name, request }
                    },
                },
            },
        }
    }

    /// The first step to learn whether Docker Desktop runs.
    pub fn observe_running(&self, context: &DockerActionContext) -> (r: DesktopPlan)
        ensures
            r@ == self@.looking(context@),
    {
        self.ensure_started(context)
    }

    /// After the processes were inspected.
    pub fn is_running(
        &self,
        context: &DockerActionContext,
        executable_name: &str,
        output: &ProcessOutput,
        launch: bool,
    ) -> (r: DesktopPlan)
        ensures
            r@ == self@.inspected(context@, executable_name@, output@, launch),
    {
        if output.succeeded() {
            return running(resource_for_existing(context, executable_name));
        }
        match &self.executable {
            Some(executable) if launch => DesktopPlan::Launch(
                ProcessRequest {
                    program: executable.clone(),
                    arguments: empty_list(),
                    working_directory: None,
                    environment: empty_list(),
                },
            ),
            _ => DesktopPlan::Nothing,
        }
    }

    /// The error of processes that could not be inspected.
    pub fn inspection_failed(error: &WorkstateError) -> (r: WorkstateError)
        ensures
            r@ == error_of(
                ErrorCategory::Integration,
                "could not determine whether Docker Desktop is already running"@,
            ).with("operation"@, "inspect Docker Desktop process"@).with(
                "detail"@,
                rendered(error@),
            ),
    {
        WorkstateError::new(
            ErrorCategory::Integration,
            "could not determine whether Docker Desktop is already running",
        ).with_context("operation", "inspect Docker Desktop process").with_context(
            "detail",
            error.render().as_str(),
        )
    }

    /// The error of a Docker Desktop that could not be launched.
    pub fn launch_failed(&self, error: WorkstateError) -> (r: WorkstateError)
        ensures
            r@ == error@.with("operation"@, "start Docker Desktop"@).with(
                "executable"@,
                match self@.executable {
                    Some(executable) => executable,
                    None => ""@,
                },
            ),
    {
        let executable = crate::values::text_or(&self.executable, "");
        error.with_context("operation", "start Docker Desktop").with_context(
            "executable",
            executable.as_str(),
        )
    }

    /// After Docker Desktop was launched: the process is remembered and recorded as owned.
    pub fn launched(
        &mut self,
        context: &DockerActionContext,
        executable_name: &str,
        process: BackgroundProcess,
    ) -> (r: DesktopPlan)
        ensures
            final(self)@ == (DockerDesktopControllerView {
                started_process: Some(process@),
                ..old(self)@
            }),
            r@ == running_or_failed(
                process_recorded(
                    context@,
                    process@,
                    executable_name@,
                    OwnershipStatus::CreatedByCurrentRun,
                ),
            ),
    {
        let plan = running(
            resource_for_process(
                context,
                &process,
                executable_name,
                OwnershipStatus::CreatedByCurrentRun,
            ),
        );
        self.started_process = Some(process);
        plan
    }

    /// What is to be done about each resource of Docker Desktop that may be taken down.
    pub fn stop_owned(resources: &Vec<ResourceRecord>) -> (r: Vec<DesktopStop>)
        ensures
            r.deep_view() == desktop_stops(resources.deep_view()),
    {
        let ghost all = resources.deep_view();
        let mut plan: Vec<DesktopStop> = empty_list();
        let mut i: usize = 0;
        assert(all.take(0) =~= Seq::<ResourceRecordView>::empty());
        while i < resources.len()
            invariant
                i <= resources@.len(),
                all == resources.deep_view(),
                plan.deep_view() == desktop_stops(all.take(i as int)),
            decreases resources@.len() - i,
        {
            let resource = &resources[i];
            assert(all[i as int] == resource@);
            assert(all.take(i as int + 1).drop_last() =~= all.take(i as int));
            if resource.resource.kind == ResourceKind::DockerDesktop
                && resource.is_cleanup_candidate() {
                let stop = match resource.integration_metadata.get("process_identity") {
                    None => DesktopStop::Keep(
                        join3(
                            "preserved Docker Desktop resource '",
                            resource.resource.stable_identity.as_str(),
                            "' because its process identity is unavailable",
                        ),
                    ),
                    Some(identity) => match BackgroundProcess::new(identity) {
                        Ok(process) => DesktopStop::Stop(process),
                        Err(error) => DesktopStop::Fail(error),
                    },
                };
                append(&mut plan, stop);
            }
            i = i + 1;
        }
        assert(all.take(i as int) =~= all);
        plan
    }

    /// After a process was stopped: it is no longer remembered, and the line that says so.
    pub fn stopped(&mut self, process: &BackgroundProcess) -> (r: String)
        ensures
            final(self)@ == (DockerDesktopControllerView {
                started_process: if old(self)@.started_process == Some(process@) {
                    None
                } else {
                    old(self)@.started_process
                },
                ..old(self)@
            }),
            r@ == "stopped Docker Desktop started by Workstate"@,
    {
        let same = match &self.started_process {
            Some(started) => same_text(started.identity.as_str(), process.identity.as_str()),
            None => false,
        };
        if same {
            self.started_process = None;
        }
        "stopped Docker Desktop started by Workstate".to_owned()
    }
}

/// What is to be done about one resource that may be taken down.
pub open spec fn desktop_stop(resource: ResourceRecordView) -> DesktopStopView {
    match resource.note("process_identity"@) {
        None => DesktopStopView::Keep(
            "preserved Docker Desktop resource '"@ + resource.resource.stable_identity
                + "' because its process identity is unavailable"@,
        ),
        Some(identity) => match background_of(identity) {
            Ok(process) => DesktopStopView::Stop(process),
            Err(error) => DesktopStopView::Fail(error),
        },
    }
}

/// What is to be done about the resources of Docker Desktop, in their order.
pub open spec fn desktop_stops(resources: Seq<ResourceRecordView>) -> Seq<DesktopStopView>
    decreases resources.len(),
{
    if resources.len() == 0 {
        Seq::empty()
    } else {
        let front = desktop_stops(resources.drop_last());
        let last = resources.last();
        if last.resource.kind == ResourceKind::DockerDesktop && last.cleanup_candidate() {
            front.push(desktop_stop(last))
        } else {
            front
        }
    }
}

/// A Docker Desktop that ran before the environment is never stopped with it.
pub proof fn law_existing_desktop_is_kept(
    context: DockerActionContextView,
    executable_name: Seq<char>,
)
    ensures
        existing_recorded(context, executable_name) matches Ok(record) ==> desktop_stops(
            seq![record],
        ) == Seq::<DesktopStopView>::empty(),
{
    if let Ok(record) = existing_recorded(context, executable_name) {
        reveal_with_fuel(desktop_stops, 2);
        assert(seq![record].drop_last() =~= Seq::<ResourceRecordView>::empty());
    }
}

/// A Docker Desktop that was launched is stopped by its process where its action does not keep it.
pub proof fn law_launched_desktop_is_stopped(
    context: DockerActionContextView,
    process: BackgroundProcessView,
    executable_name: Seq<char>,
)
    requires
        context.cleanup_policy == crate::domain::CleanupPolicy::OwnedOnly,
        !crate::text::is_blank(process.identity),
    ensures
        process_recorded(
            context,
            process,
            executable_name,
            OwnershipStatus::CreatedByCurrentRun,
        ) matches Ok(record) ==> desktop_stops(seq![record]) == seq![
            DesktopStopView::Stop(process),
        ],
{
    if let Ok(record) = process_recorded(
        context,
        process,
        executable_name,
        OwnershipStatus::CreatedByCurrentRun,
    ) {
        reveal_with_fuel(desktop_stops, 2);
        assert(seq![record].drop_last() =~= Seq::<ResourceRecordView>::empty());
        reveal_strlit("process_identity");
        reveal_strlit("environment");
        assert("process_identity"@.len() != "environment"@.len());
        assert(desktop_stops(seq![record]) =~= seq![DesktopStopView::Stop(process)]);
    }
}

/// Docker Desktop is looked for among the processes by the name of its program; where it runs already it
/// is used and stays somebody else's, and where it does not it is launched, if that is wanted.
pub proof fn law_desktop_is_launched_once(
    controller: DockerDesktopControllerView,
    context: DockerActionContextView,
    executable: Seq<char>,
    name: Seq<char>,
    output: ProcessOutputView,
)
    requires
        controller.executable == Some(executable),
        file_name(executable) == Some(name),
        !has_control(name),
    ensures
        controller.started_process is None ==> (controller.looking(context)
            matches DesktopPlanView::Inspect { executable_name, request } && executable_name == name
            && request.program == "pgrep"@ && request.arguments == seq!["-x"@, name]),
        controller.started_process matches Some(process) ==> !(controller.looking(context)
            is Launch) && !(controller.looking(context) is Inspect),
        output.status == Some(0i32) ==> (controller.inspected(context, name, output, true)
            matches DesktopPlanView::Running(record) ==> record.ownership
            == OwnershipStatus::PreExisting && record.observed_before),
        output.status == Some(0i32) ==> !(controller.inspected(context, name, output, true)
            is Launch),
        output.status != Some(0i32) ==> (controller.inspected(context, name, output, true)
            matches DesktopPlanView::Launch(request) && request.program == executable
            && request.arguments.len() == 0),
        output.status != Some(0i32) ==> controller.inspected(context, name, output, false)
            == DesktopPlanView::Nothing,
{
}

/// Of what was started, exactly the Docker Desktops that were started here and are not to be kept are
/// stopped, in the order of their records; without the process that was noted none is.
pub proof fn law_owned_desktops_are_stopped(
    earlier: Seq<ResourceRecordView>,
    record: ResourceRecordView,
)
    ensures
        record.resource.kind == ResourceKind::DockerDesktop && record.ownership
            == OwnershipStatus::CreatedByCurrentRun && record.cleanup_policy
            != crate::domain::CleanupPolicy::Preserve ==> desktop_stops(earlier.push(record)).len()
            == desktop_stops(earlier).len() + 1 && desktop_stops(earlier.push(record)).drop_last()
            == desktop_stops(earlier),
        record.resource.kind != ResourceKind::DockerDesktop || record.ownership
            != OwnershipStatus::CreatedByCurrentRun || record.cleanup_policy
            == crate::domain::CleanupPolicy::Preserve ==> desktop_stops(earlier.push(record))
            == desktop_stops(earlier),
        record.note("process_identity"@) is None ==> desktop_stop(record) is Keep,
{
    let all = earlier.push(record);
    assert(all.drop_last() =~= earlier);
    assert(desktop_stops(all).drop_last() =~= desktop_stops(earlier) || desktop_stops(all)
        == desktop_stops(earlier));
}

} // verus!
