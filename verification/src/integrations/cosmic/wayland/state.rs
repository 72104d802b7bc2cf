//! What a session has learned from the compositor.
use vstd::prelude::*;
use vstd::string::*;
use crate::values::{empty_list, Replicate};
use super::super::errors::{seen_native, CosmicError, CosmicErrorView};
use super::capabilities::{
    read_capabilities, required_version, validate_mutation_capabilities,
    validate_read_capabilities, Global, GlobalView, ManagementCapabilities, ReadCapabilities,
    ToplevelCapability, MINIMUM_TOPLEVEL_MANAGER_VERSION,
};

verus! {

/// What the protocol says of the tiling of a workspace.
#[derive(Debug, Clone, Copy, PartialEq, Eq, Structural)]
pub enum NativeTilingState {
    Enabled,
    FloatingOnly,
    Unknown,
}

impl DeepView for NativeTilingState {
    type V = NativeTilingState;

    open spec fn deep_view(&self) -> NativeTilingState {
        *self
    }
}

impl Replicate for NativeTilingState {
    fn replicate(&self) -> (r: Self) {
        *self
    }
}

/// A workspace as the protocol describes it. `native_handle` tells whether it has a COSMIC handle of its own.
#[derive(Debug, Clone, PartialEq, Eq)]
pub struct ProtocolWorkspace {
    pub handle: u64,
    pub id: Option<String>,
    pub name: String,
    pub coordinates: Vec<u32>,
    pub active: bool,
    pub tiling: NativeTilingState,
    pub capabilities: u32,
    pub native_handle: bool,
}

/// What a `ProtocolWorkspace` stands for.
#[verifier::ext_equal]
pub struct ProtocolWorkspaceView {
    pub handle: u64,
    pub id: Option<Seq<char>>,
    pub name: Seq<char>,
    pub coordinates: Seq<u32>,
    pub active: bool,
    pub tiling: NativeTilingState,
    pub capabilities: u32,
    pub native_handle: bool,
}

impl View for ProtocolWorkspace {
    type V = ProtocolWorkspaceView;

    open spec fn view(&self) -> ProtocolWorkspaceView {
        ProtocolWorkspaceView {
            handle: self.handle.deep_view(),
            id: self.id.deep_view(),
            name: self.name.deep_view(),
            coordinates: self.coordinates.deep_view(),
            active: self.active.deep_view(),
            tiling: self.tiling.deep_view(),
            capabilities: self.capabilities.deep_view(),
            native_handle: self.native_handle.deep_view(),
        }
    }
}

impl DeepView for ProtocolWorkspace {
    type V = ProtocolWorkspaceView;

    open spec fn deep_view(&self) -> ProtocolWorkspaceView {
        self.view()
    }
}

impl Replicate for ProtocolWorkspace {
    fn replicate(&self) -> (r: Self) {
        ProtocolWorkspace {
            handle: self.handle.replicate(),
            id: self.id.replicate(),
            name: self.name.replicate(),
            coordinates: self.coordinates.replicate(),
            active: self.active.replicate(),
            tiling: self.tiling.replicate(),
            capabilities: self.capabilities.replicate(),
            native_handle: self.native_handle.replicate(),
        }
    }
}

/// A window as the protocol describes it, with the handles of the workspaces that it is in.
#[derive(Debug, Clone, PartialEq, Eq)]
pub struct ProtocolToplevel {
    pub handle: u64,
    pub identifier: String,
    pub app_id: String,
    pub title: String,
    pub activated: bool,
    pub workspaces: Vec<u64>,
    pub native_handle: bool,
}

/// What a `ProtocolToplevel` stands for.
#[verifier::ext_equal]
pub struct ProtocolToplevelView {
    pub handle: u64,
    pub identifier: Seq<char>,
    pub app_id: Seq<char>,
    pub title: Seq<char>,
    pub activated: bool,
    pub workspaces: Seq<u64>,
    pub native_handle: bool,
}

impl View for ProtocolToplevel {
    type V = ProtocolToplevelView;

    open spec fn view(&self) -> ProtocolToplevelView {
        ProtocolToplevelView {
            handle: self.handle.deep_view(),
            identifier: self.identifier.deep_view(),
            app_id: self.app_id.deep_view(),
            title: self.title.deep_view(),
            activated: self.activated.deep_view(),
            workspaces: self.workspaces.deep_view(),
            native_handle: self.native_handle.deep_view(),
        }
    }
}

impl DeepView for ProtocolToplevel {
    type V = ProtocolToplevelView;

    open spec fn deep_view(&self) -> ProtocolToplevelView {
        self.view()
    }
}

impl Replicate for ProtocolToplevel {
    fn replicate(&self) -> (r: Self) {
        ProtocolToplevel {
            handle: self.handle.replicate(),
            identifier: self.identifier.replicate(),
            app_id: self.app_id.replicate(),
            title: self.title.replicate(),
            activated: self.activated.replicate(),
            workspaces: self.workspaces.replicate(),
            native_handle: self.native_handle.replicate(),
        }
    }
}

/// A group of workspaces with its outputs.
#[derive(Debug, Clone, PartialEq, Eq)]
pub struct ProtocolWorkspaceGroup {
    pub workspaces: Vec<u64>,
    pub outputs: Vec<u64>,
}

/// What a `ProtocolWorkspaceGroup` stands for.
#[verifier::ext_equal]
pub struct ProtocolWorkspaceGroupView {
    pub workspaces: Seq<u64>,
    pub outputs: Seq<u64>,
}

impl View for ProtocolWorkspaceGroup {
    type V = ProtocolWorkspaceGroupView;

    open spec fn view(&self) -> ProtocolWorkspaceGroupView {
        ProtocolWorkspaceGroupView {
            workspaces: self.workspaces.deep_view(),
            outputs: self.outputs.deep_view(),
        }
    }
}

impl DeepView for ProtocolWorkspaceGroup {
    type V = ProtocolWorkspaceGroupView;

    open spec fn deep_view(&self) -> ProtocolWorkspaceGroupView {
        self.view()
    }
}

impl Replicate for ProtocolWorkspaceGroup {
    fn replicate(&self) -> (r: Self) {
        ProtocolWorkspaceGroup {
            workspaces: self.workspaces.replicate(),
            outputs: self.outputs.replicate(),
        }
    }
}

/// What a session that reads has learned.
#[derive(Debug, Clone)]
pub struct CosmicReadState {
    pub operation: String,
    pub capabilities: ReadCapabilities,
    pub workspaces: Vec<ProtocolWorkspace>,
    pub groups: Vec<ProtocolWorkspaceGroup>,
    pub toplevels: Vec<ProtocolToplevel>,
    pub seats: Vec<u64>,
    pub workspaces_done: bool,
    pub toplevels_done: bool,
    pub protocol_error: Option<CosmicError>,
}

/// What a `CosmicReadState` stands for.
#[verifier::ext_equal]
pub struct CosmicReadStateView {
    pub operation: Seq<char>,
    pub capabilities: ReadCapabilities,
    pub workspaces: Seq<ProtocolWorkspaceView>,
    pub groups: Seq<ProtocolWorkspaceGroupView>,
    pub toplevels: Seq<ProtocolToplevelView>,
    pub seats: Seq<u64>,
    pub workspaces_done: bool,
    pub toplevels_done: bool,
    pub protocol_error: Option<CosmicErrorView>,
}

impl View for CosmicReadState {
    type V = CosmicReadStateView;

    open spec fn view(&self) -> CosmicReadStateView {
        CosmicReadStateView {
            operation: self.operation.deep_view(),
            capabilities: self.capabilities.deep_view(),
            workspaces: self.workspaces.deep_view(),
            groups: self.groups.deep_view(),
            toplevels: self.toplevels.deep_view(),
            seats: self.seats.deep_view(),
            workspaces_done: self.workspaces_done.deep_view(),
            toplevels_done: self.toplevels_done.deep_view(),
            protocol_error: self.protocol_error.deep_view(),
        }
    }
}

impl DeepView for CosmicReadState {
    type V = CosmicReadStateView;

    open spec fn deep_view(&self) -> CosmicReadStateView {
        self.view()
    }
}

impl Replicate for CosmicReadState {
    fn replicate(&self) -> (r: Self) {
        CosmicReadState {
            operation: self.operation.replicate(),
            capabilities: self.capabilities.replicate(),
            workspaces: self.workspaces.replicate(),
            groups: self.groups.replicate(),
            toplevels: self.toplevels.replicate(),
            seats: self.seats.replicate(),
            workspaces_done: self.workspaces_done.replicate(),
            toplevels_done: self.toplevels_done.replicate(),
            protocol_error: self.protocol_error.replicate(),
        }
    }
}

/// What a session that changes something has learned.
#[derive(Debug, Clone)]
pub struct CosmicMutationState {
    pub read: CosmicReadState,
    pub management_capabilities: ManagementCapabilities,
    pub management_capabilities_received: bool,
    pub toplevel_manager_version: u32,
}

/// What a `CosmicMutationState` stands for.
#[verifier::ext_equal]
pub struct CosmicMutationStateView {
    pub read: CosmicReadStateView,
    pub management_capabilities: ManagementCapabilities,
    pub management_capabilities_received: bool,
    pub toplevel_manager_version: u32,
}

impl View for CosmicMutationState {
    type V = CosmicMutationStateView;

    open spec fn view(&self) -> CosmicMutationStateView {
        CosmicMutationStateView {
            read: self.read.deep_view(),
            management_capabilities: self.management_capabilities.deep_view(),
            management_capabilities_received: self.management_capabilities_received.deep_view(),
            toplevel_manager_version: self.toplevel_manager_version.deep_view(),
        }
    }
}

impl DeepView for CosmicMutationState {
    type V = CosmicMutationStateView;

    open spec fn deep_view(&self) -> CosmicMutationStateView {
        self.view()
    }
}

impl Replicate for CosmicMutationState {
    fn replicate(&self) -> (r: Self) {
        CosmicMutationState {
            read: self.read.replicate(),
            management_capabilities: self.management_capabilities.replicate(),
            management_capabilities_received: self.management_capabilities_received.replicate(),
            toplevel_manager_version: self.toplevel_manager_version.replicate(),
        }
    }
}

impl CosmicReadStateView {
    /// Everything that was asked for has arrived.
    pub open spec fn synchronized(self) -> bool {
        self.workspaces_done && self.toplevels_done
    }

    /// The first fault in what the compositor sent is kept.
    pub open spec fn faulted(self, detail: Seq<char>) -> CosmicReadStateView {
        match self.protocol_error {
            Some(_) => self,
            None => CosmicReadStateView {
                protocol_error: Some(
                    CosmicErrorView::InvalidProtocolData { operation: self.operation, detail },
                ),
                ..self
            },
        }
    }

    /// The list of workspaces is complete; each of them must have a name.
    pub open spec fn with_workspaces(
        self,
        workspaces: Seq<ProtocolWorkspaceView>,
        groups: Seq<ProtocolWorkspaceGroupView>,
    ) -> CosmicReadStateView {
        let checked = if exists|i: int|
            0 <= i < workspaces.len() && (#[trigger] workspaces[i]).name.len() == 0 {
            self.faulted("a workspace completed without a name"@)
        } else {
            self
        };
        CosmicReadStateView { workspaces, groups, workspaces_done: true, ..checked }
    }

    /// The list of windows is complete; each of them must have an identifier.
    pub open spec fn with_toplevels(self, toplevels: Seq<ProtocolToplevelView>) -> CosmicReadStateView {
        let checked = if exists|i: int|
            0 <= i < toplevels.len() && (#[trigger] toplevels[i]).identifier.len() == 0 {
            self.faulted("a toplevel completed without a stable protocol identifier"@)
        } else {
            self
        };
        CosmicReadStateView { toplevels, toplevels_done: true, ..checked }
    }
}

impl CosmicMutationStateView {
    /// Everything that was asked for has arrived.
    pub open spec fn synchronized(self) -> bool {
        self.read.synchronized() && self.management_capabilities_received
    }
}

/// A session at its beginning, where the compositor has every interface that reading needs.
pub open spec fn read_state(globals: Seq<GlobalView>, operation: Seq<char>) -> Result<
    CosmicReadStateView,
    CosmicErrorView,
> {
    match read_capabilities(globals, operation) {
        Err(error) => Err(error),
        Ok(capabilities) => Ok(
            CosmicReadStateView {
                operation,
                capabilities,
                workspaces: Seq::empty(),
                groups: Seq::empty(),
                toplevels: Seq::empty(),
                seats: Seq::empty(),
                workspaces_done: false,
                toplevels_done: false,
                protocol_error: None,
            },
        ),
    }
}

/// A session at its beginning, where the compositor has a toplevel manager too.
pub open spec fn mutation_state(globals: Seq<GlobalView>, operation: Seq<char>) -> Result<
    CosmicMutationStateView,
    CosmicErrorView,
> {
    match read_state(globals, operation) {
        Err(error) => Err(error),
        Ok(read) => match required_version(
            globals,
            "zcosmic_toplevel_manager_v1"@,
            MINIMUM_TOPLEVEL_MANAGER_VERSION,
            operation,
        ) {
            Err(error) => Err(error),
            Ok(version) => Ok(
                CosmicMutationStateView {
                    read,
                    management_capabilities: ManagementCapabilities::decoded(Seq::empty()),
                    management_capabilities_received: false,
                    toplevel_manager_version: version,
                },
            ),
        },
    }
}

fn lacks_name(workspaces: &Vec<ProtocolWorkspace>) -> (r: bool)
    ensures
        r == exists|i: int|
            0 <= i < workspaces.deep_view().len() && (#[trigger] workspaces.deep_view()[i]).name.len()
                == 0,
{
    let mut i: usize = 0;
    let ghost all = workspaces.deep_view();
    while i < workspaces.len()
        invariant
            i <= workspaces@.len(),
            all == workspaces.deep_view(),
            forall|j: int| 0 <= j < i ==> (#[trigger] all[j]).name.len() != 0,
        decreases workspaces@.len() - i,
    {
        assert(all[i as int] == workspaces@[i as int]@);
        if workspaces[i].name.as_str().is_empty() {
            return true;
        }
        i = i + 1;
    }
    false
}

fn lacks_identifier(toplevels: &Vec<ProtocolToplevel>) -> (r: bool)
    ensures
        r == exists|i: int|
            0 <= i < toplevels.deep_view().len() && (#[trigger] toplevels.deep_view()[i]).identifier.len()
                == 0,
{
    let mut i: usize = 0;
    let ghost all = toplevels.deep_view();
    while i < toplevels.len()
        invariant
            i <= toplevels@.len(),
            all == toplevels.deep_view(),
            forall|j: int| 0 <= j < i ==> (#[trigger] all[j]).identifier.len() != 0,
        decreases toplevels@.len() - i,
    {
        assert(all[i as int] == toplevels@[i as int]@);
        if toplevels[i].identifier.as_str().is_empty() {
            return true;
        }
        i = i + 1;
    }
    false
}

impl CosmicReadState {
    /// A session at its beginning.
    pub fn new(globals: &Vec<Global>, operation: &str) -> (r: Result<Self, CosmicError>)
        ensures
            seen_native(r) == read_state(globals.deep_view(), operation@),
    {
        match validate_read_capabilities(globals, operation) {
            Err(error) => Err(error),
            Ok(capabilities) => {
                let seats: Vec<u64> = Vec::new();
                assert(seats.deep_view() =~= Seq::<u64>::empty());
                Ok(
                    CosmicReadState {
                        operation: operation.to_owned(),
                        capabilities,
                        workspaces: empty_list(),
                        groups: empty_list(),
                        toplevels: empty_list(),
                        seats,
                        workspaces_done: false,
                        toplevels_done: false,
                        protocol_error: None,
                    },
                )
            },
        }
    }

    /// Whether everything that was asked for has arrived.
    pub fn is_synchronized(&self) -> (r: bool)
        ensures
            r == self@.synchronized(),
    {
        self.workspaces_done && self.toplevels_done
    }

    /// Takes the first fault in what the compositor sent.
    pub fn take_protocol_error(&mut self) -> (r: Option<CosmicError>)
        ensures
            r.deep_view() == old(self)@.protocol_error,
            final(self)@ == (CosmicReadStateView { protocol_error: None, ..old(self)@ }),
    {
        self.protocol_error.take()
    }

    /// Keeps the first fault in what the compositor sent.
    pub fn record_invalid_protocol_data(&mut self, detail: &str)
        ensures
            final(self)@ == old(self)@.faulted(detail@),
    {
        if self.protocol_error.is_none() {
            self.protocol_error =
            Some(
                CosmicError::InvalidProtocolData {
                    operation: self.operation.clone(),
                    detail: detail.to_owned(),
                },
            );
        }
    }

    /// The list of workspaces is complete.
    pub fn done(&mut self, workspaces: Vec<ProtocolWorkspace>, groups: Vec<ProtocolWorkspaceGroup>)
        ensures
            final(self)@ == old(self)@.with_workspaces(
                workspaces.deep_view(),
                groups.deep_view(),
            ),
    {
        if lacks_name(&workspaces) {
            self.record_invalid_protocol_data("a workspace completed without a name");
        }
        self.workspaces = workspaces;
        self.groups = groups;
        self.workspaces_done = true;
    }

    /// A window came up; it must be one of the completed list.
    pub fn new_toplevel(&mut self, known: bool)
        ensures
            final(self)@ == if known {
                old(self)@
            } else {
                old(self)@.faulted("a new toplevel was not present in the completed list"@)
            },
    {
        if !known {
            self.record_invalid_protocol_data(
                "a new toplevel was not present in the completed list",
            );
        }
    }

    /// A window changed; it must be one of the completed list.
    pub fn update_toplevel(&mut self, known: bool)
        ensures
            final(self)@ == if known {
                old(self)@
            } else {
                old(self)@.faulted("an updated toplevel was not present in the completed list"@)
            },
    {
        if !known {
            self.record_invalid_protocol_data(
                "an updated toplevel was not present in the completed list",
            );
        }
    }

    /// The list of windows is complete.
    pub fn info_done(&mut self, toplevels: Vec<ProtocolToplevel>)
        ensures
            final(self)@ == old(self)@.with_toplevels(toplevels.deep_view()),
    {
        if lacks_identifier(&toplevels) {
            self.record_invalid_protocol_data(
                "a toplevel completed without a stable protocol identifier",
            );
        }
        self.toplevels = toplevels;
        self.toplevels_done = true;
    }
}

impl CosmicMutationState {
    /// A session at its beginning.
    pub fn new(globals: &Vec<Global>, operation: &str) -> (r: Result<Self, CosmicError>)
        ensures
            seen_native(r) == mutation_state(globals.deep_view(), operation@),
    {
        let read = match CosmicReadState::new(globals, operation) {
            Err(error) => {
                return Err(error);
            },
            Ok(read) => read,
        };
        match validate_mutation_capabilities(globals, operation) {
            Err(error) => Err(error),
            Ok(version) => Ok(
                CosmicMutationState {
                    read,
                    management_capabilities: ManagementCapabilities::with_global(),
                    management_capabilities_received: false,
                    toplevel_manager_version: version,
                },
            ),
        }
    }

    /// Whether everything that was asked for has arrived.
    pub fn is_synchronized(&self) -> (r: bool)
        ensures
            r == self@.synchronized(),
    {
        self.read.is_synchronized() && self.management_capabilities_received
    }

    /// The manager says what it can do.
    pub fn capabilities(&mut self, values: &Vec<ToplevelCapability>)
        ensures
            final(self)@ == (CosmicMutationStateView {
                management_capabilities: ManagementCapabilities::decoded(values@),
                management_capabilities_received: true,
                ..old(self)@
            }),
    {
        self.management_capabilities = ManagementCapabilities::from_protocol(values);
        self.management_capabilities_received = true;
    }
}

/// Once a fault was found, nothing that arrives later hides it.
pub proof fn law_first_fault_is_kept(
    state: CosmicReadStateView,
    detail: Seq<char>,
    workspaces: Seq<ProtocolWorkspaceView>,
    groups: Seq<ProtocolWorkspaceGroupView>,
    toplevels: Seq<ProtocolToplevelView>,
)
    requires
        state.protocol_error is Some,
    ensures
        state.faulted(detail).protocol_error == state.protocol_error,
        state.with_workspaces(workspaces, groups).protocol_error == state.protocol_error,
        state.with_toplevels(toplevels).protocol_error == state.protocol_error,
{
}

/// What the compositor lists is kept as it lists it; the picture is complete when both lists are done, and
/// a workspace without a name or a window without an identity is a fault.
pub proof fn law_listed_state_is_kept(
    state: CosmicReadStateView,
    workspaces: Seq<ProtocolWorkspaceView>,
    groups: Seq<ProtocolWorkspaceGroupView>,
    toplevels: Seq<ProtocolToplevelView>,
    i: int,
)
    ensures
        ({
            let both = state.with_workspaces(workspaces, groups).with_toplevels(toplevels);
            &&& both.workspaces == workspaces && both.groups == groups && both.toplevels
                == toplevels && both.seats == state.seats
            &&& both.synchronized()
            &&& 0 <= i < workspaces.len() && workspaces[i].name.len() == 0
                ==> both.protocol_error is Some
            &&& 0 <= i < toplevels.len() && toplevels[i].identifier.len() == 0
                ==> both.protocol_error is Some
            &&& (forall|k: int|
                0 <= k < workspaces.len() ==> (#[trigger] workspaces[k]).name.len() > 0) && (
            forall|k: int|
                0 <= k < toplevels.len() ==> (#[trigger] toplevels[k]).identifier.len() > 0)
                ==> both.protocol_error == state.protocol_error
            &&& !state.toplevels_done ==> !state.with_workspaces(workspaces, groups).synchronized()
            &&& !state.workspaces_done ==> !state.with_toplevels(toplevels).synchronized()
        }),
{
}

} // verus!
