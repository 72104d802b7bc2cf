//! What a compositor must advertise.
use vstd::prelude::*;
use vstd::string::*;
use crate::text::same_text;
use crate::values::Replicate;
use super::super::errors::{seen_native, CosmicError, CosmicErrorView};

verus! {

pub const MINIMUM_WORKSPACE_MANAGER_VERSION: u32 = 1;

pub const MINIMUM_COSMIC_WORKSPACE_MANAGER_VERSION: u32 = 1;

pub const MINIMUM_FOREIGN_TOPLEVEL_LIST_VERSION: u32 = 1;

pub const MINIMUM_COSMIC_TOPLEVEL_INFO_VERSION: u32 = 3;

pub const MINIMUM_OUTPUT_VERSION: u32 = 1;

pub const MINIMUM_SEAT_VERSION: u32 = 1;

pub const MINIMUM_TOPLEVEL_MANAGER_VERSION: u32 = 1;

/// The version of the toplevel manager that can move a window to an external workspace.
pub const MINIMUM_EXTERNAL_WORKSPACE_MOVE_VERSION: u32 = 4;

/// The bit of a workspace's capabilities that stands for changes to its tiling.
pub const SET_TILING_STATE: u32 = 2;

/// A protocol that the compositor advertises.
#[derive(Debug, Clone, PartialEq, Eq)]
pub struct Global {
    pub name: u32,
    pub interface: String,
    pub version: u32,
}

/// What a `Global` stands for.
#[verifier::ext_equal]
pub struct GlobalView {
    pub name: u32,
    pub interface: Seq<char>,
    pub version: u32,
}

impl View for Global {
    type V = GlobalView;

    open spec fn view(&self) -> GlobalView {
        GlobalView {
            name: self.name.deep_view(),
            interface: self.interface.deep_view(),
            version: self.version.deep_view(),
        }
    }
}

impl DeepView for Global {
    type V = GlobalView;

    open spec fn deep_view(&self) -> GlobalView {
        self.view()
    }
}

impl Replicate for Global {
    fn replicate(&self) -> (r: Self) {
        Global {
            name: self.name.replicate(),
            interface: self.interface.replicate(),
            version: self.version.replicate(),
        }
    }
}

/// What a session can be asked.
#[derive(Debug, Clone, Copy, PartialEq, Eq, Structural)]
pub struct ReadCapabilities {
    pub workspace_enumeration: bool,
    pub foreign_toplevel_enumeration: bool,
    pub cosmic_toplevel_information: bool,
    pub workspace_manager_version: u32,
    pub cosmic_workspace_manager_version: u32,
    pub foreign_toplevel_list_version: u32,
    pub cosmic_toplevel_info_version: u32,
    pub output_version: u32,
    pub seat_version: u32,
    pub output_count: usize,
    pub seat_count: usize,
    pub target_workspace_output_association: bool,
}

impl DeepView for ReadCapabilities {
    type V = ReadCapabilities;

    open spec fn deep_view(&self) -> ReadCapabilities {
        *self
    }
}

impl Replicate for ReadCapabilities {
    fn replicate(&self) -> (r: Self) {
        *self
    }
}

/// What a session can do to windows.
#[derive(Debug, Clone, Copy, PartialEq, Eq, Structural)]
pub struct ManagementCapabilities {
    pub global_available: bool,
    pub close: bool,
    pub activate: bool,
    pub move_to_external_workspace: bool,
}

impl Default for ManagementCapabilities {
    fn default() -> (r: Self)
        ensures
            r == (ManagementCapabilities {
                global_available: false,
                close: false,
                activate: false,
                move_to_external_workspace: false,
            }),
    {
        ManagementCapabilities {
            global_available: false,
            close: false,
            activate: false,
            move_to_external_workspace: false,
        }
    }
}

impl DeepView for ManagementCapabilities {
    type V = ManagementCapabilities;

    open spec fn deep_view(&self) -> ManagementCapabilities {
        *self
    }
}

impl Replicate for ManagementCapabilities {
    fn replicate(&self) -> (r: Self) {
        *self
    }
}

/// A capability of the toplevel manager, as the protocol numbers them; an unknown one keeps its number.
#[derive(Debug, Clone, Copy, PartialEq, Eq, Structural)]
pub enum ToplevelCapability {
    Close,
    Activate,
    Maximize,
    Minimize,
    Fullscreen,
    MoveToWorkspace,
    Sticky,
    MoveToExtWorkspace,
    Unknown(u32),
}

impl DeepView for ToplevelCapability {
    type V = ToplevelCapability;

    open spec fn deep_view(&self) -> ToplevelCapability {
        *self
    }
}

impl Replicate for ToplevelCapability {
    fn replicate(&self) -> (r: Self) {
        *self
    }
}

/// A capability that an operation needs of the toplevel manager.
#[derive(Debug, Clone, Copy, PartialEq, Eq, Structural)]
pub enum ManagementCapability {
    ToplevelManagement,
    WindowClose,
    WindowActivation,
    MoveToExternalWorkspace,
}

impl DeepView for ManagementCapability {
    type V = ManagementCapability;

    open spec fn deep_view(&self) -> ManagementCapability {
        *self
    }
}

impl Replicate for ManagementCapability {
    fn replicate(&self) -> (r: Self) {
        *self
    }
}

/// A capability that an operation needs of a session.
#[derive(Debug, Clone, Copy, PartialEq, Eq, Structural)]
pub enum ReadCapability {
    WorkspaceEnumeration,
    ForeignToplevelEnumeration,
    CosmicToplevelInformation,
    AvailableSeats,
    TargetWorkspaceOutputAssociation,
}

impl DeepView for ReadCapability {
    type V = ReadCapability;

    open spec fn deep_view(&self) -> ReadCapability {
        *self
    }
}

impl Replicate for ReadCapability {
    fn replicate(&self) -> (r: Self) {
        *self
    }
}

/// The highest version in which an interface is advertised.
pub open spec fn advertised_version(globals: Seq<GlobalView>, interface: Seq<char>) -> Option<u32>
    decreases globals.len(),
{
    if globals.len() == 0 {
        None
    } else if globals.last().interface != interface {
        advertised_version(globals.drop_last(), interface)
    } else {
        match advertised_version(globals.drop_last(), interface) {
            Some(version) if version > globals.last().version => Some(version),
            _ => Some(globals.last().version),
        }
    }
}

/// How often an interface is advertised.
pub open spec fn advertised_count(globals: Seq<GlobalView>, interface: Seq<char>) -> nat
    decreases globals.len(),
{
    if globals.len() == 0 {
        0
    } else {
        advertised_count(globals.drop_last(), interface) + if globals.last().interface == interface {
            1nat
        } else {
            0nat
        }
    }
}

/// The version of an interface, where it is high enough.
pub open spec fn required_version(
    globals: Seq<GlobalView>,
    interface: Seq<char>,
    minimum: u32,
    operation: Seq<char>,
) -> Result<u32, CosmicErrorView> {
    match advertised_version(globals, interface) {
        None => Err(CosmicErrorView::RequiredGlobalMissing { operation, global: interface }),
        Some(version) => if version < minimum {
            Err(
                CosmicErrorView::ProtocolVersionUnsupported {
                    operation,
                    protocol: interface,
                    required: minimum,
                    advertised: Some(version),
                },
            )
        } else {
            Ok(version)
        },
    }
}

/// The interfaces that reading needs, each with its least version, in the order of the checks.
pub open spec fn read_requirements() -> Seq<(Seq<char>, u32)> {
    seq![
        ("ext_workspace_manager_v1"@, MINIMUM_WORKSPACE_MANAGER_VERSION),
        ("zcosmic_workspace_manager_v2"@, MINIMUM_COSMIC_WORKSPACE_MANAGER_VERSION),
        ("ext_foreign_toplevel_list_v1"@, MINIMUM_FOREIGN_TOPLEVEL_LIST_VERSION),
        ("zcosmic_toplevel_info_v1"@, MINIMUM_COSMIC_TOPLEVEL_INFO_VERSION),
        ("wl_output"@, MINIMUM_OUTPUT_VERSION),
        ("wl_seat"@, MINIMUM_SEAT_VERSION),
    ]
}

/// The version of each required interface, the first that fails deciding.
pub open spec fn required_versions(
    globals: Seq<GlobalView>,
    requirements: Seq<(Seq<char>, u32)>,
    operation: Seq<char>,
) -> Result<Seq<u32>, CosmicErrorView>
    decreases requirements.len(),
{
    if requirements.len() == 0 {
        Ok(Seq::empty())
    } else {
        match required_versions(globals, requirements.drop_last(), operation) {
            Err(error) => Err(error),
            Ok(versions) => match required_version(
                globals,
                requirements.last().0,
                requirements.last().1,
                operation,
            ) {
                Err(error) => Err(error),
                Ok(version) => Ok(versions.push(version)),
            },
        }
    }
}

/// What a session can be asked that has the required interfaces.
pub open spec fn read_capabilities(globals: Seq<GlobalView>, operation: Seq<char>) -> Result<
    ReadCapabilities,
    CosmicErrorView,
> {
    match required_versions(globals, read_requirements(), operation) {
        Err(error) => Err(error),
        Ok(versions) => Ok(
            ReadCapabilities {
                workspace_enumeration: true,
                foreign_toplevel_enumeration: true,
                cosmic_toplevel_information: true,
                workspace_manager_version: versions[0],
                cosmic_workspace_manager_version: versions[1],
                foreign_toplevel_list_version: versions[2],
                cosmic_toplevel_info_version: versions[3],
                output_version: versions[4],
                seat_version: versions[5],
                output_count: advertised_count(globals, "wl_output"@) as usize,
                seat_count: advertised_count(globals, "wl_seat"@) as usize,
                target_workspace_output_association: advertised_count(globals, "wl_output"@) > 0,
            },
        ),
    }
}

impl ManagementCapabilities {
    /// What the manager says that it can do; capabilities that are not known count for nothing.
    pub open spec fn decoded(values: Seq<ToplevelCapability>) -> ManagementCapabilities {
        ManagementCapabilities {
            global_available: true,
            close: values.contains(ToplevelCapability::Close),
            activate: values.contains(ToplevelCapability::Activate),
            move_to_external_workspace: values.contains(ToplevelCapability::MoveToExtWorkspace),
        }
    }

    pub open spec fn provides(self, capability: ManagementCapability) -> bool {
        match capability {
            ManagementCapability::ToplevelManagement => self.global_available,
            ManagementCapability::WindowClose => self.close,
            ManagementCapability::WindowActivation => self.activate,
            ManagementCapability::MoveToExternalWorkspace => self.move_to_external_workspace,
        }
    }

    /// A manager that has not said yet what it can do.
    pub fn with_global() -> (r: Self)
        ensures
            r == ManagementCapabilities::decoded(Seq::empty()),
    {
        ManagementCapabilities {
            global_available: true,
            close: false,
            activate: false,
            move_to_external_workspace: false,
        }
    }

    /// What the manager says that it can do.
    pub fn from_protocol(values: &Vec<ToplevelCapability>) -> (r: Self)
        ensures
            r == ManagementCapabilities::decoded(values@),
    {
        let mut capabilities = ManagementCapabilities::with_global();
        let mut i: usize = 0;
        assert(values@.take(0) =~= Seq::<ToplevelCapability>::empty());
        while i < values.len()
            invariant
                i <= values@.len(),
                capabilities == ManagementCapabilities::decoded(values@.take(i as int)),
            decreases values@.len() - i,
        {
            let ghost shorter = values@.take(i as int);
            let ghost longer = values@.take(i as int + 1);
            let value = values[i];
            proof {
                assert(longer =~= shorter.push(value));
                assert forall|wanted: ToplevelCapability|
                    longer.contains(wanted) == (shorter.contains(wanted) || value == wanted) by {
                    if shorter.contains(wanted) {
                        let j = choose|j: int| 0 <= j < shorter.len() && shorter[j] == wanted;
                        assert(longer[j] == wanted);
                    }
                    assert(longer[i as int] == value);
                }
            }
            match value {
                ToplevelCapability::Close => {
                    capabilities.close = true;
                },
                ToplevelCapability::Activate => {
                    capabilities.activate = true;
                },
                ToplevelCapability::MoveToExtWorkspace => {
                    capabilities.move_to_external_workspace = true;
                },
                _ => {},
            }
            i = i + 1;
        }
        assert(values@.take(i as int) =~= values@);
        capabilities
    }
}

impl ManagementCapability {
    pub open spec fn label_text(self) -> Seq<char> {
        match self {
            ManagementCapability::ToplevelManagement => "toplevel management"@,
            ManagementCapability::WindowClose => "window close"@,
            ManagementCapability::WindowActivation => "window activation"@,
            ManagementCapability::MoveToExternalWorkspace => "move to external workspace"@,
        }
    }

    /// The least version of the manager that has the capability.
    pub open spec fn least_version(self) -> u32 {
        match self {
            ManagementCapability::MoveToExternalWorkspace => MINIMUM_EXTERNAL_WORKSPACE_MOVE_VERSION,
            _ => MINIMUM_TOPLEVEL_MANAGER_VERSION,
        }
    }

    fn label(self) -> (r: &'static str)
        ensures
            r@ == self.label_text(),
    {
        match self {
            ManagementCapability::ToplevelManagement => "toplevel management",
            ManagementCapability::WindowClose => "window close",
            ManagementCapability::WindowActivation => "window activation",
            ManagementCapability::MoveToExternalWorkspace => "move to external workspace",
        }
    }
}

impl ReadCapability {
    pub open spec fn label_text(self) -> Seq<char> {
        match self {
            ReadCapability::WorkspaceEnumeration => "workspace enumeration"@,
            ReadCapability::ForeignToplevelEnumeration => "foreign toplevel enumeration"@,
            ReadCapability::CosmicToplevelInformation => "COSMIC toplevel information"@,
            ReadCapability::AvailableSeats => "available seats"@,
            ReadCapability::TargetWorkspaceOutputAssociation => "target workspace output association"@,
        }
    }

    fn label(self) -> (r: &'static str)
        ensures
            r@ == self.label_text(),
    {
        match self {
            ReadCapability::WorkspaceEnumeration => "workspace enumeration",
            ReadCapability::ForeignToplevelEnumeration => "foreign toplevel enumeration",
            ReadCapability::CosmicToplevelInformation => "COSMIC toplevel information",
            ReadCapability::AvailableSeats => "available seats",
            ReadCapability::TargetWorkspaceOutputAssociation => "target workspace output association",
        }
    }
}

impl ReadCapabilities {
    pub open spec fn provides(self, capability: ReadCapability) -> bool {
        match capability {
            ReadCapability::WorkspaceEnumeration => self.workspace_enumeration,
            ReadCapability::ForeignToplevelEnumeration => self.foreign_toplevel_enumeration,
            ReadCapability::CosmicToplevelInformation => self.cosmic_toplevel_information,
            ReadCapability::AvailableSeats => self.seat_count > 0,
            ReadCapability::TargetWorkspaceOutputAssociation => self.target_workspace_output_association,
        }
    }
}

/// An operation that needs a capability of the manager.
pub open spec fn management_checked(
    capabilities: ManagementCapabilities,
    capability: ManagementCapability,
    operation: Seq<char>,
) -> Result<(), CosmicErrorView> {
    if capabilities.provides(capability) {
        Ok(())
    } else {
        Err(
            CosmicErrorView::CapabilityUnavailable {
                operation,
                capability: capability.label_text(),
                detail: "the compositor did not advertise this capability"@,
            },
        )
    }
}

/// An operation that needs the manager in a version that has a capability.
pub open spec fn version_checked(
    version: u32,
    capability: ManagementCapability,
    operation: Seq<char>,
) -> Result<(), CosmicErrorView> {
    if version < capability.least_version() {
        Err(
            CosmicErrorView::ProtocolVersionUnsupported {
                operation,
                protocol: "zcosmic_toplevel_manager_v1"@,
                required: capability.least_version(),
                advertised: Some(version),
            },
        )
    } else {
        Ok(())
    }
}

/// An operation that needs both the version and the capability.
pub open spec fn managed(
    capabilities: ManagementCapabilities,
    version: u32,
    capability: ManagementCapability,
    operation: Seq<char>,
) -> Result<(), CosmicErrorView> {
    match version_checked(version, capability, operation) {
        Err(error) => Err(error),
        Ok(_) => management_checked(capabilities, capability, operation),
    }
}

/// An operation that needs a capability of the session.
pub open spec fn read_checked(
    capabilities: ReadCapabilities,
    capability: ReadCapability,
    operation: Seq<char>,
) -> Result<(), CosmicErrorView> {
    if capabilities.provides(capability) {
        Ok(())
    } else {
        Err(
            CosmicErrorView::CapabilityUnavailable {
                operation,
                capability: capability.label_text(),
                detail: "the detected COSMIC session does not provide it"@,
            },
        )
    }
}

/// An operation that changes the tiling of a workspace.
pub open spec fn tiling_checked(supported: bool, operation: Seq<char>) -> Result<
    (),
    CosmicErrorView,
> {
    if supported {
        Ok(())
    } else {
        Err(
            CosmicErrorView::CapabilityUnavailable {
                operation,
                capability: "workspace tiling"@,
                detail: "the selected workspace does not advertise tiling mutations"@,
            },
        )
    }
}

fn version_advertised(globals: &Vec<Global>, interface: &str) -> (r: Option<u32>)
    ensures
        r == advertised_version(globals.deep_view(), interface@),
{
    let mut found: Option<u32> = None;
    let mut i: usize = 0;
    let ghost all = globals.deep_view();
    assert(all.take(0) =~= Seq::<GlobalView>::empty());
    while i < globals.len()
        invariant
            i <= globals@.len(),
            all == globals.deep_view(),
            found == advertised_version(all.take(i as int), interface@),
        decreases globals@.len() - i,
    {
        assert(all[i as int] == globals@[i as int]@);
        assert(all.take(i as int + 1).drop_last() =~= all.take(i as int));
        if same_text(globals[i].interface.as_str(), interface) {
            found = match found {
                Some(version) if version > globals[i].version => Some(version),
                _ => Some(globals[i].version),
            };
        }
        i = i + 1;
    }
    assert(all.take(i as int) =~= all);
    found
}

fn count_globals(globals: &Vec<Global>, interface: &str) -> (r: usize)
    ensures
        r == advertised_count(globals.deep_view(), interface@),
{
    let mut count: usize = 0;
    let mut i: usize = 0;
    let ghost all = globals.deep_view();
    assert(all.take(0) =~= Seq::<GlobalView>::empty());
    while i < globals.len()
        invariant
            i <= globals@.len(),
            count <= i,
            all == globals.deep_view(),
            count == advertised_count(all.take(i as int), interface@),
        decreases globals@.len() - i,
    {
        assert(all[i as int] == globals@[i as int]@);
        assert(all.take(i as int + 1).drop_last() =~= all.take(i as int));
        if same_text(globals[i].interface.as_str(), interface) {
            count = count + 1;
        }
        i = i + 1;
    }
    assert(all.take(i as int) =~= all);
    count
}

/// The version of an interface, where it is high enough.
pub fn require_global_by_name(
    globals: &Vec<Global>,
    interface: &str,
    minimum_version: u32,
    operation: &str,
) -> (r: Result<u32, CosmicError>)
    ensures
        seen_native(r) == required_version(
            globals.deep_view(),
            interface@,
            minimum_version,
            operation@,
        ),
{
    match version_advertised(globals, interface) {
        None => Err(
            CosmicError::RequiredGlobalMissing {
                operation: operation.to_owned(),
                global: interface.to_owned(),
            },
        ),
        Some(version) => if version < minimum_version {
            Err(
                CosmicError::ProtocolVersionUnsupported {
                    operation: operation.to_owned(),
                    protocol: interface.to_owned(),
                    required: minimum_version,
                    advertised: Some(version),
                },
            )
        } else {
            Ok(version)
        },
    }
}

/// What a session can be asked, where it has every interface that reading needs.
pub fn validate_read_capabilities(globals: &Vec<Global>, operation: &str) -> (r: Result<
    ReadCapabilities,
    CosmicError,
>)
    ensures
        seen_native(r) == read_capabilities(globals.deep_view(), operation@),
{
    let ghost all = read_requirements();
    proof {
        reveal_with_fuel(required_versions, 7);
        assert(all.drop_last() =~= all.take(5));
        assert(all.take(5).drop_last() =~= all.take(4));
        assert(all.take(4).drop_last() =~= all.take(3));
        assert(all.take(3).drop_last() =~= all.take(2));
        assert(all.take(2).drop_last() =~= all.take(1));
        assert(all.take(1).drop_last() =~= all.take(0));
    }
    let workspace_manager_version = match require_global_by_name(
        globals,
        "ext_workspace_manager_v1",
        MINIMUM_WORKSPACE_MANAGER_VERSION,
        operation,
    ) {
        Err(error) => {
            return Err(error);
        },
        Ok(version) => version,
    };
    let cosmic_workspace_manager_version = match require_global_by_name(
        globals,
        "zcosmic_workspace_manager_v2",
        MINIMUM_COSMIC_WORKSPACE_MANAGER_VERSION,
        operation,
    ) {
        Err(error) => {
            return Err(error);
        },
        Ok(version) => version,
    };
    let foreign_toplevel_list_version = match require_global_by_name(
        globals,
        "ext_foreign_toplevel_list_v1",
        MINIMUM_FOREIGN_TOPLEVEL_LIST_VERSION,
        operation,
    ) {
        Err(error) => {
            return Err(error);
        },
        Ok(version) => version,
    };
    let cosmic_toplevel_info_version = match require_global_by_name(
        globals,
        "zcosmic_toplevel_info_v1",
        MINIMUM_COSMIC_TOPLEVEL_INFO_VERSION,
        operation,
    ) {
        Err(error) => {
            return Err(error);
        },
        Ok(version) => version,
    };
    let output_version = match require_global_by_name(
        globals,
        "wl_output",
        MINIMUM_OUTPUT_VERSION,
        operation,
    ) {
        Err(error) => {
            return Err(error);
        },
        Ok(version) => version,
    };
    let seat_version = match require_global_by_name(
        globals,
        "wl_seat",
        MINIMUM_SEAT_VERSION,
        operation,
    ) {
        Err(error) => {
            return Err(error);
        },
        Ok(version) => version,
    };
    let output_count = count_globals(globals, "wl_output");
    let seat_count = count_globals(globals, "wl_seat");
    Ok(
        ReadCapabilities {
            workspace_enumeration: true,
            foreign_toplevel_enumeration: true,
            cosmic_toplevel_information: true,
            workspace_manager_version,
            cosmic_workspace_manager_version,
            foreign_toplevel_list_version,
            cosmic_toplevel_info_version,
            output_version,
            seat_version,
            output_count,
            seat_count,
            target_workspace_output_association: output_count > 0,
        },
    )
}

/// The version of the toplevel manager, without which nothing can be changed.
pub fn validate_mutation_capabilities(globals: &Vec<Global>, operation: &str) -> (r: Result<
    u32,
    CosmicError,
>)
    ensures
        seen_native(r) == required_version(
            globals.deep_view(),
            "zcosmic_toplevel_manager_v1"@,
            MINIMUM_TOPLEVEL_MANAGER_VERSION,
            operation@,
        ),
{
    require_global_by_name(
        globals,
        "zcosmic_toplevel_manager_v1",
        MINIMUM_TOPLEVEL_MANAGER_VERSION,
        operation,
    )
}

/// An operation that needs a capability of the manager.
pub fn require_management_capability(
    capabilities: ManagementCapabilities,
    capability: ManagementCapability,
    operation: &str,
) -> (r: Result<(), CosmicError>)
    ensures
        seen_native(r) == management_checked(capabilities, capability, operation@),
{
    let available = match capability {
        ManagementCapability::ToplevelManagement => capabilities.global_available,
        ManagementCapability::WindowClose => capabilities.close,
        ManagementCapability::WindowActivation => capabilities.activate,
        ManagementCapability::MoveToExternalWorkspace => capabilities.move_to_external_workspace,
    };
    if available {
        return Ok(());
    }
    Err(
        CosmicError::CapabilityUnavailable {
            operation: operation.to_owned(),
            capability: capability.label().to_owned(),
            detail: "the compositor did not advertise this capability".to_owned(),
        },
    )
}

/// An operation that needs the manager in a version that has a capability.
pub fn require_management_protocol_version(
    version: u32,
    capability: ManagementCapability,
    operation: &str,
) -> (r: Result<(), CosmicError>)
    ensures
        seen_native(r) == version_checked(version, capability, operation@),
{
    let required: u32 = match capability {
        ManagementCapability::MoveToExternalWorkspace => MINIMUM_EXTERNAL_WORKSPACE_MOVE_VERSION,
        _ => MINIMUM_TOPLEVEL_MANAGER_VERSION,
    };
    if version < required {
        return Err(
            CosmicError::ProtocolVersionUnsupported {
                operation: operation.to_owned(),
                protocol: "zcosmic_toplevel_manager_v1".to_owned(),
                required,
                advertised: Some(version),
            },
        );
    }
    Ok(())
}

/// An operation that moves a window to an external workspace.
pub fn require_external_workspace_move_capability(
    capabilities: ManagementCapabilities,
    version: u32,
    operation: &str,
) -> (r: Result<(), CosmicError>)
    ensures
        seen_native(r) == managed(
            capabilities,
            version,
            ManagementCapability::MoveToExternalWorkspace,
            operation@,
        ),
{
    match require_management_protocol_version(
        version,
        ManagementCapability::MoveToExternalWorkspace,
        operation,
    ) {
        Err(error) => Err(error),
        Ok(_) => require_management_capability(
            capabilities,
            ManagementCapability::MoveToExternalWorkspace,
            operation,
        ),
    }
}

/// An operation that needs a capability of the session.
pub fn require_read_capability(
    capabilities: ReadCapabilities,
    capability: ReadCapability,
    operation: &str,
) -> (r: Result<(), CosmicError>)
    ensures
        seen_native(r) == read_checked(capabilities, capability, operation@),
{
    let available = match capability {
        ReadCapability::WorkspaceEnumeration => capabilities.workspace_enumeration,
        ReadCapability::ForeignToplevelEnumeration => capabilities.foreign_toplevel_enumeration,
        ReadCapability::CosmicToplevelInformation => capabilities.cosmic_toplevel_information,
        ReadCapability::AvailableSeats => capabilities.seat_count > 0,
        ReadCapability::TargetWorkspaceOutputAssociation => capabilities.target_workspace_output_association,
    };
    if available {
        return Ok(());
    }
    Err(
        CosmicError::CapabilityUnavailable {
            operation: operation.to_owned(),
            capability: capability.label().to_owned(),
            detail: "the detected COSMIC session does not provide it".to_owned(),
        },
    )
}

/// An operation that changes the tiling of a workspace.
pub fn require_workspace_tiling_capability(supported: bool, operation: &str) -> (r: Result<
    (),
    CosmicError,
>)
    ensures
        seen_native(r) == tiling_checked(supported, operation@),
{
    if supported {
        return Ok(());
    }
    Err(
        CosmicError::CapabilityUnavailable {
            operation: operation.to_owned(),
            capability: "workspace tiling".to_owned(),
            detail: "the selected workspace does not advertise tiling mutations".to_owned(),
        },
    )
}

/// Whether the capabilities of a workspace hold changes to its tiling.
pub open spec fn supports_tiling(capabilities: u32) -> bool {
    capabilities & SET_TILING_STATE == SET_TILING_STATE
}

/// Whether the capabilities of a workspace hold changes to its tiling.
pub fn workspace_supports_tiling(capabilities: u32) -> (r: bool)
    ensures
        r == supports_tiling(capabilities),
{
    capabilities & SET_TILING_STATE == SET_TILING_STATE
}

// ---------------------------------------------------------------------------------------------
// Laws
// ---------------------------------------------------------------------------------------------
proof fn lemma_versions_meet(
    globals: Seq<GlobalView>,
    requirements: Seq<(Seq<char>, u32)>,
    operation: Seq<char>,
)
    ensures
        required_versions(globals, requirements, operation) matches Ok(versions)
            ==> versions.len() == requirements.len() && forall|i: int|
            0 <= i < requirements.len() ==> advertised_version(
                globals,
                (#[trigger] requirements[i]).0,
            ) == Some(versions[i]) && versions[i] >= requirements[i].1,
        required_versions(globals, requirements, operation) is Err ==> exists|i: int|
            0 <= i < requirements.len() && required_version(
                globals,
                (#[trigger] requirements[i]).0,
                requirements[i].1,
                operation,
            ) is Err,
    decreases requirements.len(),
{
    if requirements.len() > 0 {
        lemma_versions_meet(globals, requirements.drop_last(), operation);
        let earlier = requirements.drop_last();
        if required_versions(globals, earlier, operation) is Err {
            let i = choose|i: int|
                0 <= i < earlier.len() && required_version(
                    globals,
                    (#[trigger] earlier[i]).0,
                    earlier[i].1,
                    operation,
                ) is Err;
            assert(requirements[i] == earlier[i]);
        } else {
            if let Ok(versions) = required_versions(globals, requirements, operation) {
                assert forall|i: int| 0 <= i < requirements.len() implies advertised_version(
                    globals,
                    (#[trigger] requirements[i]).0,
                ) == Some(versions[i]) && versions[i] >= requirements[i].1 by {
                    if i < earlier.len() {
                        assert(requirements[i] == earlier[i]);
                    }
                }
            } else {
                assert(requirements[requirements.len() - 1] == requirements.last());
            }
        }
    }
}

/// A session can be read exactly where every interface that reading needs is advertised in a version
/// that is high enough.
pub proof fn law_reading_needs_every_interface(globals: Seq<GlobalView>, operation: Seq<char>)
    ensures
        read_capabilities(globals, operation) is Ok <==> forall|i: int|
            0 <= i < read_requirements().len() ==> (advertised_version(
                globals,
                (#[trigger] read_requirements()[i]).0,
            ) matches Some(version) && version >= read_requirements()[i].1),
{
    lemma_versions_meet(globals, read_requirements(), operation);
    let requirements = read_requirements();
    if required_versions(globals, requirements, operation) is Err {
        let i = choose|i: int|
            0 <= i < requirements.len() && required_version(
                globals,
                (#[trigger] requirements[i]).0,
                requirements[i].1,
                operation,
            ) is Err;
        assert(required_version(globals, requirements[i].0, requirements[i].1, operation) is Err);
    }
}

/// An unknown capability changes nothing.
pub proof fn law_unknown_capabilities_count_for_nothing(
    values: Seq<ToplevelCapability>,
    number: u32,
)
    ensures
        ManagementCapabilities::decoded(values.push(ToplevelCapability::Unknown(number)))
            == ManagementCapabilities::decoded(values),
{
    let more = values.push(ToplevelCapability::Unknown(number));
    assert forall|wanted: ToplevelCapability|
        wanted !is Unknown implies more.contains(wanted) == values.contains(wanted) by {
        if values.contains(wanted) {
            let i = choose|i: int| 0 <= i < values.len() && values[i] == wanted;
            assert(more[i] == wanted);
        }
    }
}

/// What is taken for advertised is the newest version that was: no other one of the interface is newer.
pub proof fn law_newest_version_is_taken(globals: Seq<GlobalView>, interface: Seq<char>)
    ensures
        advertised_version(globals, interface) is None <==> forall|i: int|
            0 <= i < globals.len() ==> (#[trigger] globals[i]).interface != interface,
        advertised_version(globals, interface) matches Some(version) ==> (exists|i: int|
            0 <= i < globals.len() && (#[trigger] globals[i]).interface == interface
                && globals[i].version == version) && (forall|i: int|
            0 <= i < globals.len() && (#[trigger] globals[i]).interface == interface
                ==> globals[i].version <= version),
    decreases globals.len(),
{
    if globals.len() > 0 {
        let fewer = globals.drop_last();
        law_newest_version_is_taken(fewer, interface);
        assert(forall|i: int| 0 <= i < fewer.len() ==> #[trigger] fewer[i] == globals[i]);
        assert(globals[globals.len() - 1] == globals.last());
        if advertised_version(fewer, interface) is Some {
            let i = choose|i: int|
                0 <= i < fewer.len() && (#[trigger] fewer[i]).interface == interface
                    && fewer[i].version == advertised_version(fewer, interface)->Some_0;
            assert(globals[i] == fewer[i]);
        }
        if advertised_version(globals, interface) is Some {
            let version = advertised_version(globals, interface)->Some_0;
            if globals.last().interface == interface && globals.last().version == version {
                assert(globals[globals.len() - 1].version == version);
            }
            assert forall|i: int|
                0 <= i < globals.len() && (#[trigger] globals[i]).interface
                    == interface implies globals[i].version <= version by {
                if i < fewer.len() {
                    assert(fewer[i] == globals[i]);
                }
            }
        } else {
            assert forall|i: int| 0 <= i < globals.len() implies (
            #[trigger] globals[i]).interface != interface by {
                if i < fewer.len() {
                    assert(fewer[i] == globals[i]);
                }
            }
        }
    }
}

/// An operation is allowed where the compositor told that it can do it, and only there.
pub proof fn law_told_capability_is_used(
    values: Seq<ToplevelCapability>,
    version: u32,
    operation: Seq<char>,
    bits: u32,
)
    requires
        version >= 4,
    ensures
        ({
            let told = ManagementCapabilities::decoded(values);
            &&& managed(told, version, ManagementCapability::WindowClose, operation) is Ok
                <==> values.contains(ToplevelCapability::Close)
            &&& managed(told, version, ManagementCapability::WindowActivation, operation) is Ok
                <==> values.contains(ToplevelCapability::Activate)
            &&& managed(told, version, ManagementCapability::MoveToExternalWorkspace, operation)
                is Ok <==> values.contains(ToplevelCapability::MoveToExtWorkspace)
            &&& managed(told, version, ManagementCapability::ToplevelManagement, operation) is Ok
        }),
        supports_tiling(bits) <==> (bits / 2) % 2 == 1,
        tiling_checked(supports_tiling(bits), operation) is Ok <==> (bits / 2) % 2 == 1,
{
    assert((bits & 2u32 == 2u32) <==> (bits / 2) % 2 == 1) by (bit_vector);
}

} // verus!
