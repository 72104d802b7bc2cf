//! What the protocol says of the desktop.
use vstd::prelude::*;
use vstd::string::*;
use crate::ports::{
    DesktopSnapshot, DesktopSnapshotView, DesktopWindowSnapshot, DesktopWindowSnapshotView,
    DesktopWorkspaceSnapshot, DesktopWorkspaceSnapshotView,
};
use crate::text::{has_control, join2, join3, join5, text_has_control};
use crate::values::{append, empty_list, list_holds, Replicate};
use super::super::errors::{seen_native, CosmicError, CosmicErrorView};
use super::super::models::{
    distinct_windows, distinct_workspaces, has_window, has_workspace, lists_window,
    lists_workspace, windows_placed,
};
use super::capabilities::{read_checked, require_read_capability, ReadCapabilities, ReadCapability};
use super::operations::{known_as, lemma_well_named, well_named};
use super::state::{
    CosmicReadState, CosmicReadStateView, NativeTilingState, ProtocolToplevel,
    ProtocolToplevelView, ProtocolWorkspace, ProtocolWorkspaceView,
};

verus! {

/// A workspace before its texts are checked.
#[derive(Debug, Clone, PartialEq, Eq)]
pub struct NativeWorkspace {
    pub identity: Option<String>,
    pub name: String,
    pub position: Option<u32>,
    pub focused: bool,
    pub tiling: NativeTilingState,
}

/// What a `NativeWorkspace` stands for.
#[verifier::ext_equal]
pub struct NativeWorkspaceView {
    pub identity: Option<Seq<char>>,
    pub name: Seq<char>,
    pub position: Option<u32>,
    pub focused: bool,
    pub tiling: NativeTilingState,
}

impl View for NativeWorkspace {
    type V = NativeWorkspaceView;

    open spec fn view(&self) -> NativeWorkspaceView {
        NativeWorkspaceView {
            identity: self.identity.deep_view(),
            name: self.name.deep_view(),
            position: self.position.deep_view(),
            focused: self.focused.deep_view(),
            tiling: self.tiling.deep_view(),
        }
    }
}

impl DeepView for NativeWorkspace {
    type V = NativeWorkspaceView;

    open spec fn deep_view(&self) -> NativeWorkspaceView {
        self.view()
    }
}

impl Replicate for NativeWorkspace {
    fn replicate(&self) -> (r: Self) {
        NativeWorkspace {
            identity: self.identity.replicate(),
            name: self.name.replicate(),
            position: self.position.replicate(),
            focused: self.focused.replicate(),
            tiling: self.tiling.replicate(),
        }
    }
}

/// A window before its texts are checked.
#[derive(Debug, Clone, PartialEq, Eq)]
pub struct NativeWindow {
    pub identity: String,
    pub application: Option<String>,
    pub title: Option<String>,
    pub focused: bool,
    pub workspace_identities: Vec<String>,
}

/// What a `NativeWindow` stands for.
#[verifier::ext_equal]
pub struct NativeWindowView {
    pub identity: Seq<char>,
    pub application: Option<Seq<char>>,
    pub title: Option<Seq<char>>,
    pub focused: bool,
    pub workspace_identities: Seq<Seq<char>>,
}

impl View for NativeWindow {
    type V = NativeWindowView;

    open spec fn view(&self) -> NativeWindowView {
        NativeWindowView {
            identity: self.identity.deep_view(),
            application: self.application.deep_view(),
            title: self.title.deep_view(),
            focused: self.focused.deep_view(),
            workspace_identities: self.workspace_identities.deep_view(),
        }
    }
}

impl DeepView for NativeWindow {
    type V = NativeWindowView;

    open spec fn deep_view(&self) -> NativeWindowView {
        self.view()
    }
}

impl Replicate for NativeWindow {
    fn replicate(&self) -> (r: Self) {
        NativeWindow {
            identity: self.identity.replicate(),
            application: self.application.replicate(),
            title: self.title.replicate(),
            focused: self.focused.replicate(),
            workspace_identities: self.workspace_identities.replicate(),
        }
    }
}

/// The desktop before it is checked.
#[derive(Debug, Clone, PartialEq, Eq)]
pub struct NativeSnapshot {
    pub workspaces: Vec<NativeWorkspace>,
    pub windows: Vec<NativeWindow>,
}

/// What a `NativeSnapshot` stands for.
#[verifier::ext_equal]
pub struct NativeSnapshotView {
    pub workspaces: Seq<NativeWorkspaceView>,
    pub windows: Seq<NativeWindowView>,
}

impl View for NativeSnapshot {
    type V = NativeSnapshotView;

    open spec fn view(&self) -> NativeSnapshotView {
        NativeSnapshotView {
            workspaces: self.workspaces.deep_view(),
            windows: self.windows.deep_view(),
        }
    }
}

impl DeepView for NativeSnapshot {
    type V = NativeSnapshotView;

    open spec fn deep_view(&self) -> NativeSnapshotView {
        self.view()
    }
}

impl Default for NativeSnapshot {
    fn default() -> (r: Self)
        ensures
            r@ == (NativeSnapshotView { workspaces: Seq::empty(), windows: Seq::empty() }),
    {
        NativeSnapshot { workspaces: empty_list(), windows: empty_list() }
    }
}

impl Replicate for NativeSnapshot {
    fn replicate(&self) -> (r: Self) {
        NativeSnapshot {
            workspaces: self.workspaces.replicate(),
            windows: self.windows.replicate(),
        }
    }
}

// ---------------------------------------------------------------------------------------------
// What the protocol means
// ---------------------------------------------------------------------------------------------
pub open spec fn invalid_data(operation: Seq<char>, detail: Seq<char>) -> CosmicErrorView {
    CosmicErrorView::InvalidProtocolData { operation, detail }
}

/// A text that must be there, without control characters.
pub open spec fn required_text(value: Seq<char>, field: Seq<char>, operation: Seq<char>) -> Result<
    Seq<char>,
    CosmicErrorView,
> {
    if value.len() == 0 {
        Err(invalid_data(operation, field + " must not be empty"@))
    } else if has_control(value) {
        Err(invalid_data(operation, field + " contains a control character"@))
    } else {
        Ok(value)
    }
}

/// A text that may be missing; an empty one counts as missing.
pub open spec fn optional_text(
    value: Option<Seq<char>>,
    field: Seq<char>,
    operation: Seq<char>,
) -> Result<Option<Seq<char>>, CosmicErrorView> {
    match value {
        Some(text) if text.len() > 0 => match required_text(text, field, operation) {
            Ok(text) => Ok(Some(text)),
            Err(error) => Err(error),
        },
        _ => Ok(None),
    }
}

pub open spec fn tiling_known(tiling: NativeTilingState) -> Option<bool> {
    match tiling {
        NativeTilingState::Enabled => Some(true),
        NativeTilingState::FloatingOnly => Some(false),
        NativeTilingState::Unknown => None,
    }
}

/// What a workspace is known by: its identifier, and its name where it has none. The name must be
/// valid either way.
pub open spec fn protocol_identity(
    id: Option<Seq<char>>,
    name: Seq<char>,
    operation: Seq<char>,
) -> Result<Seq<char>, CosmicErrorView> {
    match required_text(name, "workspace name"@, operation) {
        Err(error) => Err(error),
        Ok(name) => match id {
            Some(identity) => required_text(identity, "workspace identity"@, operation),
            None => Ok(name),
        },
    }
}

/// A workspace, after those that come before it.
pub open spec fn native_workspace_read(
    earlier: Seq<DesktopWorkspaceSnapshotView>,
    workspace: NativeWorkspaceView,
    operation: Seq<char>,
) -> Result<DesktopWorkspaceSnapshotView, CosmicErrorView> {
    match protocol_identity(workspace.identity, workspace.name, operation) {
        Err(error) => Err(error),
        Ok(identity) => if has_workspace(earlier, identity) {
            Err(invalid_data(operation, "duplicate workspace identity '"@ + identity + "'"@))
        } else {
            Ok(
                DesktopWorkspaceSnapshotView {
                    identity,
                    name: Some(workspace.name),
                    position: workspace.position,
                    focused: workspace.focused,
                    tiling_enabled: tiling_known(workspace.tiling),
                },
            )
        },
    }
}

/// The workspaces, the first that is refused deciding.
pub open spec fn native_workspaces_read(
    workspaces: Seq<NativeWorkspaceView>,
    operation: Seq<char>,
) -> Result<Seq<DesktopWorkspaceSnapshotView>, CosmicErrorView>
    decreases workspaces.len(),
{
    if workspaces.len() == 0 {
        Ok(Seq::empty())
    } else {
        match native_workspaces_read(workspaces.drop_last(), operation) {
            Err(error) => Err(error),
            Ok(earlier) => match native_workspace_read(earlier, workspaces.last(), operation) {
                Err(error) => Err(error),
                Ok(workspace) => Ok(earlier.push(workspace)),
            },
        }
    }
}

/// A workspace that a window is in, after those that come before it.
pub open spec fn native_link_read(
    workspaces: Seq<DesktopWorkspaceSnapshotView>,
    window: Seq<char>,
    earlier: Seq<Seq<char>>,
    value: Seq<char>,
    operation: Seq<char>,
) -> Result<Seq<char>, CosmicErrorView> {
    match required_text(value, "window workspace identity"@, operation) {
        Err(error) => Err(error),
        Ok(identity) => if !has_workspace(workspaces, identity) {
            Err(
                invalid_data(
                    operation,
                    "window '"@ + window + "' references unknown workspace '"@ + identity + "'"@,
                ),
            )
        } else if earlier.contains(identity) {
            Err(
                invalid_data(
                    operation,
                    "window '"@ + window + "' contains a duplicate workspace association '"@
                        + identity + "'"@,
                ),
            )
        } else {
            Ok(identity)
        },
    }
}

/// The workspaces that a window is in: each known, and none twice.
pub open spec fn native_links_read(
    workspaces: Seq<DesktopWorkspaceSnapshotView>,
    window: Seq<char>,
    values: Seq<Seq<char>>,
    operation: Seq<char>,
) -> Result<Seq<Seq<char>>, CosmicErrorView>
    decreases values.len(),
{
    if values.len() == 0 {
        Ok(Seq::empty())
    } else {
        match native_links_read(workspaces, window, values.drop_last(), operation) {
            Err(error) => Err(error),
            Ok(earlier) => match native_link_read(
                workspaces,
                window,
                earlier,
                values.last(),
                operation,
            ) {
                Err(error) => Err(error),
                Ok(identity) => Ok(earlier.push(identity)),
            },
        }
    }
}

/// A window, after those that come before it. It is in a workspace where it lists exactly one.
pub open spec fn native_window_read(
    workspaces: Seq<DesktopWorkspaceSnapshotView>,
    earlier: Seq<DesktopWindowSnapshotView>,
    window: NativeWindowView,
    operation: Seq<char>,
) -> Result<DesktopWindowSnapshotView, CosmicErrorView> {
    match required_text(window.identity, "window identity"@, operation) {
        Err(error) => Err(error),
        Ok(identity) => if has_window(earlier, identity) {
            Err(invalid_data(operation, "duplicate window identity '"@ + identity + "'"@))
        } else {
            match optional_text(window.application, "application ID"@, operation) {
                Err(error) => Err(error),
                Ok(application) => match optional_text(
                    window.title,
                    "window title"@,
                    operation,
                ) {
                    Err(error) => Err(error),
                    Ok(title) => match native_links_read(
                        workspaces,
                        identity,
                        window.workspace_identities,
                        operation,
                    ) {
                        Err(error) => Err(error),
                        Ok(links) => Ok(
                            DesktopWindowSnapshotView {
                                identity,
                                application,
                                title,
                                project_path: None,
                                workspace_identity: if links.len() == 1 {
                                    Some(links[0])
                                } else {
                                    None
                                },
                                focused: window.focused,
                            },
                        ),
                    },
                },
            }
        },
    }
}

/// The windows, the first that is refused deciding.
pub open spec fn native_windows_read(
    workspaces: Seq<DesktopWorkspaceSnapshotView>,
    windows: Seq<NativeWindowView>,
    operation: Seq<char>,
) -> Result<Seq<DesktopWindowSnapshotView>, CosmicErrorView>
    decreases windows.len(),
{
    if windows.len() == 0 {
        Ok(Seq::empty())
    } else {
        match native_windows_read(workspaces, windows.drop_last(), operation) {
            Err(error) => Err(error),
            Ok(earlier) => match native_window_read(
                workspaces,
                earlier,
                windows.last(),
                operation,
            ) {
                Err(error) => Err(error),
                Ok(window) => Ok(earlier.push(window)),
            },
        }
    }
}

/// The desktop, where everything about it is valid.
pub open spec fn native_snapshot_read(native: NativeSnapshotView, operation: Seq<char>) -> Result<
    DesktopSnapshotView,
    CosmicErrorView,
> {
    match native_workspaces_read(native.workspaces, operation) {
        Err(error) => Err(error),
        Ok(workspaces) => match native_windows_read(workspaces, native.windows, operation) {
            Err(error) => Err(error),
            Ok(windows) => Ok(DesktopSnapshotView { workspaces, windows }),
        },
    }
}

/// What each workspace is known by, the first that is refused deciding.
pub open spec fn identities_read(workspaces: Seq<ProtocolWorkspaceView>, operation: Seq<char>) -> Result<
    Seq<Seq<char>>,
    CosmicErrorView,
>
    decreases workspaces.len(),
{
    if workspaces.len() == 0 {
        Ok(Seq::empty())
    } else {
        match identities_read(workspaces.drop_last(), operation) {
            Err(error) => Err(error),
            Ok(earlier) => match protocol_identity(
                workspaces.last().id,
                workspaces.last().name,
                operation,
            ) {
                Err(error) => Err(error),
                Ok(identity) => Ok(earlier.push(identity)),
            },
        }
    }
}

/// What the workspace with a handle is known by.
pub open spec fn handle_identity(
    workspaces: Seq<ProtocolWorkspaceView>,
    identities: Seq<Seq<char>>,
    handle: u64,
) -> Option<Seq<char>>
    decreases workspaces.len(),
{
    if workspaces.len() == 0 || identities.len() == 0 {
        None
    } else if workspaces.last().handle == handle {
        Some(identities.last())
    } else {
        handle_identity(workspaces.drop_last(), identities.drop_last(), handle)
    }
}

/// What the workspaces with the handles are known by, the first that is unknown deciding.
pub open spec fn handles_read(
    workspaces: Seq<ProtocolWorkspaceView>,
    identities: Seq<Seq<char>>,
    window: Seq<char>,
    handles: Seq<u64>,
    operation: Seq<char>,
) -> Result<Seq<Seq<char>>, CosmicErrorView>
    decreases handles.len(),
{
    if handles.len() == 0 {
        Ok(Seq::empty())
    } else {
        match handles_read(workspaces, identities, window, handles.drop_last(), operation) {
            Err(error) => Err(error),
            Ok(earlier) => match handle_identity(workspaces, identities, handles.last()) {
                None => Err(
                    invalid_data(
                        operation,
                        "window '"@ + window
                            + "' references a workspace that is absent from the workspace list"@,
                    ),
                ),
                Some(identity) => Ok(earlier.push(identity)),
            },
        }
    }
}

/// A workspace of the protocol.
pub open spec fn native_workspace(workspace: ProtocolWorkspaceView) -> NativeWorkspaceView {
    NativeWorkspaceView {
        identity: workspace.id,
        name: workspace.name,
        position: if workspace.coordinates.len() > 0 {
            Some(workspace.coordinates[0])
        } else {
            None
        },
        focused: workspace.active,
        tiling: workspace.tiling,
    }
}

/// A window of the protocol.
pub open spec fn native_window(
    workspaces: Seq<ProtocolWorkspaceView>,
    identities: Seq<Seq<char>>,
    toplevel: ProtocolToplevelView,
    operation: Seq<char>,
) -> Result<NativeWindowView, CosmicErrorView> {
    match handles_read(
        workspaces,
        identities,
        toplevel.identifier,
        toplevel.workspaces,
        operation,
    ) {
        Err(error) => Err(error),
        Ok(workspace_identities) => match optional_text(
            Some(toplevel.app_id),
            "application ID"@,
            operation,
        ) {
            Err(error) => Err(error),
            Ok(application) => match optional_text(
                Some(toplevel.title),
                "window title"@,
                operation,
            ) {
                Err(error) => Err(error),
                Ok(title) => Ok(
                    NativeWindowView {
                        identity: toplevel.identifier,
                        application,
                        title,
                        focused: toplevel.activated,
                        workspace_identities,
                    },
                ),
            },
        },
    }
}

/// The windows of the protocol, the first that is refused deciding.
pub open spec fn native_windows(
    workspaces: Seq<ProtocolWorkspaceView>,
    identities: Seq<Seq<char>>,
    toplevels: Seq<ProtocolToplevelView>,
    operation: Seq<char>,
) -> Result<Seq<NativeWindowView>, CosmicErrorView>
    decreases toplevels.len(),
{
    if toplevels.len() == 0 {
        Ok(Seq::empty())
    } else {
        match native_windows(workspaces, identities, toplevels.drop_last(), operation) {
            Err(error) => Err(error),
            Ok(earlier) => match native_window(
                workspaces,
                identities,
                toplevels.last(),
                operation,
            ) {
                Err(error) => Err(error),
                Ok(window) => Ok(earlier.push(window)),
            },
        }
    }
}

/// What reading the desktop needs of a session, in the order of the checks.
pub open spec fn snapshot_capabilities(capabilities: ReadCapabilities, operation: Seq<char>) -> Result<
    (),
    CosmicErrorView,
> {
    match read_checked(capabilities, ReadCapability::WorkspaceEnumeration, operation) {
        Err(error) => Err(error),
        Ok(_) => match read_checked(
            capabilities,
            ReadCapability::ForeignToplevelEnumeration,
            operation,
        ) {
            Err(error) => Err(error),
            Ok(_) => match read_checked(
                capabilities,
                ReadCapability::CosmicToplevelInformation,
                operation,
            ) {
                Err(error) => Err(error),
                Ok(_) => match read_checked(
                    capabilities,
                    ReadCapability::AvailableSeats,
                    operation,
                ) {
                    Err(error) => Err(error),
                    Ok(_) => read_checked(
                        capabilities,
                        ReadCapability::TargetWorkspaceOutputAssociation,
                        operation,
                    ),
                },
            },
        },
    }
}

/// The desktop that a session has learned of.
pub open spec fn session_snapshot(state: CosmicReadStateView, operation: Seq<char>) -> Result<
    DesktopSnapshotView,
    CosmicErrorView,
> {
    match snapshot_capabilities(state.capabilities, operation) {
        Err(error) => Err(error),
        Ok(_) => match identities_read(state.workspaces, operation) {
            Err(error) => Err(error),
            Ok(identities) => match native_windows(
                state.workspaces,
                identities,
                state.toplevels,
                operation,
            ) {
                Err(error) => Err(error),
                Ok(windows) => native_snapshot_read(
                    NativeSnapshotView {
                        workspaces: state.workspaces.map_values(
                            |workspace: ProtocolWorkspaceView| native_workspace(workspace),
                        ),
                        windows,
                    },
                    operation,
                ),
            },
        },
    }
}

// ---------------------------------------------------------------------------------------------
// Reading
// ---------------------------------------------------------------------------------------------
fn invalid_protocol_data(operation: &str, detail: String) -> (r: CosmicError)
    ensures
        r@ == invalid_data(operation@, detail@),
{
    CosmicError::InvalidProtocolData { operation: operation.to_owned(), detail }
}

fn required_protocol_text(value: &str, field: &str, operation: &str) -> (r: Result<
    String,
    CosmicError,
>)
    ensures
        seen_native(r) == required_text(value@, field@, operation@),
{
    if value.is_empty() {
        return Err(invalid_protocol_data(operation, join2(field, " must not be empty")));
    }
    if text_has_control(value) {
        return Err(invalid_protocol_data(operation, join2(field, " contains a control character")));
    }
    Ok(value.to_owned())
}

fn optional_protocol_text(value: Option<&str>, field: &str, operation: &str) -> (r: Result<
    Option<String>,
    CosmicError,
>)
    ensures
        seen_native(r) == optional_text(value.deep_view(), field@, operation@),
{
    match value {
        None => Ok(None),
        Some(text) => if text.is_empty() {
            Ok(None)
        } else {
            match required_protocol_text(text, field, operation) {
                Ok(text) => Ok(Some(text)),
                Err(error) => Err(error),
            }
        },
    }
}

/// What a workspace is known by.
pub fn protocol_workspace_identity(id: &Option<String>, name: &str, operation: &str) -> (r: Result<
    String,
    CosmicError,
>)
    ensures
        seen_native(r) == protocol_identity(id.deep_view(), name@, operation@),
{
    let name = match required_protocol_text(name, "workspace name", operation) {
        Err(error) => {
            return Err(error);
        },
        Ok(name) => name,
    };
    match id {
        Some(identity) => required_protocol_text(
            identity.as_str(),
            "workspace identity",
            operation,
        ),
        None => Ok(name),
    }
}

fn read_native_workspaces(workspaces: &Vec<NativeWorkspace>, operation: &str) -> (r: Result<
    Vec<DesktopWorkspaceSnapshot>,
    CosmicError,
>)
    ensures
        seen_native(r) == native_workspaces_read(workspaces.deep_view(), operation@),
{
    let mut result: Result<Vec<DesktopWorkspaceSnapshot>, CosmicError> = Ok(empty_list());
    let mut i: usize = 0;
    let ghost all = workspaces.deep_view();
    assert(all.take(0) =~= Seq::<NativeWorkspaceView>::empty());
    while i < workspaces.len()
        invariant
            i <= workspaces@.len(),
            all == workspaces.deep_view(),
            seen_native(result) == native_workspaces_read(all.take(i as int), operation@),
        decreases workspaces@.len() - i,
    {
        assert(all[i as int] == workspaces@[i as int]@);
        assert(all.take(i as int + 1).drop_last() =~= all.take(i as int));
        result = match result {
            Err(error) => Err(error),
            Ok(earlier) => match read_native_workspace(&earlier, &workspaces[i], operation) {
                Err(error) => Err(error),
                Ok(workspace) => {
                    let mut read = earlier;
                    append(&mut read, workspace);
                    Ok(read)
                },
            },
        };
        i = i + 1;
    }
    assert(all.take(i as int) =~= all);
    result
}

fn read_native_workspace(
    earlier: &Vec<DesktopWorkspaceSnapshot>,
    workspace: &NativeWorkspace,
    operation: &str,
) -> (r: Result<DesktopWorkspaceSnapshot, CosmicError>)
    ensures
        seen_native(r) == native_workspace_read(earlier.deep_view(), workspace@, operation@),
{
    match protocol_workspace_identity(&workspace.identity, workspace.name.as_str(), operation) {
        Err(error) => Err(error),
        Ok(identity) => if lists_workspace(earlier, identity.as_str()) {
            Err(
                invalid_protocol_data(
                    operation,
                    join3("duplicate workspace identity '", identity.as_str(), "'"),
                ),
            )
        } else {
            Ok(
                DesktopWorkspaceSnapshot {
                    identity,
                    name: Some(workspace.name.clone()),
                    position: workspace.position,
                    focused: workspace.focused,
                    tiling_enabled: match workspace.tiling {
                        NativeTilingState::Enabled => Some(true),
                        NativeTilingState::FloatingOnly => Some(false),
                        NativeTilingState::Unknown => None,
                    },
                },
            )
        },
    }
}

fn read_native_link(
    workspaces: &Vec<DesktopWorkspaceSnapshot>,
    window: &str,
    earlier: &Vec<String>,
    value: &str,
    operation: &str,
) -> (r: Result<String, CosmicError>)
    ensures
        seen_native(r) == native_link_read(
            workspaces.deep_view(),
            window@,
            earlier.deep_view(),
            value@,
            operation@,
        ),
{
    match required_protocol_text(value, "window workspace identity", operation) {
        Err(error) => Err(error),
        Ok(identity) => if !lists_workspace(workspaces, identity.as_str()) {
            Err(
                invalid_protocol_data(
                    operation,
                    join5(
                        "window '",
                        window,
                        "' references unknown workspace '",
                        identity.as_str(),
                        "'",
                    ),
                ),
            )
        } else if list_holds(earlier, &identity) {
            Err(
                invalid_protocol_data(
                    operation,
                    join5(
                        "window '",
                        window,
                        "' contains a duplicate workspace association '",
                        identity.as_str(),
                        "'",
                    ),
                ),
            )
        } else {
            Ok(identity)
        },
    }
}

fn read_native_links(
    workspaces: &Vec<DesktopWorkspaceSnapshot>,
    window: &str,
    values: &Vec<String>,
    operation: &str,
) -> (r: Result<Vec<String>, CosmicError>)
    ensures
        seen_native(r) == native_links_read(
            workspaces.deep_view(),
            window@,
            values.deep_view(),
            operation@,
        ),
{
    let mut result: Result<Vec<String>, CosmicError> = Ok(empty_list());
    let mut i: usize = 0;
    let ghost all = values.deep_view();
    assert(all.take(0) =~= Seq::<Seq<char>>::empty());
    while i < values.len()
        invariant
            i <= values@.len(),
            all == values.deep_view(),
            seen_native(result) == native_links_read(
                workspaces.deep_view(),
                window@,
                all.take(i as int),
                operation@,
            ),
        decreases values@.len() - i,
    {
        assert(all[i as int] == values@[i as int]@);
        assert(all.take(i as int + 1).drop_last() =~= all.take(i as int));
        result = match result {
            Err(error) => Err(error),
            Ok(earlier) => match read_native_link(
                workspaces,
                window,
                &earlier,
                values[i].as_str(),
                operation,
            ) {
                Err(error) => Err(error),
                Ok(identity) => {
                    let mut links = earlier;
                    append(&mut links, identity);
                    Ok(links)
                },
            },
        };
        i = i + 1;
    }
    assert(all.take(i as int) =~= all);
    result
}

fn text_seen(value: &Option<String>) -> (r: Option<&str>)
    ensures
        r.deep_view() == value.deep_view(),
{
    match value {
        Some(text) => Some(text.as_str()),
        None => None,
    }
}

fn read_native_window(
    workspaces: &Vec<DesktopWorkspaceSnapshot>,
    earlier: &Vec<DesktopWindowSnapshot>,
    window: &NativeWindow,
    operation: &str,
) -> (r: Result<DesktopWindowSnapshot, CosmicError>)
    ensures
        seen_native(r) == native_window_read(
            workspaces.deep_view(),
            earlier.deep_view(),
            window@,
            operation@,
        ),
{
    let identity = match required_protocol_text(
        window.identity.as_str(),
        "window identity",
        operation,
    ) {
        Err(error) => {
            return Err(error);
        },
        Ok(identity) => identity,
    };
    if lists_window(earlier, identity.as_str()) {
        return Err(
            invalid_protocol_data(
                operation,
                join3("duplicate window identity '", identity.as_str(), "'"),
            ),
        );
    }
    let application = match optional_protocol_text(
        text_seen(&window.application),
        "application ID",
        operation,
    ) {
        Err(error) => {
            return Err(error);
        },
        Ok(application) => application,
    };
    let title = match optional_protocol_text(text_seen(&window.title), "window title", operation) {
        Err(error) => {
            return Err(error);
        },
        Ok(title) => title,
    };
    let links = match read_native_links(
        workspaces,
        identity.as_str(),
        &window.workspace_identities,
        operation,
    ) {
        Err(error) => {
            return Err(error);
        },
        Ok(links) => links,
    };
    let workspace_identity = if links.len() == 1 {
        assert(links.deep_view()[0] == links@[0]@);
        Some(links[0].clone())
    } else {
        None
    };
    Ok(
        DesktopWindowSnapshot {
            identity,
            application,
            title,
            project_path: None,
            workspace_identity,
            focused: window.focused,
        },
    )
}

fn read_native_windows(
    workspaces: &Vec<DesktopWorkspaceSnapshot>,
    windows: &Vec<NativeWindow>,
    operation: &str,
) -> (r: Result<Vec<DesktopWindowSnapshot>, CosmicError>)
    ensures
        seen_native(r) == native_windows_read(
            workspaces.deep_view(),
            windows.deep_view(),
            operation@,
        ),
{
    let mut result: Result<Vec<DesktopWindowSnapshot>, CosmicError> = Ok(empty_list());
    let mut i: usize = 0;
    let ghost all = windows.deep_view();
    assert(all.take(0) =~= Seq::<NativeWindowView>::empty());
    while i < windows.len()
        invariant
            i <= windows@.len(),
            all == windows.deep_view(),
            seen_native(result) == native_windows_read(
                workspaces.deep_view(),
                all.take(i as int),
                operation@,
            ),
        decreases windows@.len() - i,
    {
        assert(all[i as int] == windows@[i as int]@);
        assert(all.take(i as int + 1).drop_last() =~= all.take(i as int));
        result = match result {
            Err(error) => Err(error),
            Ok(earlier) => match read_native_window(workspaces, &earlier, &windows[i], operation) {
                Err(error) => Err(error),
                Ok(window) => {
                    let mut read = earlier;
                    append(&mut read, window);
                    Ok(read)
                },
            },
        };
        i = i + 1;
    }
    assert(all.take(i as int) =~= all);
    result
}

fn from_native_snapshot_for_operation(native: &NativeSnapshot, operation: &str) -> (r: Result<
    DesktopSnapshot,
    CosmicError,
>)
    ensures
        seen_native(r) == native_snapshot_read(native@, operation@),
{
    match read_native_workspaces(&native.workspaces, operation) {
        Err(error) => Err(error),
        Ok(workspaces) => match read_native_windows(&workspaces, &native.windows, operation) {
            Err(error) => Err(error),
            Ok(windows) => Ok(DesktopSnapshot { workspaces, windows }),
        },
    }
}

/// The desktop that is observed, where everything about it is valid.
pub fn from_native_snapshot(native: NativeSnapshot) -> (r: Result<DesktopSnapshot, CosmicError>)
    ensures
        seen_native(r) == native_snapshot_read(native@, "observe"@),
{
    from_native_snapshot_for_operation(&native, "observe")
}

/// What each workspace is known by.
pub fn workspace_identities(workspaces: &Vec<ProtocolWorkspace>, operation: &str) -> (r: Result<
    Vec<String>,
    CosmicError,
>)
    ensures
        seen_native(r) == identities_read(workspaces.deep_view(), operation@),
{
    let mut result: Result<Vec<String>, CosmicError> = Ok(empty_list());
    let mut i: usize = 0;
    let ghost all = workspaces.deep_view();
    assert(all.take(0) =~= Seq::<ProtocolWorkspaceView>::empty());
    while i < workspaces.len()
        invariant
            i <= workspaces@.len(),
            all == workspaces.deep_view(),
            seen_native(result) == identities_read(all.take(i as int), operation@),
        decreases workspaces@.len() - i,
    {
        assert(all[i as int] == workspaces@[i as int]@);
        assert(all.take(i as int + 1).drop_last() =~= all.take(i as int));
        result = match result {
            Err(error) => Err(error),
            Ok(earlier) => match protocol_workspace_identity(
                &workspaces[i].id,
                workspaces[i].name.as_str(),
                operation,
            ) {
                Err(error) => Err(error),
                Ok(identity) => {
                    let mut read = earlier;
                    append(&mut read, identity);
                    Ok(read)
                },
            },
        };
        i = i + 1;
    }
    assert(all.take(i as int) =~= all);
    result
}

/// Every workspace is known by something, where none was refused.
pub proof fn lemma_identities_read(workspaces: Seq<ProtocolWorkspaceView>, operation: Seq<char>)
    ensures
        identities_read(workspaces, operation) matches Ok(identities) ==> identities.len()
            == workspaces.len() && forall|i: int|
            0 <= i < workspaces.len() ==> protocol_identity(
                (#[trigger] workspaces[i]).id,
                workspaces[i].name,
                operation,
            ) == Ok::<Seq<char>, CosmicErrorView>(identities[i]),
    decreases workspaces.len(),
{
    if workspaces.len() > 0 {
        lemma_identities_read(workspaces.drop_last(), operation);
        let earlier = workspaces.drop_last();
        if let Ok(identities) = identities_read(workspaces, operation) {
            assert forall|i: int| 0 <= i < workspaces.len() implies protocol_identity(
                (#[trigger] workspaces[i]).id,
                workspaces[i].name,
                operation,
            ) == Ok::<Seq<char>, CosmicErrorView>(identities[i]) by {
                if i < earlier.len() {
                    assert(earlier[i] == workspaces[i]);
                }
            }
        }
    }
}

fn identity_of_handle(
    workspaces: &Vec<ProtocolWorkspace>,
    identities: &Vec<String>,
    handle: u64,
) -> (r: Option<String>)
    requires
        identities@.len() == workspaces@.len(),
    ensures
        r.deep_view() == handle_identity(workspaces.deep_view(), identities.deep_view(), handle),
{
    let mut i: usize = workspaces.len();
    let ghost all = workspaces.deep_view();
    let ghost texts = identities.deep_view();
    assert(all.take(i as int) =~= all);
    assert(texts.take(i as int) =~= texts);
    while i > 0
        invariant
            i <= workspaces@.len(),
            identities@.len() == workspaces@.len(),
            all == workspaces.deep_view(),
            texts == identities.deep_view(),
            handle_identity(all, texts, handle) == handle_identity(
                all.take(i as int),
                texts.take(i as int),
                handle,
            ),
        decreases i,
    {
        let ghost before = i as int;
        assert(all.take(before).drop_last() =~= all.take(before - 1));
        assert(texts.take(before).drop_last() =~= texts.take(before - 1));
        i = i - 1;
        assert(all[i as int] == workspaces@[i as int]@);
        assert(texts[i as int] == identities@[i as int]@);
        if workspaces[i].handle == handle {
            return Some(identities[i].clone());
        }
    }
    None
}

fn read_handles(
    workspaces: &Vec<ProtocolWorkspace>,
    identities: &Vec<String>,
    window: &str,
    handles: &Vec<u64>,
    operation: &str,
) -> (r: Result<Vec<String>, CosmicError>)
    requires
        identities@.len() == workspaces@.len(),
    ensures
        seen_native(r) == handles_read(
            workspaces.deep_view(),
            identities.deep_view(),
            window@,
            handles.deep_view(),
            operation@,
        ),
{
    let mut result: Result<Vec<String>, CosmicError> = Ok(empty_list());
    let mut i: usize = 0;
    let ghost all = handles.deep_view();
    assert(all =~= handles@);
    assert(all.take(0) =~= Seq::<u64>::empty());
    while i < handles.len()
        invariant
            i <= handles@.len(),
            identities@.len() == workspaces@.len(),
            all == handles.deep_view(),
            all == handles@,
            seen_native(result) == handles_read(
                workspaces.deep_view(),
                identities.deep_view(),
                window@,
                all.take(i as int),
                operation@,
            ),
        decreases handles@.len() - i,
    {
        assert(all.take(i as int + 1).drop_last() =~= all.take(i as int));
        result = match result {
            Err(error) => Err(error),
            Ok(earlier) => match identity_of_handle(workspaces, identities, handles[i]) {
                None => Err(
                    invalid_protocol_data(
                        operation,
                        join3(
                            "window '",
                            window,
                            "' references a workspace that is absent from the workspace list",
                        ),
                    ),
                ),
                Some(identity) => {
                    let mut read = earlier;
                    append(&mut read, identity);
                    Ok(read)
                },
            },
        };
        i = i + 1;
    }
    assert(all.take(i as int) =~= all);
    result
}

fn to_native_window(
    workspaces: &Vec<ProtocolWorkspace>,
    identities: &Vec<String>,
    toplevel: &ProtocolToplevel,
    operation: &str,
) -> (r: Result<NativeWindow, CosmicError>)
    requires
        identities@.len() == workspaces@.len(),
    ensures
        seen_native(r) == native_window(
            workspaces.deep_view(),
            identities.deep_view(),
            toplevel@,
            operation@,
        ),
{
    let workspace_identities = match read_handles(
        workspaces,
        identities,
        toplevel.identifier.as_str(),
        &toplevel.workspaces,
        operation,
    ) {
        Err(error) => {
            return Err(error);
        },
        Ok(identities) => identities,
    };
    let application = match optional_protocol_text(
        Some(toplevel.app_id.as_str()),
        "application ID",
        operation,
    ) {
        Err(error) => {
            return Err(error);
        },
        Ok(application) => application,
    };
    let title = match optional_protocol_text(
        Some(toplevel.title.as_str()),
        "window title",
        operation,
    ) {
        Err(error) => {
            return Err(error);
        },
        Ok(title) => title,
    };
    Ok(
        NativeWindow {
            identity: toplevel.identifier.clone(),
            application,
            title,
            focused: toplevel.activated,
            workspace_identities,
        },
    )
}

fn to_native_windows(
    workspaces: &Vec<ProtocolWorkspace>,
    identities: &Vec<String>,
    toplevels: &Vec<ProtocolToplevel>,
    operation: &str,
) -> (r: Result<Vec<NativeWindow>, CosmicError>)
    requires
        identities@.len() == workspaces@.len(),
    ensures
        seen_native(r) == native_windows(
            workspaces.deep_view(),
            identities.deep_view(),
            toplevels.deep_view(),
            operation@,
        ),
{
    let mut result: Result<Vec<NativeWindow>, CosmicError> = Ok(empty_list());
    let mut i: usize = 0;
    let ghost all = toplevels.deep_view();
    assert(all.take(0) =~= Seq::<ProtocolToplevelView>::empty());
    while i < toplevels.len()
        invariant
            i <= toplevels@.len(),
            identities@.len() == workspaces@.len(),
            all == toplevels.deep_view(),
            seen_native(result) == native_windows(
                workspaces.deep_view(),
                identities.deep_view(),
                all.take(i as int),
                operation@,
            ),
        decreases toplevels@.len() - i,
    {
        assert(all[i as int] == toplevels@[i as int]@);
        assert(all.take(i as int + 1).drop_last() =~= all.take(i as int));
        result = match result {
            Err(error) => Err(error),
            Ok(earlier) => match to_native_window(workspaces, identities, &toplevels[i], operation) {
                Err(error) => Err(error),
                Ok(window) => {
                    let mut read = earlier;
                    append(&mut read, window);
                    Ok(read)
                },
            },
        };
        i = i + 1;
    }
    assert(all.take(i as int) =~= all);
    result
}

fn to_native_workspaces(workspaces: &Vec<ProtocolWorkspace>) -> (r: Vec<NativeWorkspace>)
    ensures
        r.deep_view() == workspaces.deep_view().map_values(
            |workspace: ProtocolWorkspaceView| native_workspace(workspace),
        ),
{
    let mut read: Vec<NativeWorkspace> = empty_list();
    let mut i: usize = 0;
    let ghost all = workspaces.deep_view();
    let ghost convert = |workspace: ProtocolWorkspaceView| native_workspace(workspace);
    assert(all.take(0).map_values(convert) =~= Seq::<NativeWorkspaceView>::empty());
    while i < workspaces.len()
        invariant
            i <= workspaces@.len(),
            all == workspaces.deep_view(),
            convert == (|workspace: ProtocolWorkspaceView| native_workspace(workspace)),
            read.deep_view() == all.take(i as int).map_values(convert),
        decreases workspaces@.len() - i,
    {
        let workspace = &workspaces[i];
        assert(all[i as int] == workspaces@[i as int]@);
        assert(workspace.coordinates.deep_view() =~= workspace.coordinates@);
        let position = if workspace.coordinates.len() > 0 {
            Some(workspace.coordinates[0])
        } else {
            None
        };
        append(
            &mut read,
            NativeWorkspace {
                identity: workspace.id.replicate(),
                name: workspace.name.clone(),
                position,
                focused: workspace.active,
                tiling: workspace.tiling,
            },
        );
        assert(all.take(i as int + 1).map_values(convert) =~= all.take(i as int).map_values(
            convert,
        ).push(convert(all[i as int])));
        i = i + 1;
    }
    assert(all.take(i as int) =~= all);
    read
}

fn require_snapshot_capabilities(capabilities: ReadCapabilities, operation: &str) -> (r: Result<
    (),
    CosmicError,
>)
    ensures
        seen_native(r) == snapshot_capabilities(capabilities, operation@),
{
    if let Err(error) = require_read_capability(
        capabilities,
        ReadCapability::WorkspaceEnumeration,
        operation,
    ) {
        return Err(error);
    }
    if let Err(error) = require_read_capability(
        capabilities,
        ReadCapability::ForeignToplevelEnumeration,
        operation,
    ) {
        return Err(error);
    }
    if let Err(error) = require_read_capability(
        capabilities,
        ReadCapability::CosmicToplevelInformation,
        operation,
    ) {
        return Err(error);
    }
    if let Err(error) = require_read_capability(
        capabilities,
        ReadCapability::AvailableSeats,
        operation,
    ) {
        return Err(error);
    }
    require_read_capability(
        capabilities,
        ReadCapability::TargetWorkspaceOutputAssociation,
        operation,
    )
}

/// The desktop that a session has learned of.
pub fn from_wayland_state_for_operation(state: &CosmicReadState, operation: &str) -> (r: Result<
    DesktopSnapshot,
    CosmicError,
>)
    ensures
        seen_native(r) == session_snapshot(state@, operation@),
{
    if let Err(error) = require_snapshot_capabilities(state.capabilities, operation) {
        return Err(error);
    }
    let identities = match workspace_identities(&state.workspaces, operation) {
        Err(error) => {
            return Err(error);
        },
        Ok(identities) => identities,
    };
    proof {
        lemma_identities_read(state.workspaces.deep_view(), operation@);
        assert(identities.deep_view().len() == identities@.len());
        assert(state.workspaces.deep_view().len() == state.workspaces@.len());
    }
    let windows = match to_native_windows(
        &state.workspaces,
        &identities,
        &state.toplevels,
        operation,
    ) {
        Err(error) => {
            return Err(error);
        },
        Ok(windows) => windows,
    };
    let native = NativeSnapshot { workspaces: to_native_workspaces(&state.workspaces), windows };
    from_native_snapshot_for_operation(&native, operation)
}

/// The desktop that is observed.
pub fn from_wayland_state(state: &CosmicReadState) -> (r: Result<DesktopSnapshot, CosmicError>)
    ensures
        seen_native(r) == session_snapshot(state@, "observe"@),
{
    from_wayland_state_for_operation(state, "observe")
}

// ---------------------------------------------------------------------------------------------
// Laws
// ---------------------------------------------------------------------------------------------
proof fn lemma_native_workspaces_distinct(workspaces: Seq<NativeWorkspaceView>, operation: Seq<char>)
    ensures
        native_workspaces_read(workspaces, operation) matches Ok(read) ==> read.len()
            == workspaces.len() && distinct_workspaces(read) && forall|i: int|
            0 <= i < read.len() ==> (#[trigger] read[i]).identity.len() > 0 && !has_control(
                read[i].identity,
            ),
    decreases workspaces.len(),
{
    if workspaces.len() > 0 {
        lemma_native_workspaces_distinct(workspaces.drop_last(), operation);
    }
}

proof fn lemma_native_links_known(
    workspaces: Seq<DesktopWorkspaceSnapshotView>,
    window: Seq<char>,
    values: Seq<Seq<char>>,
    operation: Seq<char>,
)
    ensures
        native_links_read(workspaces, window, values, operation) matches Ok(links) ==> forall|i: int|
            0 <= i < links.len() ==> has_workspace(workspaces, #[trigger] links[i]),
    decreases values.len(),
{
    if values.len() > 0 {
        lemma_native_links_known(workspaces, window, values.drop_last(), operation);
    }
}

proof fn lemma_native_windows_distinct(
    workspaces: Seq<DesktopWorkspaceSnapshotView>,
    windows: Seq<NativeWindowView>,
    operation: Seq<char>,
)
    ensures
        native_windows_read(workspaces, windows, operation) matches Ok(read) ==> read.len()
            == windows.len() && distinct_windows(read) && windows_placed(workspaces, read)
            && forall|i: int|
            0 <= i < read.len() ==> (#[trigger] read[i]).identity.len() > 0 && !has_control(
                read[i].identity,
            ),
    decreases windows.len(),
{
    if windows.len() > 0 {
        lemma_native_windows_distinct(workspaces, windows.drop_last(), operation);
        lemma_native_links_known(
            workspaces,
            windows.last().identity,
            windows.last().workspace_identities,
            operation,
        );
    }
}

/// A desktop that was accepted is consistent: nothing is lost, no two workspaces and no two windows
/// share an identity, no identity is empty or holds a control character, and no window is in a
/// workspace that is not there.
pub proof fn law_native_snapshot_is_consistent(native: NativeSnapshotView, operation: Seq<char>)
    ensures
        native_snapshot_read(native, operation) matches Ok(snapshot) ==> snapshot.workspaces.len()
            == native.workspaces.len() && snapshot.windows.len() == native.windows.len()
            && distinct_workspaces(snapshot.workspaces) && distinct_windows(snapshot.windows)
            && windows_placed(snapshot.workspaces, snapshot.windows) && (forall|i: int|
            0 <= i < snapshot.workspaces.len() ==> (#[trigger] snapshot.workspaces[i]).identity.len()
                > 0 && !has_control(snapshot.workspaces[i].identity)) && forall|i: int|
            0 <= i < snapshot.windows.len() ==> (#[trigger] snapshot.windows[i]).identity.len() > 0
                && !has_control(snapshot.windows[i].identity),
{
    lemma_native_workspaces_distinct(native.workspaces, operation);
    if let Ok(workspaces) = native_workspaces_read(native.workspaces, operation) {
        lemma_native_windows_distinct(workspaces, native.windows, operation);
    }
}

/// A window stands in a session's desktop as the protocol reported it: under its identifier, with its
/// application and title where they are not empty, and in the workspace of its handle where it has just
/// one.
pub open spec fn window_shown(
    workspaces: Seq<ProtocolWorkspaceView>,
    toplevel: ProtocolToplevelView,
    window: DesktopWindowSnapshotView,
) -> bool {
    &&& window.identity == toplevel.identifier
    &&& window.application == if toplevel.app_id.len() > 0 {
        Some(toplevel.app_id)
    } else {
        None
    }
    &&& window.title == if toplevel.title.len() > 0 {
        Some(toplevel.title)
    } else {
        None
    }
    &&& window.focused == toplevel.activated
    &&& window.project_path is None
    &&& if toplevel.workspaces.len() == 1 {
        exists|k: int|
            0 <= k < workspaces.len() && (#[trigger] workspaces[k]).handle == toplevel.workspaces[0]
                && window.workspace_identity == Some(known_as(workspaces[k]))
    } else {
        window.workspace_identity is None
    }
}

/// A workspace stands in a session's desktop as the protocol reported it.
pub open spec fn workspace_shown(
    reported: ProtocolWorkspaceView,
    workspace: DesktopWorkspaceSnapshotView,
) -> bool {
    &&& workspace.identity == known_as(reported)
    &&& workspace.name == Some(reported.name)
    &&& workspace.focused == reported.active
    &&& workspace.position == if reported.coordinates.len() > 0 {
        Some(reported.coordinates[0])
    } else {
        None
    }
    &&& (workspace.tiling_enabled == Some(true)) == (reported.tiling
        == NativeTilingState::Enabled)
    &&& (workspace.tiling_enabled == Some(false)) == (reported.tiling
        == NativeTilingState::FloatingOnly)
}

proof fn lemma_handle_identity(
    workspaces: Seq<ProtocolWorkspaceView>,
    identities: Seq<Seq<char>>,
    handle: u64,
)
    requires
        workspaces.len() == identities.len(),
        forall|k: int|
            0 <= k < workspaces.len() ==> #[trigger] identities[k] == known_as(workspaces[k]),
    ensures
        handle_identity(workspaces, identities, handle) matches Some(identity) ==> exists|k: int|
            0 <= k < workspaces.len() && (#[trigger] workspaces[k]).handle == handle && identity
                == known_as(workspaces[k]),
        handle_identity(workspaces, identities, handle) is None ==> forall|k: int|
            0 <= k < workspaces.len() ==> (#[trigger] workspaces[k]).handle != handle,
    decreases workspaces.len(),
{
    if workspaces.len() > 0 {
        let front = workspaces.drop_last();
        assert(forall|k: int| 0 <= k < front.len() ==> #[trigger] front[k] == workspaces[k]);
        assert(identities[workspaces.len() - 1] == known_as(workspaces[workspaces.len() - 1]));
        lemma_handle_identity(front, identities.drop_last(), handle);
        if workspaces.last().handle != handle {
            if handle_identity(workspaces, identities, handle) is Some {
                let k = choose|k: int|
                    0 <= k < front.len() && (#[trigger] front[k]).handle == handle
                        && handle_identity(front, identities.drop_last(), handle) == Some(
                        known_as(front[k]),
                    );
                assert(workspaces[k] == front[k]);
            } else {
                assert forall|k: int| 0 <= k < workspaces.len() implies (
                #[trigger] workspaces[k]).handle != handle by {
                    if k < front.len() {
                        assert(front[k] == workspaces[k]);
                    }
                }
            }
        }
    }
}

proof fn lemma_handles_read(
    workspaces: Seq<ProtocolWorkspaceView>,
    identities: Seq<Seq<char>>,
    window: Seq<char>,
    handles: Seq<u64>,
    operation: Seq<char>,
)
    ensures
        handles_read(workspaces, identities, window, handles, operation) matches Ok(read)
            ==> read.len() == handles.len() && forall|i: int|
            0 <= i < handles.len() ==> Some(#[trigger] read[i]) == handle_identity(
                workspaces,
                identities,
                handles[i],
            ),
    decreases handles.len(),
{
    if handles.len() > 0 {
        lemma_handles_read(workspaces, identities, window, handles.drop_last(), operation);
    }
}

proof fn lemma_links_kept(
    workspaces: Seq<DesktopWorkspaceSnapshotView>,
    window: Seq<char>,
    values: Seq<Seq<char>>,
    operation: Seq<char>,
)
    ensures
        native_links_read(workspaces, window, values, operation) matches Ok(links) ==> links
            == values,
    decreases values.len(),
{
    if values.len() > 0 {
        lemma_links_kept(workspaces, window, values.drop_last(), operation);
        assert(values =~= values.drop_last().push(values.last()));
    }
}

proof fn lemma_native_windows(
    workspaces: Seq<ProtocolWorkspaceView>,
    identities: Seq<Seq<char>>,
    toplevels: Seq<ProtocolToplevelView>,
    operation: Seq<char>,
)
    ensures
        native_windows(workspaces, identities, toplevels, operation) matches Ok(windows)
            ==> windows.len() == toplevels.len() && forall|i: int|
            0 <= i < toplevels.len() ==> native_window(
                workspaces,
                identities,
                toplevels[i],
                operation,
            ) == Ok::<NativeWindowView, CosmicErrorView>(#[trigger] windows[i]),
    decreases toplevels.len(),
{
    if toplevels.len() > 0 {
        lemma_native_windows(workspaces, identities, toplevels.drop_last(), operation);
    }
}

proof fn lemma_native_workspaces_kept(workspaces: Seq<NativeWorkspaceView>, operation: Seq<char>)
    ensures
        native_workspaces_read(workspaces, operation) matches Ok(read) ==> read.len()
            == workspaces.len() && forall|i: int|
            0 <= i < workspaces.len() ==> (#[trigger] read[i]).name == Some(workspaces[i].name)
                && read[i].position == workspaces[i].position && read[i].focused
                == workspaces[i].focused && read[i].tiling_enabled == tiling_known(
                workspaces[i].tiling,
            ) && Ok::<Seq<char>, CosmicErrorView>(read[i].identity) == protocol_identity(
                workspaces[i].identity,
                workspaces[i].name,
                operation,
            ),
    decreases workspaces.len(),
{
    if workspaces.len() > 0 {
        lemma_native_workspaces_kept(workspaces.drop_last(), operation);
    }
}

proof fn lemma_native_windows_kept(
    workspaces: Seq<DesktopWorkspaceSnapshotView>,
    windows: Seq<NativeWindowView>,
    operation: Seq<char>,
)
    ensures
        native_windows_read(workspaces, windows, operation) matches Ok(read) ==> read.len()
            == windows.len() && forall|i: int|
            0 <= i < windows.len() ==> (#[trigger] read[i]).identity == windows[i].identity
                && read[i].focused == windows[i].focused && read[i].project_path is None
                && read[i].application == (match windows[i].application {
                Some(text) if text.len() > 0 => Some(text),
                _ => None,
            }) && read[i].title == (match windows[i].title {
                Some(text) if text.len() > 0 => Some(text),
                _ => None,
            }) && read[i].workspace_identity == (if windows[i].workspace_identities.len() == 1 {
                Some(windows[i].workspace_identities[0])
            } else {
                None
            }),
    decreases windows.len(),
{
    if windows.len() > 0 {
        lemma_native_windows_kept(workspaces, windows.drop_last(), operation);
        lemma_links_kept(
            workspaces,
            windows.last().identity,
            windows.last().workspace_identities,
            operation,
        );
    }
}

/// The desktop of a session is what the protocol reported, in the order of the reports: nothing is
/// left out, nothing is added, and each workspace and window is shown as it was reported.
pub proof fn law_session_is_shown_as_reported(state: CosmicReadStateView, operation: Seq<char>)
    ensures
        session_snapshot(state, operation) matches Ok(snapshot) ==> snapshot.workspaces.len()
            == state.workspaces.len() && snapshot.windows.len() == state.toplevels.len() && (
        forall|i: int|
            0 <= i < state.workspaces.len() ==> workspace_shown(
                state.workspaces[i],
                #[trigger] snapshot.workspaces[i],
            )) && forall|i: int|
            0 <= i < state.toplevels.len() ==> window_shown(
                state.workspaces,
                state.toplevels[i],
                #[trigger] snapshot.windows[i],
            ),
{
    if let Ok(snapshot) = session_snapshot(state, operation) {
        lemma_identities_read(state.workspaces, operation);
        let identities = identities_read(state.workspaces, operation)->Ok_0;
        assert forall|k: int| 0 <= k < state.workspaces.len() implies #[trigger] identities[k]
            == known_as(state.workspaces[k]) by {
            assert(protocol_identity(state.workspaces[k].id, state.workspaces[k].name, operation)
                == Ok::<Seq<char>, CosmicErrorView>(identities[k]));
        }
        lemma_native_windows(state.workspaces, identities, state.toplevels, operation);
        let windows = native_windows(
            state.workspaces,
            identities,
            state.toplevels,
            operation,
        )->Ok_0;
        let natives = state.workspaces.map_values(
            |workspace: ProtocolWorkspaceView| native_workspace(workspace),
        );
        lemma_native_workspaces_kept(natives, operation);
        lemma_native_windows_kept(snapshot.workspaces, windows, operation);
        assert forall|i: int| 0 <= i < state.workspaces.len() implies workspace_shown(
            state.workspaces[i],
            #[trigger] snapshot.workspaces[i],
        ) by {
            assert(natives[i] == native_workspace(state.workspaces[i]));
        }
        assert forall|i: int| 0 <= i < state.toplevels.len() implies window_shown(
            state.workspaces,
            state.toplevels[i],
            #[trigger] snapshot.windows[i],
        ) by {
            let toplevel = state.toplevels[i];
            assert(native_window(state.workspaces, identities, toplevel, operation) == Ok::<
                NativeWindowView,
                CosmicErrorView,
            >(windows[i]));
            lemma_handles_read(
                state.workspaces,
                identities,
                toplevel.identifier,
                toplevel.workspaces,
                operation,
            );
            if toplevel.workspaces.len() == 1 {
                lemma_handle_identity(state.workspaces, identities, toplevel.workspaces[0]);
                assert(Some(windows[i].workspace_identities[0]) == handle_identity(
                    state.workspaces,
                    identities,
                    toplevel.workspaces[0],
                ));
            }
        }
    }
}

/// A window whose texts can be shown, and which is in workspaces that are there, each once.
pub open spec fn well_reported(
    workspaces: Seq<ProtocolWorkspaceView>,
    toplevel: ProtocolToplevelView,
) -> bool {
    &&& toplevel.identifier.len() > 0
    &&& !has_control(toplevel.identifier)
    &&& !has_control(toplevel.app_id)
    &&& !has_control(toplevel.title)
    &&& toplevel.workspaces.no_duplicates()
    &&& forall|i: int|
        0 <= i < toplevel.workspaces.len() ==> exists|k: int|
            0 <= k < workspaces.len() && (#[trigger] workspaces[k]).handle
                == #[trigger] toplevel.workspaces[i]
}

proof fn lemma_handles_are_read(
    workspaces: Seq<ProtocolWorkspaceView>,
    identities: Seq<Seq<char>>,
    window: Seq<char>,
    handles: Seq<u64>,
    operation: Seq<char>,
)
    requires
        workspaces.len() == identities.len(),
        forall|k: int|
            0 <= k < workspaces.len() ==> #[trigger] identities[k] == known_as(workspaces[k]),
        forall|i: int|
            0 <= i < handles.len() ==> exists|k: int|
                0 <= k < workspaces.len() && (#[trigger] workspaces[k]).handle
                    == #[trigger] handles[i],
    ensures
        handles_read(workspaces, identities, window, handles, operation) is Ok,
    decreases handles.len(),
{
    if handles.len() > 0 {
        let front = handles.drop_last();
        assert forall|i: int| 0 <= i < front.len() implies exists|k: int|
            0 <= k < workspaces.len() && (#[trigger] workspaces[k]).handle == #[trigger] front[i] by {
            assert(front[i] == handles[i]);
        }
        lemma_handles_are_read(workspaces, identities, window, front, operation);
        lemma_handle_identity(workspaces, identities, handles.last());
        assert(handles[handles.len() - 1] == handles.last());
    }
}

proof fn lemma_links_are_read(
    workspaces: Seq<DesktopWorkspaceSnapshotView>,
    window: Seq<char>,
    values: Seq<Seq<char>>,
    operation: Seq<char>,
)
    requires
        values.no_duplicates(),
        forall|i: int|
            0 <= i < values.len() ==> (#[trigger] values[i]).len() > 0 && !has_control(values[i])
                && has_workspace(workspaces, values[i]),
    ensures
        native_links_read(workspaces, window, values, operation) == Ok::<
            Seq<Seq<char>>,
            CosmicErrorView,
        >(values),
    decreases values.len(),
{
    if values.len() > 0 {
        let front = values.drop_last();
        assert(forall|i: int| 0 <= i < front.len() ==> #[trigger] front[i] == values[i]);
        lemma_links_are_read(workspaces, window, front, operation);
        assert(values[values.len() - 1] == values.last());
        if front.contains(values.last()) {
            let i = choose|i: int| 0 <= i < front.len() && front[i] == values.last();
            assert(values[i] == values[values.len() - 1]);
        }
        assert(values =~= front.push(values.last()));
    } else {
        assert(values =~= Seq::empty());
    }
}

proof fn lemma_workspaces_are_read(workspaces: Seq<ProtocolWorkspaceView>, operation: Seq<char>)
    requires
        forall|k: int| 0 <= k < workspaces.len() ==> well_named(#[trigger] workspaces[k]),
        forall|i: int, j: int|
            0 <= i < j < workspaces.len() ==> known_as(#[trigger] workspaces[i]) != known_as(
                #[trigger] workspaces[j],
            ),
    ensures
        native_workspaces_read(
            workspaces.map_values(|workspace: ProtocolWorkspaceView| native_workspace(workspace)),
            operation,
        ) matches Ok(read) && read.len() == workspaces.len() && forall|k: int|
            0 <= k < workspaces.len() ==> (#[trigger] read[k]).identity == known_as(workspaces[k]),
    decreases workspaces.len(),
{
    let natives = workspaces.map_values(
        |workspace: ProtocolWorkspaceView| native_workspace(workspace),
    );
    if workspaces.len() > 0 {
        let front = workspaces.drop_last();
        assert(forall|k: int| 0 <= k < front.len() ==> #[trigger] front[k] == workspaces[k]);
        lemma_workspaces_are_read(front, operation);
        assert(natives.drop_last() =~= front.map_values(
            |workspace: ProtocolWorkspaceView| native_workspace(workspace),
        ));
        let last = workspaces[workspaces.len() - 1];
        assert(well_named(last));
        let read = native_workspaces_read(natives.drop_last(), operation)->Ok_0;
        if has_workspace(read, known_as(last)) {
            let k = choose|k: int|
                0 <= k < read.len() && #[trigger] read[k].identity == known_as(last);
            assert(known_as(workspaces[k]) == known_as(last));
        }
    }
}

proof fn lemma_window_is_read(
    state: CosmicReadStateView,
    identities: Seq<Seq<char>>,
    workspaces: Seq<DesktopWorkspaceSnapshotView>,
    toplevel: ProtocolToplevelView,
    operation: Seq<char>,
)
    requires
        well_reported(state.workspaces, toplevel),
        identities.len() == state.workspaces.len(),
        workspaces.len() == state.workspaces.len(),
        forall|k: int|
            0 <= k < state.workspaces.len() ==> well_named(#[trigger] state.workspaces[k]),
        forall|k: int|
            0 <= k < state.workspaces.len() ==> #[trigger] identities[k] == known_as(
                state.workspaces[k],
            ),
        forall|k: int|
            0 <= k < state.workspaces.len() ==> (#[trigger] workspaces[k]).identity == known_as(
                state.workspaces[k],
            ),
        forall|i: int, j: int|
            0 <= i < j < state.workspaces.len() ==> known_as(#[trigger] state.workspaces[i])
                != known_as(#[trigger] state.workspaces[j]),
    ensures
        native_window(state.workspaces, identities, toplevel, operation) matches Ok(window)
            && window.identity == toplevel.identifier && native_links_read(
            workspaces,
            window.identity,
            window.workspace_identities,
            operation,
        ) is Ok,
{
    let handles = toplevel.workspaces;
    lemma_handles_are_read(
        state.workspaces,
        identities,
        toplevel.identifier,
        handles,
        operation,
    );
    lemma_handles_read(state.workspaces, identities, toplevel.identifier, handles, operation);
    let links = handles_read(
        state.workspaces,
        identities,
        toplevel.identifier,
        handles,
        operation,
    )->Ok_0;
    assert forall|i: int| 0 <= i < links.len() implies (#[trigger] links[i]).len() > 0
        && !has_control(links[i]) && has_workspace(workspaces, links[i]) by {
        lemma_handle_identity(state.workspaces, identities, handles[i]);
        assert(Some(links[i]) == handle_identity(state.workspaces, identities, handles[i]));
        let k = choose|k: int|
            0 <= k < state.workspaces.len() && (#[trigger] state.workspaces[k]).handle == handles[i]
                && links[i] == known_as(state.workspaces[k]);
        assert(well_named(state.workspaces[k]));
        assert(workspaces[k].identity == links[i]);
    }
    assert forall|i: int, j: int| 0 <= i < links.len() && 0 <= j < links.len() && i
        != j implies links[i] != links[j] by {
        lemma_handle_identity(state.workspaces, identities, handles[i]);
        lemma_handle_identity(state.workspaces, identities, handles[j]);
        assert(Some(links[i]) == handle_identity(state.workspaces, identities, handles[i]));
        assert(Some(links[j]) == handle_identity(state.workspaces, identities, handles[j]));
        let k = choose|k: int|
            0 <= k < state.workspaces.len() && (#[trigger] state.workspaces[k]).handle == handles[i]
                && links[i] == known_as(state.workspaces[k]);
        let l = choose|l: int|
            0 <= l < state.workspaces.len() && (#[trigger] state.workspaces[l]).handle == handles[j]
                && links[j] == known_as(state.workspaces[l]);
        assert(handles[i] != handles[j]);
        assert(k != l);
        if k < l {
            assert(known_as(state.workspaces[k]) != known_as(state.workspaces[l]));
        } else {
            assert(known_as(state.workspaces[l]) != known_as(state.workspaces[k]));
        }
    }
    lemma_links_are_read(workspaces, toplevel.identifier, links, operation);
}

proof fn lemma_windows_are_read(
    state: CosmicReadStateView,
    identities: Seq<Seq<char>>,
    workspaces: Seq<DesktopWorkspaceSnapshotView>,
    toplevels: Seq<ProtocolToplevelView>,
    operation: Seq<char>,
)
    requires
        forall|i: int|
            0 <= i < toplevels.len() ==> well_reported(state.workspaces, #[trigger] toplevels[i]),
        forall|i: int, j: int|
            0 <= i < j < toplevels.len() ==> (#[trigger] toplevels[i]).identifier != (
            #[trigger] toplevels[j]).identifier,
        identities.len() == state.workspaces.len(),
        workspaces.len() == state.workspaces.len(),
        forall|k: int|
            0 <= k < state.workspaces.len() ==> well_named(#[trigger] state.workspaces[k]),
        forall|k: int|
            0 <= k < state.workspaces.len() ==> #[trigger] identities[k] == known_as(
                state.workspaces[k],
            ),
        forall|k: int|
            0 <= k < state.workspaces.len() ==> (#[trigger] workspaces[k]).identity == known_as(
                state.workspaces[k],
            ),
        forall|i: int, j: int|
            0 <= i < j < state.workspaces.len() ==> known_as(#[trigger] state.workspaces[i])
                != known_as(#[trigger] state.workspaces[j]),
    ensures
        native_windows(state.workspaces, identities, toplevels, operation) matches Ok(windows)
            && native_windows_read(workspaces, windows, operation) is Ok,
    decreases toplevels.len(),
{
    if toplevels.len() > 0 {
        let front = toplevels.drop_last();
        assert(forall|k: int| 0 <= k < front.len() ==> #[trigger] front[k] == toplevels[k]);
        lemma_windows_are_read(state, identities, workspaces, front, operation);
        let last = toplevels[toplevels.len() - 1];
        assert(well_reported(state.workspaces, last));
        lemma_window_is_read(state, identities, workspaces, last, operation);
        lemma_native_windows(state.workspaces, identities, front, operation);
        let earlier = native_windows(state.workspaces, identities, front, operation)->Ok_0;
        let window = native_window(state.workspaces, identities, last, operation)->Ok_0;
        lemma_native_windows_kept(workspaces, earlier, operation);
        let read = native_windows_read(workspaces, earlier, operation)->Ok_0;
        if has_window(read, last.identifier) {
            let k = choose|k: int|
                0 <= k < read.len() && #[trigger] read[k].identity == last.identifier;
            assert(native_window(state.workspaces, identities, front[k], operation) == Ok::<
                NativeWindowView,
                CosmicErrorView,
            >(earlier[k]));
            assert(toplevels[k].identifier == last.identifier);
        }
        assert(earlier.push(window).drop_last() =~= earlier);
    }
}

/// A session that can be read and whose reports agree with each other is read: every workspace has a
/// name that can be shown, no two are known by one identity, and every window has an identifier of its
/// own and is in workspaces that are there.
pub proof fn law_sound_session_is_read(state: CosmicReadStateView, operation: Seq<char>)
    requires
        state.capabilities.workspace_enumeration,
        state.capabilities.foreign_toplevel_enumeration,
        state.capabilities.cosmic_toplevel_information,
        state.capabilities.seat_count > 0,
        state.capabilities.target_workspace_output_association,
        forall|k: int|
            0 <= k < state.workspaces.len() ==> well_named(#[trigger] state.workspaces[k]),
        forall|i: int, j: int|
            0 <= i < j < state.workspaces.len() ==> known_as(#[trigger] state.workspaces[i])
                != known_as(#[trigger] state.workspaces[j]),
        forall|i: int|
            0 <= i < state.toplevels.len() ==> well_reported(
                state.workspaces,
                #[trigger] state.toplevels[i],
            ),
        forall|i: int, j: int|
            0 <= i < j < state.toplevels.len() ==> (#[trigger] state.toplevels[i]).identifier != (
            #[trigger] state.toplevels[j]).identifier,
    ensures
        session_snapshot(state, operation) is Ok,
{
    lemma_well_named(state.workspaces, operation);
    let identities = identities_read(state.workspaces, operation)->Ok_0;
    lemma_workspaces_are_read(state.workspaces, operation);
    let workspaces = native_workspaces_read(
        state.workspaces.map_values(|workspace: ProtocolWorkspaceView| native_workspace(workspace)),
        operation,
    )->Ok_0;
    lemma_windows_are_read(state, identities, workspaces, state.toplevels, operation);
}

} // verus!
