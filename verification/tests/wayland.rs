use workstate::integrations::cosmic::errors::CosmicError;
use workstate::integrations::cosmic::wayland::capabilities::{
    require_management_capability, require_workspace_tiling_capability,
    validate_mutation_capabilities, validate_read_capabilities, workspace_supports_tiling, Global,
    ManagementCapabilities, ManagementCapability, ToplevelCapability, SET_TILING_STATE,
};
use workstate::integrations::cosmic::wayland::connection::{
    confirm_tiling, confirm_window_placement, map_confirmation_error, NativeAction, NativeEvent,
    NativeOperation, NativeRequest, NativeStep, Synchronization, SynchronizationEvent,
    SynchronizationStep,
};
use workstate::integrations::cosmic::wayland::operations::{
    classify_identity_matches, IdentityResolution,
};
use workstate::integrations::cosmic::wayland::snapshot::{
    from_native_snapshot, NativeSnapshot, NativeWindow, NativeWorkspace,
};
use workstate::integrations::cosmic::wayland::state::{
    CosmicMutationState, CosmicReadState, NativeTilingState, ProtocolToplevel, ProtocolWorkspace,
    ProtocolWorkspaceGroup,
};
use workstate::ports::{DesktopOperationOutcome, DesktopSnapshot, DesktopWindowSnapshot, DesktopWorkspaceSnapshot};

fn global(interface: &str, version: u32) -> Global {
    Global { name: 1, interface: interface.to_owned(), version }
}

fn complete_globals() -> Vec<Global> {
    vec![
        global("ext_workspace_manager_v1", 1),
        global("zcosmic_workspace_manager_v2", 2),
        global("ext_foreign_toplevel_list_v1", 1),
        global("zcosmic_toplevel_info_v1", 3),
        global("wl_output", 4),
        global("wl_seat", 9),
    ]
}

#[test]
fn validates_read_globals_and_records_versions() {
    let result = validate_read_capabilities(&complete_globals(), "observe");
    assert!(result.is_ok(), "unexpected capability error: {result:?}");

    let capabilities = match result {
        Ok(value) => value,
        Err(_) => return,
    };

    assert_eq!(capabilities.workspace_manager_version, 1);
    assert_eq!(capabilities.cosmic_workspace_manager_version, 2);
    assert_eq!(capabilities.foreign_toplevel_list_version, 1);
    assert_eq!(capabilities.cosmic_toplevel_info_version, 3);
    assert!(capabilities.workspace_enumeration);
    assert!(capabilities.foreign_toplevel_enumeration);
    assert!(capabilities.cosmic_toplevel_information);
    assert_eq!(capabilities.output_version, 4);
    assert_eq!(capabilities.seat_version, 9);
    assert_eq!(capabilities.output_count, 1);
    assert_eq!(capabilities.seat_count, 1);
    assert!(capabilities.target_workspace_output_association);
}

#[test]
fn reports_missing_required_global() {
    let mut globals = complete_globals();
    globals.retain(|global| global.interface != "zcosmic_toplevel_info_v1");

    let result = validate_read_capabilities(&globals, "observe");

    assert!(matches!(
        result,
        Err(CosmicError::RequiredGlobalMissing { global, .. })
            if global == "zcosmic_toplevel_info_v1"
    ));
}

#[test]
fn reports_unsupported_required_version() {
    let mut globals = complete_globals();
    if let Some(global) = globals
        .iter_mut()
        .find(|global| global.interface == "zcosmic_toplevel_info_v1")
    {
        global.version = 2;
    }

    let result = validate_read_capabilities(&globals, "observe");

    assert!(matches!(
        result,
        Err(CosmicError::ProtocolVersionUnsupported {
            protocol,
            required: 3,
            advertised: Some(2),
            ..
        }) if protocol == "zcosmic_toplevel_info_v1"
    ));
}

#[test]
fn reports_missing_mutation_global_separately() {
    let result = validate_mutation_capabilities(&complete_globals(), "move-window");

    assert!(matches!(
        result,
        Err(CosmicError::RequiredGlobalMissing { global, .. })
            if global == "zcosmic_toplevel_manager_v1"
    ));
}

#[test]
fn decodes_management_capabilities_without_relying_on_unknown_values() {
    let values = vec![
        ToplevelCapability::Close,
        ToplevelCapability::Activate,
        ToplevelCapability::MoveToExtWorkspace,
        ToplevelCapability::Unknown(99),
    ];

    let capabilities = ManagementCapabilities::from_protocol(&values);

    assert!(capabilities.global_available);
    assert!(capabilities.close);
    assert!(capabilities.activate);
    assert!(capabilities.move_to_external_workspace);
}

#[test]
fn reports_the_requested_management_capability_in_errors() {
    let result = require_management_capability(
        ManagementCapabilities::with_global(),
        ManagementCapability::WindowClose,
        "close-window",
    );

    assert!(matches!(
        result,
        Err(CosmicError::CapabilityUnavailable {
            operation,
            capability,
            ..
        }) if operation == "close-window" && capability == "window close"
    ));
}

#[test]
fn tracks_workspace_tiling_capability_as_a_scoped_mutation_check() {
    assert!(workspace_supports_tiling(SET_TILING_STATE));
    assert!(require_workspace_tiling_capability(false, "set-tiling").is_err());
}

enum DispatchStep {
    WorkspacesDone,
    ToplevelsDone,
    Noop,
    Error(CosmicError),
}

struct FakeEventQueue {
    dispatch_steps: Vec<DispatchStep>,
    flush_error: Option<CosmicError>,
    wait_steps: Vec<bool>,
}

#[derive(Default)]
struct SyncState {
    workspaces_done: bool,
    toplevels_done: bool,
}

fn synchronization(
    mut queue: FakeEventQueue,
    state: &mut SyncState,
    late: bool,
) -> Result<(), CosmicError> {
    let (mut work, mut step) = Synchronization::begin("test-observe", 100);
    loop {
        let event = match step {
            SynchronizationStep::Dispatch => {
                let next = if queue.dispatch_steps.is_empty() {
                    DispatchStep::Noop
                } else {
                    queue.dispatch_steps.remove(0)
                };
                match next {
                    DispatchStep::WorkspacesDone => state.workspaces_done = true,
                    DispatchStep::ToplevelsDone => state.toplevels_done = true,
                    DispatchStep::Noop => {}
                    DispatchStep::Error(error) => {
                        let (_, failed) = work.advance(SynchronizationEvent::Failed(error));
                        return match failed {
                            SynchronizationStep::Fail(error) => Err(error),
                            other => panic!("unexpected step {other:?}"),
                        };
                    }
                }
                SynchronizationEvent::Dispatched {
                    complete: state.workspaces_done && state.toplevels_done,
                    late,
                }
            }
            SynchronizationStep::Flush => match queue.flush_error.take() {
                Some(error) => SynchronizationEvent::Failed(error),
                None => SynchronizationEvent::Flushed,
            },
            SynchronizationStep::Wait => SynchronizationEvent::Waited {
                readable: !queue.wait_steps.is_empty() && queue.wait_steps.remove(0),
                late,
            },
            SynchronizationStep::Finish => return Ok(()),
            SynchronizationStep::Fail(error) => return Err(error),
            SynchronizationStep::Idle => panic!("the wait is over"),
        };
        let moved = work.advance(event);
        work = moved.0;
        step = moved.1;
    }
}

#[test]
fn initial_synchronization_requires_both_done_markers() {
    let mut state = SyncState::default();
    let queue = FakeEventQueue {
        dispatch_steps: vec![DispatchStep::WorkspacesDone, DispatchStep::ToplevelsDone],
        flush_error: None,
        wait_steps: vec![true],
    };

    let result = synchronization(queue, &mut state, false);

    assert!(result.is_ok());
    assert!(state.workspaces_done);
    assert!(state.toplevels_done);
}

#[test]
fn initial_synchronization_times_out_without_completion() {
    let mut state = SyncState::default();
    let queue = FakeEventQueue {
        dispatch_steps: vec![DispatchStep::Noop],
        flush_error: None,
        wait_steps: Vec::new(),
    };

    let result = synchronization(queue, &mut state, true);

    assert!(matches!(
        result,
        Err(CosmicError::InitialSynchronizationTimedOut {
            operation,
            timeout_ms: 100
        }) if operation == "test-observe"
    ));
}

#[test]
fn dispatch_failures_are_returned_as_typed_errors() {
    let mut state = SyncState::default();
    let queue = FakeEventQueue {
        dispatch_steps: vec![DispatchStep::Error(CosmicError::WaylandDispatchFailed {
            operation: "test-observe".to_owned(),
            detail: "dispatch failed".to_owned(),
        })],
        flush_error: None,
        wait_steps: Vec::new(),
    };

    let result = synchronization(queue, &mut state, false);

    assert!(matches!(
        result,
        Err(CosmicError::WaylandDispatchFailed { detail, .. })
            if detail == "dispatch failed"
    ));
}

#[test]
fn flush_failures_are_returned_as_typed_errors() {
    let mut state = SyncState::default();
    let queue = FakeEventQueue {
        dispatch_steps: vec![DispatchStep::Noop],
        flush_error: Some(CosmicError::WaylandFlushFailed {
            operation: "test-observe".to_owned(),
            detail: "flush failed".to_owned(),
        }),
        wait_steps: Vec::new(),
    };

    let result = synchronization(queue, &mut state, false);

    assert!(matches!(
        result,
        Err(CosmicError::WaylandFlushFailed { detail, .. })
            if detail == "flush failed"
    ));
}

#[test]
fn tiling_postcondition_requires_the_requested_state() {
    let snapshot = DesktopSnapshot {
        workspaces: vec![DesktopWorkspaceSnapshot {
            identity: "main".to_owned(),
            name: Some("Main".to_owned()),
            position: Some(0),
            focused: true,
            tiling_enabled: Some(false),
        }],
        windows: Vec::new(),
    };

    let result = confirm_tiling(&snapshot, "main", true, "set-tiling");

    assert!(matches!(
        result,
        Err(CosmicError::MutationNotConfirmed { operation, identity, detail })
            if operation == "set-tiling"
                && identity == "main"
                && detail.contains("did not report tiling enabled")
    ));
}

#[test]
fn window_placement_postcondition_rejects_a_different_workspace() {
    let snapshot = DesktopSnapshot {
        workspaces: Vec::new(),
        windows: vec![DesktopWindowSnapshot {
            identity: "window-1".to_owned(),
            application: None,
            title: None,
            project_path: None,
            workspace_identity: Some("other".to_owned()),
            focused: false,
        }],
    };

    let result = confirm_window_placement(&snapshot, "window-1", "target", "move-window");

    assert!(matches!(
        result,
        Err(CosmicError::MutationNotConfirmed { operation, identity, detail })
            if operation == "move-window"
                && identity == "window-1"
                && detail.contains("workspace 'target'")
    ));
}

#[test]
fn confirmation_timeout_is_not_reported_as_a_changed_operation() {
    let result = map_confirmation_error(
        CosmicError::InitialSynchronizationTimedOut {
            operation: "move-window".to_owned(),
            timeout_ms: 25,
        },
        "move-window",
        "window-1",
    );

    assert!(matches!(
        result,
        CosmicError::MutationNotConfirmed { operation, identity, detail }
            if operation == "move-window"
                && identity == "window-1"
                && detail.contains("25 ms")
    ));
}

fn texts(values: &[&str]) -> Vec<String> {
    values.iter().map(|value| (*value).to_owned()).collect()
}

#[test]
fn classifies_missing_and_unique_identities_exactly() {
    assert_eq!(
        classify_identity_matches(&texts(&["main", "secondary"]), "missing"),
        IdentityResolution::Missing
    );
    assert_eq!(
        classify_identity_matches(&texts(&["main", "secondary"]), "main"),
        IdentityResolution::Unique
    );
}

#[test]
fn refuses_ambiguous_identities_instead_of_picking_one() {
    assert_eq!(
        classify_identity_matches(&texts(&["main", "main"]), "main"),
        IdentityResolution::Ambiguous(2)
    );
}

fn workspace(identity: Option<&str>, name: &str, tiling: NativeTilingState) -> NativeWorkspace {
    NativeWorkspace {
        identity: identity.map(str::to_owned),
        name: name.to_owned(),
        position: Some(2),
        focused: false,
        tiling,
    }
}

fn window(identity: &str, workspaces: &[&str]) -> NativeWindow {
    NativeWindow {
        identity: identity.to_owned(),
        application: Some("org.example.Editor".to_owned()),
        title: Some("Project".to_owned()),
        focused: true,
        workspace_identities: texts(workspaces),
    }
}

fn snapshot(native: NativeSnapshot) -> DesktopSnapshot {
    let result = from_native_snapshot(native);
    assert!(result.is_ok(), "unexpected snapshot error: {result:?}");
    match result {
        Ok(value) => value,
        Err(_) => unreachable!(),
    }
}

fn error(native: NativeSnapshot) -> CosmicError {
    let result = from_native_snapshot(native);
    assert!(result.is_err(), "expected snapshot conversion to fail");
    match result {
        Err(error) => error,
        Ok(_) => unreachable!(),
    }
}

#[test]
fn prefers_protocol_workspace_id_and_preserves_name() {
    let value = snapshot(NativeSnapshot {
        workspaces: vec![workspace(Some("workspace-7"), "Main", NativeTilingState::Enabled)],
        windows: Vec::new(),
    });

    assert_eq!(value.workspaces[0].identity, "workspace-7");
    assert_eq!(value.workspaces[0].name.as_deref(), Some("Main"));
}

#[test]
fn falls_back_to_workspace_name_without_protocol_id() {
    let value = snapshot(NativeSnapshot {
        workspaces: vec![workspace(None, "Main", NativeTilingState::Unknown)],
        windows: Vec::new(),
    });

    assert_eq!(value.workspaces[0].identity, "Main");
}

#[test]
fn rejects_duplicate_workspace_identity() {
    let value = error(NativeSnapshot {
        workspaces: vec![
            workspace(Some("same"), "Main", NativeTilingState::Unknown),
            workspace(Some("same"), "Other", NativeTilingState::Unknown),
        ],
        windows: Vec::new(),
    });

    assert!(
        matches!(value, CosmicError::InvalidProtocolData { detail, .. } if detail.contains("duplicate workspace identity"))
    );
}

#[test]
fn rejects_duplicate_window_identity() {
    let value = error(NativeSnapshot {
        workspaces: vec![workspace(Some("main"), "Main", NativeTilingState::Unknown)],
        windows: vec![window("same", &[]), window("same", &[])],
    });

    assert!(
        matches!(value, CosmicError::InvalidProtocolData { detail, .. } if detail.contains("duplicate window identity"))
    );
}

#[test]
fn converts_focus_position_and_project_defaults() {
    let mut focused_workspace = workspace(Some("main"), "Main", NativeTilingState::Unknown);
    focused_workspace.focused = true;
    let value = snapshot(NativeSnapshot {
        workspaces: vec![focused_workspace],
        windows: vec![window("window-1", &["main"])],
    });

    assert!(value.workspaces[0].focused);
    assert_eq!(value.workspaces[0].position, Some(2));
    assert!(value.windows[0].focused);
    assert_eq!(value.windows[0].application.as_deref(), Some("org.example.Editor"));
    assert_eq!(value.windows[0].title.as_deref(), Some("Project"));
    assert_eq!(value.windows[0].workspace_identity.as_deref(), Some("main"));
    assert_eq!(value.windows[0].project_path, None);
}

#[test]
fn converts_enabled_disabled_and_unknown_tiling() {
    let value = snapshot(NativeSnapshot {
        workspaces: vec![
            workspace(Some("enabled"), "Enabled", NativeTilingState::Enabled),
            workspace(Some("floating"), "Floating", NativeTilingState::FloatingOnly),
            workspace(Some("unknown"), "Unknown", NativeTilingState::Unknown),
        ],
        windows: Vec::new(),
    });

    assert_eq!(
        value.workspace("enabled").and_then(|item| item.tiling_enabled),
        Some(true)
    );
    assert_eq!(
        value.workspace("floating").and_then(|item| item.tiling_enabled),
        Some(false)
    );
    assert_eq!(value.workspace("unknown").and_then(|item| item.tiling_enabled), None);
}

#[test]
fn uses_none_for_zero_or_multiple_workspace_associations() {
    let value = snapshot(NativeSnapshot {
        workspaces: vec![
            workspace(Some("one"), "One", NativeTilingState::Unknown),
            workspace(Some("two"), "Two", NativeTilingState::Unknown),
        ],
        windows: vec![window("zero", &[]), window("multiple", &["one", "two"])],
    });

    assert_eq!(
        value.window("zero").and_then(|item| item.workspace_identity),
        None
    );
    assert_eq!(
        value.window("multiple").and_then(|item| item.workspace_identity),
        None
    );
}

#[test]
fn rejects_missing_empty_and_control_character_identities() {
    let missing = error(NativeSnapshot {
        workspaces: Vec::new(),
        windows: vec![window("", &[])],
    });
    assert!(
        matches!(missing, CosmicError::InvalidProtocolData { detail, .. } if detail.contains("window identity"))
    );

    let empty_workspace_identity = error(NativeSnapshot {
        workspaces: vec![workspace(Some(""), "Main", NativeTilingState::Unknown)],
        windows: Vec::new(),
    });
    assert!(
        matches!(empty_workspace_identity, CosmicError::InvalidProtocolData { detail, .. } if detail.contains("workspace identity"))
    );

    let control = error(NativeSnapshot {
        workspaces: vec![workspace(Some("main\n"), "Main", NativeTilingState::Unknown)],
        windows: Vec::new(),
    });
    assert!(
        matches!(control, CosmicError::InvalidProtocolData { detail, .. } if detail.contains("control character"))
    );
}

#[test]
fn rejects_malformed_names_and_inconsistent_workspace_references() {
    let empty_name = error(NativeSnapshot {
        workspaces: vec![workspace(Some("main"), "", NativeTilingState::Unknown)],
        windows: Vec::new(),
    });
    assert!(
        matches!(empty_name, CosmicError::InvalidProtocolData { detail, .. } if detail.contains("workspace name"))
    );

    let unknown_reference = error(NativeSnapshot {
        workspaces: vec![workspace(Some("main"), "Main", NativeTilingState::Unknown)],
        windows: vec![window("window", &["missing"])],
    });
    assert!(
        matches!(unknown_reference, CosmicError::InvalidProtocolData { detail, .. } if detail.contains("unknown workspace"))
    );
}

#[test]
fn rejects_control_characters_in_optional_window_data() {
    let mut invalid_window = window("window", &[]);
    invalid_window.title = Some("Project\u{7}".to_owned());
    let value = error(NativeSnapshot {
        workspaces: Vec::new(),
        windows: vec![invalid_window],
    });

    assert!(
        matches!(value, CosmicError::InvalidProtocolData { detail, .. } if detail.contains("window title"))
    );
}

fn protocol_workspace(handle: u64, name: &str, tiling: NativeTilingState) -> ProtocolWorkspace {
    ProtocolWorkspace {
        handle,
        id: None,
        name: name.to_owned(),
        coordinates: vec![0],
        active: true,
        tiling,
        capabilities: SET_TILING_STATE,
        native_handle: true,
    }
}

fn protocol_window(handle: u64, identifier: &str, workspace: u64) -> ProtocolToplevel {
    ProtocolToplevel {
        handle,
        identifier: identifier.to_owned(),
        app_id: "browser".to_owned(),
        title: "Start".to_owned(),
        activated: false,
        workspaces: vec![workspace],
        native_handle: true,
    }
}

/// A session in which one window is on the first of two workspaces.
fn session(operation: &str, tiling: NativeTilingState) -> CosmicMutationState {
    let mut globals = complete_globals();
    globals.push(global("zcosmic_toplevel_manager_v1", 4));
    let Ok(mut state) = CosmicMutationState::new(&globals, operation) else {
        panic!("every interface is advertised");
    };
    state.read.done(
        vec![protocol_workspace(1, "main", tiling), protocol_workspace(2, "other", tiling)],
        vec![ProtocolWorkspaceGroup { workspaces: vec![1, 2], outputs: vec![7] }],
    );
    state.read.new_toplevel(true);
    state.read.info_done(vec![protocol_window(5, "one", 1)]);
    state.read.seats = vec![9];
    assert!(!state.is_synchronized());
    state.capabilities(&vec![
        ToplevelCapability::Close,
        ToplevelCapability::Activate,
        ToplevelCapability::MoveToExtWorkspace,
    ]);
    assert!(state.is_synchronized());
    state
}

fn tile_main() -> NativeRequest {
    NativeRequest::SetTiling { workspace: "main".to_owned(), enabled: true }
}

#[test]
fn native_tiling_is_changed_only_where_a_fresh_state_shows_it() {
    let (work, step) = NativeOperation::begin(tile_main());
    assert!(matches!(step, NativeStep::Synchronize));
    let (work, step) =
        work.advance(NativeEvent::Ready(session("set-tiling", NativeTilingState::FloatingOnly)));
    assert!(matches!(
        step,
        NativeStep::Send(NativeAction::SetTiling { workspace: 1, enabled: true })
    ));
    let (work, step) = work.advance(NativeEvent::Sent);
    assert!(matches!(step, NativeStep::Refresh));
    let fresh = session("set-tiling", NativeTilingState::Enabled).read;
    let (_, step) = work.advance(NativeEvent::Fresh(fresh));
    assert!(matches!(
        step,
        NativeStep::Finish(outcome)
            if outcome == DesktopOperationOutcome::changed(Some("main".to_owned()))
    ));

    let (work, _) = NativeOperation::begin(tile_main());
    let (work, _) =
        work.advance(NativeEvent::Ready(session("set-tiling", NativeTilingState::FloatingOnly)));
    let (work, _) = work.advance(NativeEvent::Sent);
    let unchanged = session("set-tiling", NativeTilingState::FloatingOnly).read;
    let (work, step) = work.advance(NativeEvent::Fresh(unchanged));
    assert!(matches!(step, NativeStep::Fail(CosmicError::MutationNotConfirmed { .. })));
    let (_, step) = work.advance(NativeEvent::Sent);
    assert!(matches!(step, NativeStep::Idle));
}

#[test]
fn settled_native_tiling_is_left_alone() {
    let (work, _) = NativeOperation::begin(tile_main());
    let (_, step) =
        work.advance(NativeEvent::Ready(session("set-tiling", NativeTilingState::Enabled)));
    assert!(matches!(
        step,
        NativeStep::Finish(outcome)
            if outcome == DesktopOperationOutcome::unchanged(Some("main".to_owned()))
    ));
}

#[test]
fn native_requests_name_the_objects_that_they_work_on() {
    let (work, _) = NativeOperation::begin(NativeRequest::MoveWindow {
        window: "one".to_owned(),
        workspace: "other".to_owned(),
    });
    let (_, step) =
        work.advance(NativeEvent::Ready(session("move-window", NativeTilingState::Unknown)));
    assert!(matches!(
        step,
        NativeStep::Send(NativeAction::Move { window: 5, workspace: 2, output: 7 })
    ));

    let (work, _) = NativeOperation::begin(NativeRequest::FocusWindow { window: "one".to_owned() });
    let (work, step) =
        work.advance(NativeEvent::Ready(session("focus-window", NativeTilingState::Unknown)));
    assert!(matches!(step, NativeStep::Send(NativeAction::Activate { window: 5, seat: 9 })));
    let (_, step) = work.advance(NativeEvent::Sent);
    assert!(matches!(step, NativeStep::Finish(_)));

    let (work, _) = NativeOperation::begin(NativeRequest::CloseWindow { window: "two".to_owned() });
    let (_, step) =
        work.advance(NativeEvent::Ready(session("close-window", NativeTilingState::Unknown)));
    assert!(matches!(
        step,
        NativeStep::Fail(CosmicError::WindowNotFound { identity, .. }) if identity == "two"
    ));
}

#[test]
fn first_fault_of_a_session_is_kept() {
    let Ok(mut state) = CosmicReadState::new(&complete_globals(), "observe") else {
        panic!("every interface is advertised");
    };
    state.done(vec![protocol_workspace(1, "", NativeTilingState::Unknown)], Vec::new());
    state.update_toplevel(false);
    state.info_done(Vec::new());
    assert!(state.is_synchronized());
    assert_eq!(
        state.take_protocol_error(),
        Some(CosmicError::InvalidProtocolData {
            operation: "observe".to_owned(),
            detail: "a workspace completed without a name".to_owned(),
        })
    );
    assert_eq!(state.take_protocol_error(), None);
}
