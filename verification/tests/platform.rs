use workstate::collections::TextMap;
use workstate::domain::ActionKind;
use workstate::integrations::registry::{ActionHandlerDescriptor, IntegrationRegistry};
use workstate::platform::desktop::cosmic::{CosmicCommand, CosmicOperation};
use workstate::platform::detection::detector::RuntimePlatformDetector;
use workstate::platform::detection::support::{
    capability_descriptors, CapabilityId, CapabilitySet, SupportProfile,
};
use workstate::platform::identity::{
    DesktopEnvironment, DetectedPlatform, Distribution, OperatingSystem, TerminalCapability,
};
use workstate::platform::linux::applications::{
    default_application_directories, desktop_files, expand_exec_token, parse_exec_line,
    DesktopFile, LinuxApplicationCatalog,
};
use workstate::platform::linux::detector::{
    distribution_from_metadata, executable_in_path, parse_os_release, OsReleaseMetadata,
    SystemPlatformProbe,
};
use workstate::platform::PlatformInfo;

fn pop_os() -> DetectedPlatform {
    DetectedPlatform {
        operating_system: OperatingSystem::Linux,
        distribution: Distribution::PopOs { version: Some("24.04".to_owned()) },
        desktop_environment: DesktopEnvironment::Cosmic,
        terminal: TerminalCapability::tmux("/usr/bin/tmux".to_owned()),
    }
}

#[test]
fn os_release_is_read() {
    let metadata = parse_os_release("NAME=\"Pop!_OS\"\nID=pop\nVERSION_ID=\"24.04\"\n# comment\n");
    assert_eq!(metadata.id.as_deref(), Some("pop"));
    assert_eq!(metadata.name.as_deref(), Some("Pop!_OS"));
    assert_eq!(
        distribution_from_metadata(&metadata),
        Distribution::PopOs { version: Some("24.04".to_owned()) }
    );
}

#[test]
fn platform_is_detected_from_readings() {
    let mut texts = TextMap::new();
    texts.insert(
        "/etc/os-release".to_owned(),
        "NAME=\"Pop!_OS\"\nID=pop\nVERSION_ID=\"24.04\"\n".to_owned(),
    );
    let mut variables = TextMap::new();
    variables.insert("XDG_CURRENT_DESKTOP".to_owned(), "COSMIC".to_owned());
    let mut executables = TextMap::new();
    executables.insert("tmux".to_owned(), "/usr/bin/tmux".to_owned());
    let probe =
        SystemPlatformProbe { system_name: "linux".to_owned(), texts, variables, executables };
    let Ok(platform) = RuntimePlatformDetector::new(probe).detect() else {
        panic!("the readings are complete");
    };
    assert_eq!(platform, pop_os());
}

#[test]
fn executables_are_looked_for_along_the_path() {
    assert_eq!(
        executable_in_path("tmux", Some("/usr/bin:/bin")),
        vec!["/usr/bin/tmux".to_owned(), "/bin/tmux".to_owned()]
    );
    assert!(executable_in_path("tmux", None).is_empty());
}

#[test]
fn capability_sets_hold_their_members() {
    let set = CapabilitySet::of(&vec![CapabilityId::Adb, CapabilityId::Zed, CapabilityId::Adb]);
    assert!(set.contains(CapabilityId::Adb));
    assert!(!set.contains(CapabilityId::Cursor));
    assert_eq!(set.ids(), vec![CapabilityId::Zed, CapabilityId::Adb]);
}

#[test]
fn initial_profile_supports_pop_os_with_cosmic() {
    let profile = SupportProfile::initial();
    assert!(profile.matches_identity(&pop_os()));
    let mut other = pop_os();
    other.desktop_environment = DesktopEnvironment::Gnome;
    assert!(!profile.matches_identity(&other));
}

#[test]
fn registry_refuses_what_is_not_there() {
    let mut registry = IntegrationRegistry::for_detected_platform(&pop_os());
    assert!(registry.preflight(&pop_os()).is_ok());
    let mut unknown = pop_os();
    unknown.distribution = Distribution::unknown();
    assert!(registry.preflight(&unknown).is_err());
    assert_eq!(
        registry
            .handler_for(&ActionKind::OpenApplication)
            .map(|handler| handler.backend_id.clone()),
        Some("desktop".to_owned())
    );
    let again = ActionHandlerDescriptor::new(
        "open_application".to_owned(),
        "desktop".to_owned(),
        vec![CapabilityId::DesktopWindows],
    );
    assert!(registry.register_handler(again).is_err());
    assert!(registry
        .set_capability_availability(CapabilityId::Adb, false, Some("adb is missing".to_owned()))
        .is_ok());
    let Some(adb) = registry.capability(CapabilityId::Adb) else {
        panic!("the capability is registered");
    };
    assert!(!adb.available);
    assert_eq!(adb.detail.as_deref(), Some("adb is missing"));
    assert!(registry.require_capabilities(&vec![CapabilityId::Adb]).is_err());
    assert!(registry.require_capabilities(&Vec::new()).is_ok());
}

#[test]
fn cosmic_commands_name_what_they_work_on() {
    let command = CosmicCommand::new("cosmic-helper".to_owned());
    assert_eq!(command.program(), "cosmic-helper");
    let close = command.arguments(&CosmicOperation::CloseWindow { window: "one".to_owned() });
    assert_eq!(close.last().map(String::as_str), Some("one"));
    let list = command.arguments(&CosmicOperation::GetWindows);
    assert!(!list.is_empty());
}

#[test]
fn exec_lines_are_split_into_words() {
    let Some(launch) = parse_exec_line("env \"a b\" %% c\\ d") else {
        panic!("the line is well formed");
    };
    assert_eq!(launch.program, "env");
    assert_eq!(launch.arguments[0], "a b");
    assert!(parse_exec_line("\"open").is_none());
    assert!(parse_exec_line("").is_none());
    assert_eq!(expand_exec_token("%F"), Some(None));
    assert_eq!(expand_exec_token("100%%"), Some(Some("100%".to_owned())));
}

#[test]
fn directories_of_applications_are_those_of_the_desktop() {
    assert_eq!(
        default_application_directories(None, Some("/home/user"), None),
        vec![
            "/home/user/.local/share/applications".to_owned(),
            "/usr/local/share/applications".to_owned(),
            "/usr/share/applications".to_owned(),
            "/home/user/.local/share/flatpak/exports/share/applications".to_owned(),
            "/var/lib/flatpak/exports/share/applications".to_owned(),
            "/var/lib/snapd/desktop/applications".to_owned(),
        ]
    );
    assert_eq!(
        desktop_files(&vec!["b.desktop".to_owned(), "a.txt".to_owned(), "a.desktop".to_owned()]),
        vec!["a.desktop".to_owned(), "b.desktop".to_owned()]
    );
}

#[test]
fn applications_without_a_launch_command_are_told_apart() {
    let entry = "[Desktop Entry]\nType=Application\nName=Tool\nDBusActivatable=true\n";
    let files =
        vec![DesktopFile { path: "/apps/tool.desktop".to_owned(), contents: entry.to_owned() }];
    let message = |id: &str| {
        LinuxApplicationCatalog::launch_spec(&files, id).err().map(|error| error.message)
    };
    assert_eq!(
        message("other"),
        Some(
            "installed application 'other' could not be resolved to a launch command".to_owned()
        )
    );
    assert_eq!(
        message("tool"),
        Some(
            "installed application 'tool' does not expose a safe executable launch command"
                .to_owned()
        )
    );
}

#[test]
fn first_entry_with_a_launch_command_is_launched() {
    let entry = |path: &str, command: &str| DesktopFile {
        path: path.to_owned(),
        contents: format!("[Desktop Entry]\nType=Application\nName=Tool\n{command}"),
    };
    let launched = |files: &Vec<DesktopFile>| {
        LinuxApplicationCatalog::launch_spec(files, "tool").ok().map(|launch| launch.program)
    };
    let bare = entry("/home/a/tool.desktop", "DBusActivatable=true\n");
    let first = entry("/usr/a/tool.desktop", "Exec=/usr/bin/first\n");
    let second = entry("/usr/b/tool.desktop", "Exec=/usr/bin/second\n");
    assert_eq!(launched(&vec![first.clone()]).as_deref(), Some("/usr/bin/first"));
    assert_eq!(
        launched(&vec![bare.clone(), first.clone(), second.clone()]).as_deref(),
        Some("/usr/bin/first")
    );
    assert_eq!(launched(&vec![bare, second, first]).as_deref(), Some("/usr/bin/second"));
}

#[test]
fn clone_of_a_registry_goes_its_own_way() {
    let mut registry = IntegrationRegistry::for_detected_platform(&pop_os());
    assert!(registry
        .set_capability_availability(CapabilityId::Cursor, true, None)
        .is_ok());
    let before = registry.clone();
    assert!(registry
        .register_backend(CapabilityId::Cursor, "editors".to_owned())
        .is_ok());
    assert!(before.preflight(&pop_os()).is_ok());
    assert!(before.require_capabilities(&vec![CapabilityId::Cursor]).is_ok());
    assert!(before.select_backend(CapabilityId::Cursor, &pop_os()).is_err());
    assert_eq!(
        registry.select_backend(CapabilityId::Cursor, &pop_os()).ok(),
        Some("editors")
    );
}

#[test]
fn nothing_is_known_at_first() {
    assert_eq!(PlatformInfo::default(), PlatformInfo::unknown());
    assert_eq!(PlatformInfo::default().operating_system, "");
    assert_eq!(OsReleaseMetadata::default(), parse_os_release(""));
}

#[test]
fn backend_is_selected_where_its_capability_can_be_used() {
    let mut registry = IntegrationRegistry::for_detected_platform(&pop_os());
    assert!(registry
        .register_backend(CapabilityId::VsCode, "editors".to_owned())
        .is_ok());
    assert!(registry.register_backend(CapabilityId::VsCode, "again".to_owned()).is_err());
    assert!(registry
        .set_capability_availability(CapabilityId::VsCode, true, None)
        .is_ok());
    assert_eq!(
        registry.select_backend(CapabilityId::VsCode, &pop_os()).ok(),
        Some("editors")
    );
    let mut unknown = pop_os();
    unknown.desktop_environment = DesktopEnvironment::Gnome;
    assert!(registry.select_backend(CapabilityId::VsCode, &unknown).is_err());
    assert!(registry
        .set_capability_availability(CapabilityId::VsCode, false, None)
        .is_ok());
    assert!(registry.select_backend(CapabilityId::VsCode, &pop_os()).is_err());
}

#[test]
fn profiles_stand_in_the_order_of_their_names() {
    let mut registry = IntegrationRegistry::new();
    assert!(registry.register_profile(SupportProfile::initial()).is_err());
    let mut last = SupportProfile::initial();
    last.id = "zz-last".to_owned();
    let mut first = SupportProfile::initial();
    first.id = "a-first".to_owned();
    assert!(registry.register_profile(last.clone()).is_ok());
    assert!(registry.register_profile(first).is_ok());
    assert!(registry.register_profile(last).is_err());
    let ids: Vec<String> =
        registry.support_profiles().into_iter().map(|profile| profile.id).collect();
    assert_eq!(
        ids,
        vec!["a-first".to_owned(), SupportProfile::initial().id, "zz-last".to_owned()]
    );
}

#[test]
fn capabilities_keep_their_descriptors() {
    let mut registry = IntegrationRegistry::for_detected_platform(&pop_os());
    for mut descriptor in capability_descriptors() {
        descriptor.display_name = "another";
        assert!(registry.register_capability(descriptor).is_err());
    }
    assert_eq!(registry.capability_descriptors(), capability_descriptors());
}
