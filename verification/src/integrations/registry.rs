//! Which capabilities a system has, which backends provide them, and which actions can be run on it.
use vstd::prelude::*;
use vstd::string::*;
use crate::domain::ActionKind;
use crate::error::{error_of, seen, ErrorCategory, WorkstateError, WorkstateErrorView};
use crate::integrations::android::{find_tool, tool_found, AndroidTool};
use crate::platform::detection::support::{
    all_capabilities, capability_descriptors, described, descriptor_of, every_capability,
    law_places_are_distinct, members_in_order, pop_os_profile, set_of, CapabilityDescriptor,
    CapabilityDescriptorView, CapabilityId, CapabilitySet, SupportProfile, SupportProfileView,
    CAPABILITY_COUNT,
};
use crate::platform::identity::{DetectedPlatform, DetectedPlatformView};
use crate::platform::probe::PlatformProbe;
use crate::text::{
    join2, join3, joined, lemma_before_irreflexive, lemma_before_total, lemma_before_transitive,
    same_text, text_before, text_is_before, text_join,
};
use crate::values::{
    append, append_text, empty_list, lemma_filter_ends, lemma_filter_step, list_of, Replicate,
};

verus! {

/// Whether a capability can be used, and what is known of that.
#[derive(Debug, Clone, PartialEq, Eq)]
pub struct CapabilityAvailability {
    pub descriptor: CapabilityDescriptor,
    pub available: bool,
    pub detail: Option<String>,
}

/// What a `CapabilityAvailability` stands for.
#[verifier::ext_equal]
pub struct CapabilityAvailabilityView {
    pub descriptor: CapabilityDescriptorView,
    pub available: bool,
    pub detail: Option<Seq<char>>,
}

impl View for CapabilityAvailability {
    type V = CapabilityAvailabilityView;

    open spec fn view(&self) -> CapabilityAvailabilityView {
        CapabilityAvailabilityView {
            descriptor: self.descriptor@,
            available: self.available,
            detail: self.detail.deep_view(),
        }
    }
}

impl DeepView for CapabilityAvailability {
    type V = CapabilityAvailabilityView;

    open spec fn deep_view(&self) -> CapabilityAvailabilityView {
        self.view()
    }
}

impl Replicate for CapabilityAvailability {
    fn replicate(&self) -> (r: Self) {
        CapabilityAvailability {
            descriptor: self.descriptor,
            available: self.available,
            detail: self.detail.replicate(),
        }
    }
}

/// Which backend runs an action, and what the action needs.
#[derive(Debug, Clone, PartialEq, Eq)]
pub struct ActionHandlerDescriptor {
    pub action_key: String,
    pub backend_id: String,
    pub required_capabilities: CapabilitySet,
}

/// What an `ActionHandlerDescriptor` stands for.
#[verifier::ext_equal]
pub struct ActionHandlerDescriptorView {
    pub action_key: Seq<char>,
    pub backend_id: Seq<char>,
    pub required_capabilities: Set<CapabilityId>,
}

impl View for ActionHandlerDescriptor {
    type V = ActionHandlerDescriptorView;

    open spec fn view(&self) -> ActionHandlerDescriptorView {
        ActionHandlerDescriptorView {
            action_key: self.action_key@,
            backend_id: self.backend_id@,
            required_capabilities: self.required_capabilities@,
        }
    }
}

impl DeepView for ActionHandlerDescriptor {
    type V = ActionHandlerDescriptorView;

    open spec fn deep_view(&self) -> ActionHandlerDescriptorView {
        self.view()
    }
}

impl Replicate for ActionHandlerDescriptor {
    fn replicate(&self) -> (r: Self) {
        ActionHandlerDescriptor {
            action_key: self.action_key.clone(),
            backend_id: self.backend_id.clone(),
            required_capabilities: self.required_capabilities.replicate(),
        }
    }
}

/// What runs an action.
pub open spec fn handler_of(key: Seq<char>, backend: Seq<char>, required: Seq<CapabilityId>) -> ActionHandlerDescriptorView {
    ActionHandlerDescriptorView {
        action_key: key,
        backend_id: backend,
        required_capabilities: set_of(required),
    }
}

impl ActionHandlerDescriptor {
    pub fn new(
        action_key: String,
        backend_id: String,
        required_capabilities: Vec<CapabilityId>,
    ) -> (r: Self)
        ensures
            r@ == handler_of(action_key@, backend_id@, required_capabilities@),
    {
        ActionHandlerDescriptor {
            action_key,
            backend_id,
            required_capabilities: CapabilitySet::of(&required_capabilities),
        }
    }
}

/// The supported profiles by their names, the capabilities and their backends, and what runs each
/// action.
#[derive(Debug)]
pub struct IntegrationRegistry {
    profiles: Vec<SupportProfile>,
    capabilities: Vec<CapabilityAvailability>,
    handlers: Vec<ActionHandlerDescriptor>,
    backends: Vec<Option<String>>,
}

/// What an `IntegrationRegistry` stands for: the profiles in the order of their names; for each
/// capability, in their order, whether it can be used, and which backend provides it; and the
/// handlers in the order in which they were registered.
#[verifier::ext_equal]
pub struct IntegrationRegistryView {
    pub profiles: Seq<SupportProfileView>,
    pub capabilities: Seq<CapabilityAvailabilityView>,
    pub handlers: Seq<ActionHandlerDescriptorView>,
    pub backends: Seq<Option<Seq<char>>>,
}

impl View for IntegrationRegistry {
    type V = IntegrationRegistryView;

    closed spec fn view(&self) -> IntegrationRegistryView {
        IntegrationRegistryView {
            profiles: self.profiles.deep_view(),
            capabilities: self.capabilities.deep_view(),
            handlers: self.handlers.deep_view(),
            backends: self.backends.deep_view(),
        }
    }
}

impl Clone for IntegrationRegistry {
    /// A registry with the same contents.
    fn clone(&self) -> (r: Self)
        ensures
            r@ == self@,
    {
        proof {
            use_type_invariant(self);
        }
        IntegrationRegistry {
            profiles: self.profiles.replicate(),
            capabilities: self.capabilities.replicate(),
            handlers: self.handlers.replicate(),
            backends: self.backends.replicate(),
        }
    }
}

/// The error of the registry.
pub open spec fn registry_error(message: Seq<char>) -> WorkstateErrorView {
    error_of(ErrorCategory::Integration, message)
}

/// The profile of a name.
pub open spec fn profile_named(profiles: Seq<SupportProfileView>, id: Seq<char>) -> Option<
    SupportProfileView,
>
    decreases profiles.len(),
{
    if profiles.len() == 0 {
        None
    } else if profiles[0].id == id {
        Some(profiles[0])
    } else {
        profile_named(profiles.drop_first(), id)
    }
}

/// The profiles with one more, which comes before the first whose name is greater.
pub open spec fn with_profile(
    profiles: Seq<SupportProfileView>,
    profile: SupportProfileView,
) -> Seq<SupportProfileView>
    decreases profiles.len(),
{
    if profiles.len() == 0 {
        seq![profile]
    } else if text_before(profile.id, profiles[0].id) {
        seq![profile] + profiles
    } else {
        seq![profiles[0]] + with_profile(profiles.drop_first(), profile)
    }
}

/// The names of the profiles stand in strictly ascending order.
pub open spec fn profiles_ascend(profiles: Seq<SupportProfileView>) -> bool {
    forall|i: int, j: int|
        0 <= i < j < profiles.len() ==> #[trigger] text_before(profiles[i].id, profiles[j].id)
}

/// The handler of an action.
pub open spec fn handler_named(handlers: Seq<ActionHandlerDescriptorView>, key: Seq<char>) -> Option<
    ActionHandlerDescriptorView,
>
    decreases handlers.len(),
{
    if handlers.len() == 0 {
        None
    } else if handlers[0].action_key == key {
        Some(handlers[0])
    } else {
        handler_named(handlers.drop_first(), key)
    }
}

/// The handlers that every registry has.
pub open spec fn default_handlers() -> Seq<ActionHandlerDescriptorView> {
    seq![
        handler_of("open_application"@, "desktop"@, seq![CapabilityId::DesktopWindows]),
        handler_of("open_project"@, "desktop"@, seq![CapabilityId::DesktopWindows]),
        handler_of("run_command"@, "terminal"@, seq![CapabilityId::BackgroundProcesses]),
        handler_of("configure_tiling"@, "desktop"@, seq![CapabilityId::DesktopTiling]),
        handler_of("start_container"@, "docker"@, seq![CapabilityId::DockerEngine]),
        handler_of("start_compose"@, "docker"@, seq![CapabilityId::DockerCompose]),
        handler_of("start_android_emulator"@, "android"@, seq![CapabilityId::AndroidEmulator, CapabilityId::Adb]),
    ]
}

/// The backend that provides a capability in every registry, where there is one.
pub open spec fn default_backend(id: CapabilityId) -> Option<Seq<char>> {
    match id {
        CapabilityId::DesktopWorkspaces => Some("desktop"@),
        CapabilityId::DesktopWindows => Some("desktop"@),
        CapabilityId::DesktopTiling => Some("desktop"@),
        CapabilityId::TerminalSessions => Some("terminal"@),
        CapabilityId::BackgroundProcesses => Some("terminal"@),
        CapabilityId::DockerEngine => Some("docker"@),
        CapabilityId::DockerDesktop => Some("docker"@),
        CapabilityId::DockerCompose => Some("docker"@),
        CapabilityId::Zed => Some("zed"@),
        CapabilityId::AndroidEmulator => Some("android"@),
        CapabilityId::Adb => Some("android"@),
        CapabilityId::VsCode => None,
        CapabilityId::Cursor => None,
    }
}

/// A capability that cannot be used yet.
pub open spec fn unavailable(id: CapabilityId) -> CapabilityAvailabilityView {
    CapabilityAvailabilityView { descriptor: described(id), available: false, detail: None }
}

/// The registry of a system of which nothing is known yet.
pub open spec fn fresh_registry() -> IntegrationRegistryView {
    IntegrationRegistryView {
        profiles: seq![pop_os_profile()],
        capabilities: every_capability().map_values(|id: CapabilityId| unavailable(id)),
        handlers: default_handlers(),
        backends: every_capability().map_values(|id: CapabilityId| default_backend(id)),
    }
}

impl IntegrationRegistryView {
    /// Every capability has its place, where it is described as everywhere else, and the profiles are
    /// in the order of their names, no two of which are the same.
    pub open spec fn complete(self) -> bool {
        &&& self.capabilities.len() == CAPABILITY_COUNT
        &&& self.backends.len() == CAPABILITY_COUNT
        &&& forall|i: int|
            0 <= i < CAPABILITY_COUNT ==> (#[trigger] self.capabilities[i]).descriptor == described(
                every_capability()[i],
            )
        &&& profiles_ascend(self.profiles)
    }

    /// Whether a capability can be used.
    pub open spec fn availability(self, id: CapabilityId) -> CapabilityAvailabilityView {
        self.capabilities[id.rank()]
    }

    /// The backend that provides a capability.
    pub open spec fn backend(self, id: CapabilityId) -> Option<Seq<char>> {
        self.backends[id.rank()]
    }

    /// The registry where a capability can be used or not.
    pub open spec fn setting(self, id: CapabilityId, available: bool, detail: Option<Seq<char>>) -> IntegrationRegistryView {
        IntegrationRegistryView {
            capabilities: self.capabilities.update(
                id.rank(),
                CapabilityAvailabilityView { available, detail, ..self.capabilities[id.rank()] },
            ),
            ..self
        }
    }

    /// The members of a set that cannot be used, in their order.
    pub open spec fn missing(self, required: Set<CapabilityId>) -> Seq<CapabilityId> {
        members_in_order(required).filter(|id: CapabilityId| !self.availability(id).available)
    }

    /// Whether a profile is for the system, and nothing that it needs is missing.
    pub open spec fn is_supported(self, platform: DetectedPlatformView) -> bool {
        exists|i: int|
            0 <= i < self.profiles.len() && (#[trigger] self.profiles[i]).admits(platform)
                && self.missing(self.profiles[i].required_base_capabilities).len() == 0
    }

    /// The profile that a system that is not supported comes closest to: the first that is for the
    /// system, or else the first of all.
    pub open spec fn closest(self, platform: DetectedPlatformView) -> Option<SupportProfileView> {
        match first_admitting(self.profiles, platform) {
            Some(profile) => Some(profile),
            None => if self.profiles.len() > 0 {
                Some(self.profiles[0])
            } else {
                None
            },
        }
    }

    /// Why a system is not supported.
    pub open spec fn unsupported(self, platform: DetectedPlatformView) -> WorkstateErrorView {
        let error = error_of(
            ErrorCategory::Platform,
            "This system is not supported by the current Workstate profiles"@,
        ).with("operating_system"@, platform.operating_system.text()).with(
            "distribution"@,
            platform.distribution.text(),
        ).with("desktop_environment"@, platform.desktop_environment.text()).with(
            "terminal_capability"@,
            platform.terminal.text(),
        ).with(
            "supported_profiles"@,
            joined(
                self.profiles.map_values(|profile: SupportProfileView| profile.description),
                "; "@,
            ),
        );
        match self.closest(platform) {
            Some(profile) if self.missing(
                profile.required_base_capabilities,
            ).len() > 0 => error.with(
                "missing_capabilities"@,
                joined(
                    self.missing(profile.required_base_capabilities).map_values(
                        |id: CapabilityId| id.name(),
                    ),
                    ", "@,
                ),
            ),
            _ => error,
        }
    }

    /// A system is accepted where it is supported.
    pub open spec fn preflighted(self, platform: DetectedPlatformView) -> Result<
        (),
        WorkstateErrorView,
    > {
        if self.is_supported(platform) {
            Ok(())
        } else {
            Err(self.unsupported(platform))
        }
    }

    /// Why a capability cannot be used.
    pub open spec fn lacking(self, id: CapabilityId) -> WorkstateErrorView {
        let availability = self.availability(id);
        let error = registry_error("required capability '"@ + id.name() + "' is unavailable"@).with(
            "capability"@,
            id.name(),
        ).with("display_name"@, availability.descriptor.display_name);
        match availability.detail {
            Some(detail) => error.with("detail"@, detail),
            None => error,
        }
    }

    /// The first of the capabilities that cannot be used.
    pub open spec fn first_lacking(self, required: Seq<CapabilityId>) -> Result<
        (),
        WorkstateErrorView,
    >
        decreases required.len(),
    {
        if required.len() == 0 {
            Ok(())
        } else if !self.availability(required[0]).available {
            Err(self.lacking(required[0]))
        } else {
            self.first_lacking(required.drop_first())
        }
    }

    /// The backend that provides a capability on a system.
    pub open spec fn backend_selected(
        self,
        capability: CapabilityId,
        platform: DetectedPlatformView,
    ) -> Result<Seq<char>, WorkstateErrorView> {
        match self.preflighted(platform) {
            Err(error) => Err(error),
            Ok(_) => match self.first_lacking(seq![capability]) {
                Err(error) => Err(error),
                Ok(_) => match self.backend(capability) {
                    Some(backend) => Ok(backend),
                    None => Err(
                        registry_error(
                            "no backend is registered for capability '"@ + capability.name()
                                + "'"@,
                        ).with("capability"@, capability.name()),
                    ),
                },
            },
        }
    }

    /// The desktop is there with COSMIC, and the terminal with tmux.
    pub open spec fn knowing_base(self, platform: DetectedPlatformView) -> IntegrationRegistryView {
        let desktop = platform.desktop_environment is Cosmic;
        let desktop_detail = if desktop {
            None
        } else {
            Some("COSMIC desktop support is unavailable"@)
        };
        let terminal = platform.terminal.executable is Some;
        let terminal_detail = if terminal {
            None
        } else {
            Some("tmux is unavailable"@)
        };
        self.setting(CapabilityId::DesktopWorkspaces, desktop, desktop_detail).setting(
            CapabilityId::DesktopWindows,
            desktop,
            desktop_detail,
        ).setting(CapabilityId::DesktopTiling, desktop, desktop_detail).setting(
            CapabilityId::TerminalSessions,
            terminal,
            terminal_detail,
        ).setting(CapabilityId::BackgroundProcesses, terminal, terminal_detail)
    }

    /// A capability can be used where its executable is found.
    pub open spec fn knowing_tool(self, id: CapabilityId, path: Option<Seq<char>>) -> IntegrationRegistryView {
        self.setting(
            id,
            path is Some,
            match path {
                Some(path) => Some("available at "@ + path),
                None => if id == CapabilityId::DockerCompose {
                    Some("Docker Compose executable was not found"@)
                } else {
                    match self.availability(id).descriptor.executable {
                        Some(name) => Some("executable '"@ + name + "' was not found"@),
                        None => None,
                    }
                },
            },
        )
    }

    /// The registry after the executables of the capabilities were looked for, in their order; the
    /// first answer that fails ends it.
    pub open spec fn knowing_tools<P: PlatformProbe>(
        self,
        probe: &P,
        ids: Seq<CapabilityId>,
    ) -> Result<IntegrationRegistryView, WorkstateErrorView>
        decreases ids.len(),
    {
        if ids.len() == 0 {
            Ok(self)
        } else {
            match self.knowing_tools(probe, ids.drop_last()) {
                Err(error) => Err(error),
                Ok(registry) => match registry.executable_found(probe, ids.last()) {
                    Err(error) => Err(error),
                    Ok(path) => Ok(registry.knowing_tool(ids.last(), path)),
                },
            }
        }
    }

    /// Where the executable of a capability is.
    pub open spec fn executable_found<P: PlatformProbe>(self, probe: &P, id: CapabilityId) -> Result<
        Option<Seq<char>>,
        WorkstateErrorView,
    > {
        match id {
            CapabilityId::DockerCompose => match probe.program("docker"@) {
                Err(error) => Err(error),
                Ok(first) => match probe.program("docker-compose"@) {
                    Err(error) => Err(error),
                    Ok(second) => if first is Some {
                        Ok(first)
                    } else {
                        Ok(second)
                    },
                },
            },
            CapabilityId::AndroidEmulator => tool_found(probe, AndroidTool::Emulator),
            CapabilityId::Adb => tool_found(probe, AndroidTool::Adb),
            _ => match self.availability(id).descriptor.executable {
                Some(name) => probe.program(name),
                None => Ok(None),
            },
        }
    }
}

/// The capabilities that come with an executable that is looked for.
pub open spec fn sought_capabilities() -> Seq<CapabilityId> {
    seq![
        CapabilityId::DockerEngine,
        CapabilityId::DockerDesktop,
        CapabilityId::DockerCompose,
        CapabilityId::Zed,
        CapabilityId::AndroidEmulator,
        CapabilityId::Adb,
    ]
}

/// The first profile that is for a system.
pub open spec fn first_admitting(
    profiles: Seq<SupportProfileView>,
    platform: DetectedPlatformView,
) -> Option<SupportProfileView>
    decreases profiles.len(),
{
    if profiles.len() == 0 {
        None
    } else if profiles[0].admits(platform) {
        Some(profiles[0])
    } else {
        first_admitting(profiles.drop_first(), platform)
    }
}

fn fresh_capabilities() -> (r: Vec<CapabilityAvailability>)
    ensures
        r.deep_view() == every_capability().map_values(|id: CapabilityId| unavailable(id)),
{
    let all = all_capabilities();
    let ghost f = |id: CapabilityId| unavailable(id);
    let mut capabilities: Vec<CapabilityAvailability> = empty_list();
    let mut i: usize = 0;
    assert(all@.take(0).map_values(f) =~= Seq::<CapabilityAvailabilityView>::empty());
    while i < all.len()
        invariant
            i <= all@.len(),
            all@ == every_capability(),
            f == (|id: CapabilityId| unavailable(id)),
            capabilities.deep_view() == all@.take(i as int).map_values(f),
        decreases all@.len() - i,
    {
        append(
            &mut capabilities,
            CapabilityAvailability {
                descriptor: descriptor_of(all[i]),
                available: false,
                detail: None,
            },
        );
        assert(all@.take(i as int + 1).map_values(f) =~= all@.take(i as int).map_values(f).push(
            unavailable(all@[i as int]),
        ));
        i = i + 1;
    }
    assert(all@.take(i as int) =~= all@);
    capabilities
}

fn backend_by_default(id: CapabilityId) -> (r: Option<String>)
    ensures
        r.deep_view() == default_backend(id),
{
    match id {
        CapabilityId::DesktopWorkspaces => Some("desktop".to_owned()),
        CapabilityId::DesktopWindows => Some("desktop".to_owned()),
        CapabilityId::DesktopTiling => Some("desktop".to_owned()),
        CapabilityId::TerminalSessions => Some("terminal".to_owned()),
        CapabilityId::BackgroundProcesses => Some("terminal".to_owned()),
        CapabilityId::DockerEngine => Some("docker".to_owned()),
        CapabilityId::DockerDesktop => Some("docker".to_owned()),
        CapabilityId::DockerCompose => Some("docker".to_owned()),
        CapabilityId::Zed => Some("zed".to_owned()),
        CapabilityId::AndroidEmulator => Some("android".to_owned()),
        CapabilityId::Adb => Some("android".to_owned()),
        CapabilityId::VsCode => None,
        CapabilityId::Cursor => None,
    }
}

fn fresh_backends() -> (r: Vec<Option<String>>)
    ensures
        r.deep_view() == every_capability().map_values(|id: CapabilityId| default_backend(id)),
{
    let all = all_capabilities();
    let ghost f = |id: CapabilityId| default_backend(id);
    let mut backends: Vec<Option<String>> = empty_list();
    let mut i: usize = 0;
    assert(all@.take(0).map_values(f) =~= Seq::<Option<Seq<char>>>::empty());
    while i < all.len()
        invariant
            i <= all@.len(),
            all@ == every_capability(),
            f == (|id: CapabilityId| default_backend(id)),
            backends.deep_view() == all@.take(i as int).map_values(f),
        decreases all@.len() - i,
    {
        append(&mut backends, backend_by_default(all[i]));
        assert(all@.take(i as int + 1).map_values(f) =~= all@.take(i as int).map_values(f).push(
            default_backend(all@[i as int]),
        ));
        i = i + 1;
    }
    assert(all@.take(i as int) =~= all@);
    backends
}

fn one_capability(id: CapabilityId) -> (r: Vec<CapabilityId>)
    ensures
        r@ == seq![id],
{
    let mut list: Vec<CapabilityId> = Vec::new();
    list.push(id);
    assert(list@ =~= seq![id]);
    list
}

fn handler_with(key: &str, backend: &str, required: CapabilityId) -> (r: ActionHandlerDescriptor)
    ensures
        r@ == handler_of(key@, backend@, seq![required]),
{
    ActionHandlerDescriptor::new(key.to_owned(), backend.to_owned(), one_capability(required))
}

fn fresh_handlers() -> (r: Vec<ActionHandlerDescriptor>)
    ensures
        r.deep_view() == default_handlers(),
{
    let mut handlers: Vec<ActionHandlerDescriptor> = empty_list();
    append(&mut handlers, handler_with("open_application", "desktop", CapabilityId::DesktopWindows));
    append(&mut handlers, handler_with("open_project", "desktop", CapabilityId::DesktopWindows));
    append(&mut handlers, handler_with("run_command", "terminal", CapabilityId::BackgroundProcesses));
    append(&mut handlers, handler_with("configure_tiling", "desktop", CapabilityId::DesktopTiling));
    append(&mut handlers, handler_with("start_container", "docker", CapabilityId::DockerEngine));
    append(&mut handlers, handler_with("start_compose", "docker", CapabilityId::DockerCompose));
    let mut both: Vec<CapabilityId> = one_capability(CapabilityId::AndroidEmulator);
    both.push(CapabilityId::Adb);
    assert(both@ =~= seq![CapabilityId::AndroidEmulator, CapabilityId::Adb]);
    append(
        &mut handlers,
        ActionHandlerDescriptor::new("start_android_emulator".to_owned(), "android".to_owned(), both),
    );
    assert(handlers.deep_view() =~= default_handlers());
    handlers
}

impl IntegrationRegistry {
    #[verifier::type_invariant]
    spec fn well_formed(self) -> bool {
        self@.complete()
    }

    /// The registry of a system of which nothing is known yet.
    pub fn new() -> (r: Self)
        ensures
            r@ == fresh_registry(),
            r@.complete(),
    {
        let profiles = list_of(SupportProfile::initial());
        let capabilities = fresh_capabilities();
        let handlers = fresh_handlers();
        let backends = fresh_backends();
        IntegrationRegistry { profiles, capabilities, handlers, backends }
    }

    /// The registry of a system that a probe speaks of.
    pub fn from_platform<P: PlatformProbe>(platform: &DetectedPlatform, probe: &P) -> (r: Result<
        Self,
        WorkstateError,
    >)
        ensures
            match r {
                Ok(registry) => fresh_registry().knowing_base(platform@).knowing_tools(
                    probe,
                    sought_capabilities(),
                ) == Ok::<IntegrationRegistryView, WorkstateErrorView>(registry@)
                    && registry@.complete(),
                Err(error) => fresh_registry().knowing_base(platform@).knowing_tools(
                    probe,
                    sought_capabilities(),
                ) == Err::<IntegrationRegistryView, WorkstateErrorView>(error@),
            },
    {
        let mut registry = Self::new();
        match registry.refresh_capabilities(platform, probe) {
            Err(error) => Err(error),
            Ok(_) => {
                proof {
                    use_type_invariant(&registry);
                }
                Ok(registry)
            },
        }
    }

    /// The registry of a system, as far as the desktop and the terminal go.
    pub fn for_detected_platform(platform: &DetectedPlatform) -> (r: Self)
        ensures
            r@ == fresh_registry().knowing_base(platform@),
            r@.complete(),
    {
        let mut registry = Self::new();
        registry.refresh_base_capabilities(platform);
        proof {
            use_type_invariant(&registry);
        }
        registry
    }

    /// The supported profiles, in the order of their names.
    pub fn support_profiles(&self) -> (r: Vec<SupportProfile>)
        ensures
            r.deep_view() == self@.profiles,
            self@.complete(),
            profiles_ascend(r.deep_view()),
    {
        proof {
            use_type_invariant(self);
        }
        self.profiles.replicate()
    }

    /// What is said of each capability, in their order.
    pub fn capability_descriptors(&self) -> (r: Vec<CapabilityDescriptor>)
        ensures
            r.deep_view() == self@.capabilities.map_values(
                |availability: CapabilityAvailabilityView| availability.descriptor,
            ),
            r.deep_view() == every_capability().map_values(|id: CapabilityId| described(id)),
    {
        proof {
            use_type_invariant(self);
        }
        let ghost all = self.capabilities.deep_view();
        let ghost f = |availability: CapabilityAvailabilityView| availability.descriptor;
        let mut descriptors: Vec<CapabilityDescriptor> = empty_list();
        let mut i: usize = 0;
        assert(all.take(0).map_values(f) =~= Seq::<CapabilityDescriptorView>::empty());
        while i < self.capabilities.len()
            invariant
                i <= self.capabilities@.len(),
                all == self.capabilities.deep_view(),
                f == (|availability: CapabilityAvailabilityView| availability.descriptor),
                descriptors.deep_view() == all.take(i as int).map_values(f),
            decreases self.capabilities@.len() - i,
        {
            assert(all[i as int] == self.capabilities@[i as int]@);
            append(&mut descriptors, self.capabilities[i].descriptor);
            assert(all.take(i as int + 1).map_values(f) =~= all.take(i as int).map_values(f).push(
                all[i as int].descriptor,
            ));
            i = i + 1;
        }
        assert(all.take(i as int) =~= all);
        assert(all.map_values(f) =~= every_capability().map_values(
            |id: CapabilityId| described(id),
        ));
        descriptors
    }

    /// The capabilities that can be used, in their order.
    pub fn available_capabilities(&self) -> (r: Vec<CapabilityAvailability>)
        ensures
            r.deep_view() == self@.capabilities.filter(
                |availability: CapabilityAvailabilityView| availability.available,
            ),
    {
        let ghost all = self.capabilities.deep_view();
        let ghost keep = |availability: CapabilityAvailabilityView| availability.available;
        let mut available: Vec<CapabilityAvailability> = empty_list();
        let mut i: usize = 0;
        proof {
            lemma_filter_ends(all, keep);
        }
        while i < self.capabilities.len()
            invariant
                i <= self.capabilities@.len(),
                all == self.capabilities.deep_view(),
                keep == (|availability: CapabilityAvailabilityView| availability.available),
                available.deep_view() == all.take(i as int).filter(keep),
            decreases self.capabilities@.len() - i,
        {
            proof {
                lemma_filter_step(all, i as int, keep);
            }
            assert(all[i as int] == self.capabilities@[i as int]@);
            if self.capabilities[i].available {
                append(&mut available, self.capabilities[i].replicate());
            }
            i = i + 1;
        }
        available
    }

    /// What is said of each capability that can be used, in their order.
    pub fn available_capability_descriptors(&self) -> (r: Vec<CapabilityDescriptor>)
        ensures
            r.deep_view() == self@.capabilities.filter(
                |availability: CapabilityAvailabilityView| availability.available,
            ).map_values(|availability: CapabilityAvailabilityView| availability.descriptor),
    {
        let available = self.available_capabilities();
        let ghost all = available.deep_view();
        let ghost f = |availability: CapabilityAvailabilityView| availability.descriptor;
        let mut descriptors: Vec<CapabilityDescriptor> = empty_list();
        let mut i: usize = 0;
        assert(all.take(0).map_values(f) =~= Seq::<CapabilityDescriptorView>::empty());
        while i < available.len()
            invariant
                i <= available@.len(),
                all == available.deep_view(),
                f == (|availability: CapabilityAvailabilityView| availability.descriptor),
                descriptors.deep_view() == all.take(i as int).map_values(f),
            decreases available@.len() - i,
        {
            assert(all[i as int] == available@[i as int]@);
            append(&mut descriptors, available[i].descriptor);
            assert(all.take(i as int + 1).map_values(f) =~= all.take(i as int).map_values(f).push(
                all[i as int].descriptor,
            ));
            i = i + 1;
        }
        assert(all.take(i as int) =~= all);
        descriptors
    }

    /// Whether a capability can be used. Every capability is registered.
    pub fn capability(&self, id: CapabilityId) -> (r: Option<&CapabilityAvailability>)
        ensures
            r matches Some(availability) && availability@ == self@.availability(id)
                && availability@.descriptor == described(id),
    {
        proof {
            use_type_invariant(self);
        }
        let place = id.place();
        assert(self.capabilities.deep_view()[place as int] == self.capabilities@[place as int]@);
        Some(&self.capabilities[place])
    }

    /// What runs an action of a kind.
    pub fn handler_for(&self, action: &ActionKind) -> (r: Option<&ActionHandlerDescriptor>)
        ensures
            match r {
                Some(handler) => handler_named(self@.handlers, action.key_text()) == Some(
                    handler@,
                ),
                None => handler_named(self@.handlers, action.key_text()) is None,
            },
    {
        self.find_handler(action.key())
    }

    fn find_handler(&self, key: &str) -> (r: Option<&ActionHandlerDescriptor>)
        ensures
            match r {
                Some(handler) => handler_named(self@.handlers, key@) == Some(handler@),
                None => handler_named(self@.handlers, key@) is None,
            },
    {
        let ghost all = self.handlers.deep_view();
        let mut i: usize = 0;
        assert(all.skip(0) =~= all);
        while i < self.handlers.len()
            invariant
                i <= self.handlers@.len(),
                all == self.handlers.deep_view(),
                handler_named(all, key@) == handler_named(all.skip(i as int), key@),
            decreases self.handlers@.len() - i,
        {
            assert(all.skip(i as int)[0] == self.handlers@[i as int]@);
            assert(all.skip(i as int).drop_first() =~= all.skip(i as int + 1));
            if same_text(self.handlers[i].action_key.as_str(), key) {
                return Some(&self.handlers[i]);
            }
            i = i + 1;
        }
        None
    }

    fn has_profile(&self, id: &str) -> (r: bool)
        ensures
            r == (profile_named(self@.profiles, id@) is Some),
    {
        let ghost all = self.profiles.deep_view();
        let mut i: usize = 0;
        assert(all.skip(0) =~= all);
        while i < self.profiles.len()
            invariant
                i <= self.profiles@.len(),
                all == self.profiles.deep_view(),
                profile_named(all, id@) == profile_named(all.skip(i as int), id@),
            decreases self.profiles@.len() - i,
        {
            assert(all.skip(i as int)[0] == self.profiles@[i as int]@);
            assert(all.skip(i as int).drop_first() =~= all.skip(i as int + 1));
            if same_text(self.profiles[i].id.as_str(), id) {
                return true;
            }
            i = i + 1;
        }
        false
    }

    /// Adds a profile; a name that is taken is refused.
    pub fn register_profile(&mut self, profile: SupportProfile) -> (r: Result<(), WorkstateError>)
        ensures
            profile_named(old(self)@.profiles, profile@.id) is Some ==> seen(r) == Err::<
                (),
                WorkstateErrorView,
            >(
                registry_error(
                    "support profile '"@ + profile@.id + "' is already registered"@,
                ),
            ) && final(self)@ == old(self)@,
            profile_named(old(self)@.profiles, profile@.id) is None ==> r is Ok && final(self)@ == (
            IntegrationRegistryView {
                profiles: with_profile(old(self)@.profiles, profile@),
                ..old(self)@
            }),
            final(self)@.complete(),
    {
        proof {
            use_type_invariant(&*self);
        }
        if self.has_profile(profile.id.as_str()) {
            return Err(
                WorkstateError::new(
                    ErrorCategory::Integration,
                    join3(
                        "support profile '",
                        profile.id.as_str(),
                        "' is already registered",
                    ).as_str(),
                ),
            );
        }
        proof {
            law_profiles_stay_in_order(self@, profile@);
        }
        let updated = profiles_with(&self.profiles, profile);
        self.profiles = updated;
        Ok(())
    }

    /// Adds a handler; an action that has one is refused.
    pub fn register_handler(&mut self, handler: ActionHandlerDescriptor) -> (r: Result<
        (),
        WorkstateError,
    >)
        ensures
            handler_named(old(self)@.handlers, handler@.action_key) is Some ==> seen(r) == Err::<
                (),
                WorkstateErrorView,
            >(
                registry_error(
                    "action handler '"@ + handler@.action_key + "' is already registered"@,
                ),
            ) && final(self)@ == old(self)@,
            handler_named(old(self)@.handlers, handler@.action_key) is None ==> r is Ok
                && final(self)@ == (IntegrationRegistryView {
                handlers: old(self)@.handlers.push(handler@),
                ..old(self)@
            }),
            final(self)@.complete(),
    {
        proof {
            use_type_invariant(&*self);
        }
        if self.find_handler(handler.action_key.as_str()).is_some() {
            return Err(
                WorkstateError::new(
                    ErrorCategory::Integration,
                    join3(
                        "action handler '",
                        handler.action_key.as_str(),
                        "' is already registered",
                    ).as_str(),
                ),
            );
        }
        let mut handlers: Vec<ActionHandlerDescriptor> = empty_list();
        std::mem::swap(&mut handlers, &mut self.handlers);
        append(&mut handlers, handler);
        self.handlers = handlers;
        Ok(())
    }

    /// Refuses a capability: every one is registered from the beginning.
    pub fn register_capability(&mut self, descriptor: CapabilityDescriptor) -> (r: Result<
        (),
        WorkstateError,
    >)
        ensures
            seen(r) == Err::<(), WorkstateErrorView>(
                registry_error(
                    "capability '"@ + descriptor@.id.name() + "' is already registered"@,
                ),
            ),
            final(self)@ == old(self)@,
            final(self)@.complete(),
    {
        proof {
            use_type_invariant(&*self);
        }
        Err(
            WorkstateError::new(
                ErrorCategory::Integration,
                join3(
                    "capability '",
                    descriptor.id.as_str(),
                    "' is already registered",
                ).as_str(),
            ),
        )
    }

    fn set_availability(&mut self, id: CapabilityId, available: bool, detail: Option<String>)
        ensures
            final(self)@ == old(self)@.setting(id, available, detail.deep_view()),
    {
        proof {
            use_type_invariant(&*self);
            law_places_are_distinct(id, id);
        }
        let ghost before = self.capabilities.deep_view();
        let place = id.place();
        assert(before[place as int] == self.capabilities@[place as int]@);
        let mut updated = self.capabilities.replicate();
        assert(updated.deep_view().len() == updated@.len());
        assert(before.len() == self.capabilities@.len());
        let descriptor = self.capabilities[place].descriptor;
        updated.set(place, CapabilityAvailability { descriptor, available, detail });
        assert(updated.deep_view() =~= before.update(
            place as int,
            CapabilityAvailabilityView {
                available,
                detail: detail.deep_view(),
                ..before[place as int]
            },
        )) by {
            assert forall|k: int| 0 <= k < before.len() && k != place implies updated.deep_view()[k]
                == before[k] by {
                assert(updated.deep_view()[k] == updated@[k]@);
            }
        }
        self.capabilities = updated;
    }

    /// Says whether a capability can be used.
    pub fn set_capability_availability(
        &mut self,
        capability: CapabilityId,
        available: bool,
        detail: Option<String>,
    ) -> (r: Result<(), WorkstateError>)
        ensures
            r is Ok,
            final(self)@ == old(self)@.setting(capability, available, detail.deep_view()),
            final(self)@.complete(),
    {
        self.set_availability(capability, available, detail);
        proof {
            use_type_invariant(&*self);
        }
        Ok(())
    }

    /// Adds a backend; a capability that has one is refused.
    pub fn register_backend(&mut self, capability: CapabilityId, backend_id: String) -> (r: Result<
        (),
        WorkstateError,
    >)
        ensures
            old(self)@.backend(capability) is Some ==> seen(r) == Err::<(), WorkstateErrorView>(
                registry_error(
                    "a backend for capability '"@ + capability.name()
                        + "' is already registered"@,
                ),
            ) && final(self)@ == old(self)@,
            old(self)@.backend(capability) is None ==> r is Ok && final(self)@ == (
            IntegrationRegistryView {
                backends: old(self)@.backends.update(capability.rank(), Some(backend_id@)),
                ..old(self)@
            }),
            final(self)@.complete(),
    {
        proof {
            use_type_invariant(&*self);
        }
        let ghost before = self.backends.deep_view();
        let place = capability.place();
        assert(before[place as int] == self.backends@[place as int].deep_view());
        if self.backends[place].is_some() {
            return Err(
                WorkstateError::new(
                    ErrorCategory::Integration,
                    join3(
                        "a backend for capability '",
                        capability.as_str(),
                        "' is already registered",
                    ).as_str(),
                ),
            );
        }
        let mut updated = self.backends.replicate();
        assert(updated.deep_view().len() == updated@.len());
        assert(before.len() == self.backends@.len());
        let ghost copy = updated@;
        let ghost value = backend_id@;
        updated.set(place, Some(backend_id));
        assert(updated.deep_view() =~= before.update(place as int, Some(value))) by {
            assert forall|k: int| 0 <= k < before.len() && k != place implies updated.deep_view()[k]
                == before[k] by {
                assert(updated.deep_view()[k] == updated@[k].deep_view());
                assert(updated@[k] == copy[k]);
            }
        }
        self.backends = updated;
        Ok(())
    }

    /// Accepts a system that is supported, and says else what it lacks.
    pub fn preflight(&self, platform: &DetectedPlatform) -> (r: Result<(), WorkstateError>)
        ensures
            seen(r) == self@.preflighted(platform@),
    {
        let ghost all = self.profiles.deep_view();
        let mut i: usize = 0;
        while i < self.profiles.len()
            invariant
                i <= self.profiles@.len(),
                all == self.profiles.deep_view(),
                all == self@.profiles,
                forall|k: int|
                    0 <= k < i ==> !((#[trigger] all[k]).admits(platform@) && self@.missing(
                        all[k].required_base_capabilities,
                    ).len() == 0),
            decreases self.profiles@.len() - i,
        {
            assert(all[i as int] == self.profiles@[i as int]@);
            let profile = &self.profiles[i];
            if profile.matches_identity(platform) && self.missing_capabilities(
                &profile.required_base_capabilities,
            ).len() == 0 {
                assert(self@.profiles[i as int].admits(platform@));
                return Ok(());
            }
            i = i + 1;
        }
        Err(self.unsupported_platform_error(platform))
    }

    /// Whether all of the capabilities can be used; else the first that cannot.
    pub fn require_capabilities(&self, required: &Vec<CapabilityId>) -> (r: Result<
        (),
        WorkstateError,
    >)
        ensures
            seen(r) == self@.first_lacking(required@),
    {
        proof {
            use_type_invariant(self);
        }
        let mut i: usize = 0;
        assert(required@.skip(0) =~= required@);
        while i < required.len()
            invariant
                i <= required@.len(),
                self@.complete(),
                self@.first_lacking(required@) == self@.first_lacking(required@.skip(i as int)),
            decreases required@.len() - i,
        {
            assert(required@.skip(i as int)[0] == required@[i as int]);
            assert(required@.skip(i as int).drop_first() =~= required@.skip(i as int + 1));
            let id = required[i];
            let place = id.place();
            assert(self.capabilities.deep_view()[place as int]
                == self.capabilities@[place as int]@);
            let availability = &self.capabilities[place];
            if !availability.available {
                let error = WorkstateError::new(
                    ErrorCategory::Integration,
                    join3("required capability '", id.as_str(), "' is unavailable").as_str(),
                ).with_context("capability", id.as_str()).with_context(
                    "display_name",
                    availability.descriptor.display_name,
                );
                return match &availability.detail {
                    Some(detail) => Err(error.with_context("detail", detail.as_str())),
                    None => Err(error),
                };
            }
            i = i + 1;
        }
        Ok(())
    }

    /// The backend that provides a capability on a system.
    pub fn select_backend(&self, capability: CapabilityId, platform: &DetectedPlatform) -> (r:
        Result<&str, WorkstateError>)
        ensures
            match r {
                Ok(backend) => self@.backend_selected(capability, platform@) == Ok::<
                    Seq<char>,
                    WorkstateErrorView,
                >(backend@),
                Err(error) => self@.backend_selected(capability, platform@) == Err::<
                    Seq<char>,
                    WorkstateErrorView,
                >(error@),
            },
    {
        if let Err(error) = self.preflight(platform) {
            return Err(error);
        }
        if let Err(error) = self.require_capabilities(&one_capability(capability)) {
            return Err(error);
        }
        match self.handler_for_capability(capability) {
            Some(backend) => Ok(backend),
            None => Err(
                WorkstateError::new(
                    ErrorCategory::Integration,
                    join3(
                        "no backend is registered for capability '",
                        capability.as_str(),
                        "'",
                    ).as_str(),
                ).with_context("capability", capability.as_str()),
            ),
        }
    }

    /// The backend that provides a capability on a system.
    pub fn backend_for(&self, capability: CapabilityId, platform: &DetectedPlatform) -> (r: Result<
        &str,
        WorkstateError,
    >)
        ensures
            match r {
                Ok(backend) => self@.backend_selected(capability, platform@) == Ok::<
                    Seq<char>,
                    WorkstateErrorView,
                >(backend@),
                Err(error) => self@.backend_selected(capability, platform@) == Err::<
                    Seq<char>,
                    WorkstateErrorView,
                >(error@),
            },
    {
        self.select_backend(capability, platform)
    }

    fn handler_for_capability(&self, capability: CapabilityId) -> (r: Option<&str>)
        ensures
            r.deep_view() == self@.backend(capability),
    {
        proof {
            use_type_invariant(self);
        }
        let place = capability.place();
        assert(self.backends.deep_view()[place as int]
            == self.backends@[place as int].deep_view());
        match &self.backends[place] {
            Some(backend) => Some(backend.as_str()),
            None => None,
        }
    }

    fn refresh_capabilities<P: PlatformProbe>(&mut self, platform: &DetectedPlatform, probe: &P) -> (r:
        Result<(), WorkstateError>)
        ensures
            match r {
                Ok(_) => old(self)@.knowing_base(platform@).knowing_tools(
                    probe,
                    sought_capabilities(),
                ) == Ok::<IntegrationRegistryView, WorkstateErrorView>(final(self)@),
                Err(error) => old(self)@.knowing_base(platform@).knowing_tools(
                    probe,
                    sought_capabilities(),
                ) == Err::<IntegrationRegistryView, WorkstateErrorView>(error@),
            },
    {
        self.refresh_base_capabilities(platform);
        let ghost base = self@;
        let mut ids: Vec<CapabilityId> = one_capability(CapabilityId::DockerEngine);
        ids.push(CapabilityId::DockerDesktop);
        ids.push(CapabilityId::DockerCompose);
        ids.push(CapabilityId::Zed);
        ids.push(CapabilityId::AndroidEmulator);
        ids.push(CapabilityId::Adb);
        let mut failure: Option<WorkstateError> = None;
        let mut i: usize = 0;
        assert(ids@.take(0) =~= Seq::<CapabilityId>::empty());
        while i < ids.len()
            invariant
                i <= ids@.len(),
                base.knowing_tools(probe, ids@.take(i as int)) == (match failure {
                    Some(error) => Err::<IntegrationRegistryView, WorkstateErrorView>(error@),
                    None => Ok::<IntegrationRegistryView, WorkstateErrorView>(self@),
                }),
            decreases ids@.len() - i,
        {
            assert(ids@.take(i as int + 1).drop_last() =~= ids@.take(i as int));
            assert(ids@.take(i as int + 1).last() == ids@[i as int]);
            if failure.is_none() {
                match self.find_executable(probe, ids[i]) {
                    Err(error) => {
                        failure = Some(error);
                    },
                    Ok(path) => {
                        self.note_tool(ids[i], path);
                    },
                }
            }
            i = i + 1;
        }
        assert(ids@.take(i as int) =~= sought_capabilities());
        match failure {
            Some(error) => Err(error),
            None => Ok(()),
        }
    }

    fn find_executable<P: PlatformProbe>(&self, probe: &P, id: CapabilityId) -> (r: Result<
        Option<String>,
        WorkstateError,
    >)
        ensures
            seen(r) == self@.executable_found(probe, id),
    {
        proof {
            use_type_invariant(self);
        }
        match id {
            CapabilityId::DockerCompose => {
                let first = match probe.executable("docker") {
                    Err(error) => {
                        return Err(error);
                    },
                    Ok(path) => path,
                };
                let second = match probe.executable("docker-compose") {
                    Err(error) => {
                        return Err(error);
                    },
                    Ok(path) => path,
                };
                if first.is_some() {
                    Ok(first)
                } else {
                    Ok(second)
                }
            },
            CapabilityId::AndroidEmulator => find_tool(probe, AndroidTool::Emulator),
            CapabilityId::Adb => find_tool(probe, AndroidTool::Adb),
            _ => {
                let place = id.place();
                assert(self.capabilities.deep_view()[place as int]
                    == self.capabilities@[place as int]@);
                match self.capabilities[place].descriptor.executable {
                    Some(name) => probe.executable(name),
                    None => Ok(None),
                }
            },
        }
    }

    fn note_tool(&mut self, id: CapabilityId, path: Option<String>)
        ensures
            final(self)@ == old(self)@.knowing_tool(id, path.deep_view()),
    {
        proof {
            use_type_invariant(&*self);
        }
        let place = id.place();
        assert(self.capabilities.deep_view()[place as int]
            == self.capabilities@[place as int]@);
        let available = path.is_some();
        let detail = match &path {
            Some(path) => Some(join2("available at ", path.as_str())),
            None => if id == CapabilityId::DockerCompose {
                Some("Docker Compose executable was not found".to_owned())
            } else {
                match self.capabilities[place].descriptor.executable {
                    Some(name) => Some(join3("executable '", name, "' was not found")),
                    None => None,
                }
            },
        };
        self.set_availability(id, available, detail);
    }

    fn refresh_base_capabilities(&mut self, platform: &DetectedPlatform)
        ensures
            final(self)@ == old(self)@.knowing_base(platform@),
    {
        let desktop = platform.desktop_environment.is_cosmic();
        let desktop_detail = if desktop {
            None
        } else {
            Some("COSMIC desktop support is unavailable".to_owned())
        };
        let terminal = platform.terminal.is_tmux_available();
        let terminal_detail = if terminal {
            None
        } else {
            Some("tmux is unavailable".to_owned())
        };
        self.set_availability(
            CapabilityId::DesktopWorkspaces,
            desktop,
            desktop_detail.replicate(),
        );
        self.set_availability(CapabilityId::DesktopWindows, desktop, desktop_detail.replicate());
        self.set_availability(CapabilityId::DesktopTiling, desktop, desktop_detail);
        self.set_availability(
            CapabilityId::TerminalSessions,
            terminal,
            terminal_detail.replicate(),
        );
        self.set_availability(CapabilityId::BackgroundProcesses, terminal, terminal_detail);
    }

    fn missing_capabilities(&self, required: &CapabilitySet) -> (r: Vec<CapabilityId>)
        ensures
            r@ == self@.missing(required@),
    {
        proof {
            use_type_invariant(self);
        }
        let ids = required.ids();
        let ghost view = self@;
        let ghost keep = |id: CapabilityId| !view.availability(id).available;
        let mut missing: Vec<CapabilityId> = Vec::new();
        let mut i: usize = 0;
        proof {
            lemma_filter_ends(ids@, keep);
        }
        while i < ids.len()
            invariant
                i <= ids@.len(),
                view == self@,
                view.complete(),
                keep == (|id: CapabilityId| !view.availability(id).available),
                missing@ == ids@.take(i as int).filter(keep),
            decreases ids@.len() - i,
        {
            proof {
                lemma_filter_step(ids@, i as int, keep);
            }
            let place = ids[i].place();
            assert(self.capabilities.deep_view()[place as int]
                == self.capabilities@[place as int]@);
            if !self.capabilities[place].available {
                missing.push(ids[i]);
            }
            i = i + 1;
        }
        missing
    }

    fn closest_profile(&self, platform: &DetectedPlatform) -> (r: Option<&SupportProfile>)
        ensures
            match r {
                Some(profile) => self@.closest(platform@) == Some(profile@),
                None => self@.closest(platform@) is None,
            },
    {
        let ghost all = self.profiles.deep_view();
        let mut i: usize = 0;
        assert(all.skip(0) =~= all);
        while i < self.profiles.len()
            invariant
                i <= self.profiles@.len(),
                all == self.profiles.deep_view(),
                all == self@.profiles,
                first_admitting(all, platform@) == first_admitting(
                    all.skip(i as int),
                    platform@,
                ),
            decreases self.profiles@.len() - i,
        {
            assert(all.skip(i as int)[0] == self.profiles@[i as int]@);
            assert(all.skip(i as int).drop_first() =~= all.skip(i as int + 1));
            if self.profiles[i].matches_identity(platform) {
                return Some(&self.profiles[i]);
            }
            i = i + 1;
        }
        if self.profiles.len() > 0 {
            assert(all[0] == self.profiles@[0]@);
            Some(&self.profiles[0])
        } else {
            None
        }
    }

    fn profile_descriptions(&self) -> (r: Vec<String>)
        ensures
            r.deep_view() == self@.profiles.map_values(
                |profile: SupportProfileView| profile.description,
            ),
    {
        let ghost all = self.profiles.deep_view();
        let ghost f = |profile: SupportProfileView| profile.description;
        let mut descriptions: Vec<String> = empty_list();
        let mut i: usize = 0;
        assert(all.take(0).map_values(f) =~= Seq::<Seq<char>>::empty());
        while i < self.profiles.len()
            invariant
                i <= self.profiles@.len(),
                all == self.profiles.deep_view(),
                f == (|profile: SupportProfileView| profile.description),
                descriptions.deep_view() == all.take(i as int).map_values(f),
            decreases self.profiles@.len() - i,
        {
            assert(all[i as int] == self.profiles@[i as int]@);
            append(&mut descriptions, self.profiles[i].description.clone());
            assert(all.take(i as int + 1).map_values(f) =~= all.take(i as int).map_values(f).push(
                all[i as int].description,
            ));
            i = i + 1;
        }
        assert(all.take(i as int) =~= all);
        descriptions
    }

    fn unsupported_platform_error(&self, platform: &DetectedPlatform) -> (r: WorkstateError)
        ensures
            r@ == self@.unsupported(platform@),
    {
        let error = WorkstateError::new(
            ErrorCategory::Platform,
            "This system is not supported by the current Workstate profiles",
        ).with_context(
            "operating_system",
            platform.operating_system.to_text().as_str(),
        ).with_context("distribution", platform.distribution.to_text().as_str()).with_context(
            "desktop_environment",
            platform.desktop_environment.to_text().as_str(),
        ).with_context("terminal_capability", platform.terminal.to_text().as_str()).with_context(
            "supported_profiles",
            text_join(&self.profile_descriptions(), "; ").as_str(),
        );
        match self.closest_profile(platform) {
            Some(profile) => {
                let missing = self.missing_capabilities(&profile.required_base_capabilities);
                if missing.len() == 0 {
                    error
                } else {
                    error.with_context(
                        "missing_capabilities",
                        text_join(&capability_names(&missing), ", ").as_str(),
                    )
                }
            },
            None => error,
        }
    }
}

fn capability_names(ids: &Vec<CapabilityId>) -> (r: Vec<String>)
    ensures
        r.deep_view() == ids@.map_values(|id: CapabilityId| id.name()),
{
    let ghost f = |id: CapabilityId| id.name();
    let mut names: Vec<String> = empty_list();
    let mut i: usize = 0;
    assert(ids@.take(0).map_values(f) =~= Seq::<Seq<char>>::empty());
    while i < ids.len()
        invariant
            i <= ids@.len(),
            f == (|id: CapabilityId| id.name()),
            names.deep_view() == ids@.take(i as int).map_values(f),
        decreases ids@.len() - i,
    {
        append_text(&mut names, ids[i].as_str());
        assert(ids@.take(i as int + 1).map_values(f) =~= ids@.take(i as int).map_values(f).push(
            ids@[i as int].name(),
        ));
        i = i + 1;
    }
    assert(ids@.take(i as int) =~= ids@);
    names
}

/// The place of a profile among others: before the first whose name is greater.
proof fn lemma_with_profile(
    profiles: Seq<SupportProfileView>,
    profile: SupportProfileView,
    at: int,
)
    requires
        0 <= at <= profiles.len(),
        forall|k: int| 0 <= k < at ==> !text_before(profile.id, (#[trigger] profiles[k]).id),
        at < profiles.len() ==> text_before(profile.id, profiles[at].id),
    ensures
        with_profile(profiles, profile) == profiles.insert(at, profile),
    decreases profiles.len(),
{
    if profiles.len() == 0 {
        assert(profiles.insert(at, profile) =~= seq![profile]);
    } else if at == 0 {
        assert(profiles.insert(at, profile) =~= seq![profile] + profiles);
    } else {
        assert forall|k: int| 0 <= k < at - 1 implies !text_before(
            profile.id,
            (#[trigger] profiles.drop_first()[k]).id,
        ) by {
            assert(profiles.drop_first()[k] == profiles[k + 1]);
        }
        lemma_with_profile(profiles.drop_first(), profile, at - 1);
        assert(profiles.insert(at, profile) =~= seq![profiles[0]] + profiles.drop_first().insert(
            at - 1,
            profile,
        ));
    }
}

/// A profile of a name is found exactly where there is one.
proof fn lemma_profile_named(profiles: Seq<SupportProfileView>, id: Seq<char>)
    ensures
        profile_named(profiles, id) is Some <==> exists|i: int|
            0 <= i < profiles.len() && (#[trigger] profiles[i]).id == id,
    decreases profiles.len(),
{
    if profiles.len() > 0 {
        let rest = profiles.drop_first();
        lemma_profile_named(rest, id);
        if profile_named(rest, id) is Some {
            let k = choose|k: int| 0 <= k < rest.len() && (#[trigger] rest[k]).id == id;
            assert(profiles[k + 1].id == id);
        }
        if exists|i: int| 0 <= i < profiles.len() && (#[trigger] profiles[i]).id == id {
            let i = choose|i: int| 0 <= i < profiles.len() && (#[trigger] profiles[i]).id == id;
            if i > 0 {
                assert(rest[i - 1].id == id);
            }
        }
    }
}

/// A profile of a new name goes between those whose names are smaller and those whose names are
/// greater.
proof fn lemma_profile_added(profiles: Seq<SupportProfileView>, profile: SupportProfileView)
    requires
        profiles_ascend(profiles),
        profile_named(profiles, profile.id) is None,
    ensures
        profiles_ascend(with_profile(profiles, profile)),
        with_profile(profiles, profile).to_multiset() == profiles.to_multiset().insert(profile),
{
    lemma_profile_named(profiles, profile.id);
    let at = lemma_profile_place(profiles, profile, profiles.len() as int);
    lemma_with_profile(profiles, profile, at);
    let updated = profiles.insert(at, profile);
    assert forall|i: int, j: int| 0 <= i < j < updated.len() implies #[trigger] text_before(
        updated[i].id,
        updated[j].id,
    ) by {
        if j < at {
            assert(text_before(profiles[i].id, profiles[j].id));
        } else if i < at && j > at {
            assert(text_before(profiles[i].id, profiles[j - 1].id));
        } else if i > at {
            assert(text_before(profiles[i - 1].id, profiles[j - 1].id));
        } else if j == at {
            assert(profiles[i].id != profile.id);
            lemma_before_total(profiles[i].id, profile.id);
        } else {
            assert(text_before(profile.id, profiles[at].id));
            if at < j - 1 {
                assert(text_before(profiles[at].id, profiles[j - 1].id));
                lemma_before_transitive(profile.id, profiles[at].id, profiles[j - 1].id);
            }
        }
    }
    vstd::seq_lib::to_multiset_insert(profiles, at, profile);
}

/// Where a profile goes among the first ones.
proof fn lemma_profile_place(
    profiles: Seq<SupportProfileView>,
    profile: SupportProfileView,
    end: int,
) -> (at: int)
    requires
        0 <= end <= profiles.len(),
    ensures
        0 <= at <= end,
        forall|k: int| 0 <= k < at ==> !text_before(profile.id, (#[trigger] profiles[k]).id),
        at < end ==> text_before(profile.id, profiles[at].id),
    decreases end,
{
    if end == 0 {
        0
    } else {
        let before = lemma_profile_place(profiles, profile, end - 1);
        if before < end - 1 || text_before(profile.id, profiles[end - 1].id) {
            before
        } else {
            end
        }
    }
}

/// Looking for executables keeps every capability in its place.
proof fn lemma_tools_keep_complete<P: PlatformProbe>(
    registry: IntegrationRegistryView,
    probe: &P,
    ids: Seq<CapabilityId>,
)
    requires
        registry.complete(),
    ensures
        registry.knowing_tools(probe, ids) matches Ok(known) ==> known.complete(),
    decreases ids.len(),
{
    if ids.len() > 0 {
        lemma_tools_keep_complete(registry, probe, ids.drop_last());
    }
}

fn profiles_with(profiles: &Vec<SupportProfile>, profile: SupportProfile) -> (r: Vec<SupportProfile>)
    ensures
        r.deep_view() == with_profile(profiles.deep_view(), profile@),
{
    let ghost all = profiles.deep_view();
    let mut at: usize = 0;
    while at < profiles.len() && !text_is_before(profile.id.as_str(), profiles[at].id.as_str())
        invariant
            at <= profiles@.len(),
            all == profiles.deep_view(),
            forall|k: int| 0 <= k < at ==> !text_before(profile@.id, (#[trigger] all[k]).id),
        decreases profiles@.len() - at,
    {
        assert(all[at as int] == profiles@[at as int]@);
        at = at + 1;
    }
    let mut updated = profiles.replicate();
    assert(updated.deep_view().len() == updated@.len());
    assert(all.len() == profiles@.len());
    proof {
        if at < profiles@.len() {
            assert(all[at as int] == profiles@[at as int]@);
        }
        lemma_with_profile(all, profile@, at as int);
    }
    let ghost copy = updated@;
    let ghost added = profile@;
    updated.insert(at, profile);
    assert(updated.deep_view() =~= all.insert(at as int, added)) by {
        assert forall|k: int| 0 <= k < all.len() implies all[k] == (#[trigger] copy[k])@ by {}
        assert forall|k: int| 0 <= k < updated@.len() implies updated.deep_view()[k] == all.insert(
            at as int,
            added,
        )[k] by {
            if k < at {
                assert(updated@[k] == copy[k]);
            } else if k > at {
                assert(updated@[k] == copy[k - 1]);
            }
        }
    }
    updated
}

impl Default for IntegrationRegistry {
    fn default() -> (r: Self)
        ensures
            r@ == fresh_registry(),
            r@.complete(),
    {
        Self::new()
    }
}

// ---------------------------------------------------------------------------------------------
// Laws
// ---------------------------------------------------------------------------------------------
/// A registry that was told of a capability tells it back, and nothing else of it changes.
pub proof fn law_set_capability_is_read_back(
    registry: IntegrationRegistryView,
    id: CapabilityId,
    other: CapabilityId,
    available: bool,
    detail: Option<Seq<char>>,
)
    requires
        registry.complete(),
    ensures
        registry.setting(id, available, detail).complete(),
        registry.setting(id, available, detail).availability(id).available == available,
        registry.setting(id, available, detail).availability(id).detail == detail,
        other != id ==> registry.setting(id, available, detail).availability(other)
            == registry.availability(other),
        registry.setting(id, available, detail).backend(other) == registry.backend(other),
{
    law_places_are_distinct(id, other);
}

/// The profiles of a registry stand in strictly ascending order of their names, and stay so: a profile
/// whose name is not taken is added to those that were there, which all are kept.
pub proof fn law_profiles_stay_in_order(
    registry: IntegrationRegistryView,
    profile: SupportProfileView,
)
    requires
        registry.complete(),
        profile_named(registry.profiles, profile.id) is None,
    ensures
        profiles_ascend(registry.profiles),
        profiles_ascend(with_profile(registry.profiles, profile)),
        with_profile(registry.profiles, profile).to_multiset()
            == registry.profiles.to_multiset().insert(profile),
        (IntegrationRegistryView {
            profiles: with_profile(registry.profiles, profile),
            ..registry
        }).complete(),
{
    lemma_profile_added(registry.profiles, profile);
}

/// A name is taken exactly where a profile of the registry has it, and that profile is the only one:
/// in particular, the profile that every registry begins with cannot be registered again.
pub proof fn law_taken_name_has_one_profile(registry: IntegrationRegistryView, id: Seq<char>)
    requires
        registry.complete(),
    ensures
        profile_named(registry.profiles, id) is Some <==> exists|i: int|
            0 <= i < registry.profiles.len() && (#[trigger] registry.profiles[i]).id == id,
        forall|i: int, j: int|
            0 <= i < registry.profiles.len() && 0 <= j < registry.profiles.len() && (
            #[trigger] registry.profiles[i]).id == (#[trigger] registry.profiles[j]).id ==> i == j,
        profile_named(fresh_registry().profiles, pop_os_profile().id) is Some,
{
    lemma_profile_named(registry.profiles, id);
    assert forall|i: int, j: int|
        0 <= i < registry.profiles.len() && 0 <= j < registry.profiles.len() && (
        #[trigger] registry.profiles[i]).id == (#[trigger] registry.profiles[j]).id implies i
        == j by {
        lemma_before_irreflexive(registry.profiles[i].id);
        if i < j {
            assert(text_before(registry.profiles[i].id, registry.profiles[j].id));
        } else if j < i {
            assert(text_before(registry.profiles[j].id, registry.profiles[i].id));
        }
    }
}

/// Every capability is registered in every registry, and described there as it is everywhere else: no
/// change to a registry drops one or describes it otherwise.
pub proof fn law_every_capability_keeps_its_descriptor(
    registry: IntegrationRegistryView,
    id: CapabilityId,
)
    requires
        registry.complete(),
    ensures
        registry.availability(id).descriptor == described(id),
        registry.availability(id).descriptor.id == id,
        registry.capabilities.map_values(
            |availability: CapabilityAvailabilityView| availability.descriptor,
        ) == every_capability().map_values(|member: CapabilityId| described(member)),
{
    law_places_are_distinct(id, id);
    assert(registry.capabilities.map_values(
        |availability: CapabilityAvailabilityView| availability.descriptor,
    ) =~= every_capability().map_values(|member: CapabilityId| described(member)));
}

/// Whatever is learned of a system, a registry stays complete.
pub proof fn law_registries_are_complete<P: PlatformProbe>(
    platform: DetectedPlatformView,
    probe: &P,
)
    ensures
        fresh_registry().complete(),
        fresh_registry().knowing_base(platform).complete(),
        fresh_registry().knowing_base(platform).knowing_tools(probe, sought_capabilities())
            matches Ok(registry) ==> registry.complete(),
{
    let base = fresh_registry().knowing_base(platform);
    assert(base.complete());
    lemma_tools_keep_complete(base, probe, sought_capabilities());
}

/// A system that none of the profiles is for is never accepted, whatever it can do.
pub proof fn law_unknown_system_is_refused(
    registry: IntegrationRegistryView,
    platform: DetectedPlatformView,
)
    requires
        forall|i: int|
            0 <= i < registry.profiles.len() ==> !(#[trigger] registry.profiles[i]).admits(
                platform,
            ),
    ensures
        registry.preflighted(platform) == Err::<(), WorkstateErrorView>(
            registry.unsupported(platform),
        ),
{
}

/// A system that lacks something that each of its profiles needs is never accepted.
pub proof fn law_missing_capability_is_refused(
    registry: IntegrationRegistryView,
    platform: DetectedPlatformView,
    id: CapabilityId,
)
    requires
        !registry.availability(id).available,
        forall|i: int|
            0 <= i < registry.profiles.len() ==> (
            #[trigger] registry.profiles[i]).required_base_capabilities.contains(id),
    ensures
        registry.preflighted(platform) is Err,
{
    assert forall|i: int| 0 <= i < registry.profiles.len() implies registry.missing(
        (#[trigger] registry.profiles[i]).required_base_capabilities,
    ).len() > 0 by {
        let required = registry.profiles[i].required_base_capabilities;
        let members = members_in_order(required);
        law_places_are_distinct(id, id);
        let all = every_capability();
        let keep = |member: CapabilityId| required.contains(member);
        let lacking = |member: CapabilityId| !registry.availability(member).available;
        all.lemma_filter_contains(keep, id.rank());
        let at = choose|k: int| 0 <= k < members.len() && members[k] == id;
        members.lemma_filter_contains(lacking, at);
    }
}

/// The backend that is selected for a capability is the registered one, and is selected only on a
/// system that is supported and where the capability can be used.
pub proof fn law_backend_needs_support(
    registry: IntegrationRegistryView,
    capability: CapabilityId,
    platform: DetectedPlatformView,
    backend: Seq<char>,
)
    requires
        registry.backend_selected(capability, platform) == Ok::<Seq<char>, WorkstateErrorView>(
            backend,
        ),
    ensures
        registry.is_supported(platform),
        registry.availability(capability).available,
        registry.backend(capability) == Some(backend),
{
    reveal_with_fuel(IntegrationRegistryView::first_lacking, 2);
}

/// A system is supported where a profile admits it whose required capabilities are all there; then every
/// capability that is there and has a backend gets it.
pub proof fn law_admitted_system_is_supported(
    registry: IntegrationRegistryView,
    platform: DetectedPlatformView,
    i: int,
    capability: CapabilityId,
    backend: Seq<char>,
)
    requires
        0 <= i < registry.profiles.len(),
        registry.profiles[i].admits(platform),
        forall|id: CapabilityId|
            registry.profiles[i].required_base_capabilities.contains(id)
                ==> #[trigger] registry.availability(id).available,
    ensures
        registry.preflighted(platform) is Ok,
        registry.availability(capability).available && registry.backend(capability) == Some(backend)
            ==> registry.backend_selected(capability, platform) == Ok::<
            Seq<char>,
            WorkstateErrorView,
        >(backend),
        !registry.availability(capability).available ==> registry.backend_selected(
            capability,
            platform,
        ) is Err,
        registry.backend(capability) is None ==> registry.backend_selected(capability, platform)
            is Err,
{
    let required = registry.profiles[i].required_base_capabilities;
    let wanted = |id: CapabilityId| !registry.availability(id).available;
    let members = members_in_order(required);
    assert(registry.missing(required).len() == 0) by {
        if members.filter(wanted).len() > 0 {
            let first = members.filter(wanted)[0];
            members.lemma_filter_pred(wanted, 0);
            lemma_kept_was_there(members, wanted, 0);
            let k = choose|k: int| 0 <= k < members.len() && members[k] == first;
            let within = |id: CapabilityId| required.contains(id);
            every_capability().lemma_filter_pred(within, k);
            assert(within(members[k]));
            assert(required.contains(first));
            assert(registry.availability(first).available);
        }
    }
    assert(seq![capability].drop_first() =~= Seq::<CapabilityId>::empty());
    reveal_with_fuel(IntegrationRegistryView::first_lacking, 2);
}

proof fn lemma_kept_was_there<T>(items: Seq<T>, wanted: spec_fn(T) -> bool, k: int)
    requires
        0 <= k < items.filter(wanted).len(),
    ensures
        items.contains(items.filter(wanted)[k]),
    decreases items.len(),
{
    reveal(Seq::filter);
    if items.len() > 0 {
        let kept = items.drop_last().filter(wanted);
        if k < kept.len() {
            lemma_kept_was_there(items.drop_last(), wanted, k);
            let i = choose|i: int|
                0 <= i < items.drop_last().len() && items.drop_last()[i] == kept[k];
            assert(items[i] == kept[k]);
        } else {
            assert(items[items.len() - 1] == items.last());
        }
    }
}

/// The base of a registry follows the platform: the desktop is there on COSMIC alone, and terminals where
/// there is a program for them.
pub proof fn law_platform_decides_the_base(
    registry: IntegrationRegistryView,
    platform: DetectedPlatformView,
)
    requires
        registry.complete(),
    ensures
        ({
            let known = registry.knowing_base(platform);
            &&& known.availability(CapabilityId::DesktopWorkspaces).available
                == platform.desktop_environment is Cosmic
            &&& known.availability(CapabilityId::DesktopWindows).available
                == platform.desktop_environment is Cosmic
            &&& known.availability(CapabilityId::DesktopTiling).available
                == platform.desktop_environment is Cosmic
            &&& known.availability(CapabilityId::TerminalSessions).available
                == platform.terminal.executable is Some
            &&& known.availability(CapabilityId::BackgroundProcesses).available
                == platform.terminal.executable is Some
            &&& known.availability(CapabilityId::Zed) == registry.availability(CapabilityId::Zed)
        }),
{
}

/// A tool is available where its program was found, and only there; the others stay as they are.
pub proof fn law_found_tool_is_available<P: PlatformProbe>(
    registry: IntegrationRegistryView,
    probe: &P,
    ids: Seq<CapabilityId>,
    id: CapabilityId,
    other: CapabilityId,
    before: IntegrationRegistryView,
    path: Option<Seq<char>>,
)
    requires
        before.complete(),
        registry.knowing_tools(probe, ids) == Ok::<IntegrationRegistryView, WorkstateErrorView>(
            before,
        ),
        before.executable_found(probe, id) == Ok::<Option<Seq<char>>, WorkstateErrorView>(path),
    ensures
        registry.knowing_tools(probe, ids.push(id)) matches Ok(known) && known.availability(
            id,
        ).available == path is Some && (other != id ==> known.availability(other)
            == before.availability(other)) && known.backends == before.backends,
{
    assert(ids.push(id).drop_last() =~= ids);
    law_set_capability_is_read_back(before, id, other, path is Some, None);
    assert(before.knowing_tool(id, path).availability(id).available == path is Some);
}

/// A handler is found by the key of its action.
pub proof fn law_handler_of_a_key_is_found(
    handlers: Seq<ActionHandlerDescriptorView>,
    key: Seq<char>,
)
    ensures
        handler_named(handlers, key) matches Some(handler) ==> handler.action_key == key
            && handlers.contains(handler),
        handler_named(handlers, key) is None <==> forall|i: int|
            0 <= i < handlers.len() ==> (#[trigger] handlers[i]).action_key != key,
    decreases handlers.len(),
{
    if handlers.len() > 0 {
        let rest = handlers.drop_first();
        law_handler_of_a_key_is_found(rest, key);
        assert(forall|i: int| 0 <= i < rest.len() ==> #[trigger] rest[i] == handlers[i + 1]);
        if handlers[0].action_key == key {
            assert(handlers.contains(handlers[0]));
        } else if handler_named(rest, key) is Some {
            let handler = handler_named(rest, key)->Some_0;
            let i = choose|i: int| 0 <= i < rest.len() && rest[i] == handler;
            assert(handlers[i + 1] == handler);
        } else {
            assert forall|i: int| 0 <= i < handlers.len() implies (
            #[trigger] handlers[i]).action_key != key by {
                if i > 0 {
                    assert(rest[i - 1] == handlers[i]);
                }
            }
        }
    }
}

} // verus!
