//! What a system can be asked to do, and which systems are supported.
use vstd::prelude::*;
use vstd::string::*;
use crate::platform::identity::{
    DesktopEnvironment, DesktopEnvironmentView, DetectedPlatform, DetectedPlatformView,
    Distribution, DistributionView, OperatingSystem, OperatingSystemView,
};
use crate::values::{append, empty_list, lemma_filter_ends, lemma_filter_step, Replicate};

verus! {

/// What a system can be asked to do.
#[derive(Debug, Clone, Copy, PartialEq, Eq, PartialOrd, Ord, Hash, Structural)]
pub enum CapabilityId {
    DesktopWorkspaces,
    DesktopWindows,
    DesktopTiling,
    TerminalSessions,
    BackgroundProcesses,
    DockerEngine,
    DockerDesktop,
    DockerCompose,
    Zed,
    VsCode,
    Cursor,
    AndroidEmulator,
    Adb,
}

impl DeepView for CapabilityId {
    type V = CapabilityId;

    open spec fn deep_view(&self) -> CapabilityId {
        *self
    }
}

impl Replicate for CapabilityId {
    fn replicate(&self) -> (r: Self) {
        *self
    }
}

/// All capabilities, in their order.
pub open spec fn every_capability() -> Seq<CapabilityId> {
    seq![
        CapabilityId::DesktopWorkspaces,
        CapabilityId::DesktopWindows,
        CapabilityId::DesktopTiling,
        CapabilityId::TerminalSessions,
        CapabilityId::BackgroundProcesses,
        CapabilityId::DockerEngine,
        CapabilityId::DockerDesktop,
        CapabilityId::DockerCompose,
        CapabilityId::Zed,
        CapabilityId::VsCode,
        CapabilityId::Cursor,
        CapabilityId::AndroidEmulator,
        CapabilityId::Adb,
    ]
}

/// How many capabilities there are.
pub const CAPABILITY_COUNT: usize = 13;

impl CapabilityId {
    /// The place of a capability among all of them.
    pub open spec fn rank(self) -> int {
        match self {
            CapabilityId::DesktopWorkspaces => 0,
            CapabilityId::DesktopWindows => 1,
            CapabilityId::DesktopTiling => 2,
            CapabilityId::TerminalSessions => 3,
            CapabilityId::BackgroundProcesses => 4,
            CapabilityId::DockerEngine => 5,
            CapabilityId::DockerDesktop => 6,
            CapabilityId::DockerCompose => 7,
            CapabilityId::Zed => 8,
            CapabilityId::VsCode => 9,
            CapabilityId::Cursor => 10,
            CapabilityId::AndroidEmulator => 11,
            CapabilityId::Adb => 12,
        }
    }

    /// The place of a capability among all of them.
    pub fn place(self) -> (r: usize)
        ensures
            r == self.rank(),
            r < CAPABILITY_COUNT,
            every_capability()[r as int] == self,
    {
        match self {
            CapabilityId::DesktopWorkspaces => 0,
            CapabilityId::DesktopWindows => 1,
            CapabilityId::DesktopTiling => 2,
            CapabilityId::TerminalSessions => 3,
            CapabilityId::BackgroundProcesses => 4,
            CapabilityId::DockerEngine => 5,
            CapabilityId::DockerDesktop => 6,
            CapabilityId::DockerCompose => 7,
            CapabilityId::Zed => 8,
            CapabilityId::VsCode => 9,
            CapabilityId::Cursor => 10,
            CapabilityId::AndroidEmulator => 11,
            CapabilityId::Adb => 12,
        }
    }

    /// The name of a capability.
    pub open spec fn name(self) -> Seq<char> {
        match self {
            CapabilityId::DesktopWorkspaces => "desktop_workspaces"@,
            CapabilityId::DesktopWindows => "desktop_windows"@,
            CapabilityId::DesktopTiling => "desktop_tiling"@,
            CapabilityId::TerminalSessions => "terminal_sessions"@,
            CapabilityId::BackgroundProcesses => "background_processes"@,
            CapabilityId::DockerEngine => "docker_engine"@,
            CapabilityId::DockerDesktop => "docker_desktop"@,
            CapabilityId::DockerCompose => "docker_compose"@,
            CapabilityId::Zed => "zed"@,
            CapabilityId::VsCode => "vs_code"@,
            CapabilityId::Cursor => "cursor"@,
            CapabilityId::AndroidEmulator => "android_emulator"@,
            CapabilityId::Adb => "adb"@,
        }
    }

    /// The name of a capability.
    pub fn as_str(self) -> (r: &'static str)
        ensures
            r@ == self.name(),
    {
        match self {
            CapabilityId::DesktopWorkspaces => "desktop_workspaces",
            CapabilityId::DesktopWindows => "desktop_windows",
            CapabilityId::DesktopTiling => "desktop_tiling",
            CapabilityId::TerminalSessions => "terminal_sessions",
            CapabilityId::BackgroundProcesses => "background_processes",
            CapabilityId::DockerEngine => "docker_engine",
            CapabilityId::DockerDesktop => "docker_desktop",
            CapabilityId::DockerCompose => "docker_compose",
            CapabilityId::Zed => "zed",
            CapabilityId::VsCode => "vs_code",
            CapabilityId::Cursor => "cursor",
            CapabilityId::AndroidEmulator => "android_emulator",
            CapabilityId::Adb => "adb",
        }
    }
}

/// All capabilities, in their order.
pub fn all_capabilities() -> (r: Vec<CapabilityId>)
    ensures
        r@ == every_capability(),
        r.deep_view() == every_capability(),
{
    let mut all: Vec<CapabilityId> = Vec::new();
    all.push(CapabilityId::DesktopWorkspaces);
    all.push(CapabilityId::DesktopWindows);
    all.push(CapabilityId::DesktopTiling);
    all.push(CapabilityId::TerminalSessions);
    all.push(CapabilityId::BackgroundProcesses);
    all.push(CapabilityId::DockerEngine);
    all.push(CapabilityId::DockerDesktop);
    all.push(CapabilityId::DockerCompose);
    all.push(CapabilityId::Zed);
    all.push(CapabilityId::VsCode);
    all.push(CapabilityId::Cursor);
    all.push(CapabilityId::AndroidEmulator);
    all.push(CapabilityId::Adb);
    assert(all@ =~= every_capability());
    assert(all.deep_view() =~= every_capability());
    all
}

/// What is said of a capability.
#[derive(Debug, Clone, Copy, PartialEq, Eq)]
pub struct CapabilityDescriptor {
    pub id: CapabilityId,
    pub display_name: &'static str,
    pub description: &'static str,
    pub executable: Option<&'static str>,
}

/// What a `CapabilityDescriptor` stands for.
#[verifier::ext_equal]
pub struct CapabilityDescriptorView {
    pub id: CapabilityId,
    pub display_name: Seq<char>,
    pub description: Seq<char>,
    pub executable: Option<Seq<char>>,
}

impl View for CapabilityDescriptor {
    type V = CapabilityDescriptorView;

    open spec fn view(&self) -> CapabilityDescriptorView {
        CapabilityDescriptorView {
            id: self.id,
            display_name: self.display_name@,
            description: self.description@,
            executable: self.executable.deep_view(),
        }
    }
}

impl DeepView for CapabilityDescriptor {
    type V = CapabilityDescriptorView;

    open spec fn deep_view(&self) -> CapabilityDescriptorView {
        self.view()
    }
}

impl Replicate for CapabilityDescriptor {
    fn replicate(&self) -> (r: Self) {
        *self
    }
}

/// What is said of a capability.
pub open spec fn described(id: CapabilityId) -> CapabilityDescriptorView {
    match id {
        CapabilityId::DesktopWorkspaces => CapabilityDescriptorView {
            id,
            display_name: "Desktop workspaces"@,
            description: "Create, select, and target desktop workspaces"@,
            executable: None,
        },
        CapabilityId::DesktopWindows => CapabilityDescriptorView {
            id,
            display_name: "Desktop windows"@,
            description: "Discover, open, and position application windows"@,
            executable: None,
        },
        CapabilityId::DesktopTiling => CapabilityDescriptorView {
            id,
            display_name: "Desktop tiling"@,
            description: "Read, enable, and restore desktop tiling"@,
            executable: None,
        },
        CapabilityId::TerminalSessions => CapabilityDescriptorView {
            id,
            display_name: "Terminal sessions"@,
            description: "Create and manage persistent terminal multiplexer sessions"@,
            executable: None,
        },
        CapabilityId::BackgroundProcesses => CapabilityDescriptorView {
            id,
            display_name: "Background processes"@,
            description: "Keep environment processes running after setup exits"@,
            executable: None,
        },
        CapabilityId::DockerEngine => CapabilityDescriptorView {
            id,
            display_name: "Docker Engine"@,
            description: "Start and inspect Docker containers"@,
            executable: Some("docker"@),
        },
        CapabilityId::DockerDesktop => CapabilityDescriptorView {
            id,
            display_name: "Docker Desktop"@,
            description: "Start and inspect Docker Desktop"@,
            executable: Some("docker-desktop"@),
        },
        CapabilityId::DockerCompose => CapabilityDescriptorView {
            id,
            display_name: "Docker Compose"@,
            description: "Start and inspect Docker Compose projects"@,
            executable: Some("docker"@),
        },
        CapabilityId::Zed => CapabilityDescriptorView {
            id,
            display_name: "Zed"@,
            description: "Open projects in the Zed editor"@,
            executable: Some("zed"@),
        },
        CapabilityId::VsCode => CapabilityDescriptorView {
            id,
            display_name: "VS Code"@,
            description: "Open projects in Visual Studio Code"@,
            executable: Some("code"@),
        },
        CapabilityId::Cursor => CapabilityDescriptorView {
            id,
            display_name: "Cursor"@,
            description: "Open projects in Cursor"@,
            executable: Some("cursor"@),
        },
        CapabilityId::AndroidEmulator => CapabilityDescriptorView {
            id,
            display_name: "Android Emulator"@,
            description: "Start and inspect Android virtual devices"@,
            executable: Some("emulator"@),
        },
        CapabilityId::Adb => CapabilityDescriptorView {
            id,
            display_name: "Android Debug Bridge"@,
            description: "Inspect and control Android devices"@,
            executable: Some("adb"@),
        },
    }
}

/// What is said of a capability.
pub fn descriptor_of(id: CapabilityId) -> (r: CapabilityDescriptor)
    ensures
        r@ == described(id),
        r.id == id,
{
    match id {
        CapabilityId::DesktopWorkspaces => CapabilityDescriptor {
            id,
            display_name: "Desktop workspaces",
            description: "Create, select, and target desktop workspaces",
            executable: None,
        },
        CapabilityId::DesktopWindows => CapabilityDescriptor {
            id,
            display_name: "Desktop windows",
            description: "Discover, open, and position application windows",
            executable: None,
        },
        CapabilityId::DesktopTiling => CapabilityDescriptor {
            id,
            display_name: "Desktop tiling",
            description: "Read, enable, and restore desktop tiling",
            executable: None,
        },
        CapabilityId::TerminalSessions => CapabilityDescriptor {
            id,
            display_name: "Terminal sessions",
            description: "Create and manage persistent terminal multiplexer sessions",
            executable: None,
        },
        CapabilityId::BackgroundProcesses => CapabilityDescriptor {
            id,
            display_name: "Background processes",
            description: "Keep environment processes running after setup exits",
            executable: None,
        },
        CapabilityId::DockerEngine => CapabilityDescriptor {
            id,
            display_name: "Docker Engine",
            description: "Start and inspect Docker containers",
            executable: Some("docker"),
        },
        CapabilityId::DockerDesktop => CapabilityDescriptor {
            id,
            display_name: "Docker Desktop",
            description: "Start and inspect Docker Desktop",
            executable: Some("docker-desktop"),
        },
        CapabilityId::DockerCompose => CapabilityDescriptor {
            id,
            display_name: "Docker Compose",
            description: "Start and inspect Docker Compose projects",
            executable: Some("docker"),
        },
        CapabilityId::Zed => CapabilityDescriptor {
            id,
            display_name: "Zed",
            description: "Open projects in the Zed editor",
            executable: Some("zed"),
        },
        CapabilityId::VsCode => CapabilityDescriptor {
            id,
            display_name: "VS Code",
            description: "Open projects in Visual Studio Code",
            executable: Some("code"),
        },
        CapabilityId::Cursor => CapabilityDescriptor {
            id,
            display_name: "Cursor",
            description: "Open projects in Cursor",
            executable: Some("cursor"),
        },
        CapabilityId::AndroidEmulator => CapabilityDescriptor {
            id,
            display_name: "Android Emulator",
            description: "Start and inspect Android virtual devices",
            executable: Some("emulator"),
        },
        CapabilityId::Adb => CapabilityDescriptor {
            id,
            display_name: "Android Debug Bridge",
            description: "Inspect and control Android devices",
            executable: Some("adb"),
        },
    }
}

/// What is said of each capability, in their order.
pub fn capability_descriptors() -> (r: Vec<CapabilityDescriptor>)
    ensures
        r.deep_view() == every_capability().map_values(|id: CapabilityId| described(id)),
{
    let all = all_capabilities();
    let ghost f = |id: CapabilityId| described(id);
    let mut descriptors: Vec<CapabilityDescriptor> = empty_list();
    let mut i: usize = 0;
    assert(all@.take(0).map_values(f) =~= Seq::<CapabilityDescriptorView>::empty());
    while i < all.len()
        invariant
            i <= all@.len(),
            all@ == every_capability(),
            f == (|id: CapabilityId| described(id)),
            descriptors.deep_view() == all@.take(i as int).map_values(f),
        decreases all@.len() - i,
    {
        append(&mut descriptors, descriptor_of(all[i]));
        assert(all@.take(i as int + 1).map_values(f) =~= all@.take(i as int).map_values(f).push(
            described(all@[i as int]),
        ));
        i = i + 1;
    }
    assert(all@.take(i as int) =~= all@);
    descriptors
}

// ---------------------------------------------------------------------------------------------
// Sets of capabilities
// ---------------------------------------------------------------------------------------------
/// A set of capabilities; it is walked in their order.
#[derive(Debug, PartialEq, Eq)]
pub struct CapabilitySet {
    members: Vec<bool>,
}

impl View for CapabilitySet {
    type V = Set<CapabilityId>;

    closed spec fn view(&self) -> Set<CapabilityId> {
        Set::new(|id: CapabilityId| self.members@[id.rank()])
    }
}

impl DeepView for CapabilitySet {
    type V = Set<CapabilityId>;

    open spec fn deep_view(&self) -> Set<CapabilityId> {
        self.view()
    }
}

/// The members of a set, in their order.
pub open spec fn members_in_order(set: Set<CapabilityId>) -> Seq<CapabilityId> {
    every_capability().filter(|id: CapabilityId| set.contains(id))
}

/// The set of the capabilities of a list.
pub open spec fn set_of(ids: Seq<CapabilityId>) -> Set<CapabilityId> {
    Set::new(|id: CapabilityId| ids.contains(id))
}

impl CapabilitySet {
    #[verifier::type_invariant]
    spec fn complete(self) -> bool {
        self.members@.len() == CAPABILITY_COUNT
    }

    /// The set of the capabilities of a list.
    pub fn of(ids: &Vec<CapabilityId>) -> (r: Self)
        ensures
            r@ == set_of(ids@),
    {
        let mut members: Vec<bool> = Vec::new();
        let mut i: usize = 0;
        while i < CAPABILITY_COUNT
            invariant
                i <= CAPABILITY_COUNT,
                members@.len() == i,
                forall|k: int| 0 <= k < i ==> !members@[k],
            decreases CAPABILITY_COUNT - i,
        {
            members.push(false);
            i = i + 1;
        }
        let mut j: usize = 0;
        while j < ids.len()
            invariant
                j <= ids@.len(),
                members@.len() == CAPABILITY_COUNT,
                forall|id: CapabilityId|
                    #![trigger id.rank()]
                    members@[id.rank()] == ids@.take(j as int).contains(id),
            decreases ids@.len() - j,
        {
            let ghost before = members@;
            members.set(ids[j].place(), true);
            assert forall|id: CapabilityId|
                #![trigger id.rank()]
                members@[id.rank()] == ids@.take(j as int + 1).contains(id) by {
                let earlier = ids@.take(j as int);
                let now = ids@.take(j as int + 1);
                assert(now =~= earlier.push(ids@[j as int]));
                if id == ids@[j as int] {
                    assert(now[j as int] == id);
                } else {
                    assert(id.rank() != ids@[j as int].rank());
                    assert(members@[id.rank()] == before[id.rank()]);
                    if earlier.contains(id) {
                        let k = choose|k: int| 0 <= k < earlier.len() && earlier[k] == id;
                        assert(now[k] == id);
                    }
                    if now.contains(id) {
                        let k = choose|k: int| 0 <= k < now.len() && now[k] == id;
                        assert(earlier[k] == id);
                    }
                }
            }
            j = j + 1;
        }
        let set = CapabilitySet { members };
        assert(ids@.take(j as int) =~= ids@);
        assert(set@ =~= set_of(ids@)) by {
            assert forall|id: CapabilityId| set@.contains(id) == set_of(ids@).contains(id) by {
                assert(members@[id.rank()] == ids@.contains(id));
            }
        }
        set
    }

    pub fn contains(&self, id: CapabilityId) -> (r: bool)
        ensures
            r == self@.contains(id),
    {
        proof {
            use_type_invariant(self);
        }
        self.members[id.place()]
    }

    /// The members, in their order.
    pub fn ids(&self) -> (r: Vec<CapabilityId>)
        ensures
            r@ == members_in_order(self@),
            r.deep_view() == members_in_order(self@),
    {
        let all = all_capabilities();
        let ghost set = self@;
        let ghost keep = |id: CapabilityId| set.contains(id);
        let mut ids: Vec<CapabilityId> = Vec::new();
        let mut i: usize = 0;
        proof {
            lemma_filter_ends(all@, keep);
        }
        while i < all.len()
            invariant
                i <= all@.len(),
                all@ == every_capability(),
                set == self@,
                keep == (|id: CapabilityId| set.contains(id)),
                ids@ == all@.take(i as int).filter(keep),
            decreases all@.len() - i,
        {
            proof {
                lemma_filter_step(all@, i as int, keep);
            }
            if self.contains(all[i]) {
                ids.push(all[i]);
            }
            i = i + 1;
        }
        assert(ids.deep_view() =~= ids@);
        ids
    }
}

impl Replicate for CapabilitySet {
    fn replicate(&self) -> (r: Self) {
        proof {
            use_type_invariant(self);
        }
        let copy = self.members.replicate();
        assert(copy@ =~= self.members@) by {
            assert(copy.deep_view() == self.members.deep_view());
            assert(copy.deep_view().len() == copy@.len());
            assert(self.members.deep_view().len() == self.members@.len());
            assert forall|k: int| 0 <= k < self.members@.len() implies copy@[k]
                == self.members@[k] by {
                assert(copy.deep_view()[k] == copy@[k]);
                assert(self.members.deep_view()[k] == self.members@[k]);
            }
        }
        CapabilitySet { members: copy }
    }
}

impl Clone for CapabilitySet {
    fn clone(&self) -> (r: Self)
        ensures
            r@ == self@,
    {
        self.replicate()
    }
}

// ---------------------------------------------------------------------------------------------
// Profiles
// ---------------------------------------------------------------------------------------------
/// Which operating systems a profile is for.
#[derive(Debug, Clone, Copy, PartialEq, Eq, Structural)]
pub enum OperatingSystemPredicate {
    Linux,
    Any,
}

impl OperatingSystemPredicate {
    pub open spec fn admits(self, operating_system: OperatingSystemView) -> bool {
        match self {
            OperatingSystemPredicate::Linux => operating_system is Linux,
            OperatingSystemPredicate::Any => true,
        }
    }

    pub fn matches(self, operating_system: &OperatingSystem) -> (r: bool)
        ensures
            r == self.admits(operating_system@),
    {
        match self {
            OperatingSystemPredicate::Linux => operating_system.is_linux(),
            OperatingSystemPredicate::Any => true,
        }
    }
}

/// Which distributions a profile is for.
#[derive(Debug, Clone, Copy, PartialEq, Eq, Structural)]
pub enum DistributionPredicate {
    PopOs,
    Ubuntu,
    Any,
}

impl DistributionPredicate {
    pub open spec fn admits(self, distribution: DistributionView) -> bool {
        match self {
            DistributionPredicate::PopOs => distribution is PopOs,
            DistributionPredicate::Ubuntu => distribution is Ubuntu,
            DistributionPredicate::Any => true,
        }
    }

    pub fn matches(self, distribution: &Distribution) -> (r: bool)
        ensures
            r == self.admits(distribution@),
    {
        match self {
            DistributionPredicate::PopOs => distribution.is_pop_os(),
            DistributionPredicate::Ubuntu => distribution.is_ubuntu(),
            DistributionPredicate::Any => true,
        }
    }
}

/// Which desktops a profile is for.
#[derive(Debug, Clone, Copy, PartialEq, Eq, Structural)]
pub enum DesktopPredicate {
    Cosmic,
    Gnome,
    Kde,
    Any,
}

impl DesktopPredicate {
    pub open spec fn admits(self, desktop_environment: DesktopEnvironmentView) -> bool {
        match self {
            DesktopPredicate::Cosmic => desktop_environment is Cosmic,
            DesktopPredicate::Gnome => desktop_environment is Gnome,
            DesktopPredicate::Kde => desktop_environment is Kde,
            DesktopPredicate::Any => true,
        }
    }

    pub fn matches(self, desktop_environment: &DesktopEnvironment) -> (r: bool)
        ensures
            r == self.admits(desktop_environment@),
    {
        match (self, desktop_environment) {
            (DesktopPredicate::Cosmic, DesktopEnvironment::Cosmic) => true,
            (DesktopPredicate::Gnome, DesktopEnvironment::Gnome) => true,
            (DesktopPredicate::Kde, DesktopEnvironment::Kde) => true,
            (DesktopPredicate::Any, _) => true,
            _ => false,
        }
    }
}

/// A kind of system that is supported, and what it has to be able to do.
#[derive(Debug, Clone, PartialEq, Eq)]
pub struct SupportProfile {
    pub id: String,
    pub description: String,
    pub operating_system: OperatingSystemPredicate,
    pub distribution: DistributionPredicate,
    pub desktop: DesktopPredicate,
    pub required_base_capabilities: CapabilitySet,
}

/// What a `SupportProfile` stands for.
#[verifier::ext_equal]
pub struct SupportProfileView {
    pub id: Seq<char>,
    pub description: Seq<char>,
    pub operating_system: OperatingSystemPredicate,
    pub distribution: DistributionPredicate,
    pub desktop: DesktopPredicate,
    pub required_base_capabilities: Set<CapabilityId>,
}

impl View for SupportProfile {
    type V = SupportProfileView;

    open spec fn view(&self) -> SupportProfileView {
        SupportProfileView {
            id: self.id@,
            description: self.description@,
            operating_system: self.operating_system,
            distribution: self.distribution,
            desktop: self.desktop,
            required_base_capabilities: self.required_base_capabilities@,
        }
    }
}

impl DeepView for SupportProfile {
    type V = SupportProfileView;

    open spec fn deep_view(&self) -> SupportProfileView {
        self.view()
    }
}

impl Replicate for SupportProfile {
    fn replicate(&self) -> (r: Self) {
        SupportProfile {
            id: self.id.clone(),
            description: self.description.clone(),
            operating_system: self.operating_system,
            distribution: self.distribution,
            desktop: self.desktop,
            required_base_capabilities: self.required_base_capabilities.replicate(),
        }
    }
}

/// The profile of Pop!_OS with COSMIC.
pub open spec fn pop_os_profile() -> SupportProfileView {
    SupportProfileView {
        id: "pop-os-cosmic"@,
        description: "Pop!_OS + COSMIC"@,
        operating_system: OperatingSystemPredicate::Linux,
        distribution: DistributionPredicate::PopOs,
        desktop: DesktopPredicate::Cosmic,
        required_base_capabilities: set_of(
            seq![
                CapabilityId::DesktopWorkspaces,
                CapabilityId::DesktopWindows,
                CapabilityId::DesktopTiling,
                CapabilityId::TerminalSessions,
                CapabilityId::BackgroundProcesses,
            ],
        ),
    }
}

impl SupportProfileView {
    /// A system that the profile is for.
    pub open spec fn admits(self, platform: DetectedPlatformView) -> bool {
        self.operating_system.admits(platform.operating_system) && self.distribution.admits(
            platform.distribution,
        ) && self.desktop.admits(platform.desktop_environment)
    }
}

impl SupportProfile {
    pub fn new(
        id: String,
        description: String,
        operating_system: OperatingSystemPredicate,
        distribution: DistributionPredicate,
        desktop: DesktopPredicate,
        required_base_capabilities: Vec<CapabilityId>,
    ) -> (r: Self)
        ensures
            r@ == (SupportProfileView {
                id: id@,
                description: description@,
                operating_system,
                distribution,
                desktop,
                required_base_capabilities: set_of(required_base_capabilities@),
            }),
    {
        SupportProfile {
            id,
            description,
            operating_system,
            distribution,
            desktop,
            required_base_capabilities: CapabilitySet::of(&required_base_capabilities),
        }
    }

    /// The profile of Pop!_OS with COSMIC.
    pub fn pop_os_cosmic() -> (r: Self)
        ensures
            r@ == pop_os_profile(),
    {
        let mut required: Vec<CapabilityId> = Vec::new();
        required.push(CapabilityId::DesktopWorkspaces);
        required.push(CapabilityId::DesktopWindows);
        required.push(CapabilityId::DesktopTiling);
        required.push(CapabilityId::TerminalSessions);
        required.push(CapabilityId::BackgroundProcesses);
        assert(required@ =~= seq![
            CapabilityId::DesktopWorkspaces,
            CapabilityId::DesktopWindows,
            CapabilityId::DesktopTiling,
            CapabilityId::TerminalSessions,
            CapabilityId::BackgroundProcesses,
        ]);
        SupportProfile::new(
            "pop-os-cosmic".to_owned(),
            "Pop!_OS + COSMIC".to_owned(),
            OperatingSystemPredicate::Linux,
            DistributionPredicate::PopOs,
            DesktopPredicate::Cosmic,
            required,
        )
    }

    /// The profile that is supported first.
    pub fn initial() -> (r: Self)
        ensures
            r@ == pop_os_profile(),
    {
        Self::pop_os_cosmic()
    }

    /// Whether the profile is for a system.
    pub fn matches_identity(&self, platform: &DetectedPlatform) -> (r: bool)
        ensures
            r == self@.admits(platform@),
    {
        self.operating_system.matches(&platform.operating_system) && self.distribution.matches(
            &platform.distribution,
        ) && self.desktop.matches(&platform.desktop_environment)
    }

    pub fn required_capabilities(&self) -> (r: &CapabilitySet)
        ensures
            r@ == self@.required_base_capabilities,
    {
        &self.required_base_capabilities
    }
}

/// A profile of supported systems.
pub type CompatibilityProfile = SupportProfile;

/// Two capabilities never share a name's place: the place of a capability tells which one it is.
pub proof fn law_places_are_distinct(a: CapabilityId, b: CapabilityId)
    ensures
        a.rank() == b.rank() <==> a == b,
        0 <= a.rank() < every_capability().len(),
        every_capability()[a.rank()] == a,
{
}

/// The one profile that comes with the library is Pop!_OS with COSMIC on Linux: it admits that and nothing
/// else, and requires the desktop and the terminals.
pub proof fn law_profile_admits_its_system(platform: DetectedPlatformView, id: CapabilityId)
    ensures
        pop_os_profile().admits(platform) <==> platform.operating_system is Linux
            && platform.distribution is PopOs && platform.desktop_environment is Cosmic,
        pop_os_profile().required_base_capabilities.contains(id) <==> id
            == CapabilityId::DesktopWorkspaces || id == CapabilityId::DesktopWindows || id
            == CapabilityId::DesktopTiling || id == CapabilityId::TerminalSessions || id
            == CapabilityId::BackgroundProcesses,
        described(id).id == id,
{
    let base = seq![
        CapabilityId::DesktopWorkspaces,
        CapabilityId::DesktopWindows,
        CapabilityId::DesktopTiling,
        CapabilityId::TerminalSessions,
        CapabilityId::BackgroundProcesses,
    ];
    assert(base[0] == CapabilityId::DesktopWorkspaces && base[1] == CapabilityId::DesktopWindows
        && base[2] == CapabilityId::DesktopTiling && base[3] == CapabilityId::TerminalSessions
        && base[4] == CapabilityId::BackgroundProcesses);
    assert(base.len() == 5);
}

/// A profile asks three things of a system, and each counts.
pub proof fn law_every_demand_counts(profile: SupportProfileView, platform: DetectedPlatformView)
    ensures
        profile.operating_system == OperatingSystemPredicate::Any && profile.distribution
            == DistributionPredicate::Any && profile.desktop == DesktopPredicate::Any
            ==> profile.admits(platform),
        profile.operating_system == OperatingSystemPredicate::Linux && !(platform.operating_system
            is Linux) ==> !profile.admits(platform),
        profile.distribution == DistributionPredicate::Ubuntu && !(platform.distribution is Ubuntu)
            ==> !profile.admits(platform),
        profile.desktop == DesktopPredicate::Gnome && !(platform.desktop_environment is Gnome)
            ==> !profile.admits(platform),
        profile.desktop == DesktopPredicate::Kde && !(platform.desktop_environment is Kde)
            ==> !profile.admits(platform),
{
}

} // verus!
