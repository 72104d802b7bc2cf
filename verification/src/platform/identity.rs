//! What a system is.
use vstd::prelude::*;
use vstd::string::*;
use crate::platform::tokens::{normalize_token, normalized, safe_display, shown};
use crate::text::{join3, same_text};
use crate::values::Replicate;

verus! {

/// An operating system.
#[derive(Debug, Clone, PartialEq, Eq)]
pub enum OperatingSystem {
    Linux,
    Other { name: String },
}

/// What a `OperatingSystem` stands for.
#[verifier::ext_equal]
pub enum OperatingSystemView {
    Linux,
    Other { name: Seq<char> },
}

impl View for OperatingSystem {
    type V = OperatingSystemView;

    open spec fn view(&self) -> OperatingSystemView {
        match self {
            OperatingSystem::Linux => OperatingSystemView::Linux,
            OperatingSystem::Other { name } => OperatingSystemView::Other { name: name.deep_view() },
        }
    }
}

impl DeepView for OperatingSystem {
    type V = OperatingSystemView;

    open spec fn deep_view(&self) -> OperatingSystemView {
        self.view()
    }
}

impl Replicate for OperatingSystem {
    fn replicate(&self) -> (r: Self) {
        match self {
            OperatingSystem::Linux => OperatingSystem::Linux,
            OperatingSystem::Other { name } => OperatingSystem::Other { name: name.replicate() },
        }
    }
}

/// A distribution of Linux.
#[derive(Debug, Clone, PartialEq, Eq)]
pub enum Distribution {
    PopOs { version: Option<String> },
    Ubuntu { version: Option<String> },
    Other { id: String, name: Option<String>, version: Option<String> },
    Unknown { value: String },
}

/// What a `Distribution` stands for.
#[verifier::ext_equal]
pub enum DistributionView {
    PopOs { version: Option<Seq<char>> },
    Ubuntu { version: Option<Seq<char>> },
    Other { id: Seq<char>, name: Option<Seq<char>>, version: Option<Seq<char>> },
    Unknown { value: Seq<char> },
}

impl View for Distribution {
    type V = DistributionView;

    open spec fn view(&self) -> DistributionView {
        match self {
            Distribution::PopOs { version } => DistributionView::PopOs { version: version.deep_view() },
            Distribution::Ubuntu { version } => DistributionView::Ubuntu { version: version.deep_view() },
            Distribution::Other { id, name, version } => DistributionView::Other { id: id.deep_view(), name: name.deep_view(), version: version.deep_view() },
            Distribution::Unknown { value } => DistributionView::Unknown { value: value.deep_view() },
        }
    }
}

impl DeepView for Distribution {
    type V = DistributionView;

    open spec fn deep_view(&self) -> DistributionView {
        self.view()
    }
}

impl Replicate for Distribution {
    fn replicate(&self) -> (r: Self) {
        match self {
            Distribution::PopOs { version } => Distribution::PopOs { version: version.replicate() },
            Distribution::Ubuntu { version } => Distribution::Ubuntu { version: version.replicate() },
            Distribution::Other { id, name, version } => Distribution::Other { id: id.replicate(), name: name.replicate(), version: version.replicate() },
            Distribution::Unknown { value } => Distribution::Unknown { value: value.replicate() },
        }
    }
}

/// A desktop environment.
#[derive(Debug, Clone, PartialEq, Eq)]
pub enum DesktopEnvironment {
    Cosmic,
    Gnome,
    Kde,
    Other { value: String },
    Unknown,
}

/// What a `DesktopEnvironment` stands for.
#[verifier::ext_equal]
pub enum DesktopEnvironmentView {
    Cosmic,
    Gnome,
    Kde,
    Other { value: Seq<char> },
    Unknown,
}

impl View for DesktopEnvironment {
    type V = DesktopEnvironmentView;

    open spec fn view(&self) -> DesktopEnvironmentView {
        match self {
            DesktopEnvironment::Cosmic => DesktopEnvironmentView::Cosmic,
            DesktopEnvironment::Gnome => DesktopEnvironmentView::Gnome,
            DesktopEnvironment::Kde => DesktopEnvironmentView::Kde,
            DesktopEnvironment::Other { value } => DesktopEnvironmentView::Other { value: value.deep_view() },
            DesktopEnvironment::Unknown => DesktopEnvironmentView::Unknown,
        }
    }
}

impl DeepView for DesktopEnvironment {
    type V = DesktopEnvironmentView;

    open spec fn deep_view(&self) -> DesktopEnvironmentView {
        self.view()
    }
}

impl Replicate for DesktopEnvironment {
    fn replicate(&self) -> (r: Self) {
        match self {
            DesktopEnvironment::Cosmic => DesktopEnvironment::Cosmic,
            DesktopEnvironment::Gnome => DesktopEnvironment::Gnome,
            DesktopEnvironment::Kde => DesktopEnvironment::Kde,
            DesktopEnvironment::Other { value } => DesktopEnvironment::Other { value: value.replicate() },
            DesktopEnvironment::Unknown => DesktopEnvironment::Unknown,
        }
    }
}

/// The terminal multiplexer, where it is installed.
#[derive(Debug, Clone, PartialEq, Eq)]
pub struct TerminalCapability {
    pub executable: Option<String>,
}

/// What a `TerminalCapability` stands for.
#[verifier::ext_equal]
pub struct TerminalCapabilityView {
    pub executable: Option<Seq<char>>,
}

impl View for TerminalCapability {
    type V = TerminalCapabilityView;

    open spec fn view(&self) -> TerminalCapabilityView {
        TerminalCapabilityView {
            executable: self.executable.deep_view(),
        }
    }
}

impl DeepView for TerminalCapability {
    type V = TerminalCapabilityView;

    open spec fn deep_view(&self) -> TerminalCapabilityView {
        self.view()
    }
}

impl Replicate for TerminalCapability {
    fn replicate(&self) -> (r: Self) {
        TerminalCapability {
            executable: self.executable.replicate(),
        }
    }
}

/// What was found out of a system.
#[derive(Debug, Clone, PartialEq, Eq)]
pub struct DetectedPlatform {
    pub operating_system: OperatingSystem,
    pub distribution: Distribution,
    pub desktop_environment: DesktopEnvironment,
    pub terminal: TerminalCapability,
}

/// What a `DetectedPlatform` stands for.
#[verifier::ext_equal]
pub struct DetectedPlatformView {
    pub operating_system: OperatingSystemView,
    pub distribution: DistributionView,
    pub desktop_environment: DesktopEnvironmentView,
    pub terminal: TerminalCapabilityView,
}

impl View for DetectedPlatform {
    type V = DetectedPlatformView;

    open spec fn view(&self) -> DetectedPlatformView {
        DetectedPlatformView {
            operating_system: self.operating_system.deep_view(),
            distribution: self.distribution.deep_view(),
            desktop_environment: self.desktop_environment.deep_view(),
            terminal: self.terminal.deep_view(),
        }
    }
}

impl DeepView for DetectedPlatform {
    type V = DetectedPlatformView;

    open spec fn deep_view(&self) -> DetectedPlatformView {
        self.view()
    }
}

impl Replicate for DetectedPlatform {
    fn replicate(&self) -> (r: Self) {
        DetectedPlatform {
            operating_system: self.operating_system.replicate(),
            distribution: self.distribution.replicate(),
            desktop_environment: self.desktop_environment.replicate(),
            terminal: self.terminal.replicate(),
        }
    }
}

/// The operating system of the given name.
pub open spec fn system_named(name: Seq<char>) -> OperatingSystemView {
    if normalized(name) == "linux"@ {
        OperatingSystemView::Linux
    } else {
        OperatingSystemView::Other { name: shown(name) }
    }
}

/// A name with a version behind it, where there is one.
pub open spec fn versioned(name: Seq<char>, version: Option<Seq<char>>) -> Seq<char> {
    match version {
        Some(version) => name + " "@ + version,
        None => name,
    }
}

fn with_version(name: &str, version: &Option<String>) -> (r: String)
    ensures
        r@ == versioned(name@, version.deep_view()),
{
    match version {
        Some(version) => join3(name, " ", version.as_str()),
        None => name.to_owned(),
    }
}

impl OperatingSystemView {
    pub open spec fn text(self) -> Seq<char> {
        match self {
            OperatingSystemView::Linux => "Linux"@,
            OperatingSystemView::Other { name } => name,
        }
    }
}

impl OperatingSystem {
    /// The operating system of the given name.
    pub fn from_runtime(name: &str) -> (r: Self)
        ensures
            r@ == system_named(name@),
    {
        if same_text(normalize_token(name).as_str(), "linux") {
            OperatingSystem::Linux
        } else {
            OperatingSystem::Other { name: safe_display(name) }
        }
    }

    pub fn is_linux(&self) -> (r: bool)
        ensures
            r == (self@ is Linux),
    {
        match self {
            OperatingSystem::Linux => true,
            _ => false,
        }
    }

    /// The name that is shown.
    pub fn to_text(&self) -> (r: String)
        ensures
            r@ == self@.text(),
    {
        match self {
            OperatingSystem::Linux => "Linux".to_owned(),
            OperatingSystem::Other { name } => name.clone(),
        }
    }
}

impl DistributionView {
    pub open spec fn text(self) -> Seq<char> {
        match self {
            DistributionView::PopOs { version } => versioned("Pop!_OS"@, version),
            DistributionView::Ubuntu { version } => versioned("Ubuntu"@, version),
            DistributionView::Other { id, name, version } => versioned(
                match name {
                    Some(name) => name,
                    None => id,
                },
                version,
            ),
            DistributionView::Unknown { value } => value,
        }
    }
}

impl Distribution {
    /// A distribution of which nothing is known.
    pub fn unknown() -> (r: Self)
        ensures
            r@ == (DistributionView::Unknown { value: "unknown"@ }),
    {
        Distribution::Unknown { value: "unknown".to_owned() }
    }

    pub fn is_pop_os(&self) -> (r: bool)
        ensures
            r == (self@ is PopOs),
    {
        match self {
            Distribution::PopOs { version: _ } => true,
            _ => false,
        }
    }

    pub fn is_ubuntu(&self) -> (r: bool)
        ensures
            r == (self@ is Ubuntu),
    {
        match self {
            Distribution::Ubuntu { version: _ } => true,
            _ => false,
        }
    }

    /// The name that is shown.
    pub fn to_text(&self) -> (r: String)
        ensures
            r@ == self@.text(),
    {
        match self {
            Distribution::PopOs { version } => with_version("Pop!_OS", version),
            Distribution::Ubuntu { version } => with_version("Ubuntu", version),
            Distribution::Other { id, name, version } => match name {
                Some(name) => with_version(name.as_str(), version),
                None => with_version(id.as_str(), version),
            },
            Distribution::Unknown { value } => value.clone(),
        }
    }
}

impl DesktopEnvironmentView {
    pub open spec fn text(self) -> Seq<char> {
        match self {
            DesktopEnvironmentView::Cosmic => "COSMIC"@,
            DesktopEnvironmentView::Gnome => "GNOME"@,
            DesktopEnvironmentView::Kde => "KDE Plasma"@,
            DesktopEnvironmentView::Other { value } => value,
            DesktopEnvironmentView::Unknown => "unknown"@,
        }
    }
}

impl DesktopEnvironment {
    /// A desktop of which nothing is known.
    pub fn unknown() -> (r: Self)
        ensures
            r@ == DesktopEnvironmentView::Unknown,
    {
        DesktopEnvironment::Unknown
    }

    pub fn is_cosmic(&self) -> (r: bool)
        ensures
            r == (self@ is Cosmic),
    {
        match self {
            DesktopEnvironment::Cosmic => true,
            _ => false,
        }
    }

    /// The name that is shown.
    pub fn to_text(&self) -> (r: String)
        ensures
            r@ == self@.text(),
    {
        match self {
            DesktopEnvironment::Cosmic => "COSMIC".to_owned(),
            DesktopEnvironment::Gnome => "GNOME".to_owned(),
            DesktopEnvironment::Kde => "KDE Plasma".to_owned(),
            DesktopEnvironment::Other { value } => value.clone(),
            DesktopEnvironment::Unknown => "unknown".to_owned(),
        }
    }
}

impl TerminalCapabilityView {
    pub open spec fn text(self) -> Seq<char> {
        match self.executable {
            Some(executable) => "tmux ("@ + executable + ")"@,
            None => "tmux unavailable"@,
        }
    }
}

impl TerminalCapability {
    /// The multiplexer at the given place.
    pub fn tmux(executable: String) -> (r: Self)
        ensures
            r@ == (TerminalCapabilityView { executable: Some(executable@) }),
    {
        TerminalCapability { executable: Some(executable) }
    }

    /// No multiplexer.
    pub fn unavailable_tmux() -> (r: Self)
        ensures
            r@ == (TerminalCapabilityView { executable: None }),
    {
        TerminalCapability { executable: None }
    }

    pub fn is_tmux_available(&self) -> (r: bool)
        ensures
            r == (self@.executable is Some),
    {
        self.executable.is_some()
    }

    /// The name that is shown.
    pub fn to_text(&self) -> (r: String)
        ensures
            r@ == self@.text(),
    {
        match &self.executable {
            Some(executable) => join3("tmux (", executable.as_str(), ")"),
            None => "tmux unavailable".to_owned(),
        }
    }
}

} // verus!
