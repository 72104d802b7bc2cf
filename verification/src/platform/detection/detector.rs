//! Finding out what system this is.
use vstd::prelude::*;
use vstd::string::*;
use crate::error::{seen, WorkstateError, WorkstateErrorView};
use crate::platform::desktop::cosmic::{desktop_found, CosmicDetector};
use crate::platform::identity::{
    system_named, DesktopEnvironmentView, DetectedPlatform, DetectedPlatformView, Distribution,
    DistributionView, OperatingSystem, OperatingSystemView, TerminalCapability,
    TerminalCapabilityView,
};
use crate::platform::linux::detector::{detect_distribution, distribution_found};
use crate::platform::probe::PlatformProbe;
use crate::text::{lower, trim};

verus! {

/// Finds out what system a probe speaks of.
pub struct RuntimePlatformDetector<P> {
    probe: P,
}

/// The distribution is looked for on Linux only.
pub open spec fn distribution_of<P: PlatformProbe>(probe: &P, system: OperatingSystemView) -> Result<
    DistributionView,
    WorkstateErrorView,
> {
    if system is Linux {
        distribution_found(probe)
    } else {
        Ok(DistributionView::Unknown { value: "unknown"@ })
    }
}

/// What the probe says of its system; the first answer that fails ends it.
pub open spec fn platform_found<P: PlatformProbe>(probe: &P) -> Result<
    DetectedPlatformView,
    WorkstateErrorView,
> {
    match probe.system() {
        Err(error) => Err(error),
        Ok(name) => match distribution_of(probe, system_named(name)) {
            Err(error) => Err(error),
            Ok(distribution) => match desktop_found(probe) {
                Err(error) => Err(error),
                Ok(desktop_environment) => match probe.program("tmux"@) {
                    Err(error) => Err(error),
                    Ok(executable) => Ok(
                        DetectedPlatformView {
                            operating_system: system_named(name),
                            distribution,
                            desktop_environment,
                            terminal: TerminalCapabilityView { executable },
                        },
                    ),
                },
            },
        },
    }
}

impl<P> RuntimePlatformDetector<P> {
    pub closed spec fn source(&self) -> P {
        self.probe
    }

    pub fn new(probe: P) -> (r: Self)
        ensures
            r.source() == probe,
    {
        RuntimePlatformDetector { probe }
    }

    pub fn probe(&self) -> (r: &P)
        ensures
            *r == self.source(),
    {
        &self.probe
    }
}

impl<P: PlatformProbe> RuntimePlatformDetector<P> {
    /// What system this is.
    pub fn detect(&self) -> (r: Result<DetectedPlatform, WorkstateError>)
        ensures
            seen(r) == platform_found(&self.source()),
    {
        let operating_system = match self.probe.operating_system() {
            Err(error) => {
                return Err(error);
            },
            Ok(name) => OperatingSystem::from_runtime(name.as_str()),
        };
        let distribution = if operating_system.is_linux() {
            match detect_distribution(&self.probe) {
                Err(error) => {
                    return Err(error);
                },
                Ok(distribution) => distribution,
            }
        } else {
            Distribution::unknown()
        };
        let desktop_environment = match CosmicDetector::detect_with_probe(&self.probe) {
            Err(error) => {
                return Err(error);
            },
            Ok(desktop) => desktop,
        };
        let terminal = match self.probe.executable("tmux") {
            Err(error) => {
                return Err(error);
            },
            Ok(Some(executable)) => TerminalCapability::tmux(executable),
            Ok(None) => TerminalCapability::unavailable_tmux(),
        };
        Ok(DetectedPlatform { operating_system, distribution, desktop_environment, terminal })
    }
}

/// The distribution plays no part outside Linux.
pub proof fn law_no_distribution_outside_linux<P: PlatformProbe>(
    probe: &P,
    platform: DetectedPlatformView,
)
    requires
        platform_found(probe) == Ok::<DetectedPlatformView, WorkstateErrorView>(platform),
        !(platform.operating_system is Linux),
    ensures
        platform.distribution == (DistributionView::Unknown { value: "unknown"@ }),
{
}

/// What is found is what the machine tells: its system, its distribution where it is Linux, its desktop
/// and the terminal program on its search path.
pub proof fn law_platform_is_told_as_found<P: PlatformProbe>(
    probe: &P,
    platform: DetectedPlatformView,
    name: Seq<char>,
)
    requires
        platform_found(probe) == Ok::<DetectedPlatformView, WorkstateErrorView>(platform),
        probe.system() == Ok::<Seq<char>, WorkstateErrorView>(name),
    ensures
        platform.operating_system is Linux <==> lower(trim(name)) == "linux"@,
        platform.operating_system is Linux ==> distribution_found(probe) == Ok::<
            DistributionView,
            WorkstateErrorView,
        >(platform.distribution),
        desktop_found(probe) == Ok::<DesktopEnvironmentView, WorkstateErrorView>(
            platform.desktop_environment,
        ),
        probe.program("tmux"@) == Ok::<Option<Seq<char>>, WorkstateErrorView>(
            platform.terminal.executable,
        ),
{
}

} // verus!
