//! Linux distributions and the applications that are installed on them.
pub mod applications;
pub mod detector;

pub use applications::LinuxApplicationCatalog;
pub use detector::{
    detect_distribution, parse_os_release, LinuxDetector, OsReleaseMetadata, SystemPlatformProbe,
};
