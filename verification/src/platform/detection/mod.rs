//! Finding out what system this is, and what it supports.
pub mod detector;
pub mod support;

pub use detector::RuntimePlatformDetector;
pub use support::{
    CapabilityDescriptor, CapabilityId, CompatibilityProfile, DesktopPredicate,
    DistributionPredicate, OperatingSystemPredicate, SupportProfile,
};
