//! The system that an environment is set up on.
use vstd::prelude::*;
use vstd::string::*;

pub mod desktop;
pub mod detection;
pub mod identity;
pub mod linux;
pub mod probe;
pub mod tokens;

verus! {

/// What is known of a system, as text.
#[derive(Debug, Clone, PartialEq, Eq)]
pub struct PlatformInfo {
    pub operating_system: String,
    pub distribution: Option<String>,
    pub desktop_environment: Option<String>,
    pub terminal: Option<String>,
}

impl PlatformInfo {
    /// A system of which nothing is known.
    pub fn unknown() -> (r: Self)
        ensures
            r.operating_system@ == Seq::<char>::empty(),
            r.distribution is None,
            r.desktop_environment is None,
            r.terminal is None,
    {
        Self::default()
    }
}

impl Default for PlatformInfo {
    fn default() -> (r: Self)
        ensures
            r.operating_system@ == Seq::<char>::empty(),
            r.distribution is None,
            r.desktop_environment is None,
            r.terminal is None,
    {
        PlatformInfo {
            operating_system: String::new(),
            distribution: None,
            desktop_environment: None,
            terminal: None,
        }
    }
}

} // verus!
