//! Settings that only macOS knows.

use vstd::prelude::*;

verus! {

/// How the application shows itself to the system.
#[derive(Debug, Clone, Copy, PartialEq, Eq, Structural)]
pub enum ActivationPolicy {
    /// As an application with a menu bar and a place in the dock.
    Regular,
    /// Without a place in the dock.
    Accessory,
    /// It cannot come to the front.
    Prohibited,
}

impl Default for ActivationPolicy {
    fn default() -> (policy: ActivationPolicy)
        ensures
            policy == ActivationPolicy::Regular,
    {
        ActivationPolicy::Regular
    }
}

/// The settings that only macOS knows.
#[derive(Debug, Clone, Copy, PartialEq, Eq, Structural)]
pub struct PlatformSpecific {
    /// How the application shows itself.
    pub activation_policy: ActivationPolicy,
    /// Whether the application comes to the front over others when it starts.
    pub activate_ignoring_other_apps: bool,
}

impl Default for PlatformSpecific {
    fn default() -> (settings: PlatformSpecific)
        ensures
            settings == (PlatformSpecific {
                activation_policy: ActivationPolicy::Regular,
                activate_ignoring_other_apps: true,
            }),
    {
        PlatformSpecific {
            activation_policy: ActivationPolicy::default(),
            activate_ignoring_other_apps: true,
        }
    }
}

} // verus!
