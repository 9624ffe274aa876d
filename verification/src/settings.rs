//! The settings with which an application starts.

use vstd::prelude::*;

verus! {

/// The settings that only some platforms know; here there are none.
#[derive(Debug, Clone, Copy, PartialEq, Eq, Structural)]
pub struct PlatformSpecific;

impl Default for PlatformSpecific {
    fn default() -> (settings: PlatformSpecific)
        ensures
            settings == PlatformSpecific,
    {
        PlatformSpecific
    }
}

/// The settings of an application.
#[derive(Debug, Clone)]
pub struct Settings {
    /// The id under which the windowing system knows the application, if
    /// it is to have one.
    pub id: Option<String>,
    /// The fonts to load at the start, each as the bytes of its file.
    pub fonts: Vec<Vec<u8>>,
    /// The settings that only some platforms know.
    pub platform_specific: PlatformSpecific,
}

impl Default for Settings {
    fn default() -> (settings: Settings)
        ensures
            settings.id is None,
            settings.fonts@.len() == 0,
    {
        Settings { id: None, fonts: Vec::new(), platform_specific: PlatformSpecific }
    }
}

} // verus!
