//! Window settings that only one platform knows.

pub mod linux;
pub mod macos;
