//! Translation of Wayland compositor events into platform-neutral
//! application events, with the surface bookkeeping that goes with it.

pub mod data_device;
pub mod event;
pub mod handle;
pub mod keyboard;
pub mod mouse;
pub mod output;
pub mod seat;
pub mod shell;
pub mod touch;
pub mod window;
pub mod keymap;
pub mod conversion;
pub mod surface;
pub mod sctk_event;
pub mod button;
pub mod platform;
pub mod settings;
pub mod engine;
