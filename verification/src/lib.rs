//! Host-side controller library for a 15-key USB macro pad.
//!
//! The crate covers the device wire protocol (framing, image upload,
//! keypress reports), the per-key image renderer, the widget text engine,
//! the action dispatcher, the session state machine and the configuration
//! model. Device I/O, networking and the file system live outside the
//! library; the functions here compute packets, decisions and text from
//! plain values.

pub mod codec;
pub mod clock;
pub mod color;
pub mod config;
pub mod dispatch;
pub mod encoding;
pub mod keymap;
pub mod obs;
pub mod presets;
pub mod render;
pub mod session;
pub mod strutil;
pub mod surface;
pub mod twitch;
pub mod widget;
