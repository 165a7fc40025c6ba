//! Keeps a terminal emulator's color profile in sync with the desktop's
//! global light/dark appearance setting.
//!
//! The crate holds the logic of the synchronizer: decoding the appearance
//! value into a theme, rewriting the profile and main configuration files
//! line by line, the listener's state machine, and the decisions of the
//! best-effort live-session notifier. The surrounding process (bus
//! connection, file reads and writes, process enumeration) drives these
//! functions from outside.

pub mod args;
pub mod config;
pub mod laws;
pub mod listener;
pub mod patch;
pub mod profile;
pub mod schemes;
pub mod session;
pub mod theme;
