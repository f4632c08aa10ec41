//! Verified core of the JARVIS desktop client: the daemon wire protocol,
//! the connection and UI state machines, path resolution, the widget
//! control channel and widget discovery.

pub mod text;
pub mod json;
pub mod protocol;
pub mod session;
pub mod paths;
pub mod ui;
pub mod control;
pub mod widgets;
