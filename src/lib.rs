//! Keeps a widget layout in step with the active wallpaper.
//!
//! The library holds the decisions: how a wallpaper identifier is read out of
//! the wallpaper engine's configuration, where layouts are stored, when a
//! change notification leads to a new layout being applied, and how a capture
//! of the current layout proceeds. Reading and writing files, running the
//! reload command and talking to the desktop shell are left to the caller.

pub mod json;
pub mod identity;
pub mod paths;
pub mod applier;
pub mod watcher;
pub mod baseline;
pub mod capture;
pub mod laws;
