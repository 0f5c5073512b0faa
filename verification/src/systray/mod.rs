//! System tray: the StatusNotifierWatcher registry.
pub mod watcher;
pub mod daemon;
