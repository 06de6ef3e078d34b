//! A singleton-window toggle driven by a process-wide keyboard shortcut.
//!
//! One registered key combination either creates a dedicated auxiliary
//! window (the command palette) when none exists, or closes it when one
//! does. The window registry is the sole source of truth: the controller
//! re-queries it on every event instead of caching an "is open" flag, so
//! a window closed by external means is never believed to be still open.

pub mod controller;
pub mod shortcut;
pub mod window;
