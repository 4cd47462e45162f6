//! Game-time tracking: which full-screen program is in front, how long it
//! has been running, and when the overlay should show that time.
//!
//! The library holds the decisions; the program around it queries the
//! operating system and drives the window.

pub mod config;
pub mod format;
pub mod games;
pub mod ignore;
pub mod monitor;
pub mod overlay;
pub mod system_provider;
pub mod watcher;
