//! Core logic of a desktop game launcher: given the probed facts about a
//! local installation (installed versions, remote diffs, patch statuses,
//! runtime presence, folder layout), resolve the single authoritative
//! `LauncherState`, map it to at most one action, and drive the long-running
//! actions (download with resume, folder migration) through verified state
//! machines while reporting progress.
//!
//! All I/O (filesystem probes, network fetches, process launching) lives
//! outside this crate: callers probe the environment, hand the results in as
//! plain values, and perform the actions that the library plans.

pub mod components;
pub mod config;
pub mod controller;
pub mod controls;
pub mod diff;
pub mod dispatch;
pub mod download;
pub mod error;
pub mod laws;
pub mod locale;
pub mod migrate;
pub mod patch;
pub mod probes;
pub mod progress;
pub mod resolver;
pub mod state;
pub mod version;
pub mod webcache;
