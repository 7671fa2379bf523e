//! Verified core of a terminal system-summary panel.
//!
//! The crate gathers per-row display strings from a set of providers,
//! counts pending package updates, and lays the rows out in a bordered,
//! fixed-width text box whose column arithmetic is Unicode-aware.

pub mod config;
pub mod formatting;
pub mod greet;
pub mod metrics;
pub mod misc;
pub mod pkgs;
pub mod render;
pub mod schedule;
pub mod system_info;
pub mod textops;

pub use metrics::width;
