//! Reruns a project's test suite when its sources change, classifies the
//! outcome from the captured output and describes the desktop notification
//! that reports it.
//!
//! The decisions live here and are verified; reading the file system,
//! spawning processes and showing notifications are left to the caller.

pub mod capture;
pub mod config;
pub mod errors;
pub mod filter;
pub mod notifiers;
pub mod reactor;
pub mod report;
pub mod report_builder;
pub mod views;

pub use capture::StreamBuffer;
pub use config::{compile_patterns, Config, ConfigBuilder, DEFAULT_IGNORE_DURATION_MS};
pub use errors::SetupError;
pub use filter::{filter_allows, GlobPattern};
pub use notifiers::{get_icon_arg, Notify, NotifyCommand, NotifySend, Osascript};
pub use reactor::{Reactor, TEST_PROGRAM};
pub use report::{Outcome, Report};
pub use report_builder::{classify, ReportBuilder, ERROR_PATTERN, SUMMARY_PATTERN};
