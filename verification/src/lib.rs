//! A leveled logging facility: severities with a total order, the rule that
//! decides whether a message passes a threshold, the format of a log line and
//! the routing of a line to the console and file sinks.

pub mod emission;
pub mod line;
pub mod log_level;
pub mod log_path;
pub mod log_settings;
pub mod log_settings_builder;
pub mod logger;
pub mod pink_logger;

pub use emission::{Emission, EmissionView};
pub use line::{format_line, trace_line, write_failure_line};
pub use log_level::LogLevel;
pub use log_path::default_log_path;
pub use log_settings::{LogSettings, LogSettingsView};
pub use log_settings_builder::LogSettingsBuilder;
pub use logger::Logger;
pub use pink_logger::{PinkLogger, PinkLoggerView};
