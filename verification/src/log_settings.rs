use vstd::prelude::*;
use crate::log_level::LogLevel;

verus! {

/// The configuration of a logger.
pub struct LogSettings {
    /// The threshold: messages more verbose than this are dropped.
    pub log_level: LogLevel,
    /// The file that takes the log. Where there is none, the logger derives a
    /// path of its own when it is built.
    pub log_file: Option<String>,
    /// Whether emitted lines go to the log file.
    pub write_log_to_file: bool,
    /// Whether emitted lines are kept from the console.
    pub silent: bool,
}

/// What a configuration holds, as mathematical values.
pub struct LogSettingsView {
    pub log_level: LogLevel,
    pub log_file: Option<Seq<char>>,
    pub write_log_to_file: bool,
    pub silent: bool,
}

impl LogSettingsView {
    /// The configuration that one starts from: the given threshold, no file
    /// named, writing to the file switched on, the console not silenced.
    pub open spec fn initial(log_level: LogLevel) -> LogSettingsView {
        LogSettingsView { log_level, log_file: None, write_log_to_file: true, silent: false }
    }
}

impl View for LogSettings {
    type V = LogSettingsView;

    open spec fn view(&self) -> LogSettingsView {
        LogSettingsView {
            log_level: self.log_level,
            log_file: match self.log_file {
                Some(path) => Some(path@),
                None => None,
            },
            write_log_to_file: self.write_log_to_file,
            silent: self.silent,
        }
    }
}

impl LogSettings {
    /// The initial configuration for the threshold `log_level`.
    pub fn new(log_level: LogLevel) -> (settings: Self)
        ensures
            settings@ == LogSettingsView::initial(log_level),
    {
        Self { log_level, log_file: None, write_log_to_file: true, silent: false }
    }
}

} // verus!
