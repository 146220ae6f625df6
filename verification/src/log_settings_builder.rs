use vstd::prelude::*;
use crate::log_level::LogLevel;
use crate::log_settings::{LogSettings, LogSettingsView};

verus! {

/// Stages a configuration: starts from a threshold, takes overrides for the
/// other fields, and is used up when the configuration is built.
pub struct LogSettingsBuilder {
    log_settings: LogSettings,
}

impl View for LogSettingsBuilder {
    type V = LogSettingsView;

    /// The configuration as staged so far.
    closed spec fn view(&self) -> LogSettingsView {
        self.log_settings@
    }
}

impl LogSettingsBuilder {
    /// A builder that holds the initial configuration for `log_level`.
    pub fn new(log_level: LogLevel) -> (builder: Self)
        ensures
            builder@ == LogSettingsView::initial(log_level),
    {
        Self { log_settings: LogSettings::new(log_level) }
    }

    /// Hands out the staged configuration.
    pub fn build(self) -> (settings: LogSettings)
        ensures
            settings@ == self@,
    {
        self.log_settings
    }

    /// Replaces the threshold and leaves the rest as it was.
    pub fn set_log_level(&mut self, log_level: LogLevel)
        ensures
            final(self)@ == (LogSettingsView { log_level, ..old(self)@ }),
    {
        self.log_settings.log_level = log_level
    }

    /// Names the log file and leaves the rest as it was.
    pub fn set_log_file(&mut self, log_file: &String)
        ensures
            final(self)@ == (LogSettingsView { log_file: Some(log_file@), ..old(self)@ }),
    {
        self.log_settings.log_file = Some(log_file.clone());
    }

    /// Switches writing to the log file on or off and leaves the rest as it was.
    pub fn set_write_log_to_file(&mut self, write_log_to_file: bool)
        ensures
            final(self)@ == (LogSettingsView { write_log_to_file, ..old(self)@ }),
    {
        self.log_settings.write_log_to_file = write_log_to_file
    }

    /// Silences the console, or gives it back, and leaves the rest as it was.
    pub fn set_silent(&mut self, silent: bool)
        ensures
            final(self)@ == (LogSettingsView { silent, ..old(self)@ }),
    {
        self.log_settings.silent = silent
    }
}

} // verus!
