use vstd::prelude::*;
use crate::emission::{emitted, Emission, EmissionView};
use crate::line::{
    format_line, line_text, message_text, trace_content, trace_line, write_failure_line,
    write_failure_text,
};
use crate::log_level::LogLevel;
use crate::log_path::{
    default_log_path, default_path_text, generate_uuid, is_random_identifier,
    lemma_default_path_matches_pattern, matches_default_pattern,
};
use crate::log_settings::{LogSettings, LogSettingsView};
use crate::log_settings_builder::LogSettingsBuilder;
use crate::logger::Logger;

verus! {

/// A logger for the console and one log file.
///
/// It owns its configuration and the path of its log file. The path is
/// resolved once, when the logger is built, and never again.
pub struct PinkLogger {
    log_settings: LogSettings,
    log_path: String,
}

/// What a logger holds, as mathematical values.
pub struct PinkLoggerView {
    pub settings: LogSettingsView,
    pub log_path: Seq<char>,
}

impl PinkLoggerView {
    /// How the path of the log file follows from the configuration: it is the
    /// file that the configuration names, or, where it names none, the default
    /// path of some random identifier.
    pub open spec fn resolved(self) -> bool {
        match self.settings.log_file {
            Some(path) => self.log_path == path,
            None => exists|id: u128|
                is_random_identifier(id) && self.log_path == #[trigger] default_path_text(id),
        }
    }

    /// The sinks that take a formatted line: the log file if writing to it is
    /// switched on, the console unless it is silenced.
    pub open spec fn dispatch(self, line: Seq<char>) -> EmissionView {
        EmissionView {
            line,
            file: if self.settings.write_log_to_file {
                Some(self.log_path)
            } else {
                None
            },
            console: !self.settings.silent,
        }
    }

    /// What a call at `level` with `content` comes to: nothing where the
    /// threshold does not permit the level, else the formatted line and its
    /// sinks.
    pub open spec fn emit(self, level: LogLevel, content: Seq<char>) -> Option<EmissionView> {
        if self.settings.log_level.permits(level) {
            Some(self.dispatch(line_text(level, content)))
        } else {
            None
        }
    }
}

impl View for PinkLogger {
    type V = PinkLoggerView;

    closed spec fn view(&self) -> PinkLoggerView {
        PinkLoggerView { settings: self.log_settings@, log_path: self.log_path@ }
    }
}

/// `std::backtrace::Backtrace`, carried from its capture to its rendering and
/// never looked into.
#[verifier::external_type_specification]
#[verifier::external_body]
pub struct ExBacktrace(std::backtrace::Backtrace);

/// Takes a backtrace of the calling thread with
/// `std::backtrace::Backtrace::capture`.
///
/// Trusted, and nothing is claimed of the result: whether frames are
/// captured, and which, is up to the environment of the process.
#[verifier::external_body]
fn capture_backtrace() -> std::backtrace::Backtrace {
    std::backtrace::Backtrace::capture()
}

impl PinkLogger {
    /// Every logger holds the path that its configuration resolves to.
    #[verifier::type_invariant]
    spec fn path_is_resolved(self) -> bool {
        self@.resolved()
    }

    /// Builds a logger from a configuration. The log file is the one that the
    /// configuration names; where it names none, a fresh random identifier is
    /// drawn and the file is the default path of that identifier.
    pub fn new(log_settings: LogSettings) -> (logger: Self)
        ensures
            logger@.settings == log_settings@,
            logger@.resolved(),
    {
        let log_path = match &log_settings.log_file {
            None => {
                let uuid = generate_uuid();
                default_log_path(uuid)
            },
            Some(some) => some.clone(),
        };
        Self { log_settings, log_path }
    }

    /// Builds a logger with the threshold `Info`, writing to the log file
    /// switched on, the console not silenced, and the default path of a fresh
    /// random identifier for its log file.
    pub fn default() -> (logger: Self)
        ensures
            logger@.settings == LogSettingsView::initial(LogLevel::Info),
            logger@.resolved(),
    {
        let builder = LogSettingsBuilder::new(LogLevel::Info);
        let log_settings = builder.build();
        let uuid = generate_uuid();
        let log_path = default_log_path(uuid);
        Self { log_settings, log_path }
    }

    /// The configuration of this logger.
    pub fn log_settings(&self) -> (settings: &LogSettings)
        ensures
            settings@ == self@.settings,
    {
        &self.log_settings
    }

    /// The path of this logger's log file.
    pub fn log_path(&self) -> (path: &String)
        ensures
            path@ == self@.log_path,
            self@.resolved(),
    {
        proof {
            use_type_invariant(self);
        }
        &self.log_path
    }

    /// Routes a formatted line to the sinks that the configuration switches on.
    fn write(&self, value: String) -> (emission: Emission)
        ensures
            emission@ == self@.dispatch(value@),
    {
        let file = if self.log_settings.write_log_to_file {
            Some(self.log_path.clone())
        } else {
            None
        };
        Emission { line: value, file, console: !self.log_settings.silent }
    }

    /// Takes the outcome of a write to the log file, an error by its
    /// description. A failure is not passed on: it becomes a warning for the
    /// console, which is due whether or not the console is silenced. A write
    /// that went well asks for nothing.
    pub fn report_file_write(&self, outcome: Result<(), String>) -> (warning: Option<String>)
        ensures
            match outcome {
                Ok(_) => warning is None,
                Err(error) => warning matches Some(line) && line@ == write_failure_text(
                    self@.log_path,
                    error@,
                ),
            },
    {
        match outcome {
            Ok(_) => None,
            Err(error) => Some(write_failure_line(self.log_path.as_str(), error.as_str())),
        }
    }
}

impl Logger for PinkLogger {
    open spec fn threshold(&self) -> LogLevel {
        self@.settings.log_level
    }

    /// The backtrace is taken only once the level has passed the threshold.
    /// Its text depends on the process, so the line is pinned down to the
    /// text of the backtrace and no further.
    fn trace(&self, msg: Option<&str>) -> (out: Option<Emission>)
        ensures
            exists|backtrace: Seq<char>|
                emitted(out) == self@.emit(
                    LogLevel::Trace,
                    #[trigger] trace_content(message_text(msg), backtrace),
                ),
    {
        if !LogLevel::should_log(&self.log_settings.log_level, &LogLevel::Trace) {
            assert(emitted(None) == self@.emit(
                LogLevel::Trace,
                trace_content(message_text(msg), Seq::empty()),
            ));
            return None;
        }
        let backtrace = capture_backtrace().to_string();
        let log = trace_line(msg, backtrace.as_str());
        let emission = self.write(log);
        assert(emitted(Some(emission)) == self@.emit(
            LogLevel::Trace,
            trace_content(message_text(msg), backtrace@),
        ));
        Some(emission)
    }

    fn debug(&self, msg: &str) -> (out: Option<Emission>)
        ensures
            emitted(out) == self@.emit(LogLevel::Debug, msg@),
    {
        if !LogLevel::should_log(&self.log_settings.log_level, &LogLevel::Debug) {
            return None;
        }
        let log = format_line(LogLevel::Debug, msg);
        Some(self.write(log))
    }

    fn info(&self, msg: &str) -> (out: Option<Emission>)
        ensures
            emitted(out) == self@.emit(LogLevel::Info, msg@),
    {
        if !LogLevel::should_log(&self.log_settings.log_level, &LogLevel::Info) {
            return None;
        }
        let log = format_line(LogLevel::Info, msg);
        Some(self.write(log))
    }

    fn warn(&self, msg: &str) -> (out: Option<Emission>)
        ensures
            emitted(out) == self@.emit(LogLevel::Warn, msg@),
    {
        if !LogLevel::should_log(&self.log_settings.log_level, &LogLevel::Warn) {
            return None;
        }
        let log = format_line(LogLevel::Warn, msg);
        Some(self.write(log))
    }

    fn error(&self, err: &str) -> (out: Option<Emission>)
        ensures
            emitted(out) == self@.emit(LogLevel::Error, err@),
    {
        if !LogLevel::should_log(&self.log_settings.log_level, &LogLevel::Error) {
            return None;
        }
        let log = format_line(LogLevel::Error, err);
        Some(self.write(log))
    }

    fn fatal(&self, err: &str) -> (out: Option<Emission>)
        ensures
            emitted(out) == self@.emit(LogLevel::Fatal, err@),
    {
        if !LogLevel::should_log(&self.log_settings.log_level, &LogLevel::Fatal) {
            return None;
        }
        let log = format_line(LogLevel::Fatal, err);
        Some(self.write(log))
    }
}

/// A call emits something exactly when the threshold permits its level, and
/// what it emits then is the line of that level and content.
pub proof fn lemma_emits_iff_permitted(logger: PinkLoggerView, level: LogLevel, content: Seq<char>)
    ensures
        logger.emit(level, content) is Some <==> logger.settings.log_level.permits(level),
        logger.emit(level, content) matches Some(emission) ==> emission.line == line_text(
            level,
            content,
        ),
{
}

/// A silenced logger that writes to its file sends every line it emits to the
/// file and none to the console.
pub proof fn lemma_silent_logger_writes_file_only(
    logger: PinkLoggerView,
    level: LogLevel,
    content: Seq<char>,
)
    requires
        logger.settings.silent,
        logger.settings.write_log_to_file,
        logger.settings.log_level.permits(level),
    ensures
        logger.emit(level, content) == Some(
            EmissionView {
                line: line_text(level, content),
                file: Some(logger.log_path),
                console: false,
            },
        ),
{
}

/// A logger with writing to the file switched off never asks for the file,
/// whatever its threshold and whatever the call.
pub proof fn lemma_no_file_when_switched_off(
    logger: PinkLoggerView,
    level: LogLevel,
    content: Seq<char>,
)
    requires
        !logger.settings.write_log_to_file,
    ensures
        logger.emit(level, content) matches Some(emission) ==> emission.file is None,
{
}

/// A logger whose configuration names no file has a log file that matches the
/// pattern of default paths; one whose configuration names a file has that
/// file.
pub proof fn lemma_resolved_path(logger: PinkLoggerView)
    requires
        logger.resolved(),
    ensures
        logger.settings.log_file is None ==> matches_default_pattern(logger.log_path),
        logger.settings.log_file matches Some(path) ==> logger.log_path == path,
{
    if logger.settings.log_file is None {
        let id = choose|id: u128|
            is_random_identifier(id) && logger.log_path == #[trigger] default_path_text(id);
        lemma_default_path_matches_pattern(id);
    }
}

} // verus!
