use vstd::prelude::*;
use crate::emission::Emission;
use crate::line::{line_text, message_text, trace_content};
use crate::log_level::LogLevel;

verus! {

/// A logger: one operation for each severity of a message.
///
/// Every operation first asks whether its severity passes the logger's
/// threshold. If it does not, the call hands back nothing. If it does, the
/// call hands back the formatted line and the sinks that take it; the caller
/// performs the writes.
pub trait Logger {
    /// The threshold that this logger filters by.
    spec fn threshold(&self) -> LogLevel;

    /// Logs a trace point: the optional message, followed by a backtrace taken
    /// at the call.
    fn trace(&self, msg: Option<&str>) -> (out: Option<Emission>)
        ensures
            out is Some <==> self.threshold().permits(LogLevel::Trace),
            out matches Some(emission) ==> exists|backtrace: Seq<char>|
                emission.line@ == line_text(
                    LogLevel::Trace,
                    #[trigger] trace_content(message_text(msg), backtrace),
                ),
    ;

    /// Logs `msg` at the level `Debug`.
    fn debug(&self, msg: &str) -> (out: Option<Emission>)
        ensures
            out is Some <==> self.threshold().permits(LogLevel::Debug),
            out matches Some(emission) ==> emission.line@ == line_text(LogLevel::Debug, msg@),
    ;

    /// Logs `msg` at the level `Info`.
    fn info(&self, msg: &str) -> (out: Option<Emission>)
        ensures
            out is Some <==> self.threshold().permits(LogLevel::Info),
            out matches Some(emission) ==> emission.line@ == line_text(LogLevel::Info, msg@),
    ;

    /// Logs `msg` at the level `Warn`.
    fn warn(&self, msg: &str) -> (out: Option<Emission>)
        ensures
            out is Some <==> self.threshold().permits(LogLevel::Warn),
            out matches Some(emission) ==> emission.line@ == line_text(LogLevel::Warn, msg@),
    ;

    /// Logs the description `err` of an error at the level `Error`.
    fn error(&self, err: &str) -> (out: Option<Emission>)
        ensures
            out is Some <==> self.threshold().permits(LogLevel::Error),
            out matches Some(emission) ==> emission.line@ == line_text(LogLevel::Error, err@),
    ;

    /// Logs the description `err` of an error at the level `Fatal`.
    fn fatal(&self, err: &str) -> (out: Option<Emission>)
        ensures
            out is Some <==> self.threshold().permits(LogLevel::Fatal),
            out matches Some(emission) ==> emission.line@ == line_text(LogLevel::Fatal, err@),
    ;
}

} // verus!
