use vstd::prelude::*;

verus! {

/// Severity of a message, or the threshold a logger filters by.
///
/// `Off` is a threshold only: a logger configured with it emits nothing.
/// No message is ever logged at `Off`.
#[derive(Copy, Clone, Debug, PartialEq, Eq, Structural)]
pub enum LogLevel {
    Trace,
    Debug,
    Info,
    Warn,
    Error,
    Fatal,
    Off,
}

impl LogLevel {
    /// The rank of a level: the more verbose the level, the higher its rank.
    /// `Off` ranks below every real level.
    pub open spec fn rank(self) -> int {
        match self {
            LogLevel::Trace => 5,
            LogLevel::Debug => 4,
            LogLevel::Info => 3,
            LogLevel::Warn => 2,
            LogLevel::Error => 1,
            LogLevel::Fatal => 0,
            LogLevel::Off => -1,
        }
    }

    /// Whether a logger whose threshold is `self` emits a message of `level`:
    /// never with the threshold `Off`, otherwise exactly when the threshold is
    /// at least as verbose as the message.
    pub open spec fn permits(self, level: LogLevel) -> bool {
        self != LogLevel::Off && self.rank() >= level.rank()
    }

    /// The tag that a line of this level carries: the level's name in upper
    /// case.
    pub open spec fn tag(self) -> Seq<char> {
        match self {
            LogLevel::Trace => "TRACE"@,
            LogLevel::Debug => "DEBUG"@,
            LogLevel::Info => "INFO"@,
            LogLevel::Warn => "WARN"@,
            LogLevel::Error => "ERROR"@,
            LogLevel::Fatal => "FATAL"@,
            LogLevel::Off => "OFF"@,
        }
    }

    /// The rank as a machine integer.
    pub fn log_level_index(self) -> (index: i32)
        ensures
            index == self.rank(),
    {
        match self {
            LogLevel::Trace => 5,
            LogLevel::Debug => 4,
            LogLevel::Info => 3,
            LogLevel::Warn => 2,
            LogLevel::Error => 1,
            LogLevel::Fatal => 0,
            LogLevel::Off => -1,
        }
    }

    /// Decides whether a message of level `b` is emitted under the threshold `a`.
    pub fn should_log(a: &Self, b: &Self) -> (emit: bool)
        ensures
            emit == a.permits(*b),
            *a == LogLevel::Off ==> !emit,
    {
        if *a == LogLevel::Off {
            return false;
        }
        a.log_level_index() >= b.log_level_index()
    }

    /// The level's name in upper case.
    pub fn name(self) -> (name: &'static str)
        ensures
            name@ == self.tag(),
    {
        match self {
            LogLevel::Trace => "TRACE",
            LogLevel::Debug => "DEBUG",
            LogLevel::Info => "INFO",
            LogLevel::Warn => "WARN",
            LogLevel::Error => "ERROR",
            LogLevel::Fatal => "FATAL",
            LogLevel::Off => "OFF",
        }
    }
}

impl From<LogLevel> for i32 {
    /// The rank of the level.
    fn from(level: LogLevel) -> (index: i32) {
        level.log_level_index()
    }
}

impl vstd::std_specs::convert::FromSpecImpl<LogLevel> for i32 {
    open spec fn obeys_from_spec() -> bool {
        true
    }

    open spec fn from_spec(level: LogLevel) -> i32 {
        level.rank() as i32
    }
}

impl From<LogLevel> for u32 {
    /// The rank of the level; `Off`, whose rank is negative, wraps around to
    /// the largest `u32`.
    fn from(level: LogLevel) -> (index: u32) {
        match level {
            LogLevel::Off => u32::MAX,
            _ => level.log_level_index() as u32,
        }
    }
}

impl vstd::std_specs::convert::FromSpecImpl<LogLevel> for u32 {
    open spec fn obeys_from_spec() -> bool {
        true
    }

    open spec fn from_spec(level: LogLevel) -> u32 {
        if level == LogLevel::Off {
            u32::MAX
        } else {
            level.rank() as u32
        }
    }
}

/// For a message level, which is never `Off`, a threshold permits the level
/// exactly when the threshold's rank is at least the level's rank. The
/// threshold `Off` is no exception to that: its rank is below every message's.
pub proof fn lemma_permits_by_rank(threshold: LogLevel, level: LogLevel)
    requires
        level != LogLevel::Off,
    ensures
        threshold.permits(level) <==> threshold.rank() >= level.rank(),
        threshold == LogLevel::Off ==> !threshold.permits(level),
{
}

/// The threshold `Off` permits no level at all, `Fatal` and `Off` included.
pub proof fn lemma_off_permits_nothing(level: LogLevel)
    ensures
        !LogLevel::Off.permits(level),
{
}

/// No two levels share a rank, and every rank lies between -1 and 5.
pub proof fn lemma_rank_distinct(a: LogLevel, b: LogLevel)
    ensures
        -1 <= a.rank() <= 5,
        a.rank() == b.rank() ==> a == b,
{
}

/// A threshold that permits a level permits every less verbose level too, and
/// a more verbose threshold permits whatever a less verbose one permits.
pub proof fn lemma_permits_monotone(
    threshold: LogLevel,
    level: LogLevel,
    other_threshold: LogLevel,
    other_level: LogLevel,
)
    requires
        threshold.permits(level),
        other_threshold.rank() >= threshold.rank(),
        other_level.rank() <= level.rank(),
    ensures
        other_threshold.permits(other_level),
{
}

} // verus!
