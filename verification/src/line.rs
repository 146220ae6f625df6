use vstd::prelude::*;
use crate::log_level::LogLevel;

verus! {

/// A log line: the level's tag in square brackets, a space, and the content.
pub open spec fn line_text(level: LogLevel, content: Seq<char>) -> Seq<char> {
    "["@ + level.tag() + "] "@ + content
}

/// The content of a trace line: the backtrace, after the message and a space
/// where there is a message.
pub open spec fn trace_content(msg: Option<Seq<char>>, backtrace: Seq<char>) -> Seq<char> {
    match msg {
        Some(text) => text + " "@ + backtrace,
        None => backtrace,
    }
}

/// The warning that tells of a failed write to the log file at `path`; `error`
/// describes the failure.
pub open spec fn write_failure_text(path: Seq<char>, error: Seq<char>) -> Seq<char> {
    "[pink-log] [WARN] Error while trying to write to file:\n "@ + path + "\n"@ + error
}

/// What an optional message holds, as a mathematical value.
pub open spec fn message_text(msg: Option<&str>) -> Option<Seq<char>> {
    match msg {
        Some(text) => Some(text@),
        None => None,
    }
}

/// Formats the line of a message of `level`.
pub fn format_line(level: LogLevel, content: &str) -> (line: String)
    ensures
        line@ == line_text(level, content@),
{
    String::from_str("[").concat(level.name()).concat("] ").concat(content)
}

/// Formats a trace line from the optional message and the text of a backtrace.
pub fn trace_line(msg: Option<&str>, backtrace: &str) -> (line: String)
    ensures
        line@ == line_text(LogLevel::Trace, trace_content(message_text(msg), backtrace@)),
{
    let line = match msg {
        Some(text) => {
            let content = String::from_str(text).concat(" ").concat(backtrace);
            format_line(LogLevel::Trace, content.as_str())
        },
        None => format_line(LogLevel::Trace, backtrace),
    };
    line
}

/// Formats the warning about a failed write to the log file at `path`.
pub fn write_failure_line(path: &str, error: &str) -> (line: String)
    ensures
        line@ == write_failure_text(path@, error@),
{
    String::from_str("[pink-log] [WARN] Error while trying to write to file:\n ").concat(
        path,
    ).concat("\n").concat(error)
}

/// A line begins with an opening bracket and the tag of its level, and its
/// content is what follows the closing bracket and the space.
pub proof fn lemma_line_parts(level: LogLevel, content: Seq<char>)
    ensures
        line_text(level, content).len() == level.tag().len() + 3 + content.len(),
        line_text(level, content)[0] == '[',
        line_text(level, content).subrange(1, 1 + level.tag().len() as int) == level.tag(),
        line_text(level, content)[1 + level.tag().len() as int] == ']',
        line_text(level, content)[2 + level.tag().len() as int] == ' ',
        line_text(level, content).subrange(
            (level.tag().len() + 3) as int,
            line_text(level, content).len() as int,
        ) == content,
{
    reveal_strlit("[");
    reveal_strlit("] ");
}

/// The tags of the levels: their lengths, and that no two levels share one.
pub proof fn lemma_tags_distinct(a: LogLevel, b: LogLevel)
    ensures
        3 <= a.tag().len() <= 5,
        forall|i: int| 0 <= i < a.tag().len() ==> a.tag()[i] != ']',
        a.tag() == b.tag() ==> a == b,
{
    reveal_strlit("TRACE");
    reveal_strlit("DEBUG");
    reveal_strlit("INFO");
    reveal_strlit("WARN");
    reveal_strlit("ERROR");
    reveal_strlit("FATAL");
    reveal_strlit("OFF");
    if a.tag() == b.tag() {
        assert(a.tag().len() == b.tag().len());
        assert(a.tag()[0] == b.tag()[0]);
        assert(a.tag()[1] == b.tag()[1]);
    }
}

/// A line tells its level and its content: two lines are equal only if they
/// were formatted from the same level and the same content.
pub proof fn lemma_line_injective(
    level: LogLevel,
    content: Seq<char>,
    other_level: LogLevel,
    other_content: Seq<char>,
)
    requires
        line_text(level, content) == line_text(other_level, other_content),
    ensures
        level == other_level,
        content == other_content,
{
    let line = line_text(level, content);
    let n = level.tag().len() as int;
    let m = other_level.tag().len() as int;
    lemma_line_parts(level, content);
    lemma_line_parts(other_level, other_content);
    lemma_tags_distinct(level, other_level);
    lemma_tags_distinct(other_level, level);
    if n < m {
        assert(line[1 + n] == line.subrange(1, 1 + m)[n]);
    } else if m < n {
        assert(line[1 + m] == line.subrange(1, 1 + n)[m]);
    }
}

} // verus!
