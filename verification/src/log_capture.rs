//! What of the program's own log is shown to the operator: which events are
//! captured, and how a captured event reads as a line.

use vstd::prelude::*;

verus! {

/// The severity of a log event, most severe first.
#[derive(Debug, Clone, Copy, PartialEq, Eq, Structural)]
pub enum LogLevel {
    Error,
    Warn,
    Info,
    Debug,
    Trace,
}

impl LogLevel {
    /// Whether events of this level are captured: errors, warnings and
    /// information are, the two chattier levels are not.
    pub open spec fn is_captured(self) -> bool {
        self == LogLevel::Error || self == LogLevel::Warn || self == LogLevel::Info
    }

    /// Exec form of `is_captured`.
    pub fn captured(&self) -> (captured: bool)
        ensures
            captured == self.is_captured(),
    {
        match self {
            LogLevel::Error => true,
            LogLevel::Warn => true,
            LogLevel::Info => true,
            LogLevel::Debug => false,
            LogLevel::Trace => false,
        }
    }

    /// The level's name as a specification.
    pub open spec fn name_of(self) -> Seq<char> {
        match self {
            LogLevel::Error => "ERROR"@,
            LogLevel::Warn => "WARN"@,
            LogLevel::Info => "INFO"@,
            LogLevel::Debug => "DEBUG"@,
            LogLevel::Trace => "TRACE"@,
        }
    }

    /// The level's name as it stands in a log line.
    pub fn name(&self) -> (name: &'static str)
        ensures
            name@ == self.name_of(),
    {
        match self {
            LogLevel::Error => "ERROR",
            LogLevel::Warn => "WARN",
            LogLevel::Info => "INFO",
            LogLevel::Debug => "DEBUG",
            LogLevel::Trace => "TRACE",
        }
    }
}

/// The line of a log event: time, level and target, then the message.
pub open spec fn line_of(
    timestamp: Seq<char>,
    level: LogLevel,
    target: Seq<char>,
    message: Seq<char>,
) -> Seq<char> {
    timestamp + " "@ + level.name_of() + " "@ + target + ": "@ + message
}

/// The line that is shown for a log event, if the event is captured.
pub fn log_line(timestamp: &str, level: LogLevel, target: &str, message: &str) -> (line: Option<
    String,
>)
    ensures
        match line {
            Some(text) => level.is_captured() && text@ == line_of(
                timestamp@,
                level,
                target@,
                message@,
            ),
            None => !level.is_captured(),
        },
{
    if !level.captured() {
        return None;
    }
    let mut text = timestamp.to_owned();
    text.append(" ");
    text.append(level.name());
    text.append(" ");
    text.append(target);
    text.append(": ");
    text.append(message);
    assert(text@ =~= line_of(timestamp@, level, target@, message@));
    Some(text)
}

} // verus!
