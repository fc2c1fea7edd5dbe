//! How the log is written: plainly, or one line per record with its
//! severity in front, as a service manager's journal reads it.

use vstd::prelude::*;
use vstd::string::StringExecFns;

use crate::text::same_text;

verus! {

/// How serious a log record is.
#[derive(Debug, Clone, Copy, PartialEq, Eq, Structural)]
pub enum Severity {
    /// Something failed.
    Error,
    /// Something may be wrong.
    Warn,
    /// What an operator wants to know.
    Info,
    /// What helps to find a fault.
    Debug,
    /// Every detail.
    Trace,
}

/// The shape of the log's lines.
#[derive(Debug, Clone, Copy, PartialEq, Eq, Structural)]
pub enum LogStyle {
    /// Lines for a reader at a terminal.
    Plain,
    /// Lines that begin with the record's priority between angle brackets.
    Journal,
}

impl Severity {
    /// The priority that the journal knows the severity by: 3 for an error,
    /// 4 for a warning, 6 for information, 7 for all that is finer.
    pub open spec fn priority(self) -> u8 {
        match self {
            Severity::Error => 3,
            Severity::Warn => 4,
            Severity::Info => 6,
            Severity::Debug => 7,
            Severity::Trace => 7,
        }
    }

    /// The priority as a journal line carries it: one decimal digit.
    pub open spec fn priority_digit(self) -> char {
        ('0' as u8 + self.priority()) as char
    }

    /// The journal's priority of the severity.
    pub fn journal_priority(&self) -> (p: u8)
        ensures
            p == self.priority(),
    {
        match self {
            Severity::Error => 3,
            Severity::Warn => 4,
            Severity::Info => 6,
            Severity::Debug => 7,
            Severity::Trace => 7,
        }
    }
}

/// The style that the toggle asks for: the journal's where it is set to
/// `SYSTEMD`, in exactly these letters, and the plain one in every other case.
pub open spec fn style_of(toggle: Option<Seq<char>>) -> LogStyle {
    if toggle == Some("SYSTEMD"@) {
        LogStyle::Journal
    } else {
        LogStyle::Plain
    }
}

/// Chooses the log's style from the value of the toggle, `None` where the
/// toggle is not set.
pub fn log_style(toggle: Option<&str>) -> (style: LogStyle)
    ensures
        style == style_of(
            match toggle {
                Some(v) => Some(v@),
                None => None,
            },
        ),
{
    match toggle {
        Some(v) => {
            if same_text(v, "SYSTEMD") {
                LogStyle::Journal
            } else {
                LogStyle::Plain
            }
        },
        None => LogStyle::Plain,
    }
}

/// A record as one line of the journal: the priority between angle brackets,
/// the target, a colon and a space, the message.
pub open spec fn journal_line_of(severity: Severity, target: Seq<char>, message: Seq<char>) -> Seq<
    char,
> {
    seq!['<', severity.priority_digit(), '>'] + target + seq![':', ' '] + message
}

/// Writes a record as one line of the journal, without a line end.
pub fn journal_line(severity: Severity, target: &str, message: &str) -> (line: String)
    ensures
        line@ == journal_line_of(severity, target@, message@),
{
    let digit: &str = match severity.journal_priority() {
        3 => "3",
        4 => "4",
        6 => "6",
        _ => "7",
    };
    proof {
        reveal_strlit("<");
        reveal_strlit(">");
        reveal_strlit(": ");
        reveal_strlit("3");
        reveal_strlit("4");
        reveal_strlit("6");
        reveal_strlit("7");
        assert("<"@ + digit@ + ">"@ == seq!['<', severity.priority_digit(), '>']);
        assert(": "@ == seq![':', ' ']);
    }
    let mut line: String = String::new();
    line.append("<");
    line.append(digit);
    line.append(">");
    line.append(target);
    line.append(": ");
    line.append(message);
    assert(line@ == "<"@ + digit@ + ">"@ + target@ + ": "@ + message@);
    line
}

} // verus!
