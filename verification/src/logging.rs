//! The lines that the logger hands to the host.

use vstd::prelude::*;
use vstd::string::*;

verus! {

/// How grave a log record is.
#[derive(Clone, Copy, Debug, PartialEq, Eq, Structural)]
pub enum Level {
    Error,
    Warn,
    Info,
    Debug,
    Trace,
}

/// The name that the `log` crate prints for a level.
pub open spec fn level_name(level: Level) -> Seq<char> {
    match level {
        Level::Error => seq!['E', 'R', 'R', 'O', 'R'],
        Level::Warn => seq!['W', 'A', 'R', 'N'],
        Level::Info => seq!['I', 'N', 'F', 'O'],
        Level::Debug => seq!['D', 'E', 'B', 'U', 'G'],
        Level::Trace => seq!['T', 'R', 'A', 'C', 'E'],
    }
}

/// `log::Level::as_str`, on the level of the `log` crate that has the same
/// name. It is the name in capitals, the one that the level is displayed
/// as.
#[verifier::external_body]
fn level_as_str(level: Level) -> (name: &'static str)
    ensures
        name@ == level_name(level),
{
    match level {
        Level::Error => log::Level::Error.as_str(),
        Level::Warn => log::Level::Warn.as_str(),
        Level::Info => log::Level::Info.as_str(),
        Level::Debug => log::Level::Debug.as_str(),
        Level::Trace => log::Level::Trace.as_str(),
    }
}

/// The character of a decimal digit.
pub open spec fn digit_char(digit: nat) -> char
    recommends
        digit < 10,
{
    if digit == 0 {
        '0'
    } else if digit == 1 {
        '1'
    } else if digit == 2 {
        '2'
    } else if digit == 3 {
        '3'
    } else if digit == 4 {
        '4'
    } else if digit == 5 {
        '5'
    } else if digit == 6 {
        '6'
    } else if digit == 7 {
        '7'
    } else if digit == 8 {
        '8'
    } else {
        '9'
    }
}

/// A number in decimal, without leading zeros; 0 is "0".
pub open spec fn decimal(n: nat) -> Seq<char>
    decreases n,
{
    if n < 10 {
        seq![digit_char(n)]
    } else {
        decimal(n / 10).push(digit_char(n % 10))
    }
}

/// The text of one decimal digit.
fn digit_str(digit: u32) -> (text: &'static str)
    requires
        digit < 10,
    ensures
        text@ == seq![digit_char(digit as nat)],
{
    proof {
        reveal_strlit("0");
        reveal_strlit("1");
        reveal_strlit("2");
        reveal_strlit("3");
        reveal_strlit("4");
        reveal_strlit("5");
        reveal_strlit("6");
        reveal_strlit("7");
        reveal_strlit("8");
        reveal_strlit("9");
    }
    let text = if digit == 0 {
        "0"
    } else if digit == 1 {
        "1"
    } else if digit == 2 {
        "2"
    } else if digit == 3 {
        "3"
    } else if digit == 4 {
        "4"
    } else if digit == 5 {
        "5"
    } else if digit == 6 {
        "6"
    } else if digit == 7 {
        "7"
    } else if digit == 8 {
        "8"
    } else {
        "9"
    };
    assert(text@ =~= seq![digit_char(digit as nat)]);
    text
}

/// Appends a number in decimal.
pub fn push_decimal(out: &mut String, n: u32)
    ensures
        final(out)@ == old(out)@ + decimal(n as nat),
    decreases n,
{
    if n >= 10 {
        push_decimal(out, n / 10);
    }
    out.append(digit_str(n % 10));
    proof {
        if n >= 10 {
            assert(old(out)@ + decimal((n / 10) as nat) + seq![digit_char((n % 10) as nat)]
                =~= old(out)@ + decimal((n / 10) as nat).push(digit_char((n % 10) as nat)));
        }
    }
}

/// What is logged: where it was logged from, how grave it is, and the
/// message.
#[derive(Clone, Copy, Debug)]
pub struct LogRecord<'a> {
    /// The source file, where it is known.
    pub file: Option<&'a str>,
    /// The line in the source file, where it is known.
    pub line: Option<u32>,
    pub level: Level,
    /// The message, formatted.
    pub message: &'a str,
}

impl<'a> LogRecord<'a> {
    /// The source file as text: empty where it is not known.
    pub open spec fn file_text(self) -> Seq<char> {
        match self.file {
            Some(file) => file@,
            None => Seq::empty(),
        }
    }

    /// The line as a number: 0 where it is not known.
    pub open spec fn line_number(self) -> nat {
        match self.line {
            Some(line) => line as nat,
            None => 0,
        }
    }
}

/// The line that is logged for a record under a name:
/// `name - file:line LEVEL: message`, closed by a NUL for the host.
pub open spec fn log_line(name: Seq<char>, record: LogRecord) -> Seq<char> {
    name + seq![' ', '-', ' '] + record.file_text() + seq![':'] + decimal(record.line_number())
        + seq![' '] + level_name(record.level) + seq![':', ' '] + record.message@ + seq!['\0']
}

/// Formats log records for the host, under the name of the plugin.
pub struct ArcdpsLogger {
    name: &'static str,
}

impl ArcdpsLogger {
    /// The name of the plugin, which starts every line.
    pub closed spec fn name(&self) -> Seq<char> {
        self.name@
    }

    /// A logger that writes under `name`.
    pub fn new(name: &'static str) -> (logger: ArcdpsLogger)
        ensures
            logger.name() == name@,
    {
        ArcdpsLogger { name }
    }

    /// Every record is logged, whatever its level.
    pub fn enabled(&self, level: Level) -> (enabled: bool)
        ensures
            enabled,
    {
        true
    }

    /// The line for a record, NUL at its end included.
    pub fn format_message(&self, record: &LogRecord) -> (line: String)
        ensures
            line@ == log_line(self.name(), *record),
    {
        proof {
            reveal_strlit(" - ");
            reveal_strlit(":");
            reveal_strlit(" ");
            reveal_strlit(": ");
            reveal_strlit("\0");
            reveal_strlit("");
        }
        let file = match record.file {
            Some(file) => file,
            None => "",
        };
        let line_number = match record.line {
            Some(line) => line,
            None => 0,
        };
        let mut line = String::from_str(self.name);
        line.append(" - ");
        line.append(file);
        line.append(":");
        push_decimal(&mut line, line_number);
        line.append(" ");
        line.append(level_as_str(record.level));
        line.append(": ");
        line.append(record.message);
        line.append("\0");
        assert(line@ =~= log_line(self.name(), *record));
        line
    }
}

} // verus!
