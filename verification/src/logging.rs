//! Log-line classification and formatting.
//!
//! The sink that prints is outside this library; what is decided here is the
//! severity taxonomy, which stream a line belongs on, and the exact text of
//! a formatted log line.

use vstd::prelude::*;
use vstd::string::StringExecFns;

verus! {

#[derive(Debug, PartialEq, Eq, Structural, Clone, Copy)]
pub enum LoggingType {
    Error,
    Panic,
    Debug,
}

#[derive(Debug, PartialEq, Eq, Structural, Clone, Copy)]
pub enum OutputIn {
    Stdout,
    Stderr,
}

/// The tag each severity prints as.
pub open spec fn logging_type_chars(t: LoggingType) -> Seq<char> {
    match t {
        LoggingType::Error => "ERROR"@,
        LoggingType::Panic => "PANIC"@,
        LoggingType::Debug => "DEBUG"@,
    }
}

impl LoggingType {
    pub fn is_panic(&self) -> (r: bool)
        ensures
            r == (*self is Panic),
    {
        matches!(self, LoggingType::Panic)
    }

    pub fn is_err(&self) -> (r: bool)
        ensures
            r == (*self is Error),
    {
        matches!(self, LoggingType::Error)
    }

    /// The printed tag of this severity.
    pub fn as_text(&self) -> (r: &'static str)
        ensures
            r@ == logging_type_chars(*self),
    {
        match self {
            LoggingType::Error => "ERROR",
            LoggingType::Panic => "PANIC",
            LoggingType::Debug => "DEBUG",
        }
    }
}

/// A formatted log line: the severity tag, a space, the message.
pub open spec fn log_line_chars(t: LoggingType, msg: Seq<char>) -> Seq<char> {
    logging_type_chars(t) + seq![' '] + msg
}

/// Formats one log line; panic and error lines belong on standard error,
/// everything else on standard output, as `stream_for` says.
pub fn format_log_line(ltype: &LoggingType, msg: &str) -> (r: String)
    ensures
        r@ == log_line_chars(*ltype, msg@),
{
    proof {
        reveal_strlit(" ");
        assert(" "@ =~= seq![' ']);
    }
    let mut r = ltype.as_text().to_owned();
    r.append(" ");
    r.append(msg);
    proof {
        assert(r@ =~= log_line_chars(*ltype, msg@));
    }
    r
}

/// The stream a log line of the given severity belongs on.
pub fn stream_for(ltype: &LoggingType) -> (r: OutputIn)
    ensures
        (*ltype is Panic || *ltype is Error) ==> r == OutputIn::Stderr,
        (*ltype is Debug) ==> r == OutputIn::Stdout,
{
    match ltype {
        LoggingType::Error => OutputIn::Stderr,
        LoggingType::Panic => OutputIn::Stderr,
        LoggingType::Debug => OutputIn::Stdout,
    }
}

} // verus!
