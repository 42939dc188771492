//! Logging settings: verbosity, output format, filter, and how they are read and written.
use vstd::prelude::*;

verus! {

/// Verbosity of the logging system, ordered from least to most verbose.
#[derive(Copy, Clone, Debug, PartialEq, Eq, Structural, PartialOrd, Ord, Hash)]
pub enum Level {
    Error,
    Warn,
    Info,
    Debug,
    Trace,
}

/// Position of a level in the order error < warn < info < debug < trace.
pub open spec fn level_rank(l: Level) -> int {
    match l {
        Level::Error => 0,
        Level::Warn => 1,
        Level::Info => 2,
        Level::Debug => 3,
        Level::Trace => 4,
    }
}

/// The text a level is written as.
pub open spec fn level_text(l: Level) -> Seq<char> {
    match l {
        Level::Error => "ERROR"@,
        Level::Warn => "WARN"@,
        Level::Info => "INFO"@,
        Level::Debug => "DEBUG"@,
        Level::Trace => "TRACE"@,
    }
}

/// Lower-case form of an ASCII letter; any other character is kept.
pub open spec fn ascii_lower(c: char) -> char {
    if 'A' <= c && c <= 'Z' {
        ((c as u32) + 32) as char
    } else {
        c
    }
}

/// `s` and `t` are equal when ASCII letters are compared without case.
pub open spec fn eq_ignore_ascii_case(s: Seq<char>, t: Seq<char>) -> bool {
    s.len() == t.len() && forall|i: int| 0 <= i < s.len() ==> ascii_lower(#[trigger] s[i]) == ascii_lower(t[i])
}

/// The level whose name `s` spells, case aside.
pub open spec fn level_named(s: Seq<char>) -> Option<Level> {
    if eq_ignore_ascii_case(s, "error"@) {
        Some(Level::Error)
    } else if eq_ignore_ascii_case(s, "warn"@) {
        Some(Level::Warn)
    } else if eq_ignore_ascii_case(s, "info"@) {
        Some(Level::Info)
    } else if eq_ignore_ascii_case(s, "debug"@) {
        Some(Level::Debug)
    } else if eq_ignore_ascii_case(s, "trace"@) {
        Some(Level::Trace)
    } else {
        None
    }
}

/// The level a single digit from 1 to 5 stands for.
pub open spec fn level_of_digit(c: char) -> Option<Level> {
    if c == '1' {
        Some(Level::Error)
    } else if c == '2' {
        Some(Level::Warn)
    } else if c == '3' {
        Some(Level::Info)
    } else if c == '4' {
        Some(Level::Debug)
    } else if c == '5' {
        Some(Level::Trace)
    } else {
        None
    }
}

/// The digits of an unsigned decimal number as text: an optional leading `+` removed.
pub open spec fn unsigned_digits(s: Seq<char>) -> Seq<char> {
    if s.len() > 0 && s[0] == '+' {
        s.skip(1)
    } else {
        s
    }
}

/// The level of a decimal number from 1 to 5 written as `s` (an optional `+`, then any number
/// of zeros, then the digit).
pub open spec fn level_numbered(s: Seq<char>) -> Option<Level> {
    let d = unsigned_digits(s);
    if d.len() > 0 && (forall|i: int| 0 <= i < d.len() - 1 ==> #[trigger] d[i] == '0') {
        level_of_digit(d.last())
    } else {
        None
    }
}

/// The level a level string reads as: a number from 1 to 5, else a level name in any case.
pub open spec fn parsed_level(s: Seq<char>) -> Option<Level> {
    match level_numbered(s) {
        Some(l) => Some(l),
        None => level_named(s),
    }
}

/// The text a level is written as reads back as that level.
pub proof fn law_level_text_round_trip(l: Level)
    ensures
        level_named(level_text(l)) == Some(l),
        parsed_level(level_text(l)) == Some(l),
{
    reveal_strlit("ERROR");
    reveal_strlit("WARN");
    reveal_strlit("INFO");
    reveal_strlit("DEBUG");
    reveal_strlit("TRACE");
    reveal_strlit("error");
    reveal_strlit("warn");
    reveal_strlit("info");
    reveal_strlit("debug");
    reveal_strlit("trace");
    let t = level_text(l);
    assert(unsigned_digits(t) == t);
    assert(level_of_digit(t.last()) is None);
    match l {
        Level::Error => {
            assert(eq_ignore_ascii_case(t, "error"@));
        },
        Level::Warn => {
            assert(!eq_ignore_ascii_case(t, "error"@));
            assert(eq_ignore_ascii_case(t, "warn"@));
        },
        Level::Info => {
            assert(!eq_ignore_ascii_case(t, "error"@));
            assert(ascii_lower(t[0]) != ascii_lower("warn"@[0]));
            assert(!eq_ignore_ascii_case(t, "warn"@));
            assert(eq_ignore_ascii_case(t, "info"@));
        },
        Level::Debug => {
            assert(ascii_lower(t[0]) != ascii_lower("error"@[0]));
            assert(!eq_ignore_ascii_case(t, "error"@));
            assert(!eq_ignore_ascii_case(t, "warn"@));
            assert(!eq_ignore_ascii_case(t, "info"@));
            assert(eq_ignore_ascii_case(t, "debug"@));
        },
        Level::Trace => {
            assert(ascii_lower(t[0]) != ascii_lower("error"@[0]));
            assert(!eq_ignore_ascii_case(t, "error"@));
            assert(!eq_ignore_ascii_case(t, "warn"@));
            assert(!eq_ignore_ascii_case(t, "info"@));
            assert(ascii_lower(t[0]) != ascii_lower("debug"@[0]));
            assert(!eq_ignore_ascii_case(t, "debug"@));
            assert(eq_ignore_ascii_case(t, "trace"@));
        },
    }
}

/// Output format of log records.
#[derive(Copy, Clone, Debug, PartialEq, Eq, Structural, PartialOrd, Ord, Hash)]
pub enum LogFormat {
    Compact,
    Pretty,
    JSON,
}

/// Settings of the logging system.
#[derive(Clone, Debug, PartialEq, Eq)]
pub struct LogArgs {
    /// Most verbose level that is recorded.
    pub verbosity: Level,
    /// Format of the records on the error stream.
    pub log_format: LogFormat,
    /// Filter expression; empty for none.
    pub log_filter: String,
}

impl Default for LogArgs {
    fn default() -> (r: LogArgs)
        ensures
            r.verbosity == Level::Info,
            r.log_format == LogFormat::Compact,
            r.log_filter@ == Seq::<char>::empty(),
    {
        LogArgs { verbosity: Level::Info, log_format: LogFormat::Compact, log_filter: String::new() }
    }
}

/// Which span lifecycle events are recorded.
#[derive(Copy, Clone, Debug, PartialEq, Eq, Structural)]
pub enum SpanEvents {
    /// Creation and closing of spans.
    NewAndClose,
    /// Every span event.
    Full,
}

/// Span events recorded at a given verbosity: all of them from debug on.
pub open spec fn span_events_spec(l: Level) -> SpanEvents {
    if level_rank(l) >= level_rank(Level::Debug) {
        SpanEvents::Full
    } else {
        SpanEvents::NewAndClose
    }
}

/// Chooses the span events to record for a verbosity.
pub fn span_events_for(level: Level) -> (r: SpanEvents)
    ensures
        r == span_events_spec(level),
{
    match level {
        Level::Error => SpanEvents::NewAndClose,
        Level::Warn => SpanEvents::NewAndClose,
        Level::Info => SpanEvents::NewAndClose,
        Level::Debug => SpanEvents::Full,
        Level::Trace => SpanEvents::Full,
    }
}

/// Relies on `tracing::Level`'s `Display`: the upper-case name of the level.
#[verifier::external_body]
fn level_display(level: Level) -> (r: String)
    ensures
        r@ == level_text(level),
{
    let l = match level {
        Level::Error => tracing::Level::ERROR,
        Level::Warn => tracing::Level::WARN,
        Level::Info => tracing::Level::INFO,
        Level::Debug => tracing::Level::DEBUG,
        Level::Trace => tracing::Level::TRACE,
    };
    l.to_string()
}

/// Relies on `tracing::Level`'s `FromStr`: the text is first read as a `usize` (an optional `+`,
/// then decimal digits) and taken if it is from 1 to 5, else matched against the level names
/// ignoring ASCII case.
#[verifier::external_body]
fn level_from_str(s: &str) -> (r: Option<Level>)
    ensures
        r == parsed_level(s@),
{
    match s.parse::<tracing::Level>() {
        Ok(tracing::Level::ERROR) => Some(Level::Error),
        Ok(tracing::Level::WARN) => Some(Level::Warn),
        Ok(tracing::Level::INFO) => Some(Level::Info),
        Ok(tracing::Level::DEBUG) => Some(Level::Debug),
        Ok(tracing::Level::TRACE) => Some(Level::Trace),
        Ok(_) => None,
        Err(_) => None,
    }
}

/// Writes a level as the configuration file stores it.
pub fn serialize(level: Level) -> (r: String)
    ensures
        r@ == level_text(level),
{
    level_display(level)
}

/// Error for a level string that names no level.
#[derive(Clone, Debug, PartialEq, Eq)]
pub struct InvalidLevel {
    /// The text that was rejected.
    pub input: String,
}

impl InvalidLevel {
    /// Explanation listing the accepted values.
    pub fn message(&self) -> (r: String)
        ensures
            r@ == self.input@ + " : Valid values are: error, warn, info, debug, trace"@,
    {
        let mut m = self.input.clone();
        m.append(" : Valid values are: error, warn, info, debug, trace");
        m
    }
}

/// Reads a level as the configuration file stores it.
pub fn deserialize(s: &str) -> (r: Result<Level, InvalidLevel>)
    ensures
        parsed_level(s@) matches Some(l) ==> r == Ok::<Level, InvalidLevel>(l),
        parsed_level(s@) is None ==> (r matches Err(e) && e.input@ == s@),
{
    match level_from_str(s) {
        Some(l) => Ok(l),
        None => Err(InvalidLevel { input: s.to_owned() }),
    }
}

} // verus!
