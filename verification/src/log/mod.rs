//! Logging and tracing settings: the log level the service starts with and
//! where its traces are exported.
use crate::text::is_ascii_digit;
use vstd::prelude::*;

verus! {

/// The levels of the log, from the most to the least severe.
#[derive(Clone, Copy, Debug, PartialEq, Eq, Structural)]
pub enum LogLevel {
    Error,
    Warn,
    Info,
    Debug,
    Trace,
}

/// The value of the decimal digits `d`.
pub open spec fn decimal_value(d: Seq<char>) -> int
    decreases d.len(),
{
    if d.len() == 0 {
        0
    } else {
        decimal_value(d.drop_last()) * 10 + (d.last() as int - '0' as int)
    }
}

/// The digits of a numeral: what follows its optional leading '+'.
pub open spec fn numeral_digits(s: Seq<char>) -> Seq<char> {
    if s.len() > 0 && s[0] == '+' {
        s.drop_first()
    } else {
        s
    }
}

/// `s` is an unsigned decimal numeral: an optional '+' and one digit or more.
pub open spec fn is_unsigned_numeral(s: Seq<char>) -> bool {
    let d = numeral_digits(s);
    &&& d.len() > 0
    &&& forall|i: int| 0 <= i < d.len() ==> is_ascii_digit(#[trigger] d[i])
}

/// The level numbered `n`: 1 is the most severe, 5 the least.
pub open spec fn level_numbered(n: int) -> Option<LogLevel> {
    if n == 1 {
        Some(LogLevel::Error)
    } else if n == 2 {
        Some(LogLevel::Warn)
    } else if n == 3 {
        Some(LogLevel::Info)
    } else if n == 4 {
        Some(LogLevel::Debug)
    } else if n == 5 {
        Some(LogLevel::Trace)
    } else {
        None
    }
}

/// `s` spells the lower-case ASCII `word`, each letter in either case.
pub open spec fn spells_ignoring_case(s: Seq<char>, word: Seq<char>) -> bool {
    &&& s.len() == word.len()
    &&& forall|i: int|
        0 <= i < s.len() ==> #[trigger] s[i] == word[i] || ('a' <= word[i] && word[i] <= 'z'
            && s[i] as int == word[i] as int - 32)
}

/// The level named `s`, in either case.
pub open spec fn level_named(s: Seq<char>) -> Option<LogLevel> {
    if spells_ignoring_case(s, "error"@) {
        Some(LogLevel::Error)
    } else if spells_ignoring_case(s, "warn"@) {
        Some(LogLevel::Warn)
    } else if spells_ignoring_case(s, "info"@) {
        Some(LogLevel::Info)
    } else if spells_ignoring_case(s, "debug"@) {
        Some(LogLevel::Debug)
    } else if spells_ignoring_case(s, "trace"@) {
        Some(LogLevel::Trace)
    } else {
        None
    }
}

/// The level that `s` denotes: a numeral from 1 to 5 or a level name in
/// either case, as `tracing::Level` reads it.
pub open spec fn level_from_text(s: Seq<char>) -> Option<LogLevel> {
    if is_unsigned_numeral(s) && level_numbered(decimal_value(numeral_digits(s))) is Some {
        level_numbered(decimal_value(numeral_digits(s)))
    } else {
        level_named(s)
    }
}

/// The message of `tracing::Level`'s parse error.
pub open spec fn level_parse_error_text() -> Seq<char> {
    "error parsing level: expected one of \"error\", \"warn\", \"info\", \"debug\", \"trace\", or a number 1-5"@
}

/// Calls `<tracing::Level as FromStr>::from_str` and turns the level into a
/// `LogLevel`, the parse error into its display text. In tracing-core 0.1
/// that function reads `s` as a `usize` from 1 to 5 and else compares it with
/// the five level names ignoring ASCII case; its error displays one fixed
/// message. The contract claims both, as `level_from_text` and
/// `level_parse_error_text`.
#[verifier::external_body]
fn tracing_level_from_str(s: &str) -> (r: Result<LogLevel, String>)
    ensures
        r is Ok <==> level_from_text(s@) is Some,
        r matches Ok(l) ==> level_from_text(s@) == Some(l),
        r matches Err(m) ==> m@ == level_parse_error_text(),
{
    match s.parse::<tracing::Level>() {
        Ok(tracing::Level::ERROR) => Ok(LogLevel::Error),
        Ok(tracing::Level::WARN) => Ok(LogLevel::Warn),
        Ok(tracing::Level::INFO) => Ok(LogLevel::Info),
        Ok(tracing::Level::DEBUG) => Ok(LogLevel::Debug),
        Ok(_) => Ok(LogLevel::Trace),
        Err(e) => Err(format!("{}", e)),
    }
}

impl LogLevel {
    /// The level that `s` denotes, as `tracing::Level` reads it: a numeral
    /// from 1 ("error") to 5 ("trace"), with an optional '+', or a level
    /// name in any mix of ASCII case.
    pub fn parse(s: &str) -> (r: Option<LogLevel>)
        ensures
            r == level_from_text(s@),
    {
        match tracing_level_from_str(s) {
            Ok(l) => Some(l),
            Err(_) => None,
        }
    }
}

/// The level the log starts with, from the level option. A text that is no
/// level is refused with the message of `tracing::Level`'s parse error.
pub fn initial_level(log_level: &str) -> (r: Result<LogLevel, String>)
    ensures
        r is Ok <==> level_from_text(log_level@) is Some,
        r matches Ok(l) ==> level_from_text(log_level@) == Some(l),
        r matches Err(m) ==> m@ == level_parse_error_text(),
{
    tracing_level_from_str(log_level)
}

/// Where and how the traces of the service are exported.
#[derive(Clone, Debug)]
pub struct TracerSettings {
    /// The OTLP collector the traces go to.
    pub endpoint: String,
    /// How long an export may take, in seconds.
    pub timeout_secs: u64,
    pub max_attributes_per_span: u32,
    pub max_events_per_span: u32,
    /// The resource attribute that names the service, and its value.
    pub service_name_key: String,
    pub service_name: String,
}

/// The trace export settings of the service.
pub fn tracer_settings() -> (t: TracerSettings)
    ensures
        t.endpoint@ == "http://localhost:4317"@,
        t.timeout_secs == 3,
        t.max_attributes_per_span == 16,
        t.max_events_per_span == 16,
        t.service_name_key@ == "service.name"@,
        t.service_name@ == "holdmybackup"@,
{
    TracerSettings {
        endpoint: String::from_str("http://localhost:4317"),
        timeout_secs: 3,
        max_attributes_per_span: 16,
        max_events_per_span: 16,
        service_name_key: String::from_str("service.name"),
        service_name: String::from_str("holdmybackup"),
    }
}

} // verus!
