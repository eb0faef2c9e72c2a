use crate::context::Policy;
use crate::json::{opt_text, JsonField};
use crate::outside::{json_field, json_field_of, json_without, json_without_of, to_upper, upper_of};
use vstd::prelude::*;
use vstd::string::StringExecFns;

verus! {

/// Severity of a guest log record.
#[derive(Debug, Clone, Copy, PartialEq, Eq, Structural)]
pub enum PolicyLogEntryLevel {
    Trace,
    Debug,
    Info,
    Warning,
    Error,
}

/// Why a guest log record could not be decoded.
#[derive(Debug, PartialEq, Eq)]
pub enum LogError {
    /// The payload is not a JSON object, or its `message` is not a string.
    Malformed,
    /// The `level` names no known level (the word is kept), or is missing or
    /// not a string (`None`).
    InvalidLogLevel(Option<String>),
}

impl LogError {
    /// Human-readable description of the failure.
    pub fn message(&self) -> (r: String)
        ensures
            r@ == match self {
                LogError::Malformed => "malformed log record"@,
                LogError::InvalidLogLevel(Some(word)) => "unknown log level "@ + word@,
                LogError::InvalidLogLevel(None) => "missing log level"@,
            },
    {
        match self {
            LogError::Malformed => String::from_str("malformed log record"),
            LogError::InvalidLogLevel(Some(word)) => String::from_str("unknown log level ").concat(
                word.as_str(),
            ),
            LogError::InvalidLogLevel(None) => String::from_str("missing log level"),
        }
    }
}

/// A decoded guest log record.
#[derive(Debug, PartialEq, Eq)]
pub struct PolicyLogEntry {
    pub level: PolicyLogEntryLevel,
    pub message: Option<String>,
    /// The record's other fields, as a JSON object.
    pub data: Vec<u8>,
}

/// A diagnostic event ready to be emitted under the policy's scope.
#[derive(Debug, PartialEq, Eq)]
pub struct LogEvent {
    pub level: PolicyLogEntryLevel,
    /// The record's message, empty where it had none.
    pub message: String,
    pub request_uid: Option<String>,
    pub data: Vec<u8>,
}

/// The level named by an upper-case level word.
pub open spec fn level_named(u: Seq<char>) -> Option<PolicyLogEntryLevel> {
    if u == "TRACE"@ {
        Some(PolicyLogEntryLevel::Trace)
    } else if u == "DEBUG"@ {
        Some(PolicyLogEntryLevel::Debug)
    } else if u == "INFO"@ {
        Some(PolicyLogEntryLevel::Info)
    } else if u == "WARNING"@ {
        Some(PolicyLogEntryLevel::Warning)
    } else if u == "ERROR"@ {
        Some(PolicyLogEntryLevel::Error)
    } else {
        None
    }
}

/// The level that a level word names, whatever its case.
pub open spec fn level_of(s: Seq<char>) -> Option<PolicyLogEntryLevel> {
    level_named(upper_of(s))
}

/// A decoded record seen through its views: level, message and extra fields.
pub open spec fn entry_view(e: PolicyLogEntry) -> (PolicyLogEntryLevel, Option<Seq<char>>, Seq<u8>) {
    (e.level, opt_text(e.message), e.data@)
}

/// What decoding `payload` gives: the level first, then the message, then the
/// remaining fields.
pub open spec fn decoded_entry(payload: Seq<u8>) -> Result<
    (PolicyLogEntryLevel, Option<Seq<char>>, Seq<u8>),
    LogError,
> {
    match json_field_of(payload, "level"@) {
        JsonField::Unreadable => Err(LogError::Malformed),
        JsonField::Text(s) => match level_of(s@) {
            None => Err(LogError::InvalidLogLevel(Some(s))),
            Some(level) => {
                let message: Result<Option<Seq<char>>, LogError> = match json_field_of(
                    payload,
                    "message"@,
                ) {
                    JsonField::Absent => Ok(None),
                    JsonField::Null => Ok(None),
                    JsonField::Text(m) => Ok(Some(m@)),
                    _ => Err(LogError::Malformed),
                };
                match message {
                    Err(e) => Err(e),
                    Ok(message) => match json_without_of(payload, "level"@) {
                        None => Err(LogError::Malformed),
                        Some(rest) => match json_without_of(rest, "message"@) {
                            None => Err(LogError::Malformed),
                            Some(data) => Ok((level, message, data)),
                        },
                    },
                }
            },
        },
        _ => Err(LogError::InvalidLogLevel(None)),
    }
}

/// A payload whose `level` names a known level and whose `message` is absent,
/// `null` or a string.
pub open spec fn well_formed_record(payload: Seq<u8>) -> bool {
    &&& json_field_of(payload, "level"@) is Text
    &&& level_of(json_field_of(payload, "level"@)->Text_0@) is Some
    &&& (json_field_of(payload, "message"@) is Absent || json_field_of(payload, "message"@) is Null
        || json_field_of(payload, "message"@) is Text)
}

/// The level named by the upper-case word `u`.
pub fn level_from_upper(u: &String) -> (r: Option<PolicyLogEntryLevel>)
    ensures
        r == level_named(u@),
{
    if *u == String::from_str("TRACE") {
        Some(PolicyLogEntryLevel::Trace)
    } else if *u == String::from_str("DEBUG") {
        Some(PolicyLogEntryLevel::Debug)
    } else if *u == String::from_str("INFO") {
        Some(PolicyLogEntryLevel::Info)
    } else if *u == String::from_str("WARNING") {
        Some(PolicyLogEntryLevel::Warning)
    } else if *u == String::from_str("ERROR") {
        Some(PolicyLogEntryLevel::Error)
    } else {
        None
    }
}

/// Reads a level word case-insensitively.
pub fn parse_level(s: &str) -> (r: Option<PolicyLogEntryLevel>)
    ensures
        r == level_of(s@),
{
    let u = to_upper(s);
    level_from_upper(&u)
}

/// Decodes a guest log payload `{level, message?, ...}`.
pub fn decode_log_entry(payload: &[u8]) -> (r: Result<PolicyLogEntry, LogError>)
    ensures
        match r {
            Ok(e) => decoded_entry(payload@) == Ok::<_, LogError>(entry_view(e)),
            Err(k) => decoded_entry(payload@) == Err::<(PolicyLogEntryLevel, Option<Seq<char>>, Seq<u8>), _>(k),
        },
        well_formed_record(payload@) ==> r is Ok,
{
    let level = match json_field(payload, "level") {
        JsonField::Unreadable => {
            return Err(LogError::Malformed);
        },
        JsonField::Text(s) => match parse_level(s.as_str()) {
            None => {
                return Err(LogError::InvalidLogLevel(Some(s)));
            },
            Some(level) => level,
        },
        _ => {
            return Err(LogError::InvalidLogLevel(None));
        },
    };
    let message = match json_field(payload, "message") {
        JsonField::Absent => None,
        JsonField::Null => None,
        JsonField::Text(m) => Some(m),
        _ => {
            return Err(LogError::Malformed);
        },
    };
    let rest = match json_without(payload, "level") {
        None => {
            return Err(LogError::Malformed);
        },
        Some(rest) => rest,
    };
    let data = match json_without(rest.as_slice(), "message") {
        None => {
            return Err(LogError::Malformed);
        },
        Some(data) => data,
    };
    Ok(PolicyLogEntry { level, message, data })
}

impl Policy {
    /// `ev` is what `log` makes of `contents` for this policy.
    pub open spec fn log_ok(&self, contents: Seq<u8>, ev: LogEvent) -> bool {
        &&& decoded_entry(contents) is Ok
        &&& decoded_entry(contents)->Ok_0.0 == ev.level
        &&& ev.message@ == match decoded_entry(contents)->Ok_0.1 {
            Some(m) => m,
            None => Seq::<char>::empty(),
        }
        &&& ev.data@ == decoded_entry(contents)->Ok_0.2
        &&& ev.request_uid == self.request_uid
    }

    /// `log` refuses `contents` for the reason `k`.
    pub open spec fn log_fails(&self, contents: Seq<u8>, k: LogError) -> bool {
        decoded_entry(contents) == Err::<(PolicyLogEntryLevel, Option<Seq<char>>, Seq<u8>), _>(k)
    }

    /// Turns a guest log payload into an event of this policy, carrying the
    /// correlation id of the request being evaluated.
    pub fn log(&self, contents: &[u8]) -> (r: Result<LogEvent, LogError>)
        ensures
            match r {
                Ok(ev) => self.log_ok(contents@, ev),
                Err(k) => self.log_fails(contents@, k),
            },
            well_formed_record(contents@) ==> r is Ok,
    {
        match decode_log_entry(contents) {
            Err(k) => Err(k),
            Ok(entry) => {
                let message = match entry.message {
                    Some(m) => m,
                    None => String::new(),
                };
                Ok(LogEvent {
                    level: entry.level,
                    message,
                    request_uid: crate::context::copy_text(&self.request_uid),
                    data: entry.data,
                })
            },
        }
    }
}

} // verus!
