//! Logging policy of the service: the rotation threshold of the log files
//! and which records are mirrored to the Windows event log.

use vstd::prelude::*;

use crate::eventlog::EventLevel;
use crate::text::{push_char, push_str};

verus! {

/// One mebibyte.
pub const MIB: u64 = 1_048_576;

/// Rotation threshold in bytes: megabytes times 2^20, saturating, at
/// least 1 MiB (a zero or tiny value would rotate on every line).
pub open spec fn spec_rotation_bytes(max_size_mb: u64) -> u64 {
    let b = max_size_mb * MIB;
    if b > u64::MAX {
        u64::MAX
    } else if b < MIB {
        MIB
    } else {
        b as u64
    }
}

/// Rotation threshold in bytes.
pub fn rotation_bytes(max_size_mb: u64) -> (r: u64)
    ensures
        r == spec_rotation_bytes(max_size_mb),
{
    let b = match max_size_mb.checked_mul(MIB) {
        Some(b) => b,
        None => u64::MAX,
    };
    if b < MIB {
        MIB
    } else {
        b
    }
}

/// Severity of a log record, most severe first.
#[derive(Debug, Clone, Copy, PartialEq, Eq, Structural)]
pub enum LogLevel {
    Error,
    Warn,
    Info,
    Debug,
    Trace,
}

/// Rank of a level: Error is 1, Trace 5.
pub open spec fn rank(l: LogLevel) -> nat {
    match l {
        LogLevel::Error => 1,
        LogLevel::Warn => 2,
        LogLevel::Info => 3,
        LogLevel::Debug => 4,
        LogLevel::Trace => 5,
    }
}

/// The service logs records up to Info.
pub fn enabled(level: LogLevel) -> (r: bool)
    ensures
        r == (rank(level) <= 3),
{
    match level {
        LogLevel::Error | LogLevel::Warn | LogLevel::Info => true,
        _ => false,
    }
}

/// Event-log copy of a record: warnings and errors only, as a warning or
/// an error event whose text is `[module] message` (module `gdut-net`
/// when unknown).
pub open spec fn spec_event_record(level: LogLevel, module: Option<Seq<char>>, msg: Seq<char>) -> Option<
    (EventLevel, Seq<char>),
> {
    if rank(level) > 2 {
        None
    } else {
        let m = match module {
            Some(m) => m,
            None => "gdut-net"@,
        };
        Some(
            (
                if level == LogLevel::Error {
                    EventLevel::Error
                } else {
                    EventLevel::Warning
                },
                seq!['['] + m + seq![']', ' '] + msg,
            ),
        )
    }
}

/// Event-log copy of a record, if it gets one.
pub fn event_record(level: LogLevel, module: Option<&str>, msg: &str) -> (r: Option<(EventLevel, String)>)
    ensures
        match r {
            None => spec_event_record(level, match module {
                Some(m) => Some(m@),
                None => None,
            }, msg@) is None,
            Some((l, t)) => spec_event_record(level, match module {
                Some(m) => Some(m@),
                None => None,
            }, msg@) == Some((l, t@)),
        },
{
    let ev = match level {
        LogLevel::Error => EventLevel::Error,
        LogLevel::Warn => EventLevel::Warning,
        _ => {
            return None;
        },
    };
    let mut text = String::new();
    push_char(&mut text, '[');
    match module {
        Some(m) => push_str(&mut text, m),
        None => push_str(&mut text, "gdut-net"),
    }
    push_char(&mut text, ']');
    push_char(&mut text, ' ');
    push_str(&mut text, msg);
    let ghost m = match module {
        Some(m) => m@,
        None => "gdut-net"@,
    };
    assert(text@ =~= seq!['['] + m + seq![']', ' '] + msg@);
    Some((ev, text))
}

} // verus!
