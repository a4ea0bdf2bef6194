//! Windows event log: the event source name and the event levels the
//! service reports (registration and reporting are done by the shell).

use vstd::prelude::*;

verus! {

/// Name of the event source.
pub const EVENT_SOURCE_NAME: &'static str = "gdut-net";

/// Event level, matching the classic event types.
#[derive(Debug, Clone, Copy, PartialEq, Eq, Structural)]
pub enum EventLevel {
    Info,
    Warning,
    Error,
}

/// Event type code of a level (`EVENTLOG_INFORMATION_TYPE` = 4,
/// `EVENTLOG_WARNING_TYPE` = 2, `EVENTLOG_ERROR_TYPE` = 1).
pub open spec fn spec_raw(l: EventLevel) -> u16 {
    match l {
        EventLevel::Info => 4,
        EventLevel::Warning => 2,
        EventLevel::Error => 1,
    }
}

impl EventLevel {
    /// Event type code of the level.
    pub fn raw(self) -> (r: u16)
        ensures
            r == spec_raw(self),
    {
        match self {
            EventLevel::Info => 4,
            EventLevel::Warning => 2,
            EventLevel::Error => 1,
        }
    }
}

/// Registry key of the event source (under HKLM).
pub const SOURCE_SUBKEY: &'static str = "SYSTEM\\CurrentControlSet\\Services\\EventLog\\Application\\gdut-net";

/// Message file of the source (`REG_EXPAND_SZ`): its message 3299 prints
/// the single insertion string as it is.
pub const EVENT_MESSAGE_FILE: &'static str = "%SystemRoot%\\System32\\netmsg.dll";

/// Message identifier every event uses.
pub const EVENT_MESSAGE_ID: u32 = 3299;

/// `TypesSupported` of the source.
pub const TYPES_SUPPORTED: u32 = 7;

/// The source accepts exactly the three levels the service reports: the
/// supported types are the union of their type codes.
pub proof fn lemma_types_supported_covers_levels()
    ensures
        TYPES_SUPPORTED == (spec_raw(EventLevel::Info) | spec_raw(EventLevel::Warning) | spec_raw(
            EventLevel::Error,
        )) as u32,
{
    assert((4u16 | 2u16 | 1u16) == 7u16) by (bit_vector);
}

} // verus!
