use vstd::prelude::*;

verus! {

/// The native library's log level of trace messages.
pub const LOG_TRACE: i32 = 1;

/// The native library's log level of debug messages.
pub const LOG_DEBUG: i32 = 2;

/// The native library's log level of information messages.
pub const LOG_INFO: i32 = 3;

/// The native library's log level of warnings.
pub const LOG_WARNING: i32 = 4;

/// The native library's log level of errors.
pub const LOG_ERROR: i32 = 5;

/// The native library's log level above every message: nothing is logged.
pub const LOG_NONE: i32 = 7;

/// The threshold of the host log: the least severe level it keeps, or `Off`.
#[derive(Debug, Clone, Copy, PartialEq, Eq, Structural)]
pub enum HostFilter {
    Off,
    Error,
    Warn,
    Info,
    Debug,
    Trace,
}

/// A level of the host log.
#[derive(Debug, Clone, Copy, PartialEq, Eq, Structural)]
pub enum HostLevel {
    Error,
    Warn,
    Info,
    Debug,
    Trace,
}

/// The least native level that the host threshold `filter` lets through.
pub open spec fn spec_native_threshold(filter: HostFilter) -> i32 {
    match filter {
        HostFilter::Off => LOG_NONE,
        HostFilter::Error => LOG_ERROR,
        HostFilter::Warn => LOG_WARNING,
        HostFilter::Info => LOG_INFO,
        HostFilter::Debug => LOG_DEBUG,
        HostFilter::Trace => LOG_TRACE,
    }
}

/// The host level that a native message of level `level` is logged at.
pub open spec fn host_level(level: i32) -> HostLevel {
    if level >= LOG_ERROR {
        HostLevel::Error
    } else if level >= LOG_WARNING {
        HostLevel::Warn
    } else if level >= LOG_INFO {
        HostLevel::Info
    } else if level >= LOG_DEBUG {
        HostLevel::Debug
    } else {
        HostLevel::Trace
    }
}

/// The least native level that the host threshold `filter` lets through.
#[verifier::when_used_as_spec(spec_native_threshold)]
pub fn native_threshold(filter: HostFilter) -> (r: i32)
    ensures
        r == spec_native_threshold(filter),
{
    match filter {
        HostFilter::Off => LOG_NONE,
        HostFilter::Error => LOG_ERROR,
        HostFilter::Warn => LOG_WARNING,
        HostFilter::Info => LOG_INFO,
        HostFilter::Debug => LOG_DEBUG,
        HostFilter::Trace => LOG_TRACE,
    }
}

/// Where a native message of level `level` goes in the host log under threshold
/// `filter`: `None` where the threshold drops it, which is decided before the message is
/// formatted.
pub fn route_log(level: i32, filter: HostFilter) -> (r: Option<HostLevel>)
    ensures
        level < native_threshold(filter) ==> r is None,
        level >= native_threshold(filter) ==> r == Some(host_level(level)),
{
    if level < native_threshold(filter) {
        return None;
    }
    let host = if level >= LOG_ERROR {
        HostLevel::Error
    } else if level >= LOG_WARNING {
        HostLevel::Warn
    } else if level >= LOG_INFO {
        HostLevel::Info
    } else if level >= LOG_DEBUG {
        HostLevel::Debug
    } else {
        HostLevel::Trace
    };
    Some(host)
}

} // verus!
