//! How each HTTP request is logged.
use crate::server::log_collector::LogLevel;
use vstd::prelude::*;

verus! {

/// The level and note of the log line for a response status: server errors
/// and client errors as warnings (so that they show in the log panel),
/// everything else at debug level (which the panel does not capture).
pub fn request_log(status: u16) -> (r: (LogLevel, &'static str))
    ensures
        status >= 500 ==> r.0 == LogLevel::Warn && r.1@ == "← HTTP error"@,
        400 <= status < 500 ==> r.0 == LogLevel::Warn && r.1@ == "← HTTP client error"@,
        status < 400 ==> r.0 == LogLevel::Debug && r.1@ == "←"@,
{
    if status >= 500 {
        (LogLevel::Warn, "← HTTP error")
    } else if status >= 400 {
        (LogLevel::Warn, "← HTTP client error")
    } else {
        (LogLevel::Debug, "←")
    }
}

} // verus!
