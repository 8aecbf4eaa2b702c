//! The metrics endpoints: what is answered from the metrics cache.
use crate::server::error::ApiError;
use vstd::prelude::*;

verus! {

/// `GET /api/metrics`: the latest snapshot, or an error before the first
/// one was collected.
pub fn get_metrics<T>(snapshot: Option<T>) -> (r: Result<T, ApiError>)
    ensures
        match snapshot {
            Some(s) => r matches Ok(x) && x == s,
            None => r matches Err(ApiError::ZtLocal(m)) && m@ == "Metrics not yet available"@,
        },
{
    match snapshot {
        Some(s) => Ok(s),
        None => Err(ApiError::ZtLocal("Metrics not yet available".to_owned())),
    }
}

/// `GET /api/metrics/raw`: the status, content type and body of the answer
/// — the last text fetched, or 503 before the first fetch.
pub fn get_raw(text: Option<String>) -> (r: (u16, &'static str, String))
    ensures
        match text {
            Some(t) => r.0 == 200 && r.1@ == "text/plain; version=0.0.4; charset=utf-8"@ && r.2 == t,
            None => r.0 == 503 && r.1@ == "text/plain"@ && r.2@ == "# Metrics not yet collected\n"@,
        },
{
    match text {
        Some(t) => (200, "text/plain; version=0.0.4; charset=utf-8", t),
        None => (503, "text/plain", "# Metrics not yet collected\n".to_owned()),
    }
}

/// `GET /api/metrics/status`: whether polling is on, when the cache was
/// last updated (RFC 3339) and the last fetch error.
#[derive(Debug, Clone)]
pub struct MetricsStatus {
    pub enabled: bool,
    pub last_updated: Option<String>,
    pub error: Option<String>,
}

} // verus!
