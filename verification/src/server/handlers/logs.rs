//! The log endpoints.
use crate::server::log_collector::{level_of_name, LogLevel};
use vstd::prelude::*;

verus! {

/// `GET /api/logs` query.
#[derive(Debug, Clone)]
pub struct LogQuery {
    /// Minimum level to include (error | warn | info | debug | trace)
    pub level: Option<String>,
    /// Max entries to return (default 200, max 500)
    pub limit: usize,
}

#[derive(Debug, Clone)]
pub struct SetLevelRequest {
    pub level: String,
}

#[derive(Debug, Clone)]
pub struct LevelResponse {
    pub level: String,
}

pub fn default_limit() -> (r: usize)
    ensures
        r == 200,
{
    200
}

/// The filter a query asks for: its level when it names one (an unknown
/// name means no filter) and its limit, at most 500.
pub fn query_filter(q: &LogQuery) -> (r: (Option<LogLevel>, usize))
    ensures
        r.0 == match q.level {
            Some(l) => level_of_name(l@),
            None => None,
        },
        r.1 == if q.limit < 500 { q.limit } else { 500 },
{
    let level = match &q.level {
        Some(l) => match LogLevel::parse(l.as_str()) {
            Ok(v) => Some(v),
            Err(_) => None,
        },
        None => None,
    };
    let limit = if q.limit < 500 { q.limit } else { 500 };
    (level, limit)
}

/// The answer to a level query or change.
pub fn level_response(level: LogLevel) -> (r: LevelResponse)
    ensures
        r.level@ == level.name(),
{
    LevelResponse { level: level.as_str().to_owned() }
}

} // verus!
