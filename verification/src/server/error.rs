//! The error type of the HTTP API and how each variant is answered.
use crate::text::{owned, text2};
use vstd::prelude::*;

verus! {

/// Errors returned by API handlers.
#[derive(Debug, Clone)]
pub enum ApiError {
    ZtLocal(String),
    ZtCentral(String),
    Config(String),
    ExitNode(String),
    NotFound,
    InvalidInput(String),
    Internal(String),
}

impl ApiError {
    /// The human-readable description of the error.
    pub open spec fn message_spec(&self) -> Seq<char> {
        match self {
            ApiError::ZtLocal(m) => "ZeroTier local service error: "@ + m@,
            ApiError::ZtCentral(m) => "ZeroTier Central API error: "@ + m@,
            ApiError::Config(m) => "Config error: "@ + m@,
            ApiError::ExitNode(m) => "Exit node error: "@ + m@,
            ApiError::NotFound => "Not found"@,
            ApiError::InvalidInput(m) => "Invalid input: "@ + m@,
            ApiError::Internal(m) => "Internal error: "@ + m@,
        }
    }

    /// The text of the `error` field of the response body.
    pub open spec fn body_spec(&self) -> Seq<char> {
        match self {
            ApiError::ZtLocal(m) => m@,
            ApiError::ZtCentral(m) => m@,
            ApiError::Config(m) => m@,
            ApiError::ExitNode(m) => m@,
            ApiError::NotFound => "Not found"@,
            ApiError::InvalidInput(m) => m@,
            ApiError::Internal(m) => m@,
        }
    }

    /// The HTTP status of the response.
    pub open spec fn status_spec(&self) -> u16 {
        match self {
            ApiError::ZtLocal(_) => 502,
            ApiError::ZtCentral(_) => 502,
            ApiError::Config(_) => 500,
            ApiError::ExitNode(_) => 500,
            ApiError::NotFound => 404,
            ApiError::InvalidInput(_) => 422,
            ApiError::Internal(_) => 500,
        }
    }

    /// The machine-readable `code` field of the response body.
    pub open spec fn code_spec(&self) -> Seq<char> {
        match self {
            ApiError::ZtLocal(_) => "ERR_ZT_LOCAL"@,
            ApiError::ZtCentral(_) => "ERR_ZT_CENTRAL"@,
            ApiError::Config(_) => "ERR_CONFIG"@,
            ApiError::ExitNode(_) => "ERR_EXITNODE"@,
            ApiError::NotFound => "ERR_NOT_FOUND"@,
            ApiError::InvalidInput(_) => "ERR_INVALID"@,
            ApiError::Internal(_) => "ERR_INTERNAL"@,
        }
    }

    /// The human-readable description of the error (what `Display` shows).
    pub fn message(&self) -> (r: String)
        ensures
            r@ == self.message_spec(),
    {
        match self {
            ApiError::ZtLocal(m) => text2("ZeroTier local service error: ", m.as_str()),
            ApiError::ZtCentral(m) => text2("ZeroTier Central API error: ", m.as_str()),
            ApiError::Config(m) => text2("Config error: ", m.as_str()),
            ApiError::ExitNode(m) => text2("Exit node error: ", m.as_str()),
            ApiError::NotFound => owned("Not found"),
            ApiError::InvalidInput(m) => text2("Invalid input: ", m.as_str()),
            ApiError::Internal(m) => text2("Internal error: ", m.as_str()),
        }
    }

    /// The HTTP status, the `code` and the `error` text of the JSON response.
    pub fn response_parts(&self) -> (r: (u16, &'static str, String))
        ensures
            r.0 == self.status_spec(),
            r.1@ == self.code_spec(),
            r.2@ == self.body_spec(),
    {
        match self {
            ApiError::ZtLocal(m) => (502, "ERR_ZT_LOCAL", m.clone()),
            ApiError::ZtCentral(m) => (502, "ERR_ZT_CENTRAL", m.clone()),
            ApiError::Config(m) => (500, "ERR_CONFIG", m.clone()),
            ApiError::ExitNode(m) => (500, "ERR_EXITNODE", m.clone()),
            ApiError::NotFound => (404, "ERR_NOT_FOUND", owned("Not found")),
            ApiError::InvalidInput(m) => (422, "ERR_INVALID", m.clone()),
            ApiError::Internal(m) => (500, "ERR_INTERNAL", m.clone()),
        }
    }
}

} // verus!
