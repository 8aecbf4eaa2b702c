//! The Central token endpoints.
use crate::config::schema::{shown_chars, CentralToken, RateLimit};
use crate::server::error::ApiError;
use crate::server::validate::invalid;
use crate::text::{is_blank, trim};
use vstd::prelude::*;

verus! {

#[derive(Debug, Clone)]
pub struct AddTokenRequest {
    pub name: String,
    pub token: String,
}

/// A change of a token; `None` keeps the current value.
#[derive(Debug, Clone)]
pub struct UpdateTokenRequest {
    pub name: Option<String>,
    pub token: Option<String>,
}

#[derive(Debug, Clone)]
pub struct ValidateRequest {
    pub token: String,
}

/// A token as the API shows it: masked, and marked when active.
#[derive(Debug, Clone)]
pub struct TokenView {
    pub id: String,
    pub name: String,
    pub masked_token: String,
    pub rate_limit: RateLimit,
    pub created_at: String,
    pub is_active: bool,
}

/// A new token needs a name and a secret.
pub fn check_add(req: &AddTokenRequest) -> (r: Result<(), ApiError>)
    ensures
        trim(req.name@).len() == 0 ==> invalid(r, "name must not be empty"@),
        trim(req.name@).len() != 0 && trim(req.token@).len() == 0 ==> invalid(r, "token must not be empty"@),
        trim(req.name@).len() != 0 && trim(req.token@).len() != 0 ==> r is Ok,
{
    if is_blank(req.name.as_str()) {
        return Err(ApiError::InvalidInput("name must not be empty".to_owned()));
    }
    if is_blank(req.token.as_str()) {
        return Err(ApiError::InvalidInput("token must not be empty".to_owned()));
    }
    Ok(())
}

/// The name and secret after an update, and whether the secret changed (and
/// the account's rate limit must be read again).
pub fn resolve_update(req: UpdateTokenRequest, existing: &CentralToken) -> (r: (String, String, bool))
    ensures
        r.0 == match req.name {
            Some(n) => n,
            None => existing.name,
        },
        r.1 == match req.token {
            Some(t) => t,
            None => existing.token,
        },
        r.2 == (r.1@ != existing.token@),
{
    let name = match req.name {
        Some(n) => n,
        None => existing.name.clone(),
    };
    let token = match req.token {
        Some(t) => t,
        None => existing.token.clone(),
    };
    let changed = !(token == existing.token);
    (name, token, changed)
}

/// The API's view of `t` when the active token's id is `active_id`.
pub fn to_view(t: &CentralToken, active_id: &str) -> (r: TokenView)
    requires
        exists|k: int| shown_chars(t.token@, k),
    ensures
        r.id == t.id,
        r.name == t.name,
        exists|k: int| shown_chars(t.token@, k) && r.masked_token@ == t.token@.take(k) + "***"@,
        r.rate_limit == t.rate_limit,
        r.created_at == t.created_at,
        r.is_active == (t.id@ == active_id@),
{
    TokenView {
        id: t.id.clone(),
        name: t.name.clone(),
        masked_token: t.masked_token(),
        rate_limit: t.rate_limit,
        created_at: t.created_at.clone(),
        is_active: crate::text::str_eq(t.id.as_str(), active_id),
    }
}

} // verus!
