//! The ZeroTier Central API client: its rate limit, the request behind each
//! call, and how responses are judged.
use crate::config::schema::RateLimit;
use crate::server::error::ApiError;
use crate::text::{chars_of, lit, push_str, slice, string_of, strip_char_end};
use crate::zerotier::{reading, status_only, ApiRequest, HttpMethod};
use vstd::prelude::*;

verus! {

/// The permits to add when the limiter is topped up once per second: what
/// is missing to `max`.
pub fn permits_to_add(max: usize, available: usize) -> (r: usize)
    ensures
        r == if available < max { max - available } else { 0 },
{
    max.saturating_sub(available)
}

/// The base URL without trailing slashes.
pub fn normalize_base_url(url: &str) -> (r: String)
    ensures
        r@ == strip_char_end(url@, '/'),
{
    let c = chars_of(url);
    let mut n = c.len();
    assert(c@.take(n as int) =~= c@);
    while n > 0 && c[n - 1] == '/'
        invariant
            n <= c.len(),
            strip_char_end(url@, '/') == strip_char_end(c@.take(n as int), '/'),
            c@ == url@,
        decreases n,
    {
        assert(c@.take(n as int).drop_last() =~= c@.take(n - 1));
        n -= 1;
    }
    assert(c@.subrange(0, n as int) =~= c@.take(n as int));
    string_of(&slice(&c, 0, n))
}

/// The URL of `path` under `base`.
pub fn url_of(base: &str, path: &str) -> (r: String)
    ensures
        r@ == base@ + path@,
{
    let mut b = lit(base);
    push_str(&mut b, path);
    string_of(&b)
}

pub open spec fn is_success(status: u16) -> bool {
    200 <= status <= 299
}

/// The error text of an unexpected status: `status_line` is the status as
/// HTTP shows it (e.g. "500 Internal Server Error"), `body` the response text.
pub open spec fn central_error_text(status_line: Seq<char>, body: Seq<char>) -> Seq<char> {
    "Central API "@ + status_line + ": "@ + body
}

fn central_error(status_line: &str, body: &str) -> (r: ApiError)
    ensures
        r matches ApiError::ZtCentral(m) && m@ == central_error_text(status_line@, body@),
{
    let mut b = lit("Central API ");
    push_str(&mut b, status_line);
    push_str(&mut b, ": ");
    push_str(&mut b, body);
    ApiError::ZtCentral(string_of(&b))
}

/// The verdict on the status of a response whose body is read: 401 is a
/// bad token, 404 not found, any other non-2xx an error with the body.
pub fn check_response(status: u16, status_line: &str, body: &str) -> (r: Result<(), ApiError>)
    ensures
        status == 401 ==> (r matches Err(ApiError::ZtCentral(m)) && m@ == "AUTH_FAILED: invalid or expired token"@),
        status == 404 ==> r matches Err(ApiError::NotFound),
        status != 401 && status != 404 && !is_success(status) ==> (r matches Err(ApiError::ZtCentral(m))
            && m@ == central_error_text(status_line@, body@)),
        status != 401 && status != 404 && is_success(status) ==> r is Ok,
{
    if status == 401 {
        return Err(ApiError::ZtCentral("AUTH_FAILED: invalid or expired token".to_owned()));
    }
    if status == 404 {
        return Err(ApiError::NotFound);
    }
    if !(200 <= status && status <= 299) {
        return Err(central_error(status_line, body));
    }
    Ok(())
}

/// The verdict on the status of a response without a body: 401 is a bad
/// token, any 2xx success, anything else an error with the body.
pub fn check_empty_response(status: u16, status_line: &str, body: &str) -> (r: Result<(), ApiError>)
    ensures
        status == 401 ==> (r matches Err(ApiError::ZtCentral(m)) && m@ == "AUTH_FAILED"@),
        status != 401 && is_success(status) ==> r is Ok,
        status != 401 && !is_success(status) ==> (r matches Err(ApiError::ZtCentral(m))
            && m@ == central_error_text(status_line@, body@)),
{
    if status == 401 {
        return Err(ApiError::ZtCentral("AUTH_FAILED".to_owned()));
    }
    if (200 <= status && status <= 299) || status == 204 {
        Ok(())
    } else {
        Err(central_error(status_line, body))
    }
}

/// A client of the Central API (bearer-token authenticated), limited to the
/// request rate of the token's account.
#[derive(Debug, Clone)]
pub struct ZtCentralClient {
    /// The API URL without trailing slashes.
    pub base_url: String,
    pub token: String,
    /// Requests allowed per second.
    pub max_per_second: usize,
}

fn path_url(base: &str, a: &str, x: &str, c: &str, y: &str) -> (r: String)
    ensures
        r@ == base@ + a@ + x@ + c@ + y@,
{
    let mut b = lit(base);
    push_str(&mut b, a);
    push_str(&mut b, x);
    push_str(&mut b, c);
    push_str(&mut b, y);
    string_of(&b)
}

fn request(method: HttpMethod, url: String, reads_body: bool) -> (r: ApiRequest)
    ensures
        r.method == method && r.url == url && r.reads_body == reads_body,
{
    ApiRequest { method, url, reads_body }
}

impl ZtCentralClient {
    /// A client of the API at `base_url` with `token`, at the rate of
    /// `rate_limit`.
    pub fn new(base_url: String, token: String, rate_limit: &RateLimit) -> (r: Self)
        ensures
            r.base_url@ == strip_char_end(base_url@, '/'),
            r.token == token,
            r.max_per_second == rate_limit.capacity_spec(),
    {
        ZtCentralClient {
            base_url: normalize_base_url(base_url.as_str()),
            token,
            max_per_second: rate_limit.capacity(),
        }
    }

    /// `GET /network`.
    pub fn networks(&self) -> (r: ApiRequest)
        ensures
            r@ == reading(HttpMethod::Get, self.base_url@ + "/network"@),
    {
        proof { reveal_strlit(""); }
        request(HttpMethod::Get, path_url(self.base_url.as_str(), "/network", "", "", ""), true)
    }

    /// `POST /network` with the settings.
    pub fn create_network(&self) -> (r: ApiRequest)
        ensures
            r@ == reading(HttpMethod::Post, self.base_url@ + "/network"@),
    {
        proof { reveal_strlit(""); }
        request(HttpMethod::Post, path_url(self.base_url.as_str(), "/network", "", "", ""), true)
    }

    /// `GET /network/{id}`.
    pub fn network(&self, id: &str) -> (r: ApiRequest)
        ensures
            r@ == reading(HttpMethod::Get, self.base_url@ + "/network/"@ + id@),
    {
        proof { reveal_strlit(""); }
        request(HttpMethod::Get, path_url(self.base_url.as_str(), "/network/", id, "", ""), true)
    }

    /// `POST /network/{id}` with the settings.
    pub fn update_network(&self, id: &str) -> (r: ApiRequest)
        ensures
            r@ == reading(HttpMethod::Post, self.base_url@ + "/network/"@ + id@),
    {
        proof { reveal_strlit(""); }
        request(HttpMethod::Post, path_url(self.base_url.as_str(), "/network/", id, "", ""), true)
    }

    /// `DELETE /network/{id}`.
    pub fn delete_network(&self, id: &str) -> (r: ApiRequest)
        ensures
            r@ == status_only(HttpMethod::Delete, self.base_url@ + "/network/"@ + id@),
    {
        proof { reveal_strlit(""); }
        request(HttpMethod::Delete, path_url(self.base_url.as_str(), "/network/", id, "", ""), false)
    }

    /// `GET /network/{net_id}/member`.
    pub fn network_members(&self, net_id: &str) -> (r: ApiRequest)
        ensures
            r@ == reading(HttpMethod::Get, self.base_url@ + "/network/"@ + net_id@ + "/member"@),
    {
        proof { reveal_strlit(""); }
        request(HttpMethod::Get, path_url(self.base_url.as_str(), "/network/", net_id, "/member", ""), true)
    }

    /// `GET /network/{net_id}/member/{node_id}`.
    pub fn network_member(&self, net_id: &str, node_id: &str) -> (r: ApiRequest)
        ensures
            r@ == reading(HttpMethod::Get, self.base_url@ + "/network/"@ + net_id@ + "/member/"@ + node_id@),
    {
        request(HttpMethod::Get, path_url(self.base_url.as_str(), "/network/", net_id, "/member/", node_id), true)
    }

    /// `PUT /network/{net_id}/member/{node_id}` with the update.
    pub fn update_member(&self, net_id: &str, node_id: &str) -> (r: ApiRequest)
        ensures
            r@ == reading(HttpMethod::Put, self.base_url@ + "/network/"@ + net_id@ + "/member/"@ + node_id@),
    {
        request(HttpMethod::Put, path_url(self.base_url.as_str(), "/network/", net_id, "/member/", node_id), true)
    }

    /// `DELETE /network/{net_id}/member/{node_id}`.
    pub fn delete_member(&self, net_id: &str, node_id: &str) -> (r: ApiRequest)
        ensures
            r@ == status_only(HttpMethod::Delete, self.base_url@ + "/network/"@ + net_id@ + "/member/"@ + node_id@),
    {
        request(HttpMethod::Delete, path_url(self.base_url.as_str(), "/network/", net_id, "/member/", node_id), false)
    }

    /// `GET /auth`: the token's user.
    pub fn user(&self) -> (r: ApiRequest)
        ensures
            r@ == reading(HttpMethod::Get, self.base_url@ + "/auth"@),
    {
        proof { reveal_strlit(""); }
        request(HttpMethod::Get, path_url(self.base_url.as_str(), "/auth", "", "", ""), true)
    }

    /// `GET /status`: the account's status.
    pub fn account_status(&self) -> (r: ApiRequest)
        ensures
            r@ == reading(HttpMethod::Get, self.base_url@ + "/status"@),
    {
        proof { reveal_strlit(""); }
        request(HttpMethod::Get, path_url(self.base_url.as_str(), "/status", "", "", ""), true)
    }

    /// `POST /auth/token` with `{"token_name": name}`.
    pub fn create_api_token(&self) -> (r: ApiRequest)
        ensures
            r@ == reading(HttpMethod::Post, self.base_url@ + "/auth/token"@),
    {
        proof { reveal_strlit(""); }
        request(HttpMethod::Post, path_url(self.base_url.as_str(), "/auth/token", "", "", ""), true)
    }

    /// `DELETE /auth/token/{token_id}`.
    pub fn delete_api_token(&self, token_id: &str) -> (r: ApiRequest)
        ensures
            r@ == status_only(HttpMethod::Delete, self.base_url@ + "/auth/token/"@ + token_id@),
    {
        proof { reveal_strlit(""); }
        request(HttpMethod::Delete, path_url(self.base_url.as_str(), "/auth/token/", token_id, "", ""), false)
    }

    /// `GET /randomToken`: a fresh token string, in the reply's `token`.
    pub fn random_token(&self) -> (r: ApiRequest)
        ensures
            r@ == reading(HttpMethod::Get, self.base_url@ + "/randomToken"@),
    {
        proof { reveal_strlit(""); }
        request(HttpMethod::Get, path_url(self.base_url.as_str(), "/randomToken", "", "", ""), true)
    }
}

/// The error of a reply that is not the JSON expected.
pub fn deserialize_error(e: &str) -> (r: ApiError)
    ensures
        r matches ApiError::ZtCentral(m) && m@ == "Deserialize: "@ + e@,
{
    let mut b = lit("Deserialize: ");
    push_str(&mut b, e);
    ApiError::ZtCentral(string_of(&b))
}

} // verus!
