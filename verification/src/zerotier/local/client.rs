//! The local ZeroTier service's API client: how it reaches the service, the
//! request behind each call, and how responses are judged.
use crate::config::schema::LocalConfig;
use crate::server::error::ApiError;
use crate::text::{chars_of, contains, contains_vec, lit, push_str, string_of, strip_char_end, trim, trim_vec};
use crate::zerotier::central::client::{is_success, normalize_base_url};
use crate::zerotier::{reading, status_only, ApiRequest, HttpMethod};
use vstd::prelude::*;

verus! {

/// The service is reached over loopback, where its self-signed certificate
/// is accepted; elsewhere certificates are checked.
pub open spec fn is_loopback(url: Seq<char>) -> bool {
    contains(url, "127.0.0.1"@) || contains(url, "localhost"@) || contains(url, "[::1]"@)
}

/// The text of an unexpected status: the status as HTTP shows it and the
/// response text.
pub open spec fn local_error_text(status_line: Seq<char>, body: Seq<char>) -> Seq<char> {
    "ZT Local "@ + status_line + ": "@ + body
}

/// A client of the local service's API (`X-ZT1-AUTH` authenticated).
#[derive(Debug, Clone)]
pub struct ZtLocalClient {
    /// The API URL without trailing slashes.
    pub base_url: String,
    /// The service's auth token (`authtoken.secret`).
    pub token: String,
    /// Whether an invalid (self-signed) certificate is accepted.
    pub accept_invalid_certs: bool,
}

fn url1(base: &str, a: &str) -> (r: String)
    ensures
        r@ == base@ + a@,
{
    let mut b = lit(base);
    push_str(&mut b, a);
    string_of(&b)
}

fn url2(base: &str, a: &str, x: &str) -> (r: String)
    ensures
        r@ == base@ + a@ + x@,
{
    let mut b = lit(base);
    push_str(&mut b, a);
    push_str(&mut b, x);
    string_of(&b)
}

fn url3(base: &str, a: &str, x: &str, c: &str) -> (r: String)
    ensures
        r@ == base@ + a@ + x@ + c@,
{
    let mut b = lit(base);
    push_str(&mut b, a);
    push_str(&mut b, x);
    push_str(&mut b, c);
    string_of(&b)
}

fn url4(base: &str, a: &str, x: &str, c: &str, y: &str) -> (r: String)
    ensures
        r@ == base@ + a@ + x@ + c@ + y@,
{
    let mut b = lit(base);
    push_str(&mut b, a);
    push_str(&mut b, x);
    push_str(&mut b, c);
    push_str(&mut b, y);
    string_of(&b)
}

fn get(url: String) -> (r: ApiRequest)
    ensures
        r.method == HttpMethod::Get && r.url == url && r.reads_body,
{
    ApiRequest { method: HttpMethod::Get, url, reads_body: true }
}

fn post(url: String) -> (r: ApiRequest)
    ensures
        r.method == HttpMethod::Post && r.url == url && r.reads_body,
{
    ApiRequest { method: HttpMethod::Post, url, reads_body: true }
}

fn delete(url: String, reads_body: bool) -> (r: ApiRequest)
    ensures
        r.method == HttpMethod::Delete && r.url == url && r.reads_body == reads_body,
{
    ApiRequest { method: HttpMethod::Delete, url, reads_body }
}

/// Whether `url` names a loopback host.
fn loopback(url: &str) -> (r: bool)
    ensures
        r == is_loopback(url@),
{
    let u = chars_of(url);
    contains_vec(&u, &lit("127.0.0.1")) || contains_vec(&u, &lit("localhost")) || contains_vec(&u, &lit("[::1]"))
}

impl ZtLocalClient {
    /// A client of the API at `api_url` with `token`.
    pub fn new(api_url: &str, token: &str) -> (r: Self)
        ensures
            r.base_url@ == strip_char_end(api_url@, '/'),
            r.token@ == token@,
            r.accept_invalid_certs == is_loopback(api_url@),
    {
        ZtLocalClient {
            base_url: normalize_base_url(api_url),
            token: string_of(&chars_of(token)),
            accept_invalid_certs: loopback(api_url),
        }
    }

    /// A client from the configuration, given what reading the token file
    /// gave (its text, or the read error's text): the token is the trimmed
    /// text; a read error is reported with the file's path.
    pub fn from_config(cfg: &LocalConfig, token_file: Result<String, String>) -> (r: Result<Self, ApiError>)
        ensures
            match token_file {
                Ok(text) => r matches Ok(c) && c.base_url@ == strip_char_end(cfg.api_url@, '/')
                    && c.token@ == trim(text@) && c.accept_invalid_certs == is_loopback(cfg.api_url@),
                Err(e) => r matches Err(ApiError::ZtLocal(m)) && m@ == "Cannot read auth token from "@
                    + cfg.token_file@ + ": "@ + e@,
            },
    {
        match token_file {
            Ok(text) => {
                let t = string_of(&trim_vec(&chars_of(text.as_str())));
                Ok(Self::new(cfg.api_url.as_str(), t.as_str()))
            },
            Err(e) => Err(ApiError::ZtLocal(url3("Cannot read auth token from ", cfg.token_file.as_str(), ": ", e.as_str()))),
        }
    }

    /// The `X-ZT1-AUTH` header: its name and the token.
    pub fn auth_header(&self) -> (r: (&'static str, &str))
        ensures
            r.0@ == "X-ZT1-AUTH"@,
            r.1@ == self.token@,
    {
        ("X-ZT1-AUTH", self.token.as_str())
    }

    /// `GET /status`.
    pub fn node_status(&self) -> (r: ApiRequest)
        ensures
            r@ == reading(HttpMethod::Get, self.base_url@ + "/status"@),
    {
        get(url1(self.base_url.as_str(), "/status"))
    }

    /// `GET /network`: the joined networks.
    pub fn networks(&self) -> (r: ApiRequest)
        ensures
            r@ == reading(HttpMethod::Get, self.base_url@ + "/network"@),
    {
        get(url1(self.base_url.as_str(), "/network"))
    }

    /// `GET /network/{id}`.
    pub fn network(&self, id: &str) -> (r: ApiRequest)
        ensures
            r@ == reading(HttpMethod::Get, self.base_url@ + "/network/"@ + id@),
    {
        get(url2(self.base_url.as_str(), "/network/", id))
    }

    /// `POST /network/{id}` with the membership settings: joins the network.
    pub fn join_network(&self, id: &str) -> (r: ApiRequest)
        ensures
            r@ == reading(HttpMethod::Post, self.base_url@ + "/network/"@ + id@),
    {
        post(url2(self.base_url.as_str(), "/network/", id))
    }

    /// `DELETE /network/{id}`: leaves the network; the reply is judged by
    /// `leave_result`.
    pub fn leave_network(&self, id: &str) -> (r: ApiRequest)
        ensures
            r@ == reading(HttpMethod::Delete, self.base_url@ + "/network/"@ + id@),
    {
        delete(url2(self.base_url.as_str(), "/network/", id), true)
    }

    /// `GET /peer`.
    pub fn peers(&self) -> (r: ApiRequest)
        ensures
            r@ == reading(HttpMethod::Get, self.base_url@ + "/peer"@),
    {
        get(url1(self.base_url.as_str(), "/peer"))
    }

    /// `GET /peer/{node_id}`.
    pub fn peer(&self, node_id: &str) -> (r: ApiRequest)
        ensures
            r@ == reading(HttpMethod::Get, self.base_url@ + "/peer/"@ + node_id@),
    {
        get(url2(self.base_url.as_str(), "/peer/", node_id))
    }

    /// `GET /controller/network`: the IDs of the controller's networks.
    pub fn controller_networks(&self) -> (r: ApiRequest)
        ensures
            r@ == reading(HttpMethod::Get, self.base_url@ + "/controller/network"@),
    {
        get(url1(self.base_url.as_str(), "/controller/network"))
    }

    /// `GET /controller/network/{net_id}`.
    pub fn controller_network(&self, net_id: &str) -> (r: ApiRequest)
        ensures
            r@ == reading(HttpMethod::Get, self.base_url@ + "/controller/network/"@ + net_id@),
    {
        get(url2(self.base_url.as_str(), "/controller/network/", net_id))
    }

    /// `POST /controller/network/{node_address}______`: the service picks the
    /// last six characters of the new network's ID.
    pub fn create_controller_network(&self, node_address: &str) -> (r: ApiRequest)
        ensures
            r@ == reading(HttpMethod::Post, self.base_url@ + "/controller/network/"@ + node_address@ + "______"@),
    {
        post(url3(self.base_url.as_str(), "/controller/network/", node_address, "______"))
    }

    /// `POST /controller/network/{net_id}` with the new settings.
    pub fn update_controller_network(&self, net_id: &str) -> (r: ApiRequest)
        ensures
            r@ == reading(HttpMethod::Post, self.base_url@ + "/controller/network/"@ + net_id@),
    {
        post(url2(self.base_url.as_str(), "/controller/network/", net_id))
    }

    /// `DELETE /controller/network/{net_id}`.
    pub fn delete_controller_network(&self, net_id: &str) -> (r: ApiRequest)
        ensures
            r@ == status_only(HttpMethod::Delete, self.base_url@ + "/controller/network/"@ + net_id@),
    {
        delete(url2(self.base_url.as_str(), "/controller/network/", net_id), false)
    }

    /// `GET /controller/network/{net_id}/member`: the members' IDs, each then
    /// fetched with `network_member`.
    pub fn network_members(&self, net_id: &str) -> (r: ApiRequest)
        ensures
            r@ == reading(HttpMethod::Get, self.base_url@ + "/controller/network/"@ + net_id@ + "/member"@),
    {
        get(url3(self.base_url.as_str(), "/controller/network/", net_id, "/member"))
    }

    /// `GET /unstable/controller/network/{net_id}/member`: every member in
    /// one reply; on any error the members are fetched one by one instead.
    pub fn network_members_bulk(&self, net_id: &str) -> (r: ApiRequest)
        ensures
            r@ == reading(HttpMethod::Get, self.base_url@ + "/unstable/controller/network/"@ + net_id@ + "/member"@),
    {
        get(url3(self.base_url.as_str(), "/unstable/controller/network/", net_id, "/member"))
    }

    /// `GET /controller/network/{net_id}/member/{node_id}`.
    pub fn network_member(&self, net_id: &str, node_id: &str) -> (r: ApiRequest)
        ensures
            r@ == reading(HttpMethod::Get, self.base_url@ + "/controller/network/"@ + net_id@ + "/member/"@ + node_id@),
    {
        get(url4(self.base_url.as_str(), "/controller/network/", net_id, "/member/", node_id))
    }

    /// `POST /controller/network/{net_id}/member/{node_id}` with the update.
    pub fn update_member(&self, net_id: &str, node_id: &str) -> (r: ApiRequest)
        ensures
            r@ == reading(HttpMethod::Post, self.base_url@ + "/controller/network/"@ + net_id@ + "/member/"@ + node_id@),
    {
        post(url4(self.base_url.as_str(), "/controller/network/", net_id, "/member/", node_id))
    }

    /// `DELETE /controller/network/{net_id}/member/{node_id}`.
    pub fn delete_member(&self, net_id: &str, node_id: &str) -> (r: ApiRequest)
        ensures
            r@ == status_only(HttpMethod::Delete, self.base_url@ + "/controller/network/"@ + net_id@ + "/member/"@ + node_id@),
    {
        delete(url4(self.base_url.as_str(), "/controller/network/", net_id, "/member/", node_id), false)
    }

    /// `GET /moon`.
    pub fn moons(&self) -> (r: ApiRequest)
        ensures
            r@ == reading(HttpMethod::Get, self.base_url@ + "/moon"@),
    {
        get(url1(self.base_url.as_str(), "/moon"))
    }

    /// `POST /moon/{world_id}` with the seed: orbits the moon.
    pub fn orbit_moon(&self, world_id: &str) -> (r: ApiRequest)
        ensures
            r@ == reading(HttpMethod::Post, self.base_url@ + "/moon/"@ + world_id@),
    {
        post(url2(self.base_url.as_str(), "/moon/", world_id))
    }

    /// `DELETE /moon/{world_id}`.
    pub fn deorbit_moon(&self, world_id: &str) -> (r: ApiRequest)
        ensures
            r@ == status_only(HttpMethod::Delete, self.base_url@ + "/moon/"@ + world_id@),
    {
        delete(url2(self.base_url.as_str(), "/moon/", world_id), false)
    }
}

/// The verdict on the status of a response: any 2xx is success, anything
/// else an error with the status line and the response text.
pub fn check_response(status: u16, status_line: &str, body: &str) -> (r: Result<(), ApiError>)
    ensures
        is_success(status) ==> r is Ok,
        !is_success(status) ==> (r matches Err(ApiError::ZtLocal(m)) && m@ == local_error_text(status_line@, body@)),
{
    if 200 <= status && status <= 299 {
        Ok(())
    } else {
        Err(ApiError::ZtLocal(url3("ZT Local ", status_line, ": ", body)))
    }
}

/// The error of a reply that is not the JSON expected.
pub fn deserialize_error(e: &str) -> (r: ApiError)
    ensures
        r matches ApiError::ZtLocal(m) && m@ == "Deserialize error: "@ + e@,
{
    ApiError::ZtLocal(url1("Deserialize error: ", e))
}

/// The verdict on the reply to leaving a network: its `result` field is
/// `true` or absent (`null`) on success; else the reply is reported.
pub fn leave_result(result_is_true: bool, result_is_null: bool, reply: &str) -> (r: Result<(), ApiError>)
    ensures
        result_is_true || result_is_null ==> r is Ok,
        !(result_is_true || result_is_null) ==> (r matches Err(ApiError::ZtLocal(m)) && m@
            == "leave_network failed: "@ + reply@),
{
    if result_is_true || result_is_null {
        Ok(())
    } else {
        Err(ApiError::ZtLocal(url1("leave_network failed: ", reply)))
    }
}

} // verus!
