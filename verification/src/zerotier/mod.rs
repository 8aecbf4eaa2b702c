//! ZeroTier: the local service, its configuration, and ZeroTier Central.
pub mod central;
pub mod detection;
pub mod local;
pub mod local_config;

use vstd::prelude::*;

verus! {

/// The HTTP methods the API clients use.
#[derive(Debug, Clone, Copy, PartialEq, Eq, Structural)]
pub enum HttpMethod {
    Get,
    Post,
    Put,
    Delete,
}

/// A request for an API client to send: the method, the full URL, and
/// whether a JSON body is read from the response (else only its status is
/// judged).
#[derive(Debug, Clone)]
pub struct ApiRequest {
    pub method: HttpMethod,
    pub url: String,
    pub reads_body: bool,
}

/// The mathematical model of a request.
pub struct ApiRequestView {
    pub method: HttpMethod,
    pub url: Seq<char>,
    pub reads_body: bool,
}

impl View for ApiRequest {
    type V = ApiRequestView;

    open spec fn view(&self) -> ApiRequestView {
        ApiRequestView { method: self.method, url: self.url@, reads_body: self.reads_body }
    }
}

/// A request that reads a JSON reply.
pub open spec fn reading(method: HttpMethod, url: Seq<char>) -> ApiRequestView {
    ApiRequestView { method, url, reads_body: true }
}

/// A request whose reply is judged by its status alone.
pub open spec fn status_only(method: HttpMethod, url: Seq<char>) -> ApiRequestView {
    ApiRequestView { method, url, reads_body: false }
}

} // verus!
