use ztnet_box::config::schema::{LocalConfig, RateLimit};
use ztnet_box::server::error::ApiError;
use ztnet_box::zerotier::central::client::{deserialize_error, ZtCentralClient};
use ztnet_box::zerotier::central::token_store::TokenStore;
use ztnet_box::zerotier::local::client::{check_response, leave_result, ZtLocalClient};
use ztnet_box::server::handlers::{central as central_h, local as local_h, metrics as metrics_h};
use ztnet_box::zerotier::HttpMethod;

fn local_cfg(url: &str) -> LocalConfig {
    LocalConfig { api_url: url.to_string(), token_file: "/var/lib/zerotier-one/authtoken.secret".to_string() }
}

#[test]
fn local_client_accepts_self_signed_only_on_loopback() {
    let c = ZtLocalClient::new("http://127.0.0.1:9993/", "tok");
    assert_eq!(c.base_url, "http://127.0.0.1:9993");
    assert!(c.accept_invalid_certs);
    assert!(ZtLocalClient::new("https://localhost:9993", "t").accept_invalid_certs);
    assert!(ZtLocalClient::new("https://[::1]:9993", "t").accept_invalid_certs);
    assert!(!ZtLocalClient::new("https://10.0.0.5:9993", "t").accept_invalid_certs);
}

#[test]
fn local_client_from_config_trims_token_and_reports_read_errors() {
    let c = ZtLocalClient::from_config(&local_cfg("http://127.0.0.1:9993"), Ok("  abc123\n".to_string())).unwrap();
    assert_eq!(c.token, "abc123");
    assert_eq!(c.auth_header(), ("X-ZT1-AUTH", "abc123"));
    match ZtLocalClient::from_config(&local_cfg("http://127.0.0.1:9993"), Err("Permission denied".to_string())) {
        Err(ApiError::ZtLocal(m)) => assert_eq!(
            m,
            "Cannot read auth token from /var/lib/zerotier-one/authtoken.secret: Permission denied"
        ),
        other => panic!("unexpected {other:?}"),
    }
}

#[test]
fn local_client_requests() {
    let c = ZtLocalClient::new("http://127.0.0.1:9993", "tok");
    let r = c.network("8056c2e21c000001");
    assert_eq!((r.method, r.url.as_str(), r.reads_body), (HttpMethod::Get, "http://127.0.0.1:9993/network/8056c2e21c000001", true));
    let r = c.create_controller_network("deadbeef01");
    assert_eq!((r.method, r.url.as_str()), (HttpMethod::Post, "http://127.0.0.1:9993/controller/network/deadbeef01______"));
    let r = c.delete_member("net1", "node1");
    assert_eq!((r.method, r.url.as_str(), r.reads_body), (HttpMethod::Delete, "http://127.0.0.1:9993/controller/network/net1/member/node1", false));
    let r = c.network_members_bulk("net1");
    assert_eq!(r.url, "http://127.0.0.1:9993/unstable/controller/network/net1/member");
    let r = c.leave_network("net1");
    assert_eq!((r.method, r.reads_body), (HttpMethod::Delete, true));
    assert_eq!(c.deorbit_moon("w1").url, "http://127.0.0.1:9993/moon/w1");
}

#[test]
fn local_responses_are_judged() {
    assert!(check_response(200, "200 OK", "").is_ok());
    match check_response(403, "403 Forbidden", "no") {
        Err(ApiError::ZtLocal(m)) => assert_eq!(m, "ZT Local 403 Forbidden: no"),
        other => panic!("unexpected {other:?}"),
    }
    assert!(leave_result(true, false, "{\"result\":true}").is_ok());
    assert!(leave_result(false, true, "{}").is_ok());
    match leave_result(false, false, "{\"result\":false}") {
        Err(ApiError::ZtLocal(m)) => assert_eq!(m, "leave_network failed: {\"result\":false}"),
        other => panic!("unexpected {other:?}"),
    }
}

#[test]
fn central_client_requests() {
    let c = ZtCentralClient::new("https://api.zerotier.com/api/v1//".to_string(), "t".to_string(), &RateLimit::Paid);
    assert_eq!(c.base_url, "https://api.zerotier.com/api/v1");
    assert_eq!(c.max_per_second, 100);
    let r = c.update_member("n1", "m1");
    assert_eq!((r.method, r.url.as_str(), r.reads_body), (HttpMethod::Put, "https://api.zerotier.com/api/v1/network/n1/member/m1", true));
    let r = c.delete_api_token("tid");
    assert_eq!((r.method, r.url.as_str(), r.reads_body), (HttpMethod::Delete, "https://api.zerotier.com/api/v1/auth/token/tid", false));
    assert_eq!(c.random_token().url, "https://api.zerotier.com/api/v1/randomToken");
    match deserialize_error("eof") {
        ApiError::ZtCentral(m) => assert_eq!(m, "Deserialize: eof"),
        other => panic!("unexpected {other:?}"),
    }
}

#[test]
fn token_store_active_client_follows_active_token() {
    let mut store = TokenStore::new(vec![], String::new()).with_base_url("https://central.example/api/".to_string());
    assert!(store.active_client().is_none());
    let t = store.add("home".to_string(), "secret".to_string(), RateLimit::Free);
    let c = store.active_client().unwrap();
    assert_eq!(c.token, "secret");
    assert_eq!(c.base_url, "https://central.example/api");
    assert_eq!(c.max_per_second, 20);
    assert!(store.remove(&t.id));
    assert!(store.active_client().is_none());
}

#[test]
fn local_handlers_check_ids_before_any_request() {
    let c = ZtLocalClient::new("http://127.0.0.1:9993", "tok");
    let r = local_h::get_member(&c, "8056c2e21c000001", "a29a9a9a9a").unwrap();
    assert_eq!((r.method, r.url.as_str()), (HttpMethod::Get, "http://127.0.0.1:9993/controller/network/8056c2e21c000001/member/a29a9a9a9a"));
    match local_h::get_member(&c, "8056c2e21c000001", "zz") {
        Err(ApiError::InvalidInput(m)) => assert_eq!(m, "invalid node_id 'zz': must be exactly 10 hex characters"),
        other => panic!("unexpected {other:?}"),
    }
    match local_h::get_member(&c, "bad", "zz") {
        Err(ApiError::InvalidInput(m)) => assert_eq!(m, "invalid network_id 'bad': must be exactly 16 hex characters"),
        other => panic!("unexpected {other:?}"),
    }
    match local_h::orbit_moon(&c, "") {
        Err(ApiError::InvalidInput(m)) => assert_eq!(m, "invalid world_id '': must be 1–16 hex characters"),
        other => panic!("unexpected {other:?}"),
    }
    let r = local_h::list_members(&c, "8056c2e21c000001").unwrap();
    assert_eq!(r.url, "http://127.0.0.1:9993/unstable/controller/network/8056c2e21c000001/member");
}

#[test]
fn central_handlers_check_ids_before_any_request() {
    let c = ZtCentralClient::new("https://api.zerotier.com/api/v1".to_string(), "t".to_string(), &RateLimit::Free);
    let r = central_h::delete_network(&c, "8056c2e21c000001").unwrap();
    assert_eq!((r.method, r.url.as_str(), r.reads_body), (HttpMethod::Delete, "https://api.zerotier.com/api/v1/network/8056c2e21c000001", false));
    assert!(matches!(central_h::list_members(&c, "xyz"), Err(ApiError::InvalidInput(_))));
}

#[test]
fn metrics_answers_before_and_after_collection() {
    assert_eq!(metrics_h::get_raw(None), (503, "text/plain", "# Metrics not yet collected\n".to_string()));
    assert_eq!(metrics_h::get_raw(Some("zt_num_networks 1".into())).0, 200);
    match metrics_h::get_metrics::<u32>(None) {
        Err(ApiError::ZtLocal(m)) => assert_eq!(m, "Metrics not yet available"),
        other => panic!("unexpected {other:?}"),
    }
    assert_eq!(metrics_h::get_metrics(Some(7u32)).unwrap(), 7);
}
