use ztnet_box::config::schema::{CentralToken, RateLimit};
use ztnet_box::server::error::ApiError;
use ztnet_box::zerotier::central::client::{check_empty_response, check_response, normalize_base_url, permits_to_add};
use ztnet_box::zerotier::central::token_store::TokenStore;
use ztnet_box::zerotier::central::types::AccountPlan;

fn free_capacity() -> usize {
    RateLimit::Free.capacity()
}

fn paid_capacity() -> usize {
    RateLimit::Paid.capacity()
}

#[test]
fn rate_limit_free_capacity() {
    assert_eq!(free_capacity(), 20);
}

#[test]
fn rate_limit_paid_capacity() {
    assert_eq!(paid_capacity(), 100);
}

#[test]
fn account_status_rate_limit_paid() {
    let s = AccountPlan { plan_id: Some("paid".into()), plan: None };
    assert!(matches!(s.rate_limit(), RateLimit::Paid));
}

#[test]
fn account_status_rate_limit_free() {
    let s = AccountPlan { plan_id: Some("free".into()), plan: None };
    assert!(matches!(s.rate_limit(), RateLimit::Free));
}

#[test]
fn account_status_rate_limit_none() {
    let s = AccountPlan { plan_id: None, plan: None };
    assert!(matches!(s.rate_limit(), RateLimit::Free));
}

#[test]
fn account_plan_fallback_field() {
    let s = AccountPlan { plan_id: None, plan: Some("business".into()) };
    assert!(matches!(s.rate_limit(), RateLimit::Paid));
    let s = AccountPlan { plan_id: Some("basic".into()), plan: Some("pro".into()) };
    assert!(matches!(s.rate_limit(), RateLimit::Free));
}

#[test]
fn central_token_masked() {
    let t = CentralToken::new("test".into(), "abcdefghijklmnop".into(), RateLimit::Free);
    let masked = t.masked_token();
    assert!(masked.starts_with("abcd"));
    assert!(masked.contains("***"));
    assert!(!masked.contains("efghijklmnop"));
    assert_eq!(t.id.len(), 36);
}

#[test]
fn masked_short_and_multibyte_tokens() {
    let t = CentralToken::new("n".into(), "ab".into(), RateLimit::Free);
    assert_eq!(t.masked_token(), "ab***");
    let t = CentralToken::new("n".into(), "éé€".into(), RateLimit::Free);
    assert_eq!(t.masked_token(), "éé***");
}

#[test]
fn limiter_refill_and_url() {
    assert_eq!(permits_to_add(20, 5), 15);
    assert_eq!(permits_to_add(20, 30), 0);
    assert_eq!(normalize_base_url("https://api.zerotier.com/api/v1//"), "https://api.zerotier.com/api/v1");
}

#[test]
fn response_verdicts() {
    assert!(matches!(check_response(404, "404 Not Found", ""), Err(ApiError::NotFound)));
    match check_response(401, "401 Unauthorized", "") {
        Err(ApiError::ZtCentral(m)) => assert_eq!(m, "AUTH_FAILED: invalid or expired token"),
        _ => panic!(),
    }
    match check_response(500, "500 Internal Server Error", "oops") {
        Err(ApiError::ZtCentral(m)) => assert_eq!(m, "Central API 500 Internal Server Error: oops"),
        _ => panic!(),
    }
    assert!(check_response(200, "200 OK", "").is_ok());
    assert!(check_empty_response(204, "204 No Content", "").is_ok());
    assert!(matches!(check_empty_response(404, "404 Not Found", ""), Err(ApiError::ZtCentral(_))));
}

#[test]
fn token_store_operations() {
    let mut s = TokenStore::new(Vec::new(), String::new());
    let a = s.add("a".into(), "tokA".into(), RateLimit::Free);
    let b = s.add("b".into(), "tokB".into(), RateLimit::Paid);
    assert_eq!(s.active_token_id, a.id);
    assert_eq!(s.list().len(), 2);
    assert!(s.set_active(&b.id));
    assert_eq!(s.active_token().unwrap().name, "b");
    assert!(!s.set_active("nope"));
    assert_eq!(s.active_token_id, b.id);
    let u = s.update(&a.id, "a2".into(), "tokA2".into(), RateLimit::Paid).unwrap();
    assert_eq!(u.id, a.id);
    assert_eq!(u.created_at, a.created_at);
    assert_eq!(s.find(&a.id).unwrap().name, "a2");
    assert!(s.remove(&b.id));
    assert_eq!(s.active_token_id, a.id);
    assert!(s.find(&b.id).is_none());
    assert!(!s.remove(&b.id));
    assert!(s.remove(&a.id));
    assert_eq!(s.active_token_id, "");
    assert!(s.active_token().is_none());
}

#[test]
fn can_mask_only_when_the_cut_falls_between_characters() {
    let t = |s: &str| CentralToken::new("n".into(), s.into(), RateLimit::Free);
    assert!(t("abcdefgh").can_mask());
    assert!(t("aé").can_mask());
    assert_eq!(t("aé").masked_token(), "aé***");
    assert!(!t("abcé").can_mask());
    assert!(t("").can_mask());
}

#[test]
fn new_token_ids_are_v4_uuid_text() {
    let t = CentralToken::new("n".into(), "tok".into(), RateLimit::Free);
    let b: Vec<char> = t.id.chars().collect();
    assert_eq!(b.len(), 36);
    for (i, c) in b.iter().enumerate() {
        if [8, 13, 18, 23].contains(&i) {
            assert_eq!(*c, '-');
        } else {
            assert!(c.is_ascii_hexdigit() && !c.is_ascii_uppercase());
        }
    }
    assert_eq!(b[14], '4');
    assert!("89ab".contains(b[19]));
}
