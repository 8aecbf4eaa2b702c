use ztnet_box::server::error::ApiError;
use ztnet_box::server::validate::{cidr, ip_addr, network_id, node_id};

#[test]
fn valid_network_id() {
    assert!(network_id("8056c2e21c000001").is_ok());
}

#[test]
fn short_network_id_rejected() {
    assert!(network_id("8056c2e2").is_err());
}

#[test]
fn non_hex_network_id_rejected() {
    assert!(network_id("8056c2e21c00000g").is_err());
}

#[test]
fn valid_node_id() {
    assert!(node_id("a29a9a9a9a").is_ok());
}

#[test]
fn short_node_id_rejected() {
    assert!(node_id("a29a").is_err());
}

#[test]
fn valid_ip() {
    assert!(ip_addr("192.168.1.1").is_ok());
    assert!(ip_addr("::1").is_ok());
}

#[test]
fn invalid_ip_rejected() {
    assert!(ip_addr("999.999.999.999").is_err());
    assert!(ip_addr("not-an-ip").is_err());
}

#[test]
fn valid_cidr() {
    assert!(cidr("10.0.0.0/8").is_ok());
    assert!(cidr("fd00::/8").is_ok());
}

#[test]
fn invalid_cidr_rejected() {
    assert!(cidr("10.0.0.0").is_err());
    assert!(cidr("10.0.0.0/33").is_err());
    assert!(cidr("bad/8").is_err());
}

#[test]
fn validation_messages() {
    match network_id("abc") {
        Err(ApiError::InvalidInput(m)) => assert_eq!(m, "invalid network_id 'abc': must be exactly 16 hex characters"),
        _ => panic!(),
    }
    match cidr("10.0.0.0/33") {
        Err(ApiError::InvalidInput(m)) => assert_eq!(m, "CIDR prefix 33 out of range (max 32)"),
        _ => panic!(),
    }
    match cidr("fd00::/129") {
        Err(ApiError::InvalidInput(m)) => assert_eq!(m, "CIDR prefix 129 out of range (max 128)"),
        _ => panic!(),
    }
    assert!(cidr("fd00::/128").is_ok());
    assert!(ip_addr("2001:db8::1:2:3:4:5").is_ok());
    assert!(ip_addr("1:2:3:4:5:6:7:8:9").is_err());
    assert!(ip_addr("::ffff:192.168.1.1").is_ok());
    assert!(ip_addr("01.2.3.4").is_err());
}

#[test]
fn api_error_response_parts() {
    let e = ApiError::InvalidInput("bad".into());
    assert_eq!(e.response_parts(), (422, "ERR_INVALID", "bad".to_string()));
    assert_eq!(e.message(), "Invalid input: bad");
    assert_eq!(ApiError::NotFound.response_parts(), (404, "ERR_NOT_FOUND", "Not found".to_string()));
    assert_eq!(ApiError::ZtCentral("x".into()).response_parts().0, 502);
}
