use ztnet_box::metrics::cache::build_snapshot;
use ztnet_box::metrics::collector::MetricsCollector;
use ztnet_box::metrics::parser::parse;

#[test]
fn parses_simple_metric() {
    let samples = parse("zt_packet_rx_bytes 12345");
    assert_eq!(samples.len(), 1);
    assert_eq!(samples[0].name, "zt_packet_rx_bytes");
    assert_eq!(samples[0].value.parse::<f64>().unwrap(), 12345.0);
    assert!(samples[0].labels.is_empty());
}

#[test]
fn parses_metric_with_labels() {
    let samples = parse(r#"zt_peer_latency{node_id="deadbeef01",status="online"} 42.5"#);
    assert_eq!(samples.len(), 1);
    assert_eq!(samples[0].name, "zt_peer_latency");
    assert_eq!(samples[0].value.parse::<f64>().unwrap(), 42.5);
    let get = |k: &str| samples[0].labels.iter().rev().find(|(a, _)| a == k).map(|(_, v)| v.as_str());
    assert_eq!(get("node_id"), Some("deadbeef01"));
    assert_eq!(get("status"), Some("online"));
}

#[test]
fn skips_comments_and_empty() {
    let input = "# HELP zt_foo help text\n# TYPE zt_foo gauge\nzt_foo 1.0\n\n";
    let samples = parse(input);
    assert_eq!(samples.len(), 1);
    assert_eq!(samples[0].name, "zt_foo");
}

#[test]
fn parses_with_timestamp() {
    let samples = parse("zt_foo 9.0 1609459200000");
    assert_eq!(samples[0].timestamp, Some(1609459200000));
}

#[test]
fn skips_unparseable_without_panic() {
    let samples = parse("not_a_valid_line_with_no_value_xxx");
    assert_eq!(samples.len(), 0);
}

#[test]
fn parses_multiple_metrics() {
    let input = "zt_a 1\nzt_b 2\nzt_c 3\n";
    assert_eq!(parse(input).len(), 3);
}

#[test]
fn snapshot_plan_picks_samples() {
    let input = "zt_data{direction=\"rx\"} 100\nzt_data{direction=\"tx\"} 50\nzt_num_networks 2\n\
zt_peer_latency_sum{node_id=\"bbbbbbbbbb\"} 10\nzt_peer_latency_count{node_id=\"bbbbbbbbbb\"} 2\n\
zt_peer_latency_sum{node_id=\"aaaaaaaaaa\"} 4\n";
    let samples = parse(input);
    let plan = build_snapshot(&samples);
    assert_eq!(plan.rx_bytes, vec![0]);
    assert_eq!(plan.tx_bytes, vec![1]);
    assert_eq!(plan.num_networks, Some(2));
    assert_eq!(plan.peers.len(), 2);
    assert_eq!(plan.peers[0].node_id, "aaaaaaaaaa");
    assert_eq!(plan.peers[1].latency_count, Some(4));
}

#[test]
fn collector_settings() {
    assert_eq!(MetricsCollector::interval_secs(0), 1);
    assert_eq!(MetricsCollector::interval_secs(15), 15);
    assert_eq!(MetricsCollector::token_from_file(Some(" abc \n".into())).as_deref(), Some("abc"));
    assert_eq!(MetricsCollector::token_from_file(Some("  \n".into())), None);
    assert_eq!(MetricsCollector::token_from_file(None), None);
}

#[test]
fn parse_skips_lines_with_close_brace_before_open() {
    let samples = parse("zt_packet}x{ 1\n# HELP odd } before {\nzt_packet{direction=\"rx\"} 1\nnot_a_valid_line_with_no_value_xxx");
    assert_eq!(samples.len(), 1);
    assert_eq!(samples[0].name, "zt_packet");
    assert!(parse("not_a_valid_line_with_no_value_xxx").is_empty());
}

#[test]
fn latency_average_counts_only_peers_with_latency() {
    let text = "zt_peer_latency_sum{node_id=\"aaaaaaaaaa\"} 30\nzt_peer_latency_count{node_id=\"aaaaaaaaaa\"} 3\nzt_peer_packets{node_id=\"bbbbbbbbbb\",direction=\"rx\"} 5\n";
    let plan = build_snapshot(&parse(text));
    assert_eq!(plan.peers.len(), 2);
    assert_eq!(plan.latency_peers, 1);
}

#[test]
fn parse_keeps_only_numeric_values() {
    assert!(parse("foo bar").is_empty());
    assert!(parse("x .").is_empty());
    assert!(parse("x 1e").is_empty());
    assert!(parse("x 1.2.3").is_empty());
    for v in ["1e3", "+Inf", "-inf", "NaN", "1.5E-3", ".5", "5.", "infinity", "-0"] {
        let s = parse(&format!("x {v}"));
        assert_eq!(s.len(), 1, "{v}");
        assert!(s[0].value.parse::<f64>().is_ok(), "{v}");
    }
}
