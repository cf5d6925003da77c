use test_utils::{
    get_integ_server_options, get_integ_telem_options, parse_port, BindAddress,
    LogForwardingLevel, OptionsError, CLIENT_IDENTITY, DEFAULT_TRACING_FILTER, NAMESPACE,
};

#[test]
fn server_options_default_address() {
    let o = get_integ_server_options(None).unwrap();
    assert_eq!(o.target_url.as_str(), "http://localhost:7233/");
    assert_eq!(o.namespace, NAMESPACE);
    assert_eq!(o.identity, CLIENT_IDENTITY);
    assert_eq!(o.worker_binary_id, "fakebinaryid");
    assert_eq!(o.client_name, "temporal-core");
    assert_eq!(o.client_version, "0.1.0");
}

#[test]
fn server_options_configured_address() {
    let o = get_integ_server_options(Some("http://example.test:9000".to_string())).unwrap();
    assert_eq!(o.target_url.port(), Some(9000));
}

#[test]
fn server_options_reject_bad_url() {
    let r = get_integ_server_options(Some("not a url".to_string()));
    assert_eq!(r.err(), Some(OptionsError::InvalidServerUrl));
}

#[test]
fn telemetry_defaults() {
    let t = get_integ_telem_options(None, None, None).unwrap();
    assert!(t.otel_collector_url.is_none());
    assert!(t.prometheus_export_bind_address.is_none());
    assert_eq!(t.tracing_filter, DEFAULT_TRACING_FILTER);
    assert_eq!(t.log_forwarding_level, LogForwardingLevel::Off);
}

#[test]
fn telemetry_configured() {
    let t = get_integ_telem_options(
        Some("http://collector:4317".to_string()),
        Some("9090".to_string()),
        Some("debug".to_string()),
    )
    .unwrap();
    assert_eq!(t.otel_collector_url.unwrap().host_str(), Some("collector"));
    assert_eq!(
        t.prometheus_export_bind_address,
        Some(BindAddress { ip: [127, 0, 0, 1], port: 9090 })
    );
    assert_eq!(t.tracing_filter, "debug");
}

#[test]
fn telemetry_rejects_bad_otel_url_first() {
    let r = get_integ_telem_options(Some("::".to_string()), Some("x".to_string()), None);
    assert_eq!(r.err(), Some(OptionsError::InvalidOtelUrl));
}

#[test]
fn telemetry_rejects_bad_port() {
    let r = get_integ_telem_options(None, Some("70000".to_string()), None);
    assert_eq!(r.err(), Some(OptionsError::InvalidPrometheusPort));
}

#[test]
fn port_parsing_matches_std() {
    for s in ["0", "80", "+80", "65535", "65536", "", "+", "-1", "8a", "007", "99999999999", "٣"] {
        assert_eq!(parse_port(s), s.parse::<u16>().ok(), "input {:?}", s);
    }
}
