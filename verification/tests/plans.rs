use nexus_prime_core::clock::Timestamp;
use nexus_prime_core::config::{DatabaseConfig, SecurityConfig};
use nexus_prime_core::logging::LogLevel;
use nexus_prime_core::manager::FabricManager;
use nexus_prime_core::node::ComputeNode;
use nexus_prime_core::observability::{event_level, is_failed_request};
use nexus_prime_core::security::{client_tls_plan, first_private_key, server_tls_plan, SecurityError};
use nexus_prime_core::storage::storage_plan;
use nexus_prime_core::tracing::{database_span_attributes, error_event_attributes,
    http_span_attributes, workflow_span_attributes};

fn pair(key: &str, value: &str) -> (String, String) {
    (key.to_string(), value.to_string())
}

fn certificate_message(error: SecurityError) -> String {
    match error {
        SecurityError::Certificate(message) => message,
        other => panic!("unexpected error {:?}", other),
    }
}

#[test]
fn server_tls_needs_certificate_and_key() {
    let mut config = SecurityConfig::default();
    assert!(server_tls_plan(&config).unwrap().is_none());
    config.enable_mtls = true;
    assert_eq!(
        certificate_message(server_tls_plan(&config).unwrap_err()),
        "Server certificate path not configured"
    );
    config.server_key_path = Some("key.pem".to_string());
    assert_eq!(
        certificate_message(server_tls_plan(&config).unwrap_err()),
        "Server certificate path not configured"
    );
    config.server_key_path = None;
    config.server_cert_path = Some("cert.pem".to_string());
    assert_eq!(
        certificate_message(server_tls_plan(&config).unwrap_err()),
        "Server key path not configured"
    );
    config.server_key_path = Some("key.pem".to_string());
    let plan = server_tls_plan(&config).unwrap().unwrap();
    assert_eq!(plan.cert_path, "cert.pem");
    assert_eq!(plan.key_path, "key.pem");
    assert_eq!(plan.ca_cert_path, None);
    config.ca_cert_path = Some("ca.pem".to_string());
    assert_eq!(server_tls_plan(&config).unwrap().unwrap().ca_cert_path.as_deref(), Some("ca.pem"));
}

#[test]
fn client_tls_takes_identity_only_when_complete() {
    let mut config = SecurityConfig::default();
    assert!(client_tls_plan(&config, "fabric.local").is_none());
    config.enable_mtls = true;
    config.client_cert_path = Some("c.pem".to_string());
    let plan = client_tls_plan(&config, "fabric.local").unwrap();
    assert_eq!(plan.domain_name, "fabric.local");
    assert_eq!(plan.identity, None);
    assert_eq!(plan.ca_cert_path, None);
    config.client_key_path = Some("k.pem".to_string());
    config.ca_cert_path = Some("ca.pem".to_string());
    let plan = client_tls_plan(&config, "fabric.local").unwrap();
    assert_eq!(plan.identity, Some(("c.pem".to_string(), "k.pem".to_string())));
    assert_eq!(plan.ca_cert_path.as_deref(), Some("ca.pem"));
}

#[test]
fn key_file_must_hold_a_key() {
    assert_eq!(certificate_message(first_private_key(Vec::new()).unwrap_err()), "No private key found");
    assert_eq!(first_private_key(vec![vec![1, 2], vec![3]]).unwrap(), vec![1, 2]);
}

#[test]
fn stores_are_opened_as_configured() {
    let mut config = DatabaseConfig::default();
    let plan = storage_plan(&config);
    assert!(plan.open_embedded);
    assert_eq!(plan.postgres_url, None);
    assert!(!plan.prepare_timeseries);
    config.use_timescaledb = true;
    assert!(!storage_plan(&config).prepare_timeseries);
    config.postgres_url = Some("postgres://db".to_string());
    config.use_rocksdb = false;
    let plan = storage_plan(&config);
    assert!(!plan.open_embedded);
    assert_eq!(plan.postgres_url.as_deref(), Some("postgres://db"));
    assert!(plan.prepare_timeseries);
}

#[test]
fn requests_fail_from_status_400() {
    assert!(!is_failed_request(200));
    assert!(!is_failed_request(399));
    assert!(is_failed_request(400));
    assert!(is_failed_request(503));
    assert_eq!(event_level("ERROR"), LogLevel::ERROR);
    assert_eq!(event_level("WARN"), LogLevel::WARN);
    assert_eq!(event_level("INFO"), LogLevel::INFO);
    assert_eq!(event_level("DEBUG"), LogLevel::DEBUG);
    assert_eq!(event_level("TRACE"), LogLevel::INFO);
    assert_eq!(event_level("error"), LogLevel::INFO);
}

#[test]
fn spans_carry_their_attributes() {
    assert_eq!(
        http_span_attributes("GET", "/api", "http"),
        vec![pair("http.method", "GET"), pair("http.url", "/api"), pair("component", "http")]
    );
    assert_eq!(
        database_span_attributes("select", "nodes"),
        vec![
            pair("db.type", "postgresql"),
            pair("db.operation", "select"),
            pair("db.table", "nodes"),
            pair("component", "database"),
        ]
    );
    assert_eq!(
        workflow_span_attributes("wf_1", "etl"),
        vec![pair("workflow.id", "wf_1"), pair("workflow.type", "etl"), pair("component", "workflow-engine")]
    );
    assert_eq!(
        error_event_attributes("boom"),
        vec![pair("error.type", "boom"), pair("error.message", "boom")]
    );
}

#[test]
fn status_update_records_the_current_time() {
    let mut manager: FabricManager<u32> = FabricManager::new(None);
    let node = ComputeNode {
        id: "node-1".to_string(),
        node_type: "PC".to_string(),
        last_seen: Timestamp::from_millis(0),
        status: "Online".to_string(),
        capabilities: String::new(),
        ip_address: String::new(),
        proxy_listen_address: None,
    };
    manager.register_node(node, None).unwrap();
    manager.update_node_status("node-1".to_string(), "Degraded".to_string(), None).unwrap();
    let first = manager.state.node(&"node-1".to_string()).unwrap().last_seen;
    assert!(first.millis > 1_600_000_000_000);
    manager.update_node_status("node-1".to_string(), "Online".to_string(), None).unwrap();
    let second = manager.state.node(&"node-1".to_string()).unwrap().last_seen;
    assert!(second.millis >= first.millis);
    assert!(first.rfc3339().is_some());
}
