use nexus_prime_core::clock::Timestamp;
use nexus_prime_core::config::NexusConfig;
use nexus_prime_core::logging::{LogLevel, LogTarget, StructuredLogger};
use nexus_prime_core::storage::{agent_key, node_key, AgentStatus, FabricNode, NodeStatus};

#[test]
fn default_configuration_has_documented_values() {
    let config = NexusConfig::default();
    assert_eq!(config.server.grpc_host, "0.0.0.0");
    assert_eq!(config.server.grpc_port, 50053);
    assert_eq!(config.server.websocket_host, "0.0.0.0");
    assert_eq!(config.server.websocket_port, 8080);
    assert_eq!(config.server.metrics_port, 9090);
    assert_eq!(config.database.postgres_url, None);
    assert!(!config.database.use_timescaledb);
    assert_eq!(config.database.embedded_db_path, "./data/nexus_db");
    assert!(config.database.use_rocksdb);
    assert_eq!(config.database.max_connections, 10);
    assert!(!config.security.enable_mtls);
    assert_eq!(config.security.ca_cert_path, None);
    assert_eq!(config.security.auth_token_secret, "CHANGEME_IN_PRODUCTION");
    assert_eq!(config.security.session_timeout_minutes, 60);
    assert!(config.telemetry.enable_prometheus);
    assert!(!config.telemetry.enable_jaeger);
    assert_eq!(config.telemetry.log_level, "info");
    assert!(config.telemetry.enable_detailed_metrics);
    assert!(!config.consensus.enable_raft);
    assert_eq!(config.consensus.node_id, 1);
    assert!(config.consensus.cluster_peers.is_empty());
    assert_eq!(config.consensus.data_dir, "./data/raft");
    assert_eq!(config.consensus.heartbeat_interval_ms, 1000);
    assert_eq!(config.consensus.election_timeout_ms, 5000);
    assert_eq!(config.fabric.max_nodes, 100);
    assert_eq!(config.fabric.max_agents_per_node, 50);
    assert_eq!(config.fabric.health_check_interval_seconds, 30);
    assert_eq!(config.fabric.agent_timeout_seconds, 300);
    assert!(config.fabric.enable_auto_scaling);
    assert!(config.fabric.enable_load_balancing);
}

#[test]
fn logger_lets_through_from_its_minimum_level() {
    let logger = StructuredLogger::new("svc", "2.0.0", "production");
    assert_eq!(logger.minimum_level, LogLevel::INFO);
    assert!(!logger.should_log(&LogLevel::DEBUG));
    assert!(logger.should_log(&LogLevel::INFO));
    assert!(logger.should_log(&LogLevel::CRITICAL));
    assert!(logger.debug("quiet").commit().is_none());
    let logger = logger.with_minimum_level(LogLevel::ERROR);
    assert!(logger.warn("quiet").commit_at(Timestamp::from_millis(1)).is_none());
    assert!(logger.error("loud").commit_at(Timestamp::from_millis(1)).is_some());
    assert!(logger.critical("loud").commit().is_some());
    assert!(logger.info("quiet").commit().is_none());
    assert_eq!(LogLevel::DEBUG.severity(), 0);
    assert_eq!(LogLevel::CRITICAL.severity(), 4);
}

#[test]
fn logger_collects_outputs() {
    let logger = StructuredLogger::new("svc", "2.0.0", "production")
        .with_file_output("/var/log/x.log")
        .with_elasticsearch_output("https://logs:9200", "logs-*", Some("key".to_string()));
    assert_eq!(logger.outputs.len(), 3);
    assert!(matches!(&logger.outputs[0], LogTarget::Stdout(_)));
    assert!(matches!(&logger.outputs[1], LogTarget::File(f) if f.file_path == "/var/log/x.log"));
    assert!(matches!(
        &logger.outputs[2],
        LogTarget::Elasticsearch(e) if e.endpoint == "https://logs:9200"
            && e.index_pattern == "logs-*" && e.api_key.as_deref() == Some("key")
    ));
    assert_eq!(logger.service_name, "svc");
}

#[test]
fn entry_is_built_field_by_field() {
    let logger = StructuredLogger::new("svc", "2.0.0", "production");
    let entry = logger
        .error("Database connection failed")
        .with_trace_id("trace-1")
        .with_span_id("span-1")
        .with_user_id("user-1")
        .with_session_id("sess-1")
        .with_operation("connect")
        .with_component("db")
        .with_field("retry_count", "3".to_string())
        .with_field("host", "\"pg\"".to_string())
        .with_error("DATABASE_CONNECTION_ERROR", Some("CONN_001"), None)
        .with_performance(234)
        .with_security_event("SUSPICIOUS_LOGIN", Some("MEDIUM"))
        .commit_at(Timestamp::from_millis(42))
        .unwrap();
    assert_eq!(entry.timestamp, Timestamp::from_millis(42));
    assert_eq!(entry.level, LogLevel::ERROR);
    assert_eq!(entry.message, "Database connection failed");
    assert_eq!(entry.context.trace_id, "trace-1");
    assert_eq!(entry.context.span_id, "span-1");
    assert_eq!(entry.context.service, "svc");
    assert_eq!(entry.context.version, "2.0.0");
    assert_eq!(entry.context.environment, "production");
    assert_eq!(entry.context.user_id.as_deref(), Some("user-1"));
    assert_eq!(entry.context.session_id.as_deref(), Some("sess-1"));
    assert_eq!(entry.context.operation.as_deref(), Some("connect"));
    assert_eq!(entry.context.component.as_deref(), Some("db"));
    assert_eq!(entry.context.node_id, None);
    assert_eq!(
        entry.fields,
        vec![("retry_count".to_string(), "3".to_string()), ("host".to_string(), "\"pg\"".to_string())]
    );
    let error = entry.error.unwrap();
    assert_eq!(error.error_type, "DATABASE_CONNECTION_ERROR");
    assert_eq!(error.error_code.as_deref(), Some("CONN_001"));
    assert_eq!(error.stack_trace, None);
    assert_eq!(error.cause, None);
    let performance = entry.performance.unwrap();
    assert_eq!(performance.duration_ms, 234);
    assert_eq!(performance.memory_usage_bytes, None);
    let security = entry.security.unwrap();
    assert_eq!(security.audit_event.as_deref(), Some("SUSPICIOUS_LOGIN"));
    assert_eq!(security.threat_level.as_deref(), Some("MEDIUM"));
    assert_eq!(security.source_ip, None);
}

#[test]
fn entry_context_gets_fresh_trace_and_span() {
    let logger = StructuredLogger::new("svc", "1", "dev");
    let context = logger.create_context(None, Some("span-9".to_string()));
    assert_eq!(context.trace_id.len(), 36);
    assert_eq!(context.span_id, "span-9");
    assert_eq!(context.service, "svc");
    let entry = logger.info("hello").commit().unwrap();
    assert_eq!(entry.context.trace_id.len(), 36);
    assert_ne!(entry.context.trace_id, entry.context.span_id);
    assert!(entry.fields.is_empty());
    assert!(entry.error.is_none());
}

#[test]
fn stored_nodes_have_keys_and_states() {
    assert_eq!(node_key("n1"), "node:n1");
    assert_eq!(agent_key("a1"), "agent:a1");
    let node = FabricNode {
        node_id: "n1".to_string(),
        ip_address: "10.0.0.1".to_string(),
        proxy_listen_address: "10.0.0.1:7000".to_string(),
        capabilities: String::new(),
        agent_type: "PC".to_string(),
        status: NodeStatus::Online,
        last_seen: Timestamp::from_millis(1),
        created_at: Timestamp::from_millis(1),
        metadata: Vec::new(),
    };
    assert_eq!(node.storage_key(), "node:n1");
    assert!(node.status.is_online());
    let node = node.with_status(NodeStatus::Error("disk".to_string()), Timestamp::from_millis(9));
    assert!(!node.status.is_online());
    assert_eq!(node.last_seen, Timestamp::from_millis(9));
    assert_eq!(node.created_at, Timestamp::from_millis(1));
    assert_eq!(node.node_id, "n1");
    assert!(AgentStatus::Stopped.is_terminal());
    assert!(AgentStatus::Error("x".to_string()).is_terminal());
    assert!(!AgentStatus::Running.is_terminal());
    assert!(!AgentStatus::Migrating.is_terminal());
}
