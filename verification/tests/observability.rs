use nexus_prime_core::clock::Timestamp;
use nexus_prime_core::metrics::{MetricLabels, Timer};
use nexus_prime_core::observability::{initialize_metrics, initialize_tracing, passed_check,
    perform_health_check_at, summarize_health_checks, HealthState, HealthStatus, OperationalContext,
    SubsystemHealth};
use nexus_prime_core::telemetry::PerformanceMetrics;
use nexus_prime_core::tracing::{carries_trace_context, database_span_name, http_span_name,
    log_attributes, workflow_span_name, SpanContext, SpanLog};

fn subsystem(name: &str, status: HealthStatus) -> SubsystemHealth {
    SubsystemHealth {
        name: name.to_string(),
        status,
        last_check: Timestamp::from_millis(1),
        error_count: 0,
        warning_count: 0,
        details: Vec::new(),
    }
}

#[test]
fn overall_health_is_the_worst_subsystem() {
    let mut state = HealthState::new(Timestamp::from_millis(0));
    assert_eq!(state.overall_status, HealthStatus::Healthy);
    assert_eq!(state.health_check_version, "1.0.0");
    state.update_subsystem_health_at(subsystem("db", HealthStatus::Degraded), Timestamp::from_millis(5));
    assert_eq!(state.overall_status, HealthStatus::Degraded);
    assert_eq!(state.last_health_check, Timestamp::from_millis(5));
    state.update_subsystem_health_at(subsystem("rpc", HealthStatus::Critical), Timestamp::from_millis(6));
    assert_eq!(state.overall_status, HealthStatus::Critical);
    state.update_subsystem_health_at(subsystem("rpc", HealthStatus::Unhealthy), Timestamp::from_millis(7));
    assert_eq!(state.overall_status, HealthStatus::Unhealthy);
    state.update_subsystem_health_at(subsystem("rpc", HealthStatus::Healthy), Timestamp::from_millis(8));
    assert_eq!(state.overall_status, HealthStatus::Degraded);
    state.update_subsystem_health_at(subsystem("db", HealthStatus::Healthy), Timestamp::from_millis(9));
    assert_eq!(state.overall_status, HealthStatus::Healthy);
    assert_eq!(state.subsystem_health.len(), 2);
}

#[test]
fn health_checks_are_summarized() {
    let result = perform_health_check_at(Timestamp::from_millis(3));
    assert_eq!(result.overall_status, HealthStatus::Healthy);
    assert_eq!(result.checks.len(), 4);
    assert_eq!(result.checks[0].name, "system_resources");
    assert_eq!(result.checks[0].message, "System resources within acceptable limits");
    assert_eq!(result.checks[3].name, "security_posture");
    let mut failing = passed_check("disk", "full");
    failing.passed = false;
    let mixed = summarize_health_checks(vec![passed_check("a", "ok"), failing], Timestamp::from_millis(4));
    assert_eq!(mixed.overall_status, HealthStatus::Unhealthy);
    assert_eq!(mixed.checks.len(), 2);
    let none = summarize_health_checks(Vec::new(), Timestamp::from_millis(4));
    assert_eq!(none.overall_status, HealthStatus::Healthy);
}

#[test]
fn operational_context_is_renewed() {
    let context = OperationalContext {
        correlation_id: "c".to_string(),
        request_id: "r".to_string(),
        user_id: None,
        tenant_id: None,
        trace_id: "t".to_string(),
        span_id: "s".to_string(),
        parent_span_id: Some("p".to_string()),
        operation_name: "system_startup".to_string(),
        service_name: "nexus-prime-core".to_string(),
        custom_attributes: Vec::new(),
    };
    let renewed = context.renew(
        "deploy",
        Some("req-1".to_string()),
        Some("user-1".to_string()),
        None,
        vec![("k".to_string(), "v".to_string())],
    );
    assert_eq!(renewed.operation_name, "deploy");
    assert_eq!(renewed.request_id, "req-1");
    assert_eq!(renewed.user_id, Some("user-1".to_string()));
    assert_eq!(renewed.parent_span_id, Some("p".to_string()));
    assert_eq!(renewed.service_name, "nexus-prime-core");
    assert_eq!(renewed.trace_id.len(), 36);
    assert_ne!(renewed.trace_id, renewed.span_id);
    assert_eq!(renewed.custom_attributes.len(), 1);
    let again = renewed.renew("stop", None, None, None, Vec::new());
    assert_eq!(again.request_id.len(), 36);
}

#[test]
fn initialization_and_timer_run() {
    initialize_metrics();
    initialize_tracing("nexus-prime-core", "test");
    let timer = Timer::new();
    let first = timer.elapsed();
    let second = timer.elapsed();
    assert!(second >= first);
    let labels = MetricLabels {
        service: "s".to_string(),
        version: "1".to_string(),
        environment: "e".to_string(),
        node_id: None,
        component: None,
        operation: None,
    };
    assert_eq!(labels.service, "s");
}

#[test]
fn operations_are_counted_and_old_durations_dropped() {
    let mut metrics = PerformanceMetrics::new();
    assert!(metrics.summary_of("deploy").is_none());
    metrics.record_operation("deploy", 10, true);
    metrics.record_operation("deploy", 30, false);
    metrics.record_operation("stop", 5, true);
    let deploy = metrics.summary_of("deploy").unwrap();
    assert_eq!(deploy.total_count, 2);
    assert_eq!(deploy.error_count, 1);
    assert_eq!(deploy.total_duration_ms, 40);
    assert_eq!(deploy.samples, 2);
    assert_eq!(metrics.summary_of("stop").unwrap().error_count, 0);
    for i in 0..999 {
        metrics.record_operation("stop", i, true);
    }
    assert_eq!(metrics.summary_of("stop").unwrap().samples, 1000);
    metrics.record_operation("stop", 7, true);
    let stop = metrics.summary_of("stop").unwrap();
    assert_eq!(stop.samples, 501);
    assert_eq!(stop.total_count, 1001);
    let expected: u128 = (499..999).sum::<u128>() + 7;
    assert_eq!(stop.total_duration_ms, expected);
    assert_eq!(metrics.operations.at(0).unwrap().operation, "deploy");
}

#[test]
fn spans_are_named_and_log_lines_attached() {
    assert_eq!(http_span_name("GET", "/api"), "GET /api");
    assert_eq!(database_span_name("select", "nodes"), "db.select.nodes");
    assert_eq!(workflow_span_name("etl"), "workflow.etl");
    let fields = vec![("user".to_string(), "u1".to_string()), ("n".to_string(), "2".to_string())];
    assert_eq!(
        log_attributes("INFO", "hello", &fields),
        vec![
            ("log.level".to_string(), "INFO".to_string()),
            ("log.message".to_string(), "hello".to_string()),
            ("log.user".to_string(), "u1".to_string()),
            ("log.n".to_string(), "2".to_string()),
        ]
    );
    let both = vec![
        ("x-span-id".to_string(), "s".to_string()),
        ("x-trace-id".to_string(), "t".to_string()),
    ];
    assert!(carries_trace_context(&both));
    assert!(!carries_trace_context(&both[..1].to_vec()));
    assert!(!carries_trace_context(&Vec::new()));
    let mut span = SpanContext {
        trace_id: "t".to_string(),
        span_id: "s".to_string(),
        parent_span_id: None,
        operation_name: "op".to_string(),
        service_name: "svc".to_string(),
        start_time: Timestamp::from_millis(0),
        tags: Vec::new(),
        logs: Vec::new(),
    };
    span.log(SpanLog {
        timestamp: Timestamp::from_millis(1),
        level: "INFO".to_string(),
        message: "m".to_string(),
        fields: Vec::new(),
    });
    assert_eq!(span.logs.len(), 1);
    assert_eq!(span.logs[0].message, "m");
}
