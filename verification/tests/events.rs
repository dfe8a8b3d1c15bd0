use nexus_prime_core::agent::AIAgent;
use nexus_prime_core::clock::Timestamp;
use nexus_prime_core::event::{convert_event, project_event, InternalFabricEvent};
use nexus_prime_core::ident::{agent_id_from, fresh_agent_id, fresh_node_id, node_id_from};
use nexus_prime_core::node::ComputeNode;
use nexus_prime_core::progress::TaskProgress;

fn sample_node() -> ComputeNode {
    ComputeNode {
        id: "node-7".to_string(),
        node_type: "PC".to_string(),
        last_seen: Timestamp::from_millis(0),
        status: "Online".to_string(),
        capabilities: String::new(),
        ip_address: "10.0.0.7".to_string(),
        proxy_listen_address: None,
    }
}

fn sample_agent() -> AIAgent {
    AIAgent {
        id: "agent-7".to_string(),
        name: "seven".to_string(),
        agent_type: "Synthesizer".to_string(),
        assigned_node_id: None,
        status: "Idle".to_string(),
        current_task: None,
        task_progress: None,
    }
}

fn project(event: &InternalFabricEvent) -> (String, String, Vec<(String, String)>) {
    let wire = project_event(event, "id-1".to_string(), "2024-01-01T00:00:00+00:00".to_string());
    assert_eq!(wire.event_id, "id-1");
    assert_eq!(wire.timestamp, "2024-01-01T00:00:00+00:00");
    assert!(wire.telemetry.is_none());
    (wire.event_type, wire.message, wire.metadata)
}

#[test]
fn projection_of_node_events() {
    let (tag, message, meta) = project(&InternalFabricEvent::NodeRegistered(sample_node()));
    assert_eq!(tag, "NODE_REGISTERED");
    assert_eq!(message, "Node registered: node-7");
    assert!(meta.is_empty());
    let update = InternalFabricEvent::NodeStatusUpdate(
        "node-7".to_string(),
        "Degraded".to_string(),
        Some("cpu high".to_string()),
    );
    let (tag, message, meta) = project(&update);
    assert_eq!(tag, "NODE_STATUS_UPDATE");
    assert_eq!(message, "Node node-7 status updated: Degraded");
    assert!(meta.is_empty());
    let (tag, message, meta) = project(&InternalFabricEvent::NodePruned("node-7".to_string()));
    assert_eq!(tag, "NODE_PRUNED");
    assert_eq!(message, "Node pruned: node-7");
    assert!(meta.is_empty());
}

#[test]
fn projection_of_agent_events() {
    let (tag, message, meta) = project(&InternalFabricEvent::AgentRegistered(sample_agent()));
    assert_eq!(tag, "AGENT_REGISTERED");
    assert_eq!(message, "Agent registered: agent-7");
    assert!(meta.is_empty());
    let (tag, message, meta) = project(&InternalFabricEvent::AgentPruned("agent-7".to_string()));
    assert_eq!(tag, "AGENT_PRUNED");
    assert_eq!(message, "Agent pruned: agent-7");
    assert!(meta.is_empty());
}

#[test]
fn projection_of_agent_status_update_carries_metadata() {
    let full = InternalFabricEvent::AgentStatusUpdate(
        "agent-7".to_string(),
        "Running".to_string(),
        Some("TaskA".to_string()),
        TaskProgress::new(500_000),
    );
    let (tag, message, meta) = project(&full);
    assert_eq!(tag, "AGENT_STATUS_UPDATE");
    assert_eq!(message, "Agent agent-7 status updated: Running");
    assert_eq!(
        meta,
        vec![
            ("current_task".to_string(), "TaskA".to_string()),
            ("task_progress".to_string(), "0.5".to_string()),
        ]
    );
    let task_only = InternalFabricEvent::AgentStatusUpdate(
        "agent-7".to_string(),
        "Running".to_string(),
        Some("TaskB".to_string()),
        None,
    );
    assert_eq!(project(&task_only).2, vec![("current_task".to_string(), "TaskB".to_string())]);
    let progress_only = InternalFabricEvent::AgentStatusUpdate(
        "agent-7".to_string(),
        "Running".to_string(),
        None,
        TaskProgress::new(1_000_000),
    );
    assert_eq!(project(&progress_only).2, vec![("task_progress".to_string(), "1".to_string())]);
    let bare = InternalFabricEvent::AgentStatusUpdate(
        "agent-7".to_string(),
        "Idle".to_string(),
        None,
        None,
    );
    assert!(project(&bare).2.is_empty());
}

#[test]
fn projection_of_command_event() {
    let event = InternalFabricEvent::FabricCommandIssued("REBOOT_NODE".to_string(), "node-7".to_string());
    let (tag, message, meta) = project(&event);
    assert_eq!(tag, "FABRIC_COMMAND_ISSUED");
    assert_eq!(message, "Command issued: REBOOT_NODE to node-7");
    assert!(meta.is_empty());
    assert_eq!(event.event_type(), "FABRIC_COMMAND_ISSUED");
    assert_eq!(event.message(), "Command issued: REBOOT_NODE to node-7");
}

fn is_hyphenated_uuid(text: &str) -> bool {
    text.len() == 36
        && text.chars().enumerate().all(|(i, c)| {
            if i == 8 || i == 13 || i == 18 || i == 23 {
                c == '-'
            } else {
                c.is_ascii_digit() || ('a'..='f').contains(&c)
            }
        })
}

#[test]
fn converted_event_has_fresh_identifier_and_time() {
    let event = InternalFabricEvent::NodePruned("node-7".to_string());
    let first = convert_event(&event);
    let second = convert_event(&event);
    assert!(is_hyphenated_uuid(&first.event_id));
    assert!(is_hyphenated_uuid(&second.event_id));
    assert_ne!(first.event_id, second.event_id);
    assert_eq!(first.event_type, "NODE_PRUNED");
    assert_eq!(first.message, "Node pruned: node-7");
    assert!(first.timestamp.len() >= 20);
    assert_eq!(&first.timestamp[4..5], "-");
    assert_eq!(&first.timestamp[10..11], "T");
    assert!(first.timestamp.ends_with("+00:00"));
}

#[test]
fn clones_of_events_hold_the_same() {
    let event = InternalFabricEvent::AgentStatusUpdate(
        "agent-7".to_string(),
        "Running".to_string(),
        Some("TaskA".to_string()),
        TaskProgress::new(250_000),
    );
    let copy = event.clone();
    assert_eq!(copy.message(), event.message());
    assert_eq!(copy.metadata(), event.metadata());
    assert_eq!(
        copy.metadata()[1],
        ("task_progress".to_string(), "0.25".to_string())
    );
}

#[test]
fn identifiers_have_prefix_and_uuid() {
    assert_eq!(node_id_from("abc"), "node-abc");
    assert_eq!(agent_id_from("abc"), "agent-abc");
    let node_id = fresh_node_id();
    assert!(node_id.starts_with("node-"));
    assert!(is_hyphenated_uuid(&node_id[5..]));
    let agent_id = fresh_agent_id();
    assert!(agent_id.starts_with("agent-"));
    assert!(is_hyphenated_uuid(&agent_id[6..]));
    assert_ne!(fresh_node_id(), node_id);
}

#[test]
fn progress_is_a_fraction_with_decimal_text() {
    assert!(TaskProgress::new(1_000_001).is_none());
    assert!(TaskProgress::new(u32::MAX).is_none());
    assert_eq!(TaskProgress::new(0).unwrap().render(), "0");
    assert_eq!(TaskProgress::new(1_000_000).unwrap().render(), "1");
    assert_eq!(TaskProgress::new(500_000).unwrap().render(), "0.5");
    assert_eq!(TaskProgress::new(250_000).unwrap().render(), "0.25");
    assert_eq!(TaskProgress::new(1).unwrap().render(), "0.000001");
    assert_eq!(TaskProgress::new(999_999).unwrap().render(), "0.999999");
    assert_eq!(TaskProgress::new(100_000).unwrap().render(), "0.1");
    assert_eq!(TaskProgress::new(10).unwrap().render(), "0.00001");
    assert_eq!(TaskProgress::new(123_450).unwrap().render(), "0.12345");
    assert_eq!(TaskProgress::new(707_070).unwrap().millionths(), 707_070);
}

#[test]
fn timestamps_have_rfc3339_text() {
    assert_eq!(
        Timestamp::from_millis(0).rfc3339(),
        Some("1970-01-01T00:00:00+00:00".to_string())
    );
    assert_eq!(
        Timestamp::from_millis(1_700_000_000_123).rfc3339(),
        Some("2023-11-14T22:13:20.123+00:00".to_string())
    );
    assert_eq!(
        Timestamp::from_millis(-1).rfc3339(),
        Some("1969-12-31T23:59:59.999+00:00".to_string())
    );
    assert_eq!(Timestamp::from_millis(i64::MAX).rfc3339(), None);
    assert_eq!(Timestamp::from_millis(i64::MIN).rfc3339(), None);
}

#[test]
fn event_time_is_the_text_of_a_clock_reading() {
    assert_eq!(Timestamp::from_millis(0).stamp(), "1970-01-01T00:00:00+00:00");
    assert_eq!(Timestamp::from_millis(1_700_000_000_123).stamp(), "2023-11-14T22:13:20.123+00:00");
    assert_eq!(Timestamp::from_millis(i64::MAX).stamp(), "");
    let before = chrono::Utc::now().timestamp_millis();
    let wire = convert_event(&InternalFabricEvent::NodePruned("node-7".to_string()));
    let after = chrono::Utc::now().timestamp_millis();
    let read = chrono::DateTime::parse_from_rfc3339(&wire.timestamp).unwrap().timestamp_millis();
    assert!(before <= read && read <= after);
    assert_eq!(Timestamp::from_millis(read).stamp(), wire.timestamp);
}
