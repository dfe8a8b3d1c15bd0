use nexus_prime_core::agent::AIAgent;
use nexus_prime_core::clock::Timestamp;
use nexus_prime_core::command::{CommandPlan, CommandResponse, FabricCommand};
use nexus_prime_core::event::InternalFabricEvent;
use nexus_prime_core::manager::FabricManager;
use nexus_prime_core::model::Rejection;
use nexus_prime_core::node::ComputeNode;
use nexus_prime_core::progress::TaskProgress;

fn setup_manager() -> FabricManager<u32> {
    FabricManager::new(None)
}

fn pc_node(id: &str, last_seen: Timestamp) -> ComputeNode {
    ComputeNode {
        id: id.to_string(),
        node_type: "PC".to_string(),
        last_seen,
        status: "Online".to_string(),
        capabilities: "CPU:4,RAM:16GB".to_string(),
        ip_address: "127.0.0.1".to_string(),
        proxy_listen_address: None,
    }
}

fn agent(id: &str, name: &str, node: Option<&str>) -> AIAgent {
    AIAgent {
        id: id.to_string(),
        name: name.to_string(),
        agent_type: name.to_string(),
        assigned_node_id: node.map(|n| n.to_string()),
        status: "Idle".to_string(),
        current_task: None,
        task_progress: None,
    }
}

#[test]
fn test_register_node() {
    let mut manager = setup_manager();
    let node = pc_node("node-1", Timestamp::from_millis(1_000));
    manager.register_node(node.clone(), None).unwrap();
    assert!(manager.state.contains_node(&"node-1".to_string()));
}

#[test]
fn test_update_node_status() {
    let mut manager = setup_manager();
    let node = pc_node("node-2", Timestamp::from_millis(1_000));
    manager.register_node(node.clone(), None).unwrap();
    manager
        .update_node_status("node-2".to_string(), "Degraded".to_string(), None)
        .unwrap();
    assert_eq!(manager.state.node(&"node-2".to_string()).unwrap().status, "Degraded");
}

#[test]
fn test_register_ai_agent() {
    let mut manager = setup_manager();
    let agent = agent("agent-1", "Synthesizer", Some("node-1"));
    manager.register_ai_agent(agent.clone());
    assert!(manager.state.contains_agent(&"agent-1".to_string()));
}

#[test]
fn test_update_ai_agent_status() {
    let mut manager = setup_manager();
    let agent = agent("agent-2", "Protector", Some("node-1"));
    manager.register_ai_agent(agent.clone());
    manager
        .update_ai_agent_status(
            "agent-2".to_string(),
            "Processing".to_string(),
            Some("TaskA".to_string()),
            TaskProgress::new(500_000),
        )
        .unwrap();
    let stored = manager.state.agent(&"agent-2".to_string()).unwrap();
    assert_eq!(stored.status, "Processing");
    assert_eq!(stored.current_task, Some("TaskA".to_string()));
    assert_eq!(stored.task_progress.map(|p| p.millionths()), Some(500_000));
}

#[test]
fn test_issue_command_sends_to_channel() {
    let manager = setup_manager();
    let command = FabricCommand {
        command_id: "cmd-1".to_string(),
        target_id: "node-1".to_string(),
        command_type: "REBOOT_NODE".to_string(),
        parameters: Vec::new(),
    };
    let issued = manager.issue_command(command);
    let received = issued.forward;
    assert_eq!(received.command_id, "cmd-1");
    let outcome = issued.outcome;
    assert_eq!(outcome.events.len(), 1);
    assert!(!outcome.persist);
    match &outcome.events[0] {
        InternalFabricEvent::FabricCommandIssued(command_type, target) => {
            assert_eq!(command_type, "REBOOT_NODE");
            assert_eq!(target, "node-1");
        }
        other => panic!("unexpected event {:?}", other),
    }
    assert!(matches!(received.plan(), CommandPlan::Unknown));
}

#[test]
fn test_prune_stale_entities() {
    let mut manager = setup_manager();
    let now = Timestamp::from_millis(1_700_000_000_000);
    let old_time = Timestamp::from_millis(now.millis - 10 * 60_000);
    let node = pc_node("node-stale", old_time);
    manager.register_node(node.clone(), None).unwrap();
    manager.prune_stale_entities_at(now);
    assert!(!manager.state.contains_node(&"node-stale".to_string()));
}

#[test]
fn register_node_refuses_empty_id() {
    let mut manager = setup_manager();
    let result = manager.register_node(pc_node("", Timestamp::from_millis(0)), Some(7));
    assert_eq!(result.unwrap_err(), Rejection::EmptyNodeId);
    assert_eq!(manager.state.node_count(), 0);
    assert!(!manager.node_clients.contains(&"".to_string()));
}

#[test]
fn register_node_replaces_node_of_same_id() {
    let mut manager = setup_manager();
    manager.register_node(pc_node("node-1", Timestamp::from_millis(1)), None).unwrap();
    manager.register_node(pc_node("node-2", Timestamp::from_millis(2)), None).unwrap();
    let mut again = pc_node("node-1", Timestamp::from_millis(3));
    again.status = "Offline".to_string();
    manager.register_node(again, None).unwrap();
    assert_eq!(manager.state.node_count(), 2);
    assert_eq!(manager.state.compute_nodes.at(0).unwrap().id, "node-1");
    assert_eq!(manager.state.compute_nodes.at(0).unwrap().status, "Offline");
    assert_eq!(manager.state.compute_nodes.at(1).unwrap().id, "node-2");
}

#[test]
fn register_node_keeps_client_only_with_proxy_address() {
    let mut manager = setup_manager();
    manager.register_node(pc_node("node-1", Timestamp::from_millis(1)), Some(11)).unwrap();
    assert!(manager.node_clients.get(&"node-1".to_string()).is_none());
    let mut with_proxy = pc_node("node-2", Timestamp::from_millis(1));
    with_proxy.proxy_listen_address = Some("10.0.0.2:7000".to_string());
    assert_eq!(with_proxy.proxy_endpoint(), Some("http://10.0.0.2:7000".to_string()));
    assert_eq!(manager.dial_target(&with_proxy), Some("http://10.0.0.2:7000".to_string()));
    assert_eq!(manager.dial_target(&pc_node("node-1", Timestamp::from_millis(1))), None);
    manager.register_node(with_proxy.clone(), Some(22)).unwrap();
    assert_eq!(manager.node_clients.get(&"node-2".to_string()), Some(&22));
    manager.register_node(with_proxy.clone(), None).unwrap();
    assert_eq!(manager.node_clients.get(&"node-2".to_string()), Some(&22));
    assert_eq!(manager.dial_target(&with_proxy), None);
    manager.register_node(with_proxy, Some(33)).unwrap();
    assert_eq!(manager.node_clients.get(&"node-2".to_string()), Some(&22));
}

#[test]
fn update_node_status_sets_status_and_last_seen() {
    let mut manager = setup_manager();
    manager.register_node(pc_node("node-1", Timestamp::from_millis(10)), None).unwrap();
    let outcome = manager
        .update_node_status_at(
            "node-1".to_string(),
            "Degraded".to_string(),
            None,
            Timestamp::from_millis(99),
        )
        .unwrap();
    assert!(outcome.persist);
    assert_eq!(outcome.events.len(), 1);
    match &outcome.events[0] {
        InternalFabricEvent::NodeStatusUpdate(id, status, summary) => {
            assert_eq!(id, "node-1");
            assert_eq!(status, "Degraded");
            assert!(summary.is_none());
        }
        other => panic!("unexpected event {:?}", other),
    }
    let node = manager.state.node(&"node-1".to_string()).unwrap();
    assert_eq!(node.status, "Degraded");
    assert_eq!(node.last_seen, Timestamp::from_millis(99));
    assert_eq!(node.capabilities, "CPU:4,RAM:16GB");
}

#[test]
fn update_of_unknown_agent_is_refused() {
    let mut manager = setup_manager();
    let result = manager.update_ai_agent_status(
        "dummy-agent".to_string(),
        "Idle".to_string(),
        Some("Thinking".to_string()),
        TaskProgress::new(0),
    );
    assert_eq!(result.unwrap_err(), Rejection::UnknownAgent);
    assert_eq!(manager.state.agent_count(), 0);
}

#[test]
fn migrate_agent_checks_destination_then_agent() {
    let mut manager = setup_manager();
    manager.register_ai_agent(agent("agent-1", "Synthesizer", Some("node-1")));
    let no_node = manager.migrate_agent("agent-1".to_string(), "node-9".to_string());
    assert_eq!(no_node.unwrap_err(), Rejection::UnknownNode);
    manager.register_node(pc_node("node-9", Timestamp::from_millis(1)), None).unwrap();
    let no_agent = manager.migrate_agent("agent-7".to_string(), "node-9".to_string());
    assert_eq!(no_agent.unwrap_err(), Rejection::UnknownAgent);
    let outcome = manager.migrate_agent("agent-1".to_string(), "node-9".to_string()).unwrap();
    assert!(outcome.persist);
    match &outcome.events[0] {
        InternalFabricEvent::AgentStatusUpdate(id, status, task, progress) => {
            assert_eq!(id, "agent-1");
            assert_eq!(status, "Migrating");
            assert!(task.is_none());
            assert!(progress.is_none());
        }
        other => panic!("unexpected event {:?}", other),
    }
    let moved = manager.state.agent(&"agent-1".to_string()).unwrap();
    assert_eq!(moved.assigned_node_id, Some("node-9".to_string()));
    assert_eq!(moved.status, "Migrating");
    assert_eq!(moved.name, "Synthesizer");
}

#[test]
fn deploy_is_refused_for_unknown_offline_or_unreachable_node() {
    let mut manager = setup_manager();
    let unknown = manager.deploy_agent("node-1".to_string(), "a".to_string(), "T".to_string());
    assert_eq!(unknown.unwrap_err(), Rejection::UnknownNode);
    let mut offline = pc_node("node-1", Timestamp::from_millis(1));
    offline.status = "Offline".to_string();
    offline.proxy_listen_address = Some("10.0.0.1:7000".to_string());
    manager.register_node(offline, Some(1)).unwrap();
    let not_online = manager.deploy_agent("node-1".to_string(), "a".to_string(), "T".to_string());
    assert_eq!(not_online.unwrap_err(), Rejection::NodeNotOnline);
    manager.register_node(pc_node("node-2", Timestamp::from_millis(1)), None).unwrap();
    let no_client = manager.deploy_agent("node-2".to_string(), "a".to_string(), "T".to_string());
    assert_eq!(no_client.unwrap_err(), Rejection::NoClient);
    assert_eq!(manager.state.agent_count(), 0);
}

#[test]
fn deploy_marks_agent_failed_without_success() {
    let mut manager = setup_manager();
    let mut node = pc_node("node-1", Timestamp::from_millis(1));
    node.proxy_listen_address = Some("10.0.0.1:7000".to_string());
    manager.register_node(node, Some(1)).unwrap();
    let pending = manager
        .deploy_agent_as(
            "node-1".to_string(),
            "beta".to_string(),
            "Protector".to_string(),
            "agent-x".to_string(),
        )
        .unwrap();
    assert_eq!(pending.agent().status, "Deploying");
    let request = pending.request();
    assert_eq!(request.agent_id, "agent-x");
    assert_eq!(request.agent_type, "Protector");
    assert_eq!(request.name, "beta");
    assert!(request.parameters.is_empty());
    let reply = CommandResponse { status: "BUSY".to_string(), message: "later".to_string() };
    let outcome = manager.complete_deploy(pending, Some(reply));
    assert!(outcome.persist);
    let stored = manager.state.agent(&"agent-x".to_string()).unwrap();
    assert_eq!(stored.status, "Failed");
    assert_eq!(stored.assigned_node_id, Some("node-1".to_string()));

    let pending = manager
        .deploy_agent_as(
            "node-1".to_string(),
            "gamma".to_string(),
            "Protector".to_string(),
            "agent-y".to_string(),
        )
        .unwrap();
    manager.complete_deploy(pending, None);
    assert_eq!(manager.state.agent(&"agent-y".to_string()).unwrap().status, "Failed");
}

#[test]
fn deploy_mints_agent_identifier() {
    let mut manager = setup_manager();
    let mut node = pc_node("node-1", Timestamp::from_millis(1));
    node.proxy_listen_address = Some("10.0.0.1:7000".to_string());
    manager.register_node(node, Some(1)).unwrap();
    let first = manager
        .deploy_agent("node-1".to_string(), "a".to_string(), "T".to_string())
        .unwrap();
    let second = manager
        .deploy_agent("node-1".to_string(), "a".to_string(), "T".to_string())
        .unwrap();
    let id = first.agent().id.clone();
    assert!(id.starts_with("agent-"));
    assert_eq!(id.len(), 6 + 36);
    assert_ne!(id, second.agent().id);
}

#[test]
fn stop_agent_runs_through_both_phases() {
    let mut manager = setup_manager();
    let missing = manager.stop_agent("agent-1".to_string());
    assert_eq!(missing.unwrap_err(), Rejection::UnknownAgent);
    manager.register_ai_agent(agent("agent-0", "Loose", None));
    let unassigned = manager.stop_agent("agent-0".to_string());
    assert_eq!(unassigned.unwrap_err(), Rejection::AgentUnassigned);
    manager.register_ai_agent(agent("agent-1", "Synthesizer", Some("node-1")));
    let no_client = manager.stop_agent("agent-1".to_string());
    assert_eq!(no_client.unwrap_err(), Rejection::NoClient);

    let mut node = pc_node("node-1", Timestamp::from_millis(1));
    node.proxy_listen_address = Some("10.0.0.1:7000".to_string());
    manager.register_node(node, Some(5)).unwrap();
    let pending = manager.stop_agent("agent-1".to_string()).unwrap();
    assert_eq!(pending.agent_id(), "agent-1");
    assert_eq!(pending.node_id(), "node-1");
    assert_eq!(pending.request().agent_id, "agent-1");
    let reply = CommandResponse { status: "SUCCESS".to_string(), message: String::new() };
    let outcome = manager.complete_stop(pending, Some(reply)).unwrap();
    match &outcome.events[0] {
        InternalFabricEvent::AgentStatusUpdate(id, status, _, _) => {
            assert_eq!(id, "agent-1");
            assert_eq!(status, "Stopped");
        }
        other => panic!("unexpected event {:?}", other),
    }
    assert_eq!(manager.state.agent(&"agent-1".to_string()).unwrap().status, "Stopped");

    let pending = manager.stop_agent("agent-1".to_string()).unwrap();
    manager.complete_stop(pending, None).unwrap();
    assert_eq!(manager.state.agent(&"agent-1".to_string()).unwrap().status, "Error");
}

#[test]
fn stop_of_agent_that_left_meanwhile_is_refused() {
    let mut manager = setup_manager();
    let mut node = pc_node("node-1", Timestamp::from_millis(1));
    node.proxy_listen_address = Some("10.0.0.1:7000".to_string());
    manager.register_node(node, Some(5)).unwrap();
    manager.register_ai_agent(agent("agent-1", "Synthesizer", Some("node-1")));
    let pending = manager.stop_agent("agent-1".to_string()).unwrap();
    manager.state.ai_agents.remove(&"agent-1".to_string());
    let reply = CommandResponse { status: "SUCCESS".to_string(), message: String::new() };
    let result = manager.complete_stop(pending, Some(reply));
    assert_eq!(result.unwrap_err(), Rejection::UnknownAgent);
}

#[test]
fn reaper_threshold_is_strict() {
    let now = Timestamp::from_millis(10_000_000);
    let mut manager = setup_manager();
    manager.register_node(pc_node("at-limit", Timestamp::from_millis(now.millis - 300_000)), None).unwrap();
    manager.register_node(pc_node("past-limit", Timestamp::from_millis(now.millis - 300_001)), None).unwrap();
    manager.register_node(pc_node("future", Timestamp::from_millis(now.millis + 5)), None).unwrap();
    manager.register_node(pc_node("ancient", Timestamp::from_millis(i64::MIN)), None).unwrap();
    manager.register_node(pc_node("far-future", Timestamp::from_millis(i64::MAX)), None).unwrap();
    let outcome = manager.prune_stale_entities_at(now);
    assert!(outcome.persist);
    assert_eq!(outcome.events.len(), 2);
    assert!(matches!(&outcome.events[0], InternalFabricEvent::NodePruned(id) if id == "past-limit"));
    assert!(matches!(&outcome.events[1], InternalFabricEvent::NodePruned(id) if id == "ancient"));
    assert!(manager.state.contains_node(&"at-limit".to_string()));
    assert!(manager.state.contains_node(&"future".to_string()));
    assert!(manager.state.contains_node(&"far-future".to_string()));
    assert_eq!(manager.state.node_count(), 3);
    assert!(Timestamp::from_millis(0).is_stale_at(Timestamp::from_millis(300_001)));
    assert!(!Timestamp::from_millis(0).is_stale_at(Timestamp::from_millis(300_000)));
}

#[test]
fn reaper_removes_agents_without_node() {
    let mut manager = setup_manager();
    manager.register_ai_agent(agent("agent-1", "Kept", Some("node-1")));
    manager.register_ai_agent(agent("agent-2", "Loose", None));
    manager.register_ai_agent(agent("agent-3", "Adrift", None));
    let outcome = manager.prune_stale_entities_at(Timestamp::from_millis(0));
    assert!(outcome.persist);
    assert_eq!(outcome.events.len(), 2);
    assert!(matches!(&outcome.events[0], InternalFabricEvent::AgentPruned(id) if id == "agent-2"));
    assert!(matches!(&outcome.events[1], InternalFabricEvent::AgentPruned(id) if id == "agent-3"));
    assert_eq!(manager.state.agent_count(), 1);
    assert!(manager.state.contains_agent(&"agent-1".to_string()));
}

#[test]
fn reaper_without_work_asks_for_nothing() {
    let mut manager = setup_manager();
    let now = Timestamp::from_millis(1_000_000);
    manager.register_node(pc_node("node-1", now), None).unwrap();
    let outcome = manager.prune_stale_entities_at(now);
    assert!(outcome.events.is_empty());
    assert!(!outcome.persist);
    assert_eq!(manager.state.node_count(), 1);
    let outcome = manager.prune_stale_entities();
    assert!(outcome.events.len() <= 1);
}

#[test]
fn manager_starts_from_loaded_state_or_empty() {
    let empty: FabricManager<u32> = FabricManager::new(None);
    assert_eq!(empty.state.node_count(), 0);
    assert_eq!(empty.state.agent_count(), 0);
    let mut first = setup_manager();
    first.register_node(pc_node("node-1", Timestamp::from_millis(1)), None).unwrap();
    first.register_ai_agent(agent("agent-1", "Synthesizer", Some("node-1")));
    let second: FabricManager<u32> = FabricManager::new(Some(first.snapshot()));
    assert_eq!(second.state.node_count(), 1);
    assert_eq!(second.state.agent(&"agent-1".to_string()).unwrap().name, "Synthesizer");
}

#[test]
fn nothing_is_dialled_for_an_empty_identifier() {
    let mut manager = setup_manager();
    let mut nameless = pc_node("", Timestamp::from_millis(1));
    nameless.proxy_listen_address = Some("10.0.0.3:7000".to_string());
    assert_eq!(manager.dial_target(&nameless), None);
    let result = manager.register_node(nameless, None);
    assert_eq!(result.unwrap_err(), Rejection::EmptyNodeId);
    assert_eq!(manager.state.node_count(), 0);
    assert!(!manager.node_clients.contains(&"".to_string()));
    let mut named = pc_node("node-3", Timestamp::from_millis(1));
    named.proxy_listen_address = Some("10.0.0.3:7000".to_string());
    assert_eq!(manager.dial_target(&named), Some("http://10.0.0.3:7000".to_string()));
}
