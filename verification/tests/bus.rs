use nexus_prime_core::bus::EventBus;
use nexus_prime_core::clock::Timestamp;
use nexus_prime_core::event::{FabricEvent, InternalFabricEvent};
use nexus_prime_core::manager::FabricManager;
use nexus_prime_core::node::ComputeNode;
use tokio::sync::broadcast::channel;
use tokio::sync::broadcast::error::TryRecvError;
use tokio::sync::broadcast::Receiver;

fn pruned(id: &str) -> InternalFabricEvent {
    InternalFabricEvent::NodePruned(id.to_string())
}

fn bus(capacity: usize) -> (EventBus, Receiver<InternalFabricEvent>, Receiver<FabricEvent>) {
    let (event_bus_tx, internal_rx) = channel(capacity);
    let (event_stream_tx, wire_rx) = channel(capacity);
    (EventBus { event_bus_tx, event_stream_tx }, internal_rx, wire_rx)
}

fn id_of(event: InternalFabricEvent) -> String {
    match event {
        InternalFabricEvent::NodePruned(id) => id,
        other => panic!("unexpected event {:?}", other),
    }
}

#[test]
fn subscribers_see_events_in_publish_order() {
    let (bus, mut internal_rx, mut wire_rx) = bus(16);
    let events = vec![pruned("a"), pruned("b"), pruned("c")];
    let deliveries = bus.publish(&events);
    assert_eq!(deliveries.len(), 3);
    for (delivery, id) in deliveries.iter().zip(["a", "b", "c"]) {
        assert_eq!(delivery.internal_receivers, 1);
        assert_eq!(delivery.wire_receivers, 1);
        assert_eq!(delivery.publication.wire.message, format!("Node pruned: {}", id));
    }
    for (id, delivery) in ["a", "b", "c"].iter().zip(&deliveries) {
        assert_eq!(id_of(internal_rx.try_recv().unwrap()), *id);
        let wire = wire_rx.try_recv().unwrap();
        assert_eq!(wire.event_type, "NODE_PRUNED");
        assert_eq!(wire.message, format!("Node pruned: {}", id));
        assert_eq!(wire.event_id, delivery.publication.wire.event_id);
        assert_eq!(wire.timestamp, delivery.publication.wire.timestamp);
    }
    assert!(matches!(internal_rx.try_recv(), Err(TryRecvError::Empty)));
    assert!(matches!(wire_rx.try_recv(), Err(TryRecvError::Empty)));
}

#[test]
fn event_without_subscriber_is_dropped() {
    let (bus, internal_rx, wire_rx) = bus(4);
    drop(internal_rx);
    let delivery = bus.broadcast_event(pruned("a"));
    assert_eq!(delivery.internal_receivers, 0);
    assert_eq!(delivery.wire_receivers, 1);
    drop(wire_rx);
    let delivery = bus.broadcast_event(pruned("b"));
    assert_eq!(delivery.internal_receivers, 0);
    assert_eq!(delivery.wire_receivers, 0);
    assert!(matches!(delivery.publication.internal, InternalFabricEvent::NodePruned(ref id) if id == "b"));
}

#[test]
fn late_subscriber_misses_earlier_events() {
    let (bus, mut early, _wire_rx) = bus(8);
    bus.broadcast_event(pruned("a"));
    let mut late = bus.event_bus_tx.subscribe();
    let delivery = bus.broadcast_event(pruned("b"));
    assert_eq!(delivery.internal_receivers, 2);
    assert_eq!(id_of(early.try_recv().unwrap()), "a");
    assert_eq!(id_of(early.try_recv().unwrap()), "b");
    assert_eq!(id_of(late.try_recv().unwrap()), "b");
    assert!(matches!(late.try_recv(), Err(TryRecvError::Empty)));
}

#[test]
fn lagging_subscriber_sees_a_gap_and_then_the_tail() {
    let (bus, mut slow, _wire_rx) = bus(2);
    let mut quick = bus.event_bus_tx.subscribe();
    bus.broadcast_event(pruned("a"));
    assert_eq!(id_of(quick.try_recv().unwrap()), "a");
    bus.broadcast_event(pruned("b"));
    assert_eq!(id_of(quick.try_recv().unwrap()), "b");
    bus.broadcast_event(pruned("c"));
    bus.broadcast_event(pruned("d"));
    assert_eq!(id_of(quick.try_recv().unwrap()), "c");
    assert_eq!(id_of(quick.try_recv().unwrap()), "d");
    assert!(matches!(slow.try_recv(), Err(TryRecvError::Lagged(2))));
    assert_eq!(id_of(slow.try_recv().unwrap()), "c");
    assert_eq!(id_of(slow.try_recv().unwrap()), "d");
    assert!(matches!(slow.try_recv(), Err(TryRecvError::Empty)));
}

#[test]
fn operations_reach_subscribers_through_the_bus() {
    let (bus, mut internal_rx, mut wire_rx) = bus(16);
    let mut manager: FabricManager<u32> = FabricManager::new(None);
    let node = ComputeNode {
        id: "node-A".to_string(),
        node_type: "PC".to_string(),
        last_seen: Timestamp::from_millis(1),
        status: "Online".to_string(),
        capabilities: String::new(),
        ip_address: "127.0.0.1".to_string(),
        proxy_listen_address: None,
    };
    let outcome = manager.register_node(node, None).unwrap();
    bus.publish(&outcome.events);
    let refused = manager.update_node_status("node-missing".to_string(), "Degraded".to_string(), None);
    assert!(refused.is_err());
    let outcome = manager
        .update_node_status("node-A".to_string(), "Online".to_string(), None)
        .unwrap();
    bus.publish(&outcome.events);
    assert!(matches!(internal_rx.try_recv().unwrap(), InternalFabricEvent::NodeRegistered(_)));
    assert!(matches!(internal_rx.try_recv().unwrap(), InternalFabricEvent::NodeStatusUpdate(_, _, _)));
    assert!(matches!(internal_rx.try_recv(), Err(TryRecvError::Empty)));
    assert_eq!(wire_rx.try_recv().unwrap().message, "Node registered: node-A");
    assert_eq!(wire_rx.try_recv().unwrap().message, "Node node-A status updated: Online");
    assert!(matches!(wire_rx.try_recv(), Err(TryRecvError::Empty)));
}
