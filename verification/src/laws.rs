//! What holds of the fabric over every registry and every operation.

use vstd::prelude::*;
use crate::clock::{is_stale, Timestamp};
use crate::agent::{STATUS_ERROR, STATUS_STOPPED};
use crate::model::{apply, assigned, complete_deploy_step, deploy_refusal, deployed_agent,
    fresh_at, proto_agent, prune_events, prune_step, stale_at, unassigned,
    update_node_status_step, Operation};
use crate::registry::FabricStateView;
use crate::table::{lemma_filter_all, lemma_filter_keys, lemma_filter_members,
    lemma_filter_split, lemma_upsert};

verus! {

/// The registry and the persisted copy after the operations `ops`, where the
/// caller persists the registry whenever an operation asks for it. The pair
/// holds the registry first, the persisted copy second.
pub open spec fn run(state: FabricStateView, stored: FabricStateView, ops: Seq<Operation>) -> (
    FabricStateView,
    FabricStateView,
)
    decreases ops.len(),
{
    if ops.len() == 0 {
        (state, stored)
    } else {
        let before = run(state, stored, ops.drop_last());
        match apply(before.0, ops.last()) {
            Ok(applied) => (
                applied.next,
                if applied.persist {
                    applied.next
                } else {
                    before.1
                },
            ),
            Err(_) => before,
        }
    }
}

/// The number of entries that left a collection of `before` entries of which
/// `after` are still there.
pub open spec fn departed(before: nat, after: nat) -> int {
    before - after
}

/// Every operation keeps the identifiers in the registry distinct.
pub proof fn lemma_apply_keeps_well_formed(state: FabricStateView, op: Operation)
    requires
        state.well_formed(),
    ensures
        apply(state, op) matches Ok(applied) ==> applied.next.well_formed(),
{
    match op {
        Operation::RegisterNode(node) => {
            lemma_upsert(state.compute_nodes, node);
        },
        Operation::UpdateNodeStatus(node_id, status, now) => {
            if state.has_node(node_id) {
                lemma_upsert(state.compute_nodes, state.node(node_id).with_status(status, now));
            }
        },
        Operation::RegisterAgent(agent) => {
            lemma_upsert(state.ai_agents, agent);
        },
        Operation::UpdateAgentStatus(agent_id, status, task, progress) => {
            if state.has_agent(agent_id) {
                lemma_upsert(
                    state.ai_agents,
                    state.agent(agent_id).with_report(status, task, progress),
                );
            }
        },
        Operation::CompleteDeploy(proto, success) => {
            lemma_upsert(state.ai_agents, deployed_agent(state, proto, success));
        },
        Operation::CompleteStop(agent_id, success) => {
            if state.has_agent(agent_id) {
                let status = if success {
                    STATUS_STOPPED@
                } else {
                    STATUS_ERROR@
                };
                lemma_upsert(state.ai_agents, state.agent(agent_id).with_status(status));
            }
        },
        Operation::MigrateAgent(agent_id, destination) => {
            if state.has_node(destination) && state.has_agent(agent_id) {
                lemma_upsert(state.ai_agents, state.agent(agent_id).migrating_to(destination));
            }
        },
        Operation::IssueCommand(_, _) => {},
        Operation::Prune(now) => {
            lemma_filter_keys(state.compute_nodes, fresh_at(now));
            lemma_filter_keys(state.ai_agents, assigned());
        },
    }
}

/// An operation that does not ask for the registry to be persisted has left
/// it as it was.
pub proof fn lemma_unpersisted_is_unchanged(state: FabricStateView, op: Operation)
    ensures
        apply(state, op) matches Ok(applied) ==> applied.persist || applied.next == state,
{
    if let Operation::Prune(now) = op {
        let events = prune_events(state, now);
        if events.len() == 0 {
            lemma_filter_members(state.compute_nodes, stale_at(now));
            lemma_filter_members(state.ai_agents, unassigned());
            assert forall|i: int| 0 <= i < state.compute_nodes.len() implies fresh_at(now)(
                #[trigger] state.compute_nodes[i],
            ) by {}
            assert forall|i: int| 0 <= i < state.ai_agents.len() implies assigned()(
                #[trigger] state.ai_agents[i],
            ) by {}
            lemma_filter_all(state.compute_nodes, fresh_at(now));
            lemma_filter_all(state.ai_agents, assigned());
        }
    }
}

/// After any sequence of operations, the persisted copy equals the registry:
/// the caller starts from a copy that is up to date and persists the registry
/// whenever an operation asks for it.
pub proof fn lemma_store_follows_registry(state: FabricStateView, ops: Seq<Operation>)
    ensures
        run(state, state, ops).0 == run(state, state, ops).1,
    decreases ops.len(),
{
    if ops.len() > 0 {
        lemma_store_follows_registry(state, ops.drop_last());
        lemma_unpersisted_is_unchanged(run(state, state, ops.drop_last()).0, ops.last());
    }
}

/// An accepted operation emits exactly one event, but for the reaper, which
/// emits one event for each node and each agent that it removed. So the
/// registry never changes without an event; and a refused operation emits
/// none, since it brings nothing about.
pub proof fn lemma_one_event_per_mutation(state: FabricStateView, op: Operation)
    ensures
        apply(state, op) matches Ok(applied) ==> {
            &&& op is Prune ==> applied.events.len() == departed(
                state.compute_nodes.len(),
                applied.next.compute_nodes.len(),
            ) + departed(state.ai_agents.len(), applied.next.ai_agents.len())
            &&& !(op is Prune) ==> applied.events.len() == 1
            &&& applied.next != state ==> applied.events.len() >= 1
        },
{
    if let Operation::Prune(now) = op {
        lemma_filter_split(state.compute_nodes, stale_at(now), fresh_at(now));
        lemma_filter_split(state.ai_agents, unassigned(), assigned());
        lemma_unpersisted_is_unchanged(state, op);
    }
}

/// A status report of a registered node that arrives at `now` is accepted,
/// and afterwards the node has the reported status and was last seen at `now`.
pub proof fn lemma_status_update_takes_effect(
    state: FabricStateView,
    node_id: Seq<char>,
    status: Seq<char>,
    now: Timestamp,
)
    requires
        state.well_formed(),
        state.has_node(node_id),
    ensures
        update_node_status_step(state, node_id, status, now) matches Ok(applied) && {
            &&& applied.next.has_node(node_id)
            &&& applied.next.node(node_id).status == status
            &&& applied.next.node(node_id).last_seen == now
        },
{
    lemma_upsert(state.compute_nodes, state.node(node_id).with_status(status, now));
}

/// A node that is stale when the reaper runs is gone when it has run; a node
/// that is not stale stays as it was.
pub proof fn lemma_reaper_removes_stale_nodes(
    state: FabricStateView,
    now: Timestamp,
    node_id: Seq<char>,
)
    requires
        state.well_formed(),
        state.has_node(node_id),
    ensures
        prune_step(state, now) matches Ok(applied) && if is_stale(
            state.node(node_id).last_seen,
            now,
        ) {
            !applied.next.has_node(node_id)
        } else {
            applied.next.has_node(node_id) && applied.next.node(node_id) == state.node(node_id)
        },
{
    lemma_filter_keys(state.compute_nodes, fresh_at(now));
}

/// A deployment is admitted only onto a node that is registered and `Online`
/// at that time and for which a client is held; and the agent that the
/// deployment stores, at whatever later state of the registry, is assigned to
/// that node, unless an agent had been registered under its identifier since.
pub proof fn lemma_deploy_needs_online_node(
    state: FabricStateView,
    has_client: bool,
    target: Seq<char>,
    agent_id: Seq<char>,
    name: Seq<char>,
    agent_type: Seq<char>,
    later: FabricStateView,
    success: bool,
)
    requires
        later.well_formed(),
        deploy_refusal(state, has_client, target) is None,
    ensures
        state.has_node(target),
        state.node(target).is_online(),
        has_client,
        complete_deploy_step(
            later,
            proto_agent(agent_id, target, name, agent_type),
            success,
        ) matches Ok(applied) && {
            &&& applied.next.has_agent(agent_id)
            &&& !later.has_agent(agent_id) ==> applied.next.agent(agent_id).assigned_node_id
                == Some(target)
        },
{
    let proto = proto_agent(agent_id, target, name, agent_type);
    let agent = deployed_agent(later, proto, success);
    lemma_upsert(later.ai_agents, agent);
}

} // verus!
