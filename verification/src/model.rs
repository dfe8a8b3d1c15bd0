//! The fabric as a state machine over mathematical values: what each
//! operation makes of a registry, which events it emits, and whether the
//! registry has to be persisted afterwards.

use vstd::prelude::*;
use crate::agent::{AIAgentView, STATUS_DEPLOYING, STATUS_ERROR, STATUS_FAILED, STATUS_MIGRATING,
    STATUS_RUNNING, STATUS_STOPPED};
use crate::clock::{is_stale, Timestamp};
use crate::event::InternalFabricEventView;
use crate::node::ComputeNodeView;
use crate::registry::FabricStateView;
use crate::table::upsert;

verus! {

/// Why an operation left the fabric as it was.
#[derive(Clone, Copy, Debug, PartialEq, Eq, Structural)]
pub enum Rejection {
    /// The node to register has an empty identifier.
    EmptyNodeId,
    /// No node is registered under the given identifier.
    UnknownNode,
    /// The node is registered, but its status is not `Online`.
    NodeNotOnline,
    /// No client is held for the node, so no command can reach it.
    NoClient,
    /// No agent is registered under the given identifier.
    UnknownAgent,
    /// The agent is not assigned to any node.
    AgentUnassigned,
}

/// What an accepted operation brings about.
pub struct Applied {
    /// The registry after the operation.
    pub next: FabricStateView,
    /// The events to publish, in this order.
    pub events: Seq<InternalFabricEventView>,
    /// Whether the registry has to be persisted.
    pub persist: bool,
}

/// One change to the registry that emits one event.
pub open spec fn mutation(next: FabricStateView, event: InternalFabricEventView) -> Result<
    Applied,
    Rejection,
> {
    Ok(Applied { next, events: seq![event], persist: true })
}

/// Registering `node`: refused for an empty identifier; else the node is
/// stored under its identifier, in place of a node that had it.
pub open spec fn register_node_step(state: FabricStateView, node: ComputeNodeView) -> Result<
    Applied,
    Rejection,
> {
    if node.id.len() == 0 {
        Err(Rejection::EmptyNodeId)
    } else {
        mutation(
            FabricStateView { compute_nodes: upsert(state.compute_nodes, node), ..state },
            InternalFabricEventView::NodeRegistered(node),
        )
    }
}

/// A status report of the node `node_id` at `now`: refused for an unknown
/// node; else the node takes the status and was last seen at `now`.
pub open spec fn update_node_status_step(
    state: FabricStateView,
    node_id: Seq<char>,
    status: Seq<char>,
    now: Timestamp,
) -> Result<Applied, Rejection> {
    if !state.has_node(node_id) {
        Err(Rejection::UnknownNode)
    } else {
        mutation(
            FabricStateView {
                compute_nodes: upsert(
                    state.compute_nodes,
                    state.node(node_id).with_status(status, now),
                ),
                ..state
            },
            InternalFabricEventView::NodeStatusUpdate(node_id, status, None),
        )
    }
}

/// Registering `agent`: it is stored under its identifier, in place of an
/// agent that had it.
pub open spec fn register_agent_step(state: FabricStateView, agent: AIAgentView) -> Result<
    Applied,
    Rejection,
> {
    mutation(
        FabricStateView { ai_agents: upsert(state.ai_agents, agent), ..state },
        InternalFabricEventView::AgentRegistered(agent),
    )
}

/// A status report of the agent `agent_id`: refused for an unknown agent;
/// else the agent takes status, task and progress.
pub open spec fn update_agent_status_step(
    state: FabricStateView,
    agent_id: Seq<char>,
    status: Seq<char>,
    current_task: Option<Seq<char>>,
    task_progress: Option<nat>,
) -> Result<Applied, Rejection> {
    if !state.has_agent(agent_id) {
        Err(Rejection::UnknownAgent)
    } else {
        mutation(
            FabricStateView {
                ai_agents: upsert(
                    state.ai_agents,
                    state.agent(agent_id).with_report(status, current_task, task_progress),
                ),
                ..state
            },
            InternalFabricEventView::AgentStatusUpdate(
                agent_id,
                status,
                current_task,
                task_progress,
            ),
        )
    }
}

/// Moving the agent `agent_id` to the node `destination`: refused for an
/// unknown destination, then for an unknown agent; else the agent is assigned
/// to the destination and is `Migrating`.
pub open spec fn migrate_agent_step(
    state: FabricStateView,
    agent_id: Seq<char>,
    destination: Seq<char>,
) -> Result<Applied, Rejection> {
    if !state.has_node(destination) {
        Err(Rejection::UnknownNode)
    } else if !state.has_agent(agent_id) {
        Err(Rejection::UnknownAgent)
    } else {
        let agent = state.agent(agent_id);
        mutation(
            FabricStateView {
                ai_agents: upsert(state.ai_agents, agent.migrating_to(destination)),
                ..state
            },
            InternalFabricEventView::AgentStatusUpdate(
                agent_id,
                STATUS_MIGRATING@,
                agent.current_task,
                agent.task_progress,
            ),
        )
    }
}

/// Why a deployment onto the node `target` is not dispatched, if it is not:
/// the node is unknown, or not `Online`, or no client is held for it.
pub open spec fn deploy_refusal(state: FabricStateView, has_client: bool, target: Seq<char>)
    -> Option<Rejection> {
    if !state.has_node(target) {
        Some(Rejection::UnknownNode)
    } else if !state.node(target).is_online() {
        Some(Rejection::NodeNotOnline)
    } else if !has_client {
        Some(Rejection::NoClient)
    } else {
        None
    }
}

/// The agent that a deployment onto `target` starts from.
pub open spec fn proto_agent(
    agent_id: Seq<char>,
    target: Seq<char>,
    name: Seq<char>,
    agent_type: Seq<char>,
) -> AIAgentView {
    AIAgentView {
        id: agent_id,
        name,
        agent_type,
        assigned_node_id: Some(target),
        status: STATUS_DEPLOYING@,
        current_task: None,
        task_progress: None,
    }
}

/// The agent that a finished deployment leaves: the registered agent of that
/// identifier where there is one, else `proto`; `Running` after a success,
/// `Failed` otherwise.
pub open spec fn deployed_agent(state: FabricStateView, proto: AIAgentView, success: bool)
    -> AIAgentView {
    let base = if state.has_agent(proto.id) {
        state.agent(proto.id)
    } else {
        proto
    };
    base.with_status(
        if success {
            STATUS_RUNNING@
        } else {
            STATUS_FAILED@
        },
    )
}

/// The end of a deployment that was dispatched for `proto`.
pub open spec fn complete_deploy_step(state: FabricStateView, proto: AIAgentView, success: bool)
    -> Result<Applied, Rejection> {
    let agent = deployed_agent(state, proto, success);
    mutation(
        FabricStateView { ai_agents: upsert(state.ai_agents, agent), ..state },
        InternalFabricEventView::AgentRegistered(agent),
    )
}

/// Why a stop of the agent `agent_id` is not dispatched, if it is not: the
/// agent is unknown, or assigned to no node, or no client is held for its
/// node. `has_client` says of each node whether a client is held for it.
pub open spec fn stop_refusal(
    state: FabricStateView,
    has_client: spec_fn(Seq<char>) -> bool,
    agent_id: Seq<char>,
) -> Option<Rejection> {
    if !state.has_agent(agent_id) {
        Some(Rejection::UnknownAgent)
    } else {
        match state.agent(agent_id).assigned_node_id {
            None => Some(Rejection::AgentUnassigned),
            Some(node_id) => if has_client(node_id) {
                None
            } else {
                Some(Rejection::NoClient)
            },
        }
    }
}

/// The end of a stop that was dispatched for the agent `agent_id`: refused
/// where the agent has left the registry meanwhile; else the agent is
/// `Stopped` after a success and in `Error` otherwise.
pub open spec fn complete_stop_step(state: FabricStateView, agent_id: Seq<char>, success: bool)
    -> Result<Applied, Rejection> {
    if !state.has_agent(agent_id) {
        Err(Rejection::UnknownAgent)
    } else {
        let agent = state.agent(agent_id);
        let status = if success {
            STATUS_STOPPED@
        } else {
            STATUS_ERROR@
        };
        mutation(
            FabricStateView { ai_agents: upsert(state.ai_agents, agent.with_status(status)), ..state },
            InternalFabricEventView::AgentStatusUpdate(
                agent_id,
                status,
                agent.current_task,
                agent.task_progress,
            ),
        )
    }
}

/// Issuing a command: the registry stays as it is, and one event tells of
/// the command.
pub open spec fn issue_command_step(
    state: FabricStateView,
    command_type: Seq<char>,
    target: Seq<char>,
) -> Result<Applied, Rejection> {
    Ok(
        Applied {
            next: state,
            events: seq![InternalFabricEventView::FabricCommandIssued(command_type, target)],
            persist: false,
        },
    )
}

/// The test that tells the nodes that are stale at `now`.
pub open spec fn stale_at(now: Timestamp) -> spec_fn(ComputeNodeView) -> bool {
    |node: ComputeNodeView| is_stale(node.last_seen, now)
}

/// The test that tells the nodes that are not stale at `now`.
pub open spec fn fresh_at(now: Timestamp) -> spec_fn(ComputeNodeView) -> bool {
    |node: ComputeNodeView| !is_stale(node.last_seen, now)
}

/// The test that tells the agents that are assigned to no node.
pub open spec fn unassigned() -> spec_fn(AIAgentView) -> bool {
    |agent: AIAgentView| agent.assigned_node_id is None
}

/// The test that tells the agents that are assigned to a node.
pub open spec fn assigned() -> spec_fn(AIAgentView) -> bool {
    |agent: AIAgentView| agent.assigned_node_id is Some
}

/// The event that tells of one reaped node.
pub open spec fn node_pruned() -> spec_fn(ComputeNodeView) -> InternalFabricEventView {
    |node: ComputeNodeView| InternalFabricEventView::NodePruned(node.id)
}

/// The event that tells of one reaped agent.
pub open spec fn agent_pruned() -> spec_fn(AIAgentView) -> InternalFabricEventView {
    |agent: AIAgentView| InternalFabricEventView::AgentPruned(agent.id)
}

/// The events of one run of the reaper at `now`: one for each stale node,
/// then one for each agent without a node, each group in registry order.
pub open spec fn prune_events(state: FabricStateView, now: Timestamp) -> Seq<
    InternalFabricEventView,
> {
    state.compute_nodes.filter(stale_at(now)).map_values(node_pruned())
        + state.ai_agents.filter(unassigned()).map_values(agent_pruned())
}

/// One run of the reaper at `now`: the stale nodes and the agents without a
/// node leave the registry; it is persisted where anything left.
pub open spec fn prune_step(state: FabricStateView, now: Timestamp) -> Result<Applied, Rejection> {
    Ok(
        Applied {
            next: FabricStateView {
                compute_nodes: state.compute_nodes.filter(fresh_at(now)),
                ai_agents: state.ai_agents.filter(assigned()),
            },
            events: prune_events(state, now),
            persist: prune_events(state, now).len() > 0,
        },
    )
}

/// One call of the fabric, with everything that its effect depends on.
pub enum Operation {
    /// A node registers.
    RegisterNode(ComputeNodeView),
    /// A node reports its status: node, status, time of the report.
    UpdateNodeStatus(Seq<char>, Seq<char>, Timestamp),
    /// An agent is registered.
    RegisterAgent(AIAgentView),
    /// An agent reports its status: agent, status, task, progress.
    UpdateAgentStatus(Seq<char>, Seq<char>, Option<Seq<char>>, Option<nat>),
    /// A dispatched deployment ends: the agent it started from, and whether
    /// the node reported success.
    CompleteDeploy(AIAgentView, bool),
    /// A dispatched stop ends: the agent, and whether the node reported success.
    CompleteStop(Seq<char>, bool),
    /// An agent moves: agent, destination node.
    MigrateAgent(Seq<char>, Seq<char>),
    /// A command is issued: command type, target.
    IssueCommand(Seq<char>, Seq<char>),
    /// The reaper runs at the given time.
    Prune(Timestamp),
}

/// What the operation `op` makes of the registry `state`.
pub open spec fn apply(state: FabricStateView, op: Operation) -> Result<Applied, Rejection> {
    match op {
        Operation::RegisterNode(node) => register_node_step(state, node),
        Operation::UpdateNodeStatus(node_id, status, now) => update_node_status_step(
            state,
            node_id,
            status,
            now,
        ),
        Operation::RegisterAgent(agent) => register_agent_step(state, agent),
        Operation::UpdateAgentStatus(agent_id, status, task, progress) => update_agent_status_step(
            state,
            agent_id,
            status,
            task,
            progress,
        ),
        Operation::CompleteDeploy(proto, success) => complete_deploy_step(state, proto, success),
        Operation::CompleteStop(agent_id, success) => complete_stop_step(state, agent_id, success),
        Operation::MigrateAgent(agent_id, destination) => migrate_agent_step(
            state,
            agent_id,
            destination,
        ),
        Operation::IssueCommand(command_type, target) => issue_command_step(
            state,
            command_type,
            target,
        ),
        Operation::Prune(now) => prune_step(state, now),
    }
}

} // verus!
