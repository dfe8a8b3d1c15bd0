//! The fabric manager: the one owner of the registry and of the pool of
//! clients. Each operation changes the registry as the state machine of
//! [`crate::model`] says and hands back the events to publish.

use vstd::prelude::*;
use vstd::string::*;
use crate::agent::{opt_progress, AIAgent, AIAgentView, STATUS_DEPLOYING, STATUS_ERROR, STATUS_FAILED,
    STATUS_MIGRATING, STATUS_RUNNING, STATUS_STOPPED};
use crate::clock::{is_clock_stamp, is_stale, Timestamp};
use crate::command::{is_success, rpc_succeeded, CommandResponse, DeployAgentRequest,
    FabricCommand, StopAgentRequest};
use crate::event::{convert_event, FabricEvent, InternalFabricEvent, InternalFabricEventView,
    TelemetryData};
use crate::ident::{agent_id_from, fresh_uuid, is_hyphenated_uuid, AGENT_ID_PREFIX};
use crate::model::{agent_pruned, assigned, complete_deploy_step, complete_stop_step,
    deploy_refusal, fresh_at, issue_command_step, migrate_agent_step, node_pruned, proto_agent,
    prune_step, register_agent_step, register_node_step, stale_at, stop_refusal, unassigned,
    update_agent_status_step, update_node_status_step, Applied, Rejection};
use crate::node::ComputeNode;
use crate::pool::{ensured, wants_dial, NodeClientPool};
use crate::progress::TaskProgress;
use crate::registry::{FabricState, FabricStateView};
use crate::table::{has_key, views};
use crate::text::{clone_opt, opt_text};

verus! {

/// What an accepted operation asks of the caller.
#[derive(Debug)]
pub struct Outcome {
    /// The events to publish, in this order.
    pub events: Vec<InternalFabricEvent>,
    /// Whether the registry has to be persisted.
    pub persist: bool,
}

/// Whether what an operation did is what the state machine prescribes: on a
/// refusal the same reason and an untouched registry, else the prescribed
/// registry, events and need to persist.
pub open spec fn refines(
    before: FabricStateView,
    after: FabricStateView,
    result: Result<Outcome, Rejection>,
    step: Result<Applied, Rejection>,
) -> bool {
    match step {
        Ok(applied) => {
            &&& result is Ok
            &&& after == applied.next
            &&& views(result->Ok_0.events@) == applied.events
            &&& result->Ok_0.persist == applied.persist
        },
        Err(reason) => {
            &&& result is Err
            &&& result->Err_0 == reason
            &&& after == before
        },
    }
}

/// A command that was announced.
#[derive(Debug)]
pub struct IssuedCommand {
    /// The event to publish.
    pub outcome: Outcome,
    /// The command, to be sent on to whoever carries commands out.
    pub forward: FabricCommand,
}

/// One event together with the form in which it leaves the process.
#[derive(Debug)]
pub struct Publication {
    pub internal: InternalFabricEvent,
    pub wire: FabricEvent,
}

/// Pairs `event` with its outward form, under a fresh identifier and the
/// current time.
pub fn publication_of(event: InternalFabricEvent) -> (publication: Publication)
    ensures
        publication.internal@ == event@,
        publication.wire@ == event@.project(
            publication.wire@.event_id,
            publication.wire@.timestamp,
        ),
        is_hyphenated_uuid(publication.wire@.event_id),
        is_clock_stamp(publication.wire@.timestamp),
{
    let wire = convert_event(&event);
    Publication { internal: event, wire }
}

/// The outcome of one change that emits one event.
fn single(event: InternalFabricEvent) -> (outcome: Outcome)
    ensures
        views(outcome.events@) == seq![event@],
        outcome.persist,
{
    let mut events: Vec<InternalFabricEvent> = Vec::new();
    events.push(event);
    Outcome { events, persist: true }
}

/// One event for each of the reaped nodes `gone`, in their order.
fn node_pruned_events(gone: &Vec<ComputeNode>) -> (events: Vec<InternalFabricEvent>)
    ensures
        views(events@) == views(gone@).map_values(node_pruned()),
{
    let mut events: Vec<InternalFabricEvent> = Vec::new();
    let mut i: usize = 0;
    while i < gone.len()
        invariant
            i <= gone@.len(),
            events@.len() == i,
            forall|k: int|
                0 <= k < i ==> (#[trigger] events@[k])@ == InternalFabricEventView::NodePruned(
                    gone@[k]@.id,
                ),
        decreases gone@.len() - i,
    {
        events.push(InternalFabricEvent::NodePruned(gone[i].id.clone()));
        i = i + 1;
    }
    assert(views(events@) =~= views(gone@).map_values(node_pruned()));
    events
}

/// One event for each of the reaped agents `gone`, in their order.
fn agent_pruned_events(gone: &Vec<AIAgent>) -> (events: Vec<InternalFabricEvent>)
    ensures
        views(events@) == views(gone@).map_values(agent_pruned()),
{
    let mut events: Vec<InternalFabricEvent> = Vec::new();
    let mut i: usize = 0;
    while i < gone.len()
        invariant
            i <= gone@.len(),
            events@.len() == i,
            forall|k: int|
                0 <= k < i ==> (#[trigger] events@[k])@ == InternalFabricEventView::AgentPruned(
                    gone@[k]@.id,
                ),
        decreases gone@.len() - i,
    {
        events.push(InternalFabricEvent::AgentPruned(gone[i].id.clone()));
        i = i + 1;
    }
    assert(views(events@) =~= views(gone@).map_values(agent_pruned()));
    events
}

/// A deployment that passed admission and waits for the node's answer.
#[derive(Debug)]
pub struct PendingDeploy {
    agent: AIAgent,
}

impl PendingDeploy {
    /// The agent that the deployment starts from.
    pub closed spec fn proto(&self) -> AIAgentView {
        self.agent@
    }

    /// The agent that the deployment starts from.
    pub fn agent(&self) -> (agent: &AIAgent)
        ensures
            agent@ == self.proto(),
    {
        &self.agent
    }

    /// What to ask of the node's proxy.
    pub fn request(&self) -> (request: DeployAgentRequest)
        ensures
            request.agent_id@ == self.proto().id,
            request.agent_type@ == self.proto().agent_type,
            request.name@ == self.proto().name,
            request.parameters@.len() == 0,
    {
        DeployAgentRequest {
            agent_id: self.agent.id.clone(),
            agent_type: self.agent.agent_type.clone(),
            name: self.agent.name.clone(),
            parameters: Vec::new(),
        }
    }
}

/// A stop that passed admission and waits for the node's answer.
#[derive(Debug)]
pub struct PendingStop {
    agent_id: String,
    node_id: String,
}

impl PendingStop {
    /// The agent to stop.
    pub closed spec fn agent(&self) -> Seq<char> {
        self.agent_id@
    }

    /// The node that hosts the agent.
    pub closed spec fn node(&self) -> Seq<char> {
        self.node_id@
    }

    /// The agent to stop.
    pub fn agent_id(&self) -> (id: &String)
        ensures
            id@ == self.agent(),
    {
        &self.agent_id
    }

    /// The node whose proxy is asked.
    pub fn node_id(&self) -> (id: &String)
        ensures
            id@ == self.node(),
    {
        &self.node_id
    }

    /// What to ask of the node's proxy.
    pub fn request(&self) -> (request: StopAgentRequest)
        ensures
            request.agent_id@ == self.agent(),
    {
        StopAgentRequest { agent_id: self.agent_id.clone() }
    }
}

/// The owner of the registry and of the clients of the nodes.
pub struct FabricManager<C> {
    pub state: FabricState,
    pub node_clients: NodeClientPool<C>,
}

impl<C> FabricManager<C> {
    /// A manager over the registry that was loaded from the store, or over
    /// the empty registry where nothing could be loaded; without any client.
    pub fn new(loaded: Option<FabricState>) -> (manager: Self)
        ensures
            manager.state@ == match loaded {
                Some(state) => state@,
                None => FabricStateView::empty(),
            },
            manager.node_clients@.len() == 0,
    {
        let state = match loaded {
            Some(state) => state,
            None => FabricState::default(),
        };
        FabricManager { state, node_clients: NodeClientPool::new() }
    }

    /// A copy of the registry as it is now: what is persisted after a change.
    pub fn snapshot(&self) -> (copy: FabricState)
        ensures
            copy@ == self.state@,
    {
        self.state.clone()
    }

    /// Whether a client is held for each node, as a test on identifiers.
    pub open spec fn holds_client(&self) -> spec_fn(Seq<char>) -> bool {
        |node_id: Seq<char>| has_key(self.node_clients@, node_id)
    }

    /// The address to dial before `node` is registered: that of its proxy,
    /// where it has one and no client is held for the node yet. Nothing is
    /// dialled for a node with an empty identifier, which is refused.
    pub fn dial_target(&self, node: &ComputeNode) -> (endpoint: Option<String>)
        ensures
            opt_text(endpoint) == if node@.id.len() > 0 && wants_dial(
                self.node_clients@,
                node@.id,
                node@.proxy_listen_address,
            ) {
                node@.proxy_endpoint()
            } else {
                None
            },
    {
        if !node.id.as_str().is_empty() && self.node_clients.wants_dial(
            &node.id,
            &node.proxy_listen_address,
        ) {
            node.proxy_endpoint()
        } else {
            None
        }
    }

    /// Registers `node`. `dialled` is what dialling the node's proxy gave: a
    /// handle, or nothing where the dial failed or was not made. A node with
    /// an empty identifier is refused; else the node is stored, and the
    /// handle with it where the node has a proxy address and no client was
    /// held for it.
    pub fn register_node(&mut self, node: ComputeNode, dialled: Option<C>) -> (result: Result<
        Outcome,
        Rejection,
    >)
        ensures
            refines(
                old(self).state@,
                final(self).state@,
                result,
                register_node_step(old(self).state@, node@),
            ),
            final(self).node_clients@ == if result is Ok && node@.is_dispatchable() {
                ensured(old(self).node_clients@, node@.id, dialled)
            } else {
                old(self).node_clients@
            },
    {
        if node.id.as_str().is_empty() {
            return Err(Rejection::EmptyNodeId);
        }
        if node.is_dispatchable() {
            self.node_clients.ensure(node.id.clone(), dialled);
        }
        self.state.compute_nodes.upsert(node.clone());
        Ok(single(InternalFabricEvent::NodeRegistered(node)))
    }

    /// Takes the status report of the node `node_id` that arrived at `now`.
    /// An unknown node is refused; else the node has the status and was last
    /// seen at `now`. The telemetry is not kept in the registry.
    pub fn update_node_status_at(
        &mut self,
        node_id: String,
        status: String,
        telemetry: Option<TelemetryData>,
        now: Timestamp,
    ) -> (result: Result<Outcome, Rejection>)
        ensures
            refines(
                old(self).state@,
                final(self).state@,
                result,
                update_node_status_step(old(self).state@, node_id@, status@, now),
            ),
            final(self).node_clients@ == old(self).node_clients@,
    {
        let updated = match self.state.compute_nodes.get(&node_id) {
            None => {
                return Err(Rejection::UnknownNode);
            },
            Some(node) => ComputeNode {
                id: node.id.clone(),
                node_type: node.node_type.clone(),
                last_seen: now,
                status: status.clone(),
                capabilities: node.capabilities.clone(),
                ip_address: node.ip_address.clone(),
                proxy_listen_address: clone_opt(&node.proxy_listen_address),
            },
        };
        self.state.compute_nodes.upsert(updated);
        Ok(single(InternalFabricEvent::NodeStatusUpdate(node_id, status, None)))
    }

    /// Takes the status report of the node `node_id` as of the current time.
    pub fn update_node_status(
        &mut self,
        node_id: String,
        status: String,
        telemetry: Option<TelemetryData>,
    ) -> (result: Result<Outcome, Rejection>)
        ensures
            exists|now: Timestamp|
                refines(
                    old(self).state@,
                    final(self).state@,
                    result,
                    update_node_status_step(old(self).state@, node_id@, status@, now),
                ),
            final(self).node_clients@ == old(self).node_clients@,
    {
        let now = Timestamp::now();
        self.update_node_status_at(node_id, status, telemetry, now)
    }

    /// Registers `agent` under its identifier.
    pub fn register_ai_agent(&mut self, agent: AIAgent) -> (outcome: Outcome)
        ensures
            refines(
                old(self).state@,
                final(self).state@,
                Ok(outcome),
                register_agent_step(old(self).state@, agent@),
            ),
            final(self).node_clients@ == old(self).node_clients@,
    {
        self.state.ai_agents.upsert(agent.clone());
        single(InternalFabricEvent::AgentRegistered(agent))
    }

    /// Takes the status report of the agent `agent_id`. An unknown agent is
    /// refused; else the agent has the status, task and progress.
    pub fn update_ai_agent_status(
        &mut self,
        agent_id: String,
        status: String,
        current_task: Option<String>,
        task_progress: Option<TaskProgress>,
    ) -> (result: Result<Outcome, Rejection>)
        ensures
            refines(
                old(self).state@,
                final(self).state@,
                result,
                update_agent_status_step(
                    old(self).state@,
                    agent_id@,
                    status@,
                    opt_text(current_task),
                    opt_progress(task_progress),
                ),
            ),
            final(self).node_clients@ == old(self).node_clients@,
    {
        let updated = match self.state.ai_agents.get(&agent_id) {
            None => {
                return Err(Rejection::UnknownAgent);
            },
            Some(agent) => AIAgent {
                id: agent.id.clone(),
                name: agent.name.clone(),
                agent_type: agent.agent_type.clone(),
                assigned_node_id: clone_opt(&agent.assigned_node_id),
                status: status.clone(),
                current_task: clone_opt(&current_task),
                task_progress,
            },
        };
        self.state.ai_agents.upsert(updated);
        Ok(
            single(
                InternalFabricEvent::AgentStatusUpdate(agent_id, status, current_task, task_progress),
            ),
        )
    }

    /// Announces `command` and hands it on to whoever carries commands out.
    /// The registry stays as it is.
    pub fn issue_command(&self, command: FabricCommand) -> (issued: IssuedCommand)
        ensures
            issued.forward == command,
            refines(
                self.state@,
                self.state@,
                Ok(issued.outcome),
                issue_command_step(self.state@, command.command_type@, command.target_id@),
            ),
    {
        let mut events: Vec<InternalFabricEvent> = Vec::new();
        let event = InternalFabricEvent::FabricCommandIssued(
            command.command_type.clone(),
            command.target_id.clone(),
        );
        events.push(event);
        assert(views(events@) =~= seq![event@]);
        IssuedCommand { outcome: Outcome { events, persist: false }, forward: command }
    }

    /// Moves the agent `agent_id` to the node `destination_node_id`. An
    /// unknown destination is refused, then an unknown agent; else the agent
    /// is assigned to the destination and is `Migrating`.
    pub fn migrate_agent(&mut self, agent_id: String, destination_node_id: String) -> (result:
        Result<Outcome, Rejection>)
        ensures
            refines(
                old(self).state@,
                final(self).state@,
                result,
                migrate_agent_step(old(self).state@, agent_id@, destination_node_id@),
            ),
            final(self).node_clients@ == old(self).node_clients@,
    {
        if !self.state.compute_nodes.contains(&destination_node_id) {
            return Err(Rejection::UnknownNode);
        }
        let updated = match self.state.ai_agents.get(&agent_id) {
            None => {
                return Err(Rejection::UnknownAgent);
            },
            Some(agent) => AIAgent {
                id: agent.id.clone(),
                name: agent.name.clone(),
                agent_type: agent.agent_type.clone(),
                assigned_node_id: Some(destination_node_id),
                status: String::from_str(STATUS_MIGRATING),
                current_task: clone_opt(&agent.current_task),
                task_progress: agent.task_progress,
            },
        };
        let event = InternalFabricEvent::AgentStatusUpdate(
            agent_id,
            updated.status.clone(),
            clone_opt(&updated.current_task),
            updated.task_progress,
        );
        self.state.ai_agents.upsert(updated);
        Ok(single(event))
    }

    /// Runs the reaper as of `now`: the nodes that were last seen more than
    /// the stale threshold before `now` leave the registry, and so do the
    /// agents that are assigned to no node. One event tells of each, the nodes
    /// first, and the registry is to be persisted where anything left.
    pub fn prune_stale_entities_at(&mut self, now: Timestamp) -> (outcome: Outcome)
        ensures
            refines(
                old(self).state@,
                final(self).state@,
                Ok(outcome),
                prune_step(old(self).state@, now),
            ),
            final(self).node_clients@ == old(self).node_clients@,
    {
        let node_leaves = |node: &ComputeNode| -> (stale: bool)
            ensures
                stale == is_stale(node.last_seen, now),
            { node.last_seen.is_stale_at(now) };
        let stale_nodes = self.state.compute_nodes.extract(
            node_leaves,
            Ghost(stale_at(now)),
            Ghost(fresh_at(now)),
        );
        let agent_leaves = |agent: &AIAgent| -> (loose: bool)
            ensures
                loose == (agent.assigned_node_id is None),
            { agent.assigned_node_id.is_none() };
        let loose_agents = self.state.ai_agents.extract(
            agent_leaves,
            Ghost(unassigned()),
            Ghost(assigned()),
        );
        let mut events = node_pruned_events(&stale_nodes);
        let mut agent_events = agent_pruned_events(&loose_agents);
        let ghost first = events@;
        let ghost second = agent_events@;
        events.append(&mut agent_events);
        assert(views(events@) =~= views(first) + views(second));
        let persist = events.len() > 0;
        Outcome { events, persist }
    }

    /// Runs the reaper as of the current time.
    pub fn prune_stale_entities(&mut self) -> (outcome: Outcome)
        ensures
            exists|now: Timestamp|
                refines(
                    old(self).state@,
                    final(self).state@,
                    Ok(outcome),
                    prune_step(old(self).state@, now),
                ),
            final(self).node_clients@ == old(self).node_clients@,
    {
        let now = Timestamp::now();
        self.prune_stale_entities_at(now)
    }

    /// Admits or refuses the deployment of an agent `name` of type
    /// `agent_type` onto the node `target_node_id`, under the identifier
    /// `agent_id`. The node must be registered and `Online`, and a client
    /// must be held for it. Nothing is stored before the node has answered.
    pub fn deploy_agent_as(
        &self,
        target_node_id: String,
        name: String,
        agent_type: String,
        agent_id: String,
    ) -> (result: Result<PendingDeploy, Rejection>)
        ensures
            match result {
                Ok(pending) => {
                    &&& deploy_refusal(
                        self.state@,
                        has_key(self.node_clients@, target_node_id@),
                        target_node_id@,
                    ) is None
                    &&& pending.proto() == proto_agent(
                        agent_id@,
                        target_node_id@,
                        name@,
                        agent_type@,
                    )
                },
                Err(reason) => deploy_refusal(
                    self.state@,
                    has_key(self.node_clients@, target_node_id@),
                    target_node_id@,
                ) == Some(reason),
            },
    {
        match self.state.compute_nodes.get(&target_node_id) {
            None => {
                return Err(Rejection::UnknownNode);
            },
            Some(node) => {
                if !node.is_online() {
                    return Err(Rejection::NodeNotOnline);
                }
            },
        }
        if !self.node_clients.contains(&target_node_id) {
            return Err(Rejection::NoClient);
        }
        Ok(
            PendingDeploy {
                agent: AIAgent {
                    id: agent_id,
                    name,
                    agent_type,
                    assigned_node_id: Some(target_node_id),
                    status: String::from_str(STATUS_DEPLOYING),
                    current_task: None,
                    task_progress: None,
                },
            },
        )
    }

    /// Admits or refuses the deployment of an agent onto the node
    /// `target_node_id`, under a fresh identifier.
    pub fn deploy_agent(&self, target_node_id: String, name: String, agent_type: String) -> (result:
        Result<PendingDeploy, Rejection>)
        ensures
            match result {
                Ok(pending) => {
                    &&& deploy_refusal(
                        self.state@,
                        has_key(self.node_clients@, target_node_id@),
                        target_node_id@,
                    ) is None
                    &&& exists|uuid: Seq<char>|
                        is_hyphenated_uuid(uuid) && pending.proto() == proto_agent(
                            AGENT_ID_PREFIX@ + uuid,
                            target_node_id@,
                            name@,
                            agent_type@,
                        )
                },
                Err(reason) => deploy_refusal(
                    self.state@,
                    has_key(self.node_clients@, target_node_id@),
                    target_node_id@,
                ) == Some(reason),
            },
    {
        let uuid = fresh_uuid();
        let agent_id = agent_id_from(uuid.as_str());
        self.deploy_agent_as(target_node_id, name, agent_type, agent_id)
    }

    /// Ends the deployment `pending` with the node's answer `reply`, or with
    /// `None` where the call brought no answer. The agent is stored as
    /// `Running` after a success and as `Failed` otherwise; an agent that is
    /// registered under the identifier meanwhile keeps its other attributes.
    pub fn complete_deploy(&mut self, pending: PendingDeploy, reply: Option<CommandResponse>) -> (outcome:
        Outcome)
        ensures
            refines(
                old(self).state@,
                final(self).state@,
                Ok(outcome),
                complete_deploy_step(old(self).state@, pending.proto(), rpc_succeeded(reply)),
            ),
            final(self).node_clients@ == old(self).node_clients@,
    {
        let status = if is_success(&reply) {
            String::from_str(STATUS_RUNNING)
        } else {
            String::from_str(STATUS_FAILED)
        };
        let deployed = match self.state.ai_agents.get(&pending.agent.id) {
            Some(agent) => AIAgent {
                id: agent.id.clone(),
                name: agent.name.clone(),
                agent_type: agent.agent_type.clone(),
                assigned_node_id: clone_opt(&agent.assigned_node_id),
                status,
                current_task: clone_opt(&agent.current_task),
                task_progress: agent.task_progress,
            },
            None => AIAgent {
                id: pending.agent.id,
                name: pending.agent.name,
                agent_type: pending.agent.agent_type,
                assigned_node_id: pending.agent.assigned_node_id,
                status,
                current_task: pending.agent.current_task,
                task_progress: pending.agent.task_progress,
            },
        };
        self.state.ai_agents.upsert(deployed.clone());
        single(InternalFabricEvent::AgentRegistered(deployed))
    }

    /// Admits or refuses the stop of the agent `agent_id`. The agent must be
    /// registered and assigned to a node, and a client must be held for that
    /// node. Nothing changes before the node has answered.
    pub fn stop_agent(&self, agent_id: String) -> (result: Result<PendingStop, Rejection>)
        ensures
            match result {
                Ok(pending) => {
                    &&& stop_refusal(self.state@, self.holds_client(), agent_id@) is None
                    &&& pending.agent() == agent_id@
                    &&& Some(pending.node()) == self.state@.agent(agent_id@).assigned_node_id
                },
                Err(reason) => stop_refusal(self.state@, self.holds_client(), agent_id@) == Some(
                    reason,
                ),
            },
    {
        let node_id = match self.state.ai_agents.get(&agent_id) {
            None => {
                return Err(Rejection::UnknownAgent);
            },
            Some(agent) => match &agent.assigned_node_id {
                None => {
                    return Err(Rejection::AgentUnassigned);
                },
                Some(node_id) => node_id.clone(),
            },
        };
        if !self.node_clients.contains(&node_id) {
            return Err(Rejection::NoClient);
        }
        Ok(PendingStop { agent_id, node_id })
    }

    /// Ends the stop `pending` with the node's answer `reply`, or with `None`
    /// where the call brought no answer. An agent that has left the registry
    /// meanwhile is refused; else the agent is `Stopped` after a success and
    /// in `Error` otherwise.
    pub fn complete_stop(&mut self, pending: PendingStop, reply: Option<CommandResponse>) -> (result:
        Result<Outcome, Rejection>)
        ensures
            refines(
                old(self).state@,
                final(self).state@,
                result,
                complete_stop_step(old(self).state@, pending.agent(), rpc_succeeded(reply)),
            ),
            final(self).node_clients@ == old(self).node_clients@,
    {
        let status = if is_success(&reply) {
            String::from_str(STATUS_STOPPED)
        } else {
            String::from_str(STATUS_ERROR)
        };
        let updated = match self.state.ai_agents.get(&pending.agent_id) {
            None => {
                return Err(Rejection::UnknownAgent);
            },
            Some(agent) => AIAgent {
                id: agent.id.clone(),
                name: agent.name.clone(),
                agent_type: agent.agent_type.clone(),
                assigned_node_id: clone_opt(&agent.assigned_node_id),
                status,
                current_task: clone_opt(&agent.current_task),
                task_progress: agent.task_progress,
            },
        };
        let event = InternalFabricEvent::AgentStatusUpdate(
            pending.agent_id,
            updated.status.clone(),
            clone_opt(&updated.current_task),
            updated.task_progress,
        );
        self.state.ai_agents.upsert(updated);
        Ok(single(event))
    }
}

} // verus!
