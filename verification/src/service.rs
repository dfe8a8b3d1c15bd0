//! The service in front of the fabric: what a registration request, a status
//! update and a command from outside become, and what is answered.

use vstd::prelude::*;
use vstd::string::*;
use crate::agent::opt_progress;
use crate::clock::Timestamp;
use crate::command::{CommandResponse, FabricCommand};
use crate::event::TelemetryData;
use crate::ident::{fresh_uuid, is_hyphenated_uuid, node_id_from, NODE_ID_PREFIX};
use crate::manager::{refines, FabricManager, Outcome};
use crate::model::{issue_command_step, register_node_step, update_agent_status_step,
    update_node_status_step, Rejection};
use crate::node::{ComputeNode, ComputeNodeView, ENDPOINT_SCHEME, STATUS_ONLINE};
use crate::pool::ensured;
use crate::progress::TaskProgress;
use crate::registry::FabricStateView;
use crate::table::{has_key, views};
use crate::text::{join2, opt_text};

verus! {

/// Kind of host that gave no kind.
pub const AGENT_TYPE_UNSPECIFIED: i32 = 0;

/// Kind of host that is a personal computer.
pub const AGENT_TYPE_PC: i32 = 1;

/// Kind of status update that speaks of a node.
pub const STATUS_TYPE_NODE: i32 = 1;

/// Kind of status update that speaks of an agent.
pub const STATUS_TYPE_AI_AGENT: i32 = 2;

/// Status of the answer to a registration.
pub const REPLY_REGISTERED: &'static str = "REGISTERED";

/// Status of the answer to a status update.
pub const REPLY_OK: &'static str = "OK";

/// Status of the answer to a command.
pub const REPLY_COMMAND_SENT: &'static str = "COMMAND_SENT";

/// What a host sends to register as a compute node.
#[derive(Debug)]
pub struct AgentRegistrationRequest {
    pub agent_type: i32,
    pub ip_address: String,
    pub capabilities: String,
    /// Address of the host's proxy; empty where it has none.
    pub proxy_listen_address: String,
}

/// The answer to a registration.
#[derive(Debug)]
pub struct AgentRegistrationResponse {
    pub node_id: String,
    pub status: String,
    pub message: String,
}

/// A status update of a node or of an agent. `node_id` names the node or the
/// agent, as `status_type` says.
#[derive(Debug)]
pub struct AgentStatusUpdate {
    pub node_id: String,
    pub status_type: i32,
    pub status_value: String,
    pub telemetry_data: Option<TelemetryData>,
    pub current_task: Option<String>,
    pub task_progress: Option<TaskProgress>,
}

/// The request that asks for the stream of events: it says nothing.
#[derive(Clone, Copy, Debug, PartialEq, Eq, Structural)]
pub struct Empty {}

/// Why the service refuses a request before it reaches the fabric.
#[derive(Clone, Copy, Debug, PartialEq, Eq, Structural)]
pub enum ServiceError {
    /// The status update names no node or agent.
    EmptyNodeId,
}

/// The name of the kind of host `agent_type`.
pub open spec fn node_type_name(agent_type: i32) -> Seq<char> {
    if agent_type == AGENT_TYPE_PC {
        "PC"@
    } else if agent_type == AGENT_TYPE_UNSPECIFIED {
        "Unknown"@
    } else {
        "Other"@
    }
}

/// The node that a registration under `node_id` at `now` gives: `Online`,
/// last seen at `now`, with a proxy address where the request has one.
pub open spec fn registered_node(
    agent_type: i32,
    ip_address: Seq<char>,
    capabilities: Seq<char>,
    proxy_listen_address: Seq<char>,
    node_id: Seq<char>,
    now: Timestamp,
) -> ComputeNodeView {
    ComputeNodeView {
        id: node_id,
        node_type: node_type_name(agent_type),
        last_seen: now,
        status: STATUS_ONLINE@,
        capabilities,
        ip_address,
        proxy_listen_address: if proxy_listen_address.len() == 0 {
            None
        } else {
            Some(proxy_listen_address)
        },
    }
}

/// Where a status update goes.
#[derive(Clone, Copy, Debug, PartialEq, Eq, Structural)]
pub enum StatusRoute {
    /// To the node of that identifier.
    Node,
    /// To the agent of that identifier.
    Agent,
    /// Nowhere: the update is of no known kind.
    Ignored,
}

/// Where a status update of kind `status_type` goes.
pub open spec fn route_of(status_type: i32) -> StatusRoute {
    if status_type == STATUS_TYPE_NODE {
        StatusRoute::Node
    } else if status_type == STATUS_TYPE_AI_AGENT {
        StatusRoute::Agent
    } else {
        StatusRoute::Ignored
    }
}

impl AgentRegistrationRequest {
    /// The name of the kind of host that registers.
    pub fn node_type(&self) -> (name: &'static str)
        ensures
            name@ == node_type_name(self.agent_type),
    {
        if self.agent_type == AGENT_TYPE_PC {
            "PC"
        } else if self.agent_type == AGENT_TYPE_UNSPECIFIED {
            "Unknown"
        } else {
            "Other"
        }
    }

    /// The node that this registration gives under `node_id` at `now`.
    pub fn into_node(self, node_id: String, now: Timestamp) -> (node: ComputeNode)
        ensures
            node@ == registered_node(
                self.agent_type,
                self.ip_address@,
                self.capabilities@,
                self.proxy_listen_address@,
                node_id@,
                now,
            ),
    {
        let node_type = String::from_str(self.node_type());
        let proxy_listen_address = if self.proxy_listen_address.as_str().is_empty() {
            None
        } else {
            Some(self.proxy_listen_address)
        };
        ComputeNode {
            id: node_id,
            node_type,
            last_seen: now,
            status: String::from_str(STATUS_ONLINE),
            capabilities: self.capabilities,
            ip_address: self.ip_address,
            proxy_listen_address,
        }
    }
}

impl AgentRegistrationRequest {
    /// The address at which the host's proxy is dialled, if it has one.
    pub fn proxy_endpoint(&self) -> (endpoint: Option<String>)
        ensures
            opt_text(endpoint) == if self.proxy_listen_address@.len() == 0 {
                None
            } else {
                Some(ENDPOINT_SCHEME@ + self.proxy_listen_address@)
            },
    {
        if self.proxy_listen_address.as_str().is_empty() {
            None
        } else {
            Some(join2(ENDPOINT_SCHEME, self.proxy_listen_address.as_str()))
        }
    }
}

impl AgentStatusUpdate {
    /// Where the update goes; refused where it names no node or agent.
    pub fn route(&self) -> (route: Result<StatusRoute, ServiceError>)
        ensures
            route == if self.node_id@.len() == 0 {
                Err::<StatusRoute, ServiceError>(ServiceError::EmptyNodeId)
            } else {
                Ok(route_of(self.status_type))
            },
    {
        if self.node_id.as_str().is_empty() {
            Err(ServiceError::EmptyNodeId)
        } else if self.status_type == STATUS_TYPE_NODE {
            Ok(StatusRoute::Node)
        } else if self.status_type == STATUS_TYPE_AI_AGENT {
            Ok(StatusRoute::Agent)
        } else {
            Ok(StatusRoute::Ignored)
        }
    }
}

/// Whether `result` is what a status update that arrived at `now` is
/// handled as, with the registry `before` it and `after` it: an update that
/// names no node or agent is refused and changes nothing; any other is
/// answered with `OK` and has gone to the node or the agent that it names,
/// or nowhere where it is of no known kind.
pub open spec fn status_update_handled(
    before: FabricStateView,
    after: FabricStateView,
    update: AgentStatusUpdate,
    now: Timestamp,
    result: Result<Handled, ServiceError>,
) -> bool {
    if update.node_id@.len() == 0 {
        result matches Err(ServiceError::EmptyNodeId) && after == before
    } else {
        result matches Ok(handled) && handled.response.status@ == REPLY_OK@ && match route_of(
            update.status_type,
        ) {
            StatusRoute::Node => handled.effect matches Some(effect) && refines(
                before,
                after,
                effect,
                update_node_status_step(before, update.node_id@, update.status_value@, now),
            ),
            StatusRoute::Agent => handled.effect matches Some(effect) && refines(
                before,
                after,
                effect,
                update_agent_status_step(
                    before,
                    update.node_id@,
                    update.status_value@,
                    opt_text(update.current_task),
                    opt_progress(update.task_progress),
                ),
            ),
            StatusRoute::Ignored => handled.effect is None && after == before,
        }
    }
}

/// An answer with the given status and message.
fn respond(status: &str, message: &str) -> (response: CommandResponse)
    ensures
        response.status@ == status@,
        response.message@ == message@,
{
    CommandResponse { status: String::from_str(status), message: String::from_str(message) }
}

/// What the service hands back for a request that reached the fabric.
#[derive(Debug)]
pub struct Handled {
    /// The answer to the sender.
    pub response: CommandResponse,
    /// What the fabric did: the events to publish, or why it did nothing.
    /// `None` where the request asked nothing of the fabric.
    pub effect: Option<Result<Outcome, Rejection>>,
}

/// What the service hands back for a command.
#[derive(Debug)]
pub struct SentCommand {
    /// The answer to the sender.
    pub response: CommandResponse,
    /// The event to publish.
    pub outcome: Outcome,
    /// The command, to be sent on to whoever carries commands out.
    pub forward: FabricCommand,
}

/// A registration that the fabric accepted.
#[derive(Debug)]
pub struct Registered {
    /// The answer to the sender.
    pub response: AgentRegistrationResponse,
    /// The events to publish.
    pub outcome: Outcome,
}

/// The service in front of one fabric manager.
pub struct FabricServiceServerImpl<C> {
    pub fabric_manager: FabricManager<C>,
}

impl<C> FabricServiceServerImpl<C> {
    /// The address to dial before the host of `request` is registered as the
    /// node `node_id`: that of its proxy, where it has one and no client is
    /// held for the node yet. Nothing is dialled for an empty identifier,
    /// which is refused.
    pub fn dial_target(&self, request: &AgentRegistrationRequest, node_id: &String) -> (endpoint:
        Option<String>)
        ensures
            opt_text(endpoint) == if node_id@.len() > 0 && request.proxy_listen_address@.len() > 0
                && !has_key(self.fabric_manager.node_clients@, node_id@) {
                Some(ENDPOINT_SCHEME@ + request.proxy_listen_address@)
            } else {
                None
            },
    {
        if node_id.as_str().is_empty() || self.fabric_manager.node_clients.contains(node_id) {
            None
        } else {
            request.proxy_endpoint()
        }
    }

    /// Registers the host of `request` as the node `node_id`, last seen at
    /// `now`. `dialled` is what dialling the host's proxy gave. The host is
    /// told its identifier.
    pub fn register_agent_as(
        &mut self,
        request: AgentRegistrationRequest,
        node_id: String,
        now: Timestamp,
        dialled: Option<C>,
    ) -> (result: Result<Registered, Rejection>)
        ensures
            ({
                let node = registered_node(
                    request.agent_type,
                    request.ip_address@,
                    request.capabilities@,
                    request.proxy_listen_address@,
                    node_id@,
                    now,
                );
                &&& refines(
                    old(self).fabric_manager.state@,
                    final(self).fabric_manager.state@,
                    match result {
                        Ok(registered) => Ok(registered.outcome),
                        Err(reason) => Err(reason),
                    },
                    register_node_step(old(self).fabric_manager.state@, node),
                )
                &&& final(self).fabric_manager.node_clients@ == if result is Ok
                    && node.is_dispatchable() {
                    ensured(old(self).fabric_manager.node_clients@, node_id@, dialled)
                } else {
                    old(self).fabric_manager.node_clients@
                }
                &&& result matches Ok(registered) ==> {
                    &&& registered.response.node_id@ == node_id@
                    &&& registered.response.status@ == REPLY_REGISTERED@
                }
            }),
    {
        let told = node_id.clone();
        let node = request.into_node(node_id, now);
        match self.fabric_manager.register_node(node, dialled) {
            Ok(outcome) => Ok(
                Registered {
                    response: AgentRegistrationResponse {
                        node_id: told,
                        status: String::from_str(REPLY_REGISTERED),
                        message: String::from_str("Successfully registered compute node."),
                    },
                    outcome,
                },
            ),
            Err(reason) => Err(reason),
        }
    }

    /// Registers the host of `request` under a fresh identifier, last seen
    /// now. Such a registration is always accepted; the event that comes back
    /// holds the node as it was registered.
    pub fn register_agent(&mut self, request: AgentRegistrationRequest, dialled: Option<C>) -> (registered:
        Registered)
        ensures
            registered.outcome.events@.len() == 1,
            registered.outcome.events@[0]@ is NodeRegistered,
            ({
                let node = registered.outcome.events@[0]@->NodeRegistered_0;
                &&& exists|uuid: Seq<char>|
                    is_hyphenated_uuid(uuid) && node.id == NODE_ID_PREFIX@ + uuid
                &&& node == registered_node(
                    request.agent_type,
                    request.ip_address@,
                    request.capabilities@,
                    request.proxy_listen_address@,
                    node.id,
                    node.last_seen,
                )
                &&& registered.response.node_id@ == node.id
                &&& registered.response.status@ == REPLY_REGISTERED@
                &&& refines(
                    old(self).fabric_manager.state@,
                    final(self).fabric_manager.state@,
                    Ok(registered.outcome),
                    register_node_step(old(self).fabric_manager.state@, node),
                )
                &&& final(self).fabric_manager.node_clients@ == if node.is_dispatchable() {
                    ensured(old(self).fabric_manager.node_clients@, node.id, dialled)
                } else {
                    old(self).fabric_manager.node_clients@
                }
            }),
    {
        let uuid = fresh_uuid();
        let node_id = node_id_from(uuid.as_str());
        let now = Timestamp::now();
        proof {
            reveal_strlit("node-");
        }
        match self.register_agent_as(request, node_id, now, dialled) {
            Ok(registered) => {
                proof {
                    assert(views(registered.outcome.events@).len() == 1);
                    assert(views(registered.outcome.events@)[0] == registered.outcome.events@[0]@);
                }
                registered
            },
            Err(_) => {
                vstd::pervasive::unreached()
            },
        }
    }

    /// Takes a status update as of the current time.
    pub fn update_agent_status(&mut self, update: AgentStatusUpdate) -> (result: Result<
        Handled,
        ServiceError,
    >)
        ensures
            final(self).fabric_manager.node_clients@ == old(self).fabric_manager.node_clients@,
            exists|now: Timestamp|
                status_update_handled(
                    old(self).fabric_manager.state@,
                    final(self).fabric_manager.state@,
                    update,
                    now,
                    result,
                ),
    {
        let now = Timestamp::now();
        self.update_agent_status_at(update, now)
    }

    /// Takes a status update that arrived at `now`. An update that names no
    /// node or agent is refused; any other is answered with `OK`, whether the
    /// fabric knew the node or agent or not.
    pub fn update_agent_status_at(&mut self, update: AgentStatusUpdate, now: Timestamp) -> (result:
        Result<Handled, ServiceError>)
        ensures
            final(self).fabric_manager.node_clients@ == old(self).fabric_manager.node_clients@,
            status_update_handled(
                old(self).fabric_manager.state@,
                final(self).fabric_manager.state@,
                update,
                now,
                result,
            ),
    {
        let effect = match update.route() {
            Err(error) => {
                return Err(error);
            },
            Ok(StatusRoute::Node) => Some(
                self.fabric_manager.update_node_status_at(
                    update.node_id,
                    update.status_value,
                    update.telemetry_data,
                    now,
                ),
            ),
            Ok(StatusRoute::Agent) => Some(
                self.fabric_manager.update_ai_agent_status(
                    update.node_id,
                    update.status_value,
                    update.current_task,
                    update.task_progress,
                ),
            ),
            Ok(StatusRoute::Ignored) => None,
        };
        Ok(Handled { response: respond(REPLY_OK, "Status update received."), effect })
    }

    /// Takes a command: the fabric announces it and hands it on, and the
    /// sender is told that it was sent.
    pub fn send_fabric_command(&self, command: FabricCommand) -> (sent: SentCommand)
        ensures
            sent.response.status@ == REPLY_COMMAND_SENT@,
            sent.forward == command,
            refines(
                self.fabric_manager.state@,
                self.fabric_manager.state@,
                Ok(sent.outcome),
                issue_command_step(
                    self.fabric_manager.state@,
                    command.command_type@,
                    command.target_id@,
                ),
            ),
    {
        let issued = self.fabric_manager.issue_command(command);
        SentCommand {
            response: respond(REPLY_COMMAND_SENT, "Command dispatched to fabric."),
            outcome: issued.outcome,
            forward: issued.forward,
        }
    }
}

} // verus!
