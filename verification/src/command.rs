//! Commands: what an operator asks of the fabric, what the fabric asks of a
//! node's proxy, and how the one is turned into calls of the fabric.

use vstd::prelude::*;
use vstd::string::*;
use crate::text::text_eq;

verus! {

/// Command that deploys an agent onto the target node.
pub const DEPLOY_AGENT: &'static str = "DEPLOY_AGENT";

/// Command that stops the target agent.
pub const STOP_AGENT: &'static str = "STOP_AGENT";

/// Command that moves the target agent to another node.
pub const MIGRATE_AGENT: &'static str = "MIGRATE_AGENT";

/// Command that reboots the target node.
pub const REBOOT_NODE: &'static str = "REBOOT_NODE";

/// Parameter that names the agent to deploy.
pub const PARAM_NAME: &'static str = "name";

/// Parameter that gives the type of the agent to deploy.
pub const PARAM_TYPE: &'static str = "type";

/// Parameter that names the node to migrate to.
pub const PARAM_DESTINATION_NODE: &'static str = "destination_node";

/// Seconds after which a call of a proxy is given up.
pub const RPC_TIMEOUT_SECS: u64 = 10;

/// The status with which a proxy reports success.
pub const RPC_SUCCESS: &'static str = "SUCCESS";

/// A command to the fabric.
#[derive(Debug)]
pub struct FabricCommand {
    pub command_id: String,
    pub target_id: String,
    pub command_type: String,
    /// Pairs of parameter name and value; the first pair of a name counts.
    pub parameters: Vec<(String, String)>,
}

/// What a [`FabricCommand`] holds, as mathematical values.
pub struct FabricCommandView {
    pub command_id: Seq<char>,
    pub target_id: Seq<char>,
    pub command_type: Seq<char>,
    pub parameters: Seq<(Seq<char>, Seq<char>)>,
}

/// The pairs of a parameter list, as character sequences.
pub open spec fn parameters_view(pairs: Seq<(String, String)>) -> Seq<(Seq<char>, Seq<char>)> {
    Seq::new(pairs.len(), |i: int| (pairs[i].0@, pairs[i].1@))
}

impl View for FabricCommand {
    type V = FabricCommandView;

    open spec fn view(&self) -> FabricCommandView {
        FabricCommandView {
            command_id: self.command_id@,
            target_id: self.target_id@,
            command_type: self.command_type@,
            parameters: parameters_view(self.parameters@),
        }
    }
}

/// The value of the first pair named `name`, or the empty text where no pair
/// has that name.
pub open spec fn parameter(pairs: Seq<(Seq<char>, Seq<char>)>, name: Seq<char>) -> Seq<char>
    decreases pairs.len(),
{
    if pairs.len() == 0 {
        Seq::empty()
    } else if pairs[0].0 == name {
        pairs[0].1
    } else {
        parameter(pairs.skip(1), name)
    }
}

/// The answer of a node's proxy to a command.
#[derive(Debug)]
pub struct CommandResponse {
    pub status: String,
    pub message: String,
}

/// Whether a call of a proxy succeeded: an answer came, and its status is
/// `SUCCESS`. `None` stands for a call that brought no answer.
pub open spec fn rpc_succeeded(reply: Option<CommandResponse>) -> bool {
    match reply {
        Some(response) => response.status@ == RPC_SUCCESS@,
        None => false,
    }
}

/// Whether a call of a proxy succeeded.
pub fn is_success(reply: &Option<CommandResponse>) -> (success: bool)
    ensures
        success == rpc_succeeded(*reply),
{
    match reply {
        Some(response) => text_eq(&response.status, RPC_SUCCESS),
        None => false,
    }
}

/// What the fabric asks of a proxy to deploy an agent.
#[derive(Debug)]
pub struct DeployAgentRequest {
    pub agent_id: String,
    pub agent_type: String,
    pub name: String,
    pub parameters: Vec<(String, String)>,
}

/// What the fabric asks of a proxy to stop an agent.
#[derive(Debug)]
pub struct StopAgentRequest {
    pub agent_id: String,
}

/// The call of the fabric that carries out a command.
#[derive(Debug)]
pub enum CommandPlan {
    /// Deploy an agent onto a node.
    Deploy { target_node_id: String, name: String, agent_type: String },
    /// Stop an agent.
    Stop { agent_id: String },
    /// Move an agent to another node.
    Migrate { agent_id: String, destination_node_id: String },
    /// The command is of a known type, but lacks a target or a parameter.
    Invalid,
    /// The command is of a type that is not carried out here.
    Unknown,
}

/// What a [`CommandPlan`] holds, as mathematical values.
pub enum CommandPlanView {
    Deploy { target_node_id: Seq<char>, name: Seq<char>, agent_type: Seq<char> },
    Stop { agent_id: Seq<char> },
    Migrate { agent_id: Seq<char>, destination_node_id: Seq<char> },
    Invalid,
    Unknown,
}

impl View for CommandPlan {
    type V = CommandPlanView;

    open spec fn view(&self) -> CommandPlanView {
        match *self {
            CommandPlan::Deploy { target_node_id, name, agent_type } => CommandPlanView::Deploy {
                target_node_id: target_node_id@,
                name: name@,
                agent_type: agent_type@,
            },
            CommandPlan::Stop { agent_id } => CommandPlanView::Stop { agent_id: agent_id@ },
            CommandPlan::Migrate { agent_id, destination_node_id } => CommandPlanView::Migrate {
                agent_id: agent_id@,
                destination_node_id: destination_node_id@,
            },
            CommandPlan::Invalid => CommandPlanView::Invalid,
            CommandPlan::Unknown => CommandPlanView::Unknown,
        }
    }
}

impl FabricCommandView {
    /// The call that carries out the command. A deployment needs a target and
    /// the parameters `name` and `type`, a stop needs a target, a migration a
    /// target and the parameter `destination_node`; a command that lacks one
    /// of them is invalid. Any other type of command is unknown.
    pub open spec fn plan(self) -> CommandPlanView {
        if self.command_type == DEPLOY_AGENT@ {
            let name = parameter(self.parameters, PARAM_NAME@);
            let agent_type = parameter(self.parameters, PARAM_TYPE@);
            if name.len() == 0 || agent_type.len() == 0 || self.target_id.len() == 0 {
                CommandPlanView::Invalid
            } else {
                CommandPlanView::Deploy { target_node_id: self.target_id, name, agent_type }
            }
        } else if self.command_type == STOP_AGENT@ {
            if self.target_id.len() == 0 {
                CommandPlanView::Invalid
            } else {
                CommandPlanView::Stop { agent_id: self.target_id }
            }
        } else if self.command_type == MIGRATE_AGENT@ {
            let destination = parameter(self.parameters, PARAM_DESTINATION_NODE@);
            if self.target_id.len() == 0 || destination.len() == 0 {
                CommandPlanView::Invalid
            } else {
                CommandPlanView::Migrate {
                    agent_id: self.target_id,
                    destination_node_id: destination,
                }
            }
        } else {
            CommandPlanView::Unknown
        }
    }
}

impl FabricCommand {
    /// The value of the first parameter named `name`, or the empty text where
    /// the command has no such parameter.
    pub fn parameter(&self, name: &str) -> (value: String)
        ensures
            value@ == parameter(self@.parameters, name@),
    {
        let wanted = String::from_str(name);
        let ghost all = self@.parameters;
        let mut i: usize = 0;
        assert(all.skip(0) =~= all);
        while i < self.parameters.len()
            invariant
                i <= self.parameters@.len(),
                all == parameters_view(self.parameters@),
                wanted@ == name@,
                parameter(all, name@) == parameter(all.skip(i as int), name@),
            decreases self.parameters@.len() - i,
        {
            let ghost rest = all.skip(i as int);
            assert(rest.skip(1) =~= all.skip(i + 1));
            if self.parameters[i].0 == wanted {
                return self.parameters[i].1.clone();
            }
            i = i + 1;
        }
        String::new()
    }

    /// The call of the fabric that carries out the command.
    pub fn plan(&self) -> (plan: CommandPlan)
        ensures
            plan@ == self@.plan(),
    {
        if text_eq(&self.command_type, DEPLOY_AGENT) {
            let name = self.parameter(PARAM_NAME);
            let agent_type = self.parameter(PARAM_TYPE);
            if name.as_str().is_empty() || agent_type.as_str().is_empty()
                || self.target_id.as_str().is_empty() {
                CommandPlan::Invalid
            } else {
                CommandPlan::Deploy { target_node_id: self.target_id.clone(), name, agent_type }
            }
        } else if text_eq(&self.command_type, STOP_AGENT) {
            if self.target_id.as_str().is_empty() {
                CommandPlan::Invalid
            } else {
                CommandPlan::Stop { agent_id: self.target_id.clone() }
            }
        } else if text_eq(&self.command_type, MIGRATE_AGENT) {
            let destination = self.parameter(PARAM_DESTINATION_NODE);
            if self.target_id.as_str().is_empty() || destination.as_str().is_empty() {
                CommandPlan::Invalid
            } else {
                CommandPlan::Migrate {
                    agent_id: self.target_id.clone(),
                    destination_node_id: destination,
                }
            }
        } else {
            CommandPlan::Unknown
        }
    }
}

} // verus!
