//! The registry: the nodes and agents that the fabric knows, each under its
//! identifier.

use vstd::prelude::*;
use crate::agent::{AIAgent, AIAgentView};
use crate::node::{ComputeNode, ComputeNodeView};
use crate::table::{entry_of, has_key, keys_distinct, Table};

verus! {

/// The key under which the registry is persisted.
pub const STATE_KEY: &'static str = "fabric_state";

/// The authoritative state of the fabric. No identifier occurs twice among
/// the nodes, nor among the agents.
pub struct FabricState {
    pub compute_nodes: Table<ComputeNode>,
    pub ai_agents: Table<AIAgent>,
}

/// What a [`FabricState`] holds, as mathematical values: the nodes and the
/// agents, each in the order in which their identifiers first came.
pub struct FabricStateView {
    pub compute_nodes: Seq<ComputeNodeView>,
    pub ai_agents: Seq<AIAgentView>,
}

impl View for FabricState {
    type V = FabricStateView;

    open spec fn view(&self) -> FabricStateView {
        FabricStateView { compute_nodes: self.compute_nodes@, ai_agents: self.ai_agents@ }
    }
}

impl FabricStateView {
    /// The registry without any node or agent.
    pub open spec fn empty() -> FabricStateView {
        FabricStateView { compute_nodes: Seq::empty(), ai_agents: Seq::empty() }
    }

    /// Whether no identifier occurs twice among the nodes, nor among the agents.
    pub open spec fn well_formed(self) -> bool {
        keys_distinct(self.compute_nodes) && keys_distinct(self.ai_agents)
    }

    /// Whether a node is registered under `id`.
    pub open spec fn has_node(self, id: Seq<char>) -> bool {
        has_key(self.compute_nodes, id)
    }

    /// The node registered under `id`.
    pub open spec fn node(self, id: Seq<char>) -> ComputeNodeView {
        entry_of(self.compute_nodes, id)
    }

    /// Whether an agent is registered under `id`.
    pub open spec fn has_agent(self, id: Seq<char>) -> bool {
        has_key(self.ai_agents, id)
    }

    /// The agent registered under `id`.
    pub open spec fn agent(self, id: Seq<char>) -> AIAgentView {
        entry_of(self.ai_agents, id)
    }
}

impl Default for FabricState {
    fn default() -> (state: Self)
        ensures
            state@ == FabricStateView::empty(),
    {
        FabricState { compute_nodes: Table::new(), ai_agents: Table::new() }
    }
}

impl Clone for FabricState {
    fn clone(&self) -> (copy: Self)
        ensures
            copy@ == self@,
    {
        FabricState {
            compute_nodes: self.compute_nodes.duplicate(),
            ai_agents: self.ai_agents.duplicate(),
        }
    }
}

impl FabricState {
    /// Whether a node is registered under `id`.
    pub fn contains_node(&self, id: &String) -> (present: bool)
        ensures
            present == self@.has_node(id@),
    {
        self.compute_nodes.contains(id)
    }

    /// The node registered under `id`, if there is one.
    pub fn node(&self, id: &String) -> (found: Option<&ComputeNode>)
        ensures
            found is Some <==> self@.has_node(id@),
            found is Some ==> found.unwrap()@ == self@.node(id@),
    {
        self.compute_nodes.get(id)
    }

    /// Whether an agent is registered under `id`.
    pub fn contains_agent(&self, id: &String) -> (present: bool)
        ensures
            present == self@.has_agent(id@),
    {
        self.ai_agents.contains(id)
    }

    /// The agent registered under `id`, if there is one.
    pub fn agent(&self, id: &String) -> (found: Option<&AIAgent>)
        ensures
            found is Some <==> self@.has_agent(id@),
            found is Some ==> found.unwrap()@ == self@.agent(id@),
    {
        self.ai_agents.get(id)
    }

    /// The number of registered nodes.
    pub fn node_count(&self) -> (n: usize)
        ensures
            n == self@.compute_nodes.len(),
            self@.well_formed(),
    {
        let _ = self.ai_agents.len();
        self.compute_nodes.len()
    }

    /// The number of registered agents.
    pub fn agent_count(&self) -> (n: usize)
        ensures
            n == self@.ai_agents.len(),
            self@.well_formed(),
    {
        let _ = self.compute_nodes.len();
        self.ai_agents.len()
    }
}

} // verus!
