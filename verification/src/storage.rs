//! What the auxiliary stores keep of nodes and agents, and the keys under
//! which they keep it.

use vstd::prelude::*;
use vstd::string::*;
use crate::clock::Timestamp;
use crate::config::DatabaseConfig;
use crate::text::join2;

verus! {

/// What the key of every stored node starts with.
pub const NODE_KEY_PREFIX: &'static str = "node:";

/// What the key of every stored agent starts with.
pub const AGENT_KEY_PREFIX: &'static str = "agent:";

/// The state of a stored node.
#[derive(Debug)]
pub enum NodeStatus {
    Online,
    Offline,
    Maintenance,
    Error(String),
}

/// The state of a stored agent.
#[derive(Debug)]
pub enum AgentStatus {
    Starting,
    Running,
    Stopping,
    Stopped,
    Error(String),
    Migrating,
}

/// A node as the auxiliary stores keep it.
#[derive(Debug)]
pub struct FabricNode {
    pub node_id: String,
    pub ip_address: String,
    pub proxy_listen_address: String,
    pub capabilities: String,
    pub agent_type: String,
    pub status: NodeStatus,
    pub last_seen: Timestamp,
    pub created_at: Timestamp,
    pub metadata: Vec<(String, String)>,
}

impl NodeStatus {
    /// Whether the node can take work.
    pub fn is_online(&self) -> (online: bool)
        ensures
            online == (*self is Online),
    {
        match self {
            NodeStatus::Online => true,
            _ => false,
        }
    }
}

impl AgentStatus {
    /// Whether the agent has come to rest: it is stopped or failed.
    pub fn is_terminal(&self) -> (terminal: bool)
        ensures
            terminal == (*self is Stopped || *self is Error),
    {
        match self {
            AgentStatus::Stopped => true,
            AgentStatus::Error(_) => true,
            _ => false,
        }
    }
}

impl FabricNode {
    /// The node in the state `status`, last seen at `now`.
    pub fn with_status(self, status: NodeStatus, now: Timestamp) -> (node: Self)
        ensures
            node == (FabricNode { status, last_seen: now, ..self }),
    {
        let mut node = self;
        node.status = status;
        node.last_seen = now;
        node
    }

    /// The key under which the node is stored.
    pub fn storage_key(&self) -> (key: String)
        ensures
            key@ == NODE_KEY_PREFIX@ + self.node_id@,
    {
        node_key(self.node_id.as_str())
    }
}

/// Which stores are opened under a configuration.
#[derive(Debug)]
pub struct StoragePlan {
    /// Whether the embedded store is opened.
    pub open_embedded: bool,
    /// The address of the relational store, where one is configured.
    pub postgres_url: Option<String>,
    /// Whether the relational store is prepared for time series.
    pub prepare_timeseries: bool,
}

/// The stores that are opened under `config`: the embedded one where it is
/// asked for, the relational one where its address is given, and that one
/// prepared for time series where that is asked for as well.
pub fn storage_plan(config: &DatabaseConfig) -> (plan: StoragePlan)
    ensures
        plan.open_embedded == config.use_rocksdb,
        match config.postgres_url {
            Some(url) => plan.postgres_url matches Some(u) && u@ == url@,
            None => plan.postgres_url is None,
        },
        plan.prepare_timeseries == (config.postgres_url is Some && config.use_timescaledb),
{
    let postgres_url = match &config.postgres_url {
        Some(url) => Some(url.clone()),
        None => None,
    };
    let prepare_timeseries = postgres_url.is_some() && config.use_timescaledb;
    StoragePlan { open_embedded: config.use_rocksdb, postgres_url, prepare_timeseries }
}

/// The key under which the node `node_id` is stored.
pub fn node_key(node_id: &str) -> (key: String)
    ensures
        key@ == NODE_KEY_PREFIX@ + node_id@,
{
    join2(NODE_KEY_PREFIX, node_id)
}

/// The key under which the agent `agent_id` is stored.
pub fn agent_key(agent_id: &str) -> (key: String)
    ensures
        key@ == AGENT_KEY_PREFIX@ + agent_id@,
{
    join2(AGENT_KEY_PREFIX, agent_id)
}

} // verus!
