//! Compute nodes: the hosts that register with the fabric.

use vstd::prelude::*;
use crate::clock::Timestamp;
use crate::table::{Entry, Keyed, Replicable};
use crate::text::{clone_opt, join2, opt_text, text_eq};

verus! {

/// Status of a node that accepts deployments.
pub const STATUS_ONLINE: &'static str = "Online";

/// Status of a node that is reachable but impaired.
pub const STATUS_DEGRADED: &'static str = "Degraded";

/// Status of a node that is not reachable.
pub const STATUS_OFFLINE: &'static str = "Offline";

/// What stands before a proxy's address in the endpoint that is dialled.
pub const ENDPOINT_SCHEME: &'static str = "http://";

/// A registered compute host.
#[derive(Debug)]
pub struct ComputeNode {
    pub id: String,
    pub node_type: String,
    pub last_seen: Timestamp,
    pub status: String,
    pub capabilities: String,
    pub ip_address: String,
    /// Address of the node's proxy service; without it the node is kept in
    /// the registry only and no command can be dispatched to it.
    pub proxy_listen_address: Option<String>,
}

/// What a [`ComputeNode`] holds, as mathematical values.
pub struct ComputeNodeView {
    pub id: Seq<char>,
    pub node_type: Seq<char>,
    pub last_seen: Timestamp,
    pub status: Seq<char>,
    pub capabilities: Seq<char>,
    pub ip_address: Seq<char>,
    pub proxy_listen_address: Option<Seq<char>>,
}

impl View for ComputeNode {
    type V = ComputeNodeView;

    open spec fn view(&self) -> ComputeNodeView {
        ComputeNodeView {
            id: self.id@,
            node_type: self.node_type@,
            last_seen: self.last_seen,
            status: self.status@,
            capabilities: self.capabilities@,
            ip_address: self.ip_address@,
            proxy_listen_address: opt_text(self.proxy_listen_address),
        }
    }
}

impl Keyed for ComputeNodeView {
    open spec fn key(self) -> Seq<char> {
        self.id
    }
}

impl Entry for ComputeNode {
    fn key_text(&self) -> (k: &String) {
        &self.id
    }
}

impl Replicable for ComputeNode {
    fn duplicate(&self) -> (copy: Self) {
        self.clone()
    }
}

impl ComputeNodeView {
    /// Whether the node accepts deployments.
    pub open spec fn is_online(self) -> bool {
        self.status == STATUS_ONLINE@
    }

    /// Whether commands can be dispatched to the node.
    pub open spec fn is_dispatchable(self) -> bool {
        self.proxy_listen_address is Some
    }

    /// The address at which the node's proxy is dialled, if it has one.
    pub open spec fn proxy_endpoint(self) -> Option<Seq<char>> {
        match self.proxy_listen_address {
            Some(address) => Some(ENDPOINT_SCHEME@ + address),
            None => None,
        }
    }

    /// The node after a status report at `now`.
    pub open spec fn with_status(self, status: Seq<char>, now: Timestamp) -> ComputeNodeView {
        ComputeNodeView { status, last_seen: now, ..self }
    }
}

impl Clone for ComputeNode {
    fn clone(&self) -> (copy: Self)
        ensures
            copy@ == self@,
    {
        ComputeNode {
            id: self.id.clone(),
            node_type: self.node_type.clone(),
            last_seen: self.last_seen,
            status: self.status.clone(),
            capabilities: self.capabilities.clone(),
            ip_address: self.ip_address.clone(),
            proxy_listen_address: clone_opt(&self.proxy_listen_address),
        }
    }
}

impl ComputeNode {
    /// Whether the node accepts deployments.
    pub fn is_online(&self) -> (online: bool)
        ensures
            online == self@.is_online(),
    {
        text_eq(&self.status, STATUS_ONLINE)
    }

    /// Whether commands can be dispatched to the node.
    pub fn is_dispatchable(&self) -> (dispatchable: bool)
        ensures
            dispatchable == self@.is_dispatchable(),
    {
        self.proxy_listen_address.is_some()
    }

    /// The address at which the node's proxy is dialled, if it has one.
    pub fn proxy_endpoint(&self) -> (endpoint: Option<String>)
        ensures
            opt_text(endpoint) == self@.proxy_endpoint(),
    {
        match &self.proxy_listen_address {
            Some(address) => Some(join2(ENDPOINT_SCHEME, address.as_str())),
            None => None,
        }
    }
}

} // verus!
