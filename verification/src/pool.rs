//! The pool of clients: for each node whose proxy could be dialled, the
//! handle through which commands reach it.

use vstd::prelude::*;
use crate::table::{entry_of, has_key, Entry, Keyed, Table};
use crate::text::opt_text;

verus! {

/// The handle of one node's proxy.
pub struct NodeClient<C> {
    pub node_id: String,
    pub handle: C,
}

/// What a [`NodeClient`] holds: the node's identifier and the handle.
pub struct NodeClientView<C> {
    pub node_id: Seq<char>,
    pub handle: C,
}

impl<C> View for NodeClient<C> {
    type V = NodeClientView<C>;

    open spec fn view(&self) -> NodeClientView<C> {
        NodeClientView { node_id: self.node_id@, handle: self.handle }
    }
}

impl<C> Keyed for NodeClientView<C> {
    open spec fn key(self) -> Seq<char> {
        self.node_id
    }
}

impl<C> Entry for NodeClient<C> {
    fn key_text(&self) -> (k: &String) {
        &self.node_id
    }
}

/// The clients of the nodes that could be dialled, each node at most once.
/// A client stays for good: no other is stored for its node.
pub struct NodeClientPool<C> {
    pub clients: Table<NodeClient<C>>,
}

impl<C> View for NodeClientPool<C> {
    type V = Seq<NodeClientView<C>>;

    open spec fn view(&self) -> Seq<NodeClientView<C>> {
        self.clients@
    }
}

/// Whether the node `node_id` with the proxy address `proxy_address` is to
/// be dialled: it has a proxy address and no client is held for it yet. A
/// client that is held is kept, also where the node registers again.
pub open spec fn wants_dial<C>(
    pool: Seq<NodeClientView<C>>,
    node_id: Seq<char>,
    proxy_address: Option<Seq<char>>,
) -> bool {
    proxy_address is Some && !has_key(pool, node_id)
}

/// The pool `pool` after the attempt to dial the node `node_id`: with the
/// handle stored where the dial gave one and none was held for the node,
/// unchanged otherwise.
pub open spec fn ensured<C>(
    pool: Seq<NodeClientView<C>>,
    node_id: Seq<char>,
    dialled: Option<C>,
) -> Seq<NodeClientView<C>> {
    match dialled {
        Some(handle) => if has_key(pool, node_id) {
            pool
        } else {
            pool.push(NodeClientView { node_id, handle })
        },
        None => pool,
    }
}

impl<C> NodeClientPool<C> {
    /// The pool without any client.
    pub fn new() -> (pool: Self)
        ensures
            pool@ == Seq::<NodeClientView<C>>::empty(),
    {
        NodeClientPool { clients: Table::new() }
    }

    /// Whether the node `node_id` with the proxy address `proxy_address` is
    /// to be dialled.
    pub fn wants_dial(&self, node_id: &String, proxy_address: &Option<String>) -> (wanted: bool)
        ensures
            wanted == wants_dial(self@, node_id@, opt_text(*proxy_address)),
    {
        proxy_address.is_some() && !self.clients.contains(node_id)
    }

    /// Records the outcome of dialling the node `node_id`: stores the handle
    /// where the dial gave one and none is held for the node, and leaves the
    /// pool as it was otherwise.
    pub fn ensure(&mut self, node_id: String, dialled: Option<C>)
        ensures
            final(self)@ == ensured(old(self)@, node_id@, dialled),
    {
        match dialled {
            Some(handle) => {
                if !self.clients.contains(&node_id) {
                    self.clients.upsert(NodeClient { node_id, handle });
                }
            },
            None => {},
        }
    }

    /// Whether the pool holds a client for the node `node_id`.
    pub fn contains(&self, node_id: &String) -> (present: bool)
        ensures
            present == has_key(self@, node_id@),
    {
        self.clients.contains(node_id)
    }

    /// The client of the node `node_id`, if the pool holds one.
    pub fn get(&self, node_id: &String) -> (found: Option<&C>)
        ensures
            found is Some <==> has_key(self@, node_id@),
            found is Some ==> *found.unwrap() == entry_of(self@, node_id@).handle,
    {
        match self.clients.get(node_id) {
            Some(client) => Some(&client.handle),
            None => None,
        }
    }
}

} // verus!
