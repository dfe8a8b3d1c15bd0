//! Fresh identifiers for nodes, agents and events.

use vstd::prelude::*;
use crate::text::join2;

verus! {

/// What every node identifier starts with.
pub const NODE_ID_PREFIX: &'static str = "node-";

/// What every agent identifier starts with.
pub const AGENT_ID_PREFIX: &'static str = "agent-";

/// Whether `c` is a decimal digit or one of the letters `a` to `f`.
pub open spec fn is_lower_hex(c: char) -> bool {
    ('0' <= c && c <= '9') || ('a' <= c && c <= 'f')
}

/// Whether `s` has the hyphenated form of a UUID: 36 characters, hyphens at
/// places 8, 13, 18 and 23, lower-case hexadecimal digits elsewhere.
pub open spec fn is_hyphenated_uuid(s: Seq<char>) -> bool {
    &&& s.len() == 36
    &&& forall|i: int|
        0 <= i < 36 ==> if i == 8 || i == 13 || i == 18 || i == 23 {
            #[trigger] s[i] == '-'
        } else {
            is_lower_hex(s[i])
        }
}

/// A random UUID in hyphenated form.
///
/// Trusted: calls `uuid::Uuid::new_v4` and formats the result with its
/// `Display` impl, which writes the hyphenated lower-case form. Which UUID
/// comes back is left open. The call does not return where the system
/// gives no random bytes.
#[verifier::external_body]
pub(crate) fn fresh_uuid() -> (id: String)
    ensures
        is_hyphenated_uuid(id@),
{
    uuid::Uuid::new_v4().to_string()
}

/// The node identifier made from `uuid`.
pub fn node_id_from(uuid: &str) -> (id: String)
    ensures
        id@ == NODE_ID_PREFIX@ + uuid@,
{
    join2(NODE_ID_PREFIX, uuid)
}

/// The agent identifier made from `uuid`.
pub fn agent_id_from(uuid: &str) -> (id: String)
    ensures
        id@ == AGENT_ID_PREFIX@ + uuid@,
{
    join2(AGENT_ID_PREFIX, uuid)
}

/// An identifier for a node that registers: `node-` and a fresh UUID.
pub fn fresh_node_id() -> (id: String)
    ensures
        exists|uuid: Seq<char>| is_hyphenated_uuid(uuid) && id@ == NODE_ID_PREFIX@ + uuid,
{
    let uuid = fresh_uuid();
    node_id_from(uuid.as_str())
}

/// An identifier for an agent that is deployed: `agent-` and a fresh UUID.
pub fn fresh_agent_id() -> (id: String)
    ensures
        exists|uuid: Seq<char>| is_hyphenated_uuid(uuid) && id@ == AGENT_ID_PREFIX@ + uuid,
{
    let uuid = fresh_uuid();
    agent_id_from(uuid.as_str())
}

} // verus!
