//! Events: what the fabric announces of every change, in its internal form
//! and in the form that leaves the process.

use vstd::prelude::*;
use vstd::string::*;
use crate::agent::{opt_progress, AIAgent, AIAgentView};
use crate::clock::{is_clock_stamp, stamp_text, Timestamp};
use crate::ident::{fresh_uuid, is_hyphenated_uuid};
use crate::node::{ComputeNode, ComputeNodeView};
use crate::progress::{progress_text, TaskProgress};
use crate::text::{clone_opt, join2, join4, opt_text};

verus! {

/// Type of the event that announces a registered node.
pub const NODE_REGISTERED: &'static str = "NODE_REGISTERED";

/// Type of the event that announces a node's status report.
pub const NODE_STATUS_UPDATE: &'static str = "NODE_STATUS_UPDATE";

/// Type of the event that announces a reaped node.
pub const NODE_PRUNED: &'static str = "NODE_PRUNED";

/// Type of the event that announces a registered agent.
pub const AGENT_REGISTERED: &'static str = "AGENT_REGISTERED";

/// Type of the event that announces an agent's status report.
pub const AGENT_STATUS_UPDATE: &'static str = "AGENT_STATUS_UPDATE";

/// Type of the event that announces a reaped agent.
pub const AGENT_PRUNED: &'static str = "AGENT_PRUNED";

/// Type of the event that announces a command.
pub const FABRIC_COMMAND_ISSUED: &'static str = "FABRIC_COMMAND_ISSUED";

/// The number of events that a channel holds for a subscriber that lags.
pub const EVENT_BUS_CAPACITY: usize = 100;

/// Metadata key under which an agent's task travels.
pub const META_CURRENT_TASK: &'static str = "current_task";

/// Metadata key under which an agent's progress travels.
pub const META_TASK_PROGRESS: &'static str = "task_progress";

/// A change in the fabric, as the process itself speaks of it.
#[derive(Debug)]
pub enum InternalFabricEvent {
    /// A node was registered.
    NodeRegistered(ComputeNode),
    /// A node reported its status: node, status, telemetry summary.
    NodeStatusUpdate(String, String, Option<String>),
    /// A stale node was removed.
    NodePruned(String),
    /// An agent was registered.
    AgentRegistered(AIAgent),
    /// An agent's status changed: agent, status, task, progress.
    AgentStatusUpdate(String, String, Option<String>, Option<TaskProgress>),
    /// An agent without a node was removed.
    AgentPruned(String),
    /// A command was issued: command type, target.
    FabricCommandIssued(String, String),
}

/// What an [`InternalFabricEvent`] holds, as mathematical values.
pub enum InternalFabricEventView {
    NodeRegistered(ComputeNodeView),
    NodeStatusUpdate(Seq<char>, Seq<char>, Option<Seq<char>>),
    NodePruned(Seq<char>),
    AgentRegistered(AIAgentView),
    AgentStatusUpdate(Seq<char>, Seq<char>, Option<Seq<char>>, Option<nat>),
    AgentPruned(Seq<char>),
    FabricCommandIssued(Seq<char>, Seq<char>),
}

impl View for InternalFabricEvent {
    type V = InternalFabricEventView;

    open spec fn view(&self) -> InternalFabricEventView {
        match *self {
            InternalFabricEvent::NodeRegistered(node) => InternalFabricEventView::NodeRegistered(
                node@,
            ),
            InternalFabricEvent::NodeStatusUpdate(id, status, summary) =>
                InternalFabricEventView::NodeStatusUpdate(id@, status@, opt_text(summary)),
            InternalFabricEvent::NodePruned(id) => InternalFabricEventView::NodePruned(id@),
            InternalFabricEvent::AgentRegistered(agent) => InternalFabricEventView::AgentRegistered(
                agent@,
            ),
            InternalFabricEvent::AgentStatusUpdate(id, status, task, progress) =>
                InternalFabricEventView::AgentStatusUpdate(
                    id@,
                    status@,
                    opt_text(task),
                    opt_progress(progress),
                ),
            InternalFabricEvent::AgentPruned(id) => InternalFabricEventView::AgentPruned(id@),
            InternalFabricEvent::FabricCommandIssued(command_type, target) =>
                InternalFabricEventView::FabricCommandIssued(command_type@, target@),
        }
    }
}

impl Clone for InternalFabricEvent {
    fn clone(&self) -> (copy: Self)
        ensures
            copy@ == self@,
    {
        match self {
            InternalFabricEvent::NodeRegistered(node) => InternalFabricEvent::NodeRegistered(
                node.clone(),
            ),
            InternalFabricEvent::NodeStatusUpdate(id, status, summary) =>
                InternalFabricEvent::NodeStatusUpdate(id.clone(), status.clone(), clone_opt(summary)),
            InternalFabricEvent::NodePruned(id) => InternalFabricEvent::NodePruned(id.clone()),
            InternalFabricEvent::AgentRegistered(agent) => InternalFabricEvent::AgentRegistered(
                agent.clone(),
            ),
            InternalFabricEvent::AgentStatusUpdate(id, status, task, progress) =>
                InternalFabricEvent::AgentStatusUpdate(
                    id.clone(),
                    status.clone(),
                    clone_opt(task),
                    *progress,
                ),
            InternalFabricEvent::AgentPruned(id) => InternalFabricEvent::AgentPruned(id.clone()),
            InternalFabricEvent::FabricCommandIssued(command_type, target) =>
                InternalFabricEvent::FabricCommandIssued(command_type.clone(), target.clone()),
        }
    }
}

/// A telemetry report in the form in which the fabric passes it on.
#[derive(Debug)]
pub struct TelemetryData {
    pub summary: String,
}

/// An event in the form that leaves the process.
#[derive(Debug)]
pub struct FabricEvent {
    pub event_id: String,
    pub timestamp: String,
    pub event_type: String,
    pub message: String,
    /// Further details, as pairs of key and value, each key once.
    pub metadata: Vec<(String, String)>,
    /// Filled by the telemetry service only; the fabric itself leaves it empty.
    pub telemetry: Option<TelemetryData>,
}

/// What a [`FabricEvent`] holds, as mathematical values.
pub struct FabricEventView {
    pub event_id: Seq<char>,
    pub timestamp: Seq<char>,
    pub event_type: Seq<char>,
    pub message: Seq<char>,
    pub metadata: Seq<(Seq<char>, Seq<char>)>,
    pub telemetry: Option<Seq<char>>,
}

/// The pairs of a metadata list, as character sequences.
pub open spec fn metadata_view(pairs: Seq<(String, String)>) -> Seq<(Seq<char>, Seq<char>)> {
    Seq::new(pairs.len(), |i: int| (pairs[i].0@, pairs[i].1@))
}

/// The summary of an optional telemetry report.
pub open spec fn telemetry_view(t: Option<TelemetryData>) -> Option<Seq<char>> {
    match t {
        Some(data) => Some(data.summary@),
        None => None,
    }
}

impl View for FabricEvent {
    type V = FabricEventView;

    open spec fn view(&self) -> FabricEventView {
        FabricEventView {
            event_id: self.event_id@,
            timestamp: self.timestamp@,
            event_type: self.event_type@,
            message: self.message@,
            metadata: metadata_view(self.metadata@),
            telemetry: telemetry_view(self.telemetry),
        }
    }
}

impl Clone for FabricEvent {
    fn clone(&self) -> (copy: Self)
        ensures
            copy@ == self@,
    {
        let mut metadata: Vec<(String, String)> = Vec::new();
        let mut i: usize = 0;
        while i < self.metadata.len()
            invariant
                i <= self.metadata@.len(),
                metadata@.len() == i,
                forall|k: int|
                    0 <= k < i ==> (#[trigger] metadata@[k]).0@ == self.metadata@[k].0@
                        && metadata@[k].1@ == self.metadata@[k].1@,
            decreases self.metadata@.len() - i,
        {
            metadata.push((self.metadata[i].0.clone(), self.metadata[i].1.clone()));
            i = i + 1;
        }
        let telemetry = match &self.telemetry {
            Some(data) => Some(TelemetryData { summary: data.summary.clone() }),
            None => None,
        };
        let copy = FabricEvent {
            event_id: self.event_id.clone(),
            timestamp: self.timestamp.clone(),
            event_type: self.event_type.clone(),
            message: self.message.clone(),
            metadata,
            telemetry,
        };
        assert(copy@.metadata =~= self@.metadata);
        copy
    }
}

impl InternalFabricEventView {
    /// The type under which the event leaves the process.
    pub open spec fn event_type(self) -> Seq<char> {
        match self {
            InternalFabricEventView::NodeRegistered(_) => NODE_REGISTERED@,
            InternalFabricEventView::NodeStatusUpdate(_, _, _) => NODE_STATUS_UPDATE@,
            InternalFabricEventView::NodePruned(_) => NODE_PRUNED@,
            InternalFabricEventView::AgentRegistered(_) => AGENT_REGISTERED@,
            InternalFabricEventView::AgentStatusUpdate(_, _, _, _) => AGENT_STATUS_UPDATE@,
            InternalFabricEventView::AgentPruned(_) => AGENT_PRUNED@,
            InternalFabricEventView::FabricCommandIssued(_, _) => FABRIC_COMMAND_ISSUED@,
        }
    }

    /// The sentence that tells a reader what happened.
    pub open spec fn message(self) -> Seq<char> {
        match self {
            InternalFabricEventView::NodeRegistered(node) => "Node registered: "@ + node.id,
            InternalFabricEventView::NodeStatusUpdate(id, status, _) => "Node "@ + id
                + " status updated: "@ + status,
            InternalFabricEventView::NodePruned(id) => "Node pruned: "@ + id,
            InternalFabricEventView::AgentRegistered(agent) => "Agent registered: "@ + agent.id,
            InternalFabricEventView::AgentStatusUpdate(id, status, _, _) => "Agent "@ + id
                + " status updated: "@ + status,
            InternalFabricEventView::AgentPruned(id) => "Agent pruned: "@ + id,
            InternalFabricEventView::FabricCommandIssued(command_type, target) =>
                "Command issued: "@ + command_type + " to "@ + target,
        }
    }

    /// The details that travel with the event: an agent's task and progress
    /// where its status update carries them, nothing otherwise.
    pub open spec fn metadata(self) -> Seq<(Seq<char>, Seq<char>)> {
        match self {
            InternalFabricEventView::AgentStatusUpdate(_, _, task, progress) => {
                let task_part = match task {
                    Some(t) => seq![(META_CURRENT_TASK@, t)],
                    None => Seq::empty(),
                };
                let progress_part = match progress {
                    Some(p) => seq![(META_TASK_PROGRESS@, progress_text(p))],
                    None => Seq::empty(),
                };
                task_part + progress_part
            },
            _ => Seq::empty(),
        }
    }

    /// The event in the form that leaves the process, under the given
    /// identifier and time.
    pub open spec fn project(self, event_id: Seq<char>, timestamp: Seq<char>) -> FabricEventView {
        FabricEventView {
            event_id,
            timestamp,
            event_type: self.event_type(),
            message: self.message(),
            metadata: self.metadata(),
            telemetry: None,
        }
    }
}

impl InternalFabricEvent {
    /// The type under which the event leaves the process.
    pub fn event_type(&self) -> (tag: &'static str)
        ensures
            tag@ == self@.event_type(),
    {
        match self {
            InternalFabricEvent::NodeRegistered(_) => NODE_REGISTERED,
            InternalFabricEvent::NodeStatusUpdate(_, _, _) => NODE_STATUS_UPDATE,
            InternalFabricEvent::NodePruned(_) => NODE_PRUNED,
            InternalFabricEvent::AgentRegistered(_) => AGENT_REGISTERED,
            InternalFabricEvent::AgentStatusUpdate(_, _, _, _) => AGENT_STATUS_UPDATE,
            InternalFabricEvent::AgentPruned(_) => AGENT_PRUNED,
            InternalFabricEvent::FabricCommandIssued(_, _) => FABRIC_COMMAND_ISSUED,
        }
    }

    /// The sentence that tells a reader what happened.
    pub fn message(&self) -> (text: String)
        ensures
            text@ == self@.message(),
    {
        match self {
            InternalFabricEvent::NodeRegistered(node) => join2(
                "Node registered: ",
                node.id.as_str(),
            ),
            InternalFabricEvent::NodeStatusUpdate(id, status, _) => join4(
                "Node ",
                id.as_str(),
                " status updated: ",
                status.as_str(),
            ),
            InternalFabricEvent::NodePruned(id) => join2("Node pruned: ", id.as_str()),
            InternalFabricEvent::AgentRegistered(agent) => join2(
                "Agent registered: ",
                agent.id.as_str(),
            ),
            InternalFabricEvent::AgentStatusUpdate(id, status, _, _) => join4(
                "Agent ",
                id.as_str(),
                " status updated: ",
                status.as_str(),
            ),
            InternalFabricEvent::AgentPruned(id) => join2("Agent pruned: ", id.as_str()),
            InternalFabricEvent::FabricCommandIssued(command_type, target) => join4(
                "Command issued: ",
                command_type.as_str(),
                " to ",
                target.as_str(),
            ),
        }
    }

    /// The details that travel with the event.
    pub fn metadata(&self) -> (pairs: Vec<(String, String)>)
        ensures
            metadata_view(pairs@) == self@.metadata(),
    {
        let mut pairs: Vec<(String, String)> = Vec::new();
        match self {
            InternalFabricEvent::AgentStatusUpdate(_, _, task, progress) => {
                match task {
                    Some(t) => {
                        pairs.push((String::from_str(META_CURRENT_TASK), t.clone()));
                    },
                    None => {},
                }
                match progress {
                    Some(p) => {
                        pairs.push((String::from_str(META_TASK_PROGRESS), p.render()));
                    },
                    None => {},
                }
            },
            _ => {},
        }
        pairs
    }
}

/// The event `event` in the form that leaves the process, under the given
/// identifier and time.
pub fn project_event(event: &InternalFabricEvent, event_id: String, timestamp: String) -> (wire:
    FabricEvent)
    ensures
        wire@ == event@.project(event_id@, timestamp@),
{
    FabricEvent {
        event_id,
        timestamp,
        event_type: String::from_str(event.event_type()),
        message: event.message(),
        metadata: event.metadata(),
        telemetry: None,
    }
}

/// The event `event` in the form that leaves the process, under a fresh
/// identifier and the current time. The time is left empty where the clock
/// shows one that has no RFC 3339 text.
pub fn convert_event(event: &InternalFabricEvent) -> (wire: FabricEvent)
    ensures
        wire@ == event@.project(wire@.event_id, wire@.timestamp),
        is_hyphenated_uuid(wire@.event_id),
        is_clock_stamp(wire@.timestamp),
{
    let event_id = fresh_uuid();
    let now = Timestamp::now();
    let timestamp = now.stamp();
    assert(timestamp@ == stamp_text(now));
    project_event(event, event_id, timestamp)
}

} // verus!
