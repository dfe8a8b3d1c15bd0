//! Agents: the workloads that the fabric deploys onto compute nodes.

use vstd::prelude::*;
use crate::progress::TaskProgress;
use crate::table::{Entry, Keyed, Replicable};
use crate::text::{clone_opt, opt_text};

verus! {

/// Status of an agent whose deployment has been requested.
pub const STATUS_DEPLOYING: &'static str = "Deploying";

/// Status of an agent that its node reports as started.
pub const STATUS_RUNNING: &'static str = "Running";

/// Status of an agent that is being stopped.
pub const STATUS_STOPPING: &'static str = "Stopping";

/// Status of an agent that its node reports as stopped.
pub const STATUS_STOPPED: &'static str = "Stopped";

/// Status of an agent that is moving to another node.
pub const STATUS_MIGRATING: &'static str = "Migrating";

/// Status of an agent whose deployment did not succeed.
pub const STATUS_FAILED: &'static str = "Failed";

/// Status of an agent whose stop did not succeed.
pub const STATUS_ERROR: &'static str = "Error";

/// Status of an agent that has no task.
pub const STATUS_IDLE: &'static str = "Idle";

/// An agent known to the fabric.
#[derive(Debug)]
pub struct AIAgent {
    pub id: String,
    pub name: String,
    pub agent_type: String,
    /// The node that hosts the agent. The node existed when the agent was
    /// assigned to it; it may have left the registry since.
    pub assigned_node_id: Option<String>,
    pub status: String,
    pub current_task: Option<String>,
    pub task_progress: Option<TaskProgress>,
}

/// What an [`AIAgent`] holds, as mathematical values.
pub struct AIAgentView {
    pub id: Seq<char>,
    pub name: Seq<char>,
    pub agent_type: Seq<char>,
    pub assigned_node_id: Option<Seq<char>>,
    pub status: Seq<char>,
    pub current_task: Option<Seq<char>>,
    /// The progress in millionths.
    pub task_progress: Option<nat>,
}

/// An optional progress, in millionths.
pub open spec fn opt_progress(p: Option<TaskProgress>) -> Option<nat> {
    match p {
        Some(progress) => Some(progress.value()),
        None => None,
    }
}

impl View for AIAgent {
    type V = AIAgentView;

    open spec fn view(&self) -> AIAgentView {
        AIAgentView {
            id: self.id@,
            name: self.name@,
            agent_type: self.agent_type@,
            assigned_node_id: opt_text(self.assigned_node_id),
            status: self.status@,
            current_task: opt_text(self.current_task),
            task_progress: opt_progress(self.task_progress),
        }
    }
}

impl Keyed for AIAgentView {
    open spec fn key(self) -> Seq<char> {
        self.id
    }
}

impl Entry for AIAgent {
    fn key_text(&self) -> (k: &String) {
        &self.id
    }
}

impl Replicable for AIAgent {
    fn duplicate(&self) -> (copy: Self) {
        self.clone()
    }
}

impl AIAgentView {
    /// The agent after a status report.
    pub open spec fn with_report(
        self,
        status: Seq<char>,
        current_task: Option<Seq<char>>,
        task_progress: Option<nat>,
    ) -> AIAgentView {
        AIAgentView { status, current_task, task_progress, ..self }
    }

    /// The agent with another status and everything else as it was.
    pub open spec fn with_status(self, status: Seq<char>) -> AIAgentView {
        AIAgentView { status, ..self }
    }

    /// The agent on its way to the node `destination`.
    pub open spec fn migrating_to(self, destination: Seq<char>) -> AIAgentView {
        AIAgentView {
            assigned_node_id: Some(destination),
            status: STATUS_MIGRATING@,
            ..self
        }
    }
}

impl Clone for AIAgent {
    fn clone(&self) -> (copy: Self)
        ensures
            copy@ == self@,
    {
        AIAgent {
            id: self.id.clone(),
            name: self.name.clone(),
            agent_type: self.agent_type.clone(),
            assigned_node_id: clone_opt(&self.assigned_node_id),
            status: self.status.clone(),
            current_task: clone_opt(&self.current_task),
            task_progress: self.task_progress,
        }
    }
}

} // verus!
