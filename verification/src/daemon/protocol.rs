//! Messages between a client and the background service.

use vstd::prelude::*;

use crate::agent::agent_loop::AgentEvent;

verus! {

/// A request from a client.
pub enum ClientMessage {
    /// Create a new agent session for a working directory
    CreateSession { working_dir: String },
    /// Attach to an existing session's event stream
    AttachSession { session_id: String },
    /// Stop receiving a session's events
    DetachSession { session_id: String },
    /// List all active sessions
    ListSessions,
    /// Send a user message to a session
    SendMessage { session_id: String, text: String },
    /// Answer a pending approval request
    ApproveAction { session_id: String, approved: bool },
    /// Cancel the current turn
    CancelTurn { session_id: String },
    /// Compact a session's context
    CompactContext { session_id: String },
    /// Shut the service down
    Shutdown,
    /// Health check
    Ping,
}

/// A message from the service to a client.
pub enum ServerMessage {
    SessionCreated { session_id: String },
    SessionList { sessions: Vec<SessionInfo> },
    /// An agent event of a session
    Event { session_id: String, event: AgentEvent },
    /// Acknowledgement
    Acknowledged,
    Error { message: String },
    /// Answer to a ping
    Pong,
}

/// Summary of an active session.
pub struct SessionInfo {
    pub session_id: String,
    pub working_dir: String,
    pub model_name: String,
    pub created_at: String,
}

impl SessionInfo {
    pub fn duplicate(&self) -> (r: Self)
        ensures
            r.session_id@ == self.session_id@,
            r.working_dir@ == self.working_dir@,
            r.model_name@ == self.model_name@,
            r.created_at@ == self.created_at@,
    {
        SessionInfo {
            session_id: self.session_id.clone(),
            working_dir: self.working_dir.clone(),
            model_name: self.model_name.clone(),
            created_at: self.created_at.clone(),
        }
    }
}

} // verus!
