//! What the service does with each line that a client sends: one answer
//! per line, and the work on sessions that the line asks for.

use vstd::prelude::*;

use crate::daemon::protocol::{ClientMessage, ServerMessage};
use crate::agent::conversation::uuid_v4_text;
use crate::daemon::session::{
    capacity_message, changed_at, check_capacity, describes, started, subscribed, turn_started, unsubscribed, Session,
    SessionManager,
};
use crate::text::concat_str;

verus! {

/// The answer to a line that is no request.
pub fn invalid_message(error: &str) -> (r: ServerMessage)
    ensures
        r matches ServerMessage::Error { message } && message@ == "Invalid message: "@ + error@,
{
    ServerMessage::Error { message: concat_str("Invalid message: ", error) }
}

/// The answer to a request about a session: an acknowledgement when the
/// session exists, else an error that names it.
pub fn session_reply(found: bool, session_id: &str) -> (r: ServerMessage)
    ensures
        found ==> r is Acknowledged,
        !found ==> (r matches ServerMessage::Error { message } && message@ == "Session not found: "@ + session_id@),
{
    if found {
        ServerMessage::Acknowledged
    } else {
        ServerMessage::Error { message: concat_str("Session not found: ", session_id) }
    }
}

/// The answer to a session creation.
pub fn create_reply(result: Result<String, String>) -> (r: ServerMessage)
    ensures
        match result {
            Ok(id) => r matches ServerMessage::SessionCreated { session_id } && session_id == id,
            Err(e) => r matches ServerMessage::Error { message } && message == e,
        },
{
    match result {
        Ok(session_id) => ServerMessage::SessionCreated { session_id },
        Err(message) => ServerMessage::Error { message },
    }
}

/// The tool name and result that a denial records in the session's agent.
pub fn denial_result() -> (r: (String, String))
    ensures
        r.0@ == "unknown"@,
        r.1@ == "DENIED: User rejected this action."@,
{
    ("unknown".to_owned(), "DENIED: User rejected this action.".to_owned())
}

/// The work that a client's line leaves to the service, beside its answer.
pub enum Work {
    Nothing,
    /// Spawn an agent for a new session in this directory, then answer with
    /// `finish_create`
    Spawn { working_dir: String },
    /// Hand the text to the session's agent, as a new turn
    Send { session_id: String, text: String },
    /// Record in the session's agent that its pending action was denied,
    /// with `denial_result`
    Deny { session_id: String },
    /// Stop the service
    Shutdown,
}

/// The answer to a line, where it is known at once, and the work it asks for.
pub struct Response {
    pub reply: Option<ServerMessage>,
    pub work: Work,
}

/// `m` is the error that names a session that does not run.
pub open spec fn not_found(m: Option<ServerMessage>, session_id: Seq<char>) -> bool {
    m matches Some(ServerMessage::Error { message }) && message@ == "Session not found: "@ + session_id
}

/// What the service does with a line from client `client`: the request it
/// holds, or the error in reading it. Every line gets one answer: the reply,
/// or, where a session is to be created, the answer of `finish_create`.
pub fn handle_line(sessions: &mut SessionManager, client: u64, line: Result<ClientMessage, String>) -> (r: Response)
    requires
        old(sessions).wf(),
    ensures
        final(sessions).wf(),
        SessionManager::same_config(*old(sessions), *final(sessions)),
        r.reply is None <==> r.work is Spawn,
        match line {
            Err(e) => r.reply matches Some(ServerMessage::Error { message }) && message@ == "Invalid message: "@ + e@
                && r.work is Nothing && *final(sessions) == *old(sessions),
            Ok(ClientMessage::Ping) => r.reply matches Some(ServerMessage::Pong) && r.work is Nothing && *final(sessions) == *old(sessions),
            Ok(ClientMessage::CreateSession { working_dir }) => *final(sessions) == *old(sessions) && if old(sessions).sessions@.len() >= old(sessions).max_sessions {
                r.reply matches Some(ServerMessage::Error { message }) && message@ == capacity_message(
                    old(sessions).max_sessions as nat,
                ) && r.work is Nothing
            } else {
                r.work matches Work::Spawn { working_dir: w } && w == working_dir
            },
            Ok(ClientMessage::AttachSession { session_id }) => r.work is Nothing && if old(sessions).has(session_id@) {
                r.reply matches Some(ServerMessage::Acknowledged) && changed_at(
                    old(sessions).sessions@,
                    final(sessions).sessions@,
                    session_id@,
                    |a: Session, b: Session| subscribed(a, b, client),
                )
            } else {
                not_found(r.reply, session_id@) && *final(sessions) == *old(sessions)
            },
            Ok(ClientMessage::DetachSession { session_id }) => r.work is Nothing && if old(sessions).has(session_id@) {
                r.reply matches Some(ServerMessage::Acknowledged) && changed_at(
                    old(sessions).sessions@,
                    final(sessions).sessions@,
                    session_id@,
                    |a: Session, b: Session| unsubscribed(a, b, client),
                )
            } else {
                not_found(r.reply, session_id@) && *final(sessions) == *old(sessions)
            },
            Ok(ClientMessage::ListSessions) => r.reply matches Some(ServerMessage::SessionList { sessions: list })
                && r.work is Nothing && *final(sessions) == *old(sessions) && list@.len() == old(sessions).sessions@.len()
                && (forall|i: int| 0 <= i < list@.len() ==> describes(#[trigger] list@[i], old(sessions).sessions@[i])),
            Ok(ClientMessage::SendMessage { session_id, text }) => if old(sessions).has(session_id@) {
                r.reply matches Some(ServerMessage::Acknowledged) && r.work matches Work::Send {
                    session_id: s,
                    text: t,
                } && s@ == session_id@ && t == text && changed_at(
                    old(sessions).sessions@,
                    final(sessions).sessions@,
                    session_id@,
                    |a: Session, b: Session| turn_started(a, b),
                )
            } else {
                not_found(r.reply, session_id@) && r.work is Nothing && *final(sessions) == *old(sessions)
            },
            Ok(ClientMessage::ApproveAction { session_id, approved }) => *final(sessions) == *old(sessions) && if old(sessions).has(session_id@) {
                r.reply matches Some(ServerMessage::Acknowledged) && if approved {
                    r.work is Nothing
                } else {
                    r.work matches Work::Deny { session_id: s } && s@ == session_id@
                }
            } else {
                not_found(r.reply, session_id@) && r.work is Nothing
            },
            Ok(ClientMessage::CancelTurn { .. }) => r.reply matches Some(ServerMessage::Acknowledged) && r.work is Nothing
                && *final(sessions) == *old(sessions),
            Ok(ClientMessage::CompactContext { .. }) => r.reply matches Some(ServerMessage::Acknowledged)
                && r.work is Nothing && *final(sessions) == *old(sessions),
            Ok(ClientMessage::Shutdown) => r.reply matches Some(ServerMessage::Acknowledged) && r.work is Shutdown
                && *final(sessions) == *old(sessions),
        },
{
    let msg = match line {
        Ok(m) => m,
        Err(e) => return Response { reply: Some(invalid_message(e.as_str())), work: Work::Nothing },
    };
    match msg {
        ClientMessage::Ping => Response { reply: Some(ServerMessage::Pong), work: Work::Nothing },
        ClientMessage::CreateSession { working_dir } => match check_capacity(sessions.sessions.len(), sessions.max_sessions) {
            Err(message) => Response { reply: Some(ServerMessage::Error { message }), work: Work::Nothing },
            Ok(()) => Response { reply: None, work: Work::Spawn { working_dir } },
        },
        ClientMessage::AttachSession { session_id } => match sessions.position(session_id.as_str()) {
            Some(i) => {
                let ghost before = sessions.sessions@;
                sessions.sessions[i].subscribe(client);
                proof {
                    assert forall|k: int| 0 <= k < before.len() && k != i implies sessions.sessions@[k] == before[k] by {}
                    assert(before[i as int].session_id@ == session_id@);
                }
                Response { reply: Some(ServerMessage::Acknowledged), work: Work::Nothing }
            },
            None => Response { reply: Some(session_reply(false, session_id.as_str())), work: Work::Nothing },
        },
        ClientMessage::DetachSession { session_id } => match sessions.position(session_id.as_str()) {
            Some(i) => {
                let ghost before = sessions.sessions@;
                sessions.sessions[i].remove_subscriber(client);
                proof {
                    assert forall|k: int| 0 <= k < before.len() && k != i implies sessions.sessions@[k] == before[k] by {}
                    assert(before[i as int].session_id@ == session_id@);
                }
                Response { reply: Some(ServerMessage::Acknowledged), work: Work::Nothing }
            },
            None => Response { reply: Some(session_reply(false, session_id.as_str())), work: Work::Nothing },
        },
        ClientMessage::ListSessions => Response {
            reply: Some(ServerMessage::SessionList { sessions: sessions.list() }),
            work: Work::Nothing,
        },
        ClientMessage::SendMessage { session_id, text } => match sessions.position(session_id.as_str()) {
            Some(i) => {
                let ghost before = sessions.sessions@;
                sessions.sessions[i].send_message();
                proof {
                    assert forall|k: int| 0 <= k < before.len() && k != i implies sessions.sessions@[k] == before[k] by {}
                    assert(before[i as int].session_id@ == session_id@);
                }
                Response { reply: Some(ServerMessage::Acknowledged), work: Work::Send { session_id, text } }
            },
            None => Response { reply: Some(session_reply(false, session_id.as_str())), work: Work::Nothing },
        },
        ClientMessage::ApproveAction { session_id, approved } => match sessions.position(session_id.as_str()) {
            Some(_) => {
                let work = if approved {
                    Work::Nothing
                } else {
                    Work::Deny { session_id }
                };
                Response { reply: Some(ServerMessage::Acknowledged), work }
            },
            None => Response { reply: Some(session_reply(false, session_id.as_str())), work: Work::Nothing },
        },
        ClientMessage::CancelTurn { .. } => Response { reply: Some(ServerMessage::Acknowledged), work: Work::Nothing },
        ClientMessage::CompactContext { .. } => Response {
            reply: Some(ServerMessage::Acknowledged),
            work: Work::Nothing,
        },
        ClientMessage::Shutdown => Response { reply: Some(ServerMessage::Acknowledged), work: Work::Shutdown },
    }
}

/// The answer to a session creation, once its agent was spawned (its
/// model's name) or failed to spawn (the error): the new session's id, or
/// the error; none starts while as many run as the limit allows.
pub fn finish_create(
    sessions: &mut SessionManager,
    working_dir: String,
    spawned: Result<String, String>,
    created_at: String,
) -> (r: ServerMessage)
    requires
        old(sessions).wf(),
    ensures
        final(sessions).wf(),
        SessionManager::same_config(*old(sessions), *final(sessions)),
        old(sessions).sessions@.len() >= old(sessions).max_sessions ==> (r matches ServerMessage::Error { message }
            && message@ == capacity_message(old(sessions).max_sessions as nat) && *final(sessions) == *old(sessions)),
        old(sessions).sessions@.len() < old(sessions).max_sessions ==> match spawned {
            Err(e) => r matches ServerMessage::Error { message } && message@ == e@ && *final(sessions) == *old(sessions),
            Ok(model) => r matches ServerMessage::SessionCreated { session_id } && uuid_v4_text(session_id@) && started(
                old(sessions).sessions@,
                final(sessions).sessions@,
                session_id@,
                working_dir@,
                model@,
                created_at@,
            ),
        },
{
    create_reply(sessions.create_session(working_dir, spawned, created_at))
}

} // verus!
