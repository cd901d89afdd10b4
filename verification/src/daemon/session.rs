//! The sessions that the service runs, and the clients subscribed to each.

use vstd::prelude::*;

use crate::agent::agent_loop::AgentEvent;
use crate::agent::conversation::{new_session_id, uuid_v4_text};
use crate::config::settings::Settings;
use crate::daemon::protocol::{ServerMessage, SessionInfo};
use crate::json::str_eq;
use crate::text::{append_str, decimal, push_decimal};

verus! {

/// The error for a service that runs as many sessions as it may.
pub open spec fn capacity_message(max_sessions: nat) -> Seq<char> {
    "Maximum number of sessions ("@ + decimal(max_sessions) + ") reached"@
}

/// A new session may start while fewer than `max_sessions` run.
pub fn check_capacity(count: usize, max_sessions: usize) -> (r: Result<(), String>)
    ensures
        count < max_sessions <==> r is Ok,
        r matches Err(e) ==> e@ == capacity_message(max_sessions as nat),
{
    if count >= max_sessions {
        let mut m = "Maximum number of sessions (".to_owned();
        push_decimal(&mut m, max_sessions as u64);
        append_str(&mut m, ") reached");
        Err(m)
    } else {
        Ok(())
    }
}

/// Whether a batch of events ends the session's turn.
pub open spec fn turn_ended(events: Seq<AgentEvent>) -> bool {
    exists|i: int| 0 <= i < events.len() && events[i]@ is TurnComplete
}

/// Whether a batch of events ends the session's turn.
pub fn ends_turn(events: &Vec<AgentEvent>) -> (r: bool)
    ensures
        r == turn_ended(events@),
{
    let mut i: usize = 0;
    while i < events.len()
        invariant
            i <= events@.len(),
            forall|k: int| 0 <= k < i ==> !(events@[k]@ is TurnComplete),
        decreases events.len() - i,
    {
        if let AgentEvent::TurnComplete = &events[i] {
            return true;
        }
        i = i + 1;
    }
    false
}

/// An agent session run by the service. The agent itself runs beside it,
/// found by the session's id.
pub struct Session {
    pub session_id: String,
    pub working_dir: String,
    pub model_name: String,
    pub created_at: String,
    /// The clients that receive this session's events, by connection number
    pub subscribers: Vec<u64>,
    /// Whether the events of a turn are still awaited
    pub streaming: bool,
}

/// `b` is the session `a`: same id, directory, model and start time.
pub open spec fn same_identity(a: Session, b: Session) -> bool {
    &&& a.session_id@ == b.session_id@
    &&& a.working_dir@ == b.working_dir@
    &&& a.model_name@ == b.model_name@
    &&& a.created_at@ == b.created_at@
}

/// `i` summarises session `s`.
pub open spec fn describes(i: SessionInfo, s: Session) -> bool {
    &&& i.session_id@ == s.session_id@
    &&& i.working_dir@ == s.working_dir@
    &&& i.model_name@ == s.model_name@
    &&& i.created_at@ == s.created_at@
}

/// `b` is `a` with client `client` subscribed.
pub open spec fn subscribed(a: Session, b: Session, client: u64) -> bool {
    same_identity(a, b) && b.streaming == a.streaming && b.subscribers@ == a.subscribers@.push(client)
}

/// `b` is `a` with every subscription of client `client` dropped.
pub open spec fn unsubscribed(a: Session, b: Session, client: u64) -> bool {
    same_identity(a, b) && b.streaming == a.streaming && b.subscribers@ == a.subscribers@.filter(other_than(client))
}

/// Whether a client is another than `client`.
pub open spec fn other_than(client: u64) -> spec_fn(u64) -> bool {
    |c: u64| c != client
}

/// Of the first `n` subscribers, those whose send succeeded (`delivered`,
/// one entry per subscriber), in their order.
pub open spec fn kept_first(subs: Seq<u64>, delivered: Seq<bool>, n: int) -> Seq<u64>
    decreases n,
{
    if n <= 0 {
        Seq::empty()
    } else if delivered[n - 1] {
        kept_first(subs, delivered, n - 1).push(subs[n - 1])
    } else {
        kept_first(subs, delivered, n - 1)
    }
}

/// `b` is `a` awaiting the events of a new turn.
pub open spec fn turn_started(a: Session, b: Session) -> bool {
    same_identity(a, b) && b.subscribers@ == a.subscribers@ && b.streaming
}

impl Session {
    /// The session's summary.
    pub fn info(&self) -> (r: SessionInfo)
        ensures
            describes(r, *self),
    {
        SessionInfo {
            session_id: self.session_id.clone(),
            working_dir: self.working_dir.clone(),
            model_name: self.model_name.clone(),
            created_at: self.created_at.clone(),
        }
    }

    /// Adds a client to those that receive the session's events.
    pub fn subscribe(&mut self, client: u64)
        ensures
            subscribed(*old(self), *final(self), client),
    {
        self.subscribers.push(client);
    }

    /// Stops sending the session's events to a client.
    pub fn remove_subscriber(&mut self, client: u64)
        ensures
            unsubscribed(*old(self), *final(self), client),
    {
        let ghost subs = self.subscribers@;
        let mut kept: Vec<u64> = Vec::new();
        let mut i: usize = 0;
        while i < self.subscribers.len()
            invariant
                self.subscribers@ == subs,
                i <= subs.len(),
                kept@ == subs.take(i as int).filter(other_than(client)),
            decreases subs.len() - i,
        {
            let c = self.subscribers[i];
            proof {
                subs.take(i as int).lemma_filter_push(c, other_than(client));
                assert(subs.take(i + 1) =~= subs.take(i as int).push(c));
            }
            if c != client {
                kept.push(c);
            }
            i = i + 1;
        }
        assert(subs.take(subs.len() as int) =~= subs);
        self.subscribers = kept;
    }

    /// The message that carries one of the session's events to each of its
    /// subscribers.
    pub fn event_message(&self, event: AgentEvent) -> (r: ServerMessage)
        ensures
            r matches ServerMessage::Event { session_id, event: e } && session_id@ == self.session_id@ && e == event,
    {
        ServerMessage::Event { session_id: self.session_id.clone(), event }
    }

    /// After an event was sent to each subscriber in turn, keeps those whose
    /// send succeeded (`delivered`, one entry per subscriber, in their
    /// order) and drops the others.
    pub fn keep_delivered(&mut self, delivered: &Vec<bool>)
        requires
            delivered@.len() == old(self).subscribers@.len(),
        ensures
            same_identity(*old(self), *final(self)),
            final(self).streaming == old(self).streaming,
            final(self).subscribers@ == kept_first(
                old(self).subscribers@,
                delivered@,
                old(self).subscribers@.len() as int,
            ),
    {
        let ghost subs = self.subscribers@;
        let mut kept: Vec<u64> = Vec::new();
        let mut i: usize = 0;
        while i < self.subscribers.len()
            invariant
                self.subscribers@ == subs,
                delivered@.len() == subs.len(),
                i <= subs.len(),
                kept@ == kept_first(subs, delivered@, i as int),
            decreases subs.len() - i,
        {
            if delivered[i] {
                kept.push(self.subscribers[i]);
            }
            i = i + 1;
        }
        self.subscribers = kept;
    }

    /// Marks the start of a turn, whose events are then awaited.
    pub fn send_message(&mut self)
        ensures
            turn_started(*old(self), *final(self)),
    {
        self.streaming = true;
    }

    /// Takes in a batch of the turn's events, received while the agent's
    /// stream was open (`disconnected` when it closed), and tells whether
    /// further events are awaited: not after a closed stream or the end of
    /// the turn. Each event of the batch goes, in order, to every subscriber
    /// as `event_message` makes it, and `keep_delivered` then drops those
    /// that could not take it.
    pub fn drain_events(&mut self, events: &Vec<AgentEvent>, disconnected: bool) -> (r: bool)
        ensures
            same_identity(*old(self), *final(self)),
            final(self).subscribers@ == old(self).subscribers@,
            final(self).streaming == (old(self).streaming && !disconnected && !turn_ended(events@)),
            r == final(self).streaming,
    {
        if !self.streaming {
            return false;
        }
        if disconnected || ends_turn(events) {
            self.streaming = false;
        }
        self.streaming
    }
}

/// `b` is `a` with the session `id` changed as `f` says and the others kept.
pub open spec fn changed_at(
    a: Seq<Session>,
    b: Seq<Session>,
    id: Seq<char>,
    f: spec_fn(Session, Session) -> bool,
) -> bool {
    &&& b.len() == a.len()
    &&& forall|i: int|
        0 <= i < a.len() ==> if a[i].session_id@ == id {
            f(a[i], b[i])
        } else {
            b[i] == a[i]
        }
}

/// `b` is `a` with a new session `id` for `working_dir`, run by model
/// `model` since `created_at`, with no subscriber yet: added after the
/// others, or in place of the one with the same id.
pub open spec fn started(
    a: Seq<Session>,
    b: Seq<Session>,
    id: Seq<char>,
    working_dir: Seq<char>,
    model: Seq<char>,
    created_at: Seq<char>,
) -> bool {
    &&& exists|i: int| 0 <= i < b.len() && #[trigger] b[i].session_id@ == id
    &&& b.len() == a.len() + (if (exists|i: int| 0 <= i < a.len() && #[trigger] a[i].session_id@ == id) {
        0int
    } else {
        1int
    })
    &&& forall|i: int| 0 <= i < a.len() && a[i].session_id@ != id ==> b[i] == a[i]
    &&& forall|i: int|
        0 <= i < b.len() && #[trigger] b[i].session_id@ == id ==> {
            &&& b[i].working_dir@ == working_dir
            &&& b[i].model_name@ == model
            &&& b[i].created_at@ == created_at
            &&& b[i].subscribers@.len() == 0
            &&& !b[i].streaming
        }
}

/// The sessions of the service.
pub struct SessionManager {
    pub sessions: Vec<Session>,
    pub settings: Settings,
    pub max_sessions: usize,
}

impl SessionManager {
    /// No two sessions share an id.
    pub open spec fn wf(&self) -> bool {
        forall|i: int, j: int|
            0 <= i < j < self.sessions@.len() ==> self.sessions@[i].session_id@
                != self.sessions@[j].session_id@
    }

    /// A session with id `id` runs.
    pub open spec fn has(&self, id: Seq<char>) -> bool {
        exists|i: int| 0 <= i < self.sessions@.len() && #[trigger] self.sessions@[i].session_id@ == id
    }

    /// `b` runs with the settings and the limit of `a`.
    pub open spec fn same_config(a: SessionManager, b: SessionManager) -> bool {
        b.settings == a.settings && b.max_sessions == a.max_sessions
    }

    pub fn new(settings: Settings, max_sessions: usize) -> (r: Self)
        ensures
            r.sessions@.len() == 0,
            r.settings == settings,
            r.max_sessions == max_sessions,
            r.wf(),
    {
        SessionManager { sessions: Vec::new(), settings, max_sessions }
    }

    /// The place of the session with id `session_id`.
    pub fn position(&self, session_id: &str) -> (r: Option<usize>)
        requires
            self.wf(),
        ensures
            match r {
                Some(i) => i < self.sessions@.len() && self.sessions@[i as int].session_id@ == session_id@,
                None => !self.has(session_id@),
            },
    {
        let mut i: usize = 0;
        while i < self.sessions.len()
            invariant
                i <= self.sessions@.len(),
                forall|k: int| 0 <= k < i ==> self.sessions@[k].session_id@ != session_id@,
            decreases self.sessions@.len() - i,
        {
            if str_eq(self.sessions[i].session_id.as_str(), session_id) {
                return Some(i);
            }
            i = i + 1;
        }
        None
    }

    /// The session with id `session_id`.
    pub fn get(&self, session_id: &str) -> (r: Option<&Session>)
        requires
            self.wf(),
        ensures
            match r {
                Some(s) => exists|i: int|
                    0 <= i < self.sessions@.len() && self.sessions@[i] == *s && s.session_id@ == session_id@,
                None => !self.has(session_id@),
            },
    {
        match self.position(session_id) {
            Some(i) => Some(&self.sessions[i]),
            None => None,
        }
    }

    /// Starts a session for `working_dir` with the agent that was spawned for
    /// it (its model's name, or the error in spawning it), under a freshly
    /// drawn id, which it returns. No session starts when as many run as the
    /// limit allows.
    pub fn create_session(&mut self, working_dir: String, spawned: Result<String, String>, created_at: String) -> (r:
        Result<String, String>)
        requires
            old(self).wf(),
        ensures
            final(self).wf(),
            Self::same_config(*old(self), *final(self)),
            old(self).sessions@.len() >= old(self).max_sessions ==> (r matches Err(e) && e@ == capacity_message(
                old(self).max_sessions as nat,
            ) && *final(self) == *old(self)),
            old(self).sessions@.len() < old(self).max_sessions ==> match spawned {
                Err(s) => r matches Err(e) && e@ == s@ && *final(self) == *old(self),
                Ok(model) => r matches Ok(id) && uuid_v4_text(id@) && started(
                    old(self).sessions@,
                    final(self).sessions@,
                    id@,
                    working_dir@,
                    model@,
                    created_at@,
                ),
            },
    {
        if let Err(e) = check_capacity(self.sessions.len(), self.max_sessions) {
            return Err(e);
        }
        let model_name = match spawned {
            Ok(m) => m,
            Err(e) => return Err(e),
        };
        let session_id = new_session_id();
        let session = Session {
            session_id: session_id.clone(),
            working_dir,
            model_name,
            created_at,
            subscribers: Vec::new(),
            streaming: false,
        };
        let ghost before = self.sessions@;
        match self.position(session_id.as_str()) {
            Some(i) => {
                self.sessions.set(i, session);
                assert(self.sessions@ == before.update(i as int, self.sessions@[i as int]));
                assert(self.sessions@[i as int].session_id@ == session_id@);
            },
            None => {
                self.sessions.push(session);
                assert(self.sessions@[before.len() as int].session_id@ == session_id@);
            },
        }
        Ok(session_id)
    }

    /// Ends the session with id `session_id`, and returns it.
    pub fn remove(&mut self, session_id: &str) -> (r: Option<Session>)
        requires
            old(self).wf(),
        ensures
            final(self).wf(),
            Self::same_config(*old(self), *final(self)),
            match r {
                Some(s) => s.session_id@ == session_id@ && exists|i: int|
                    0 <= i < old(self).sessions@.len() && old(self).sessions@[i] == s && final(self).sessions@
                        == old(self).sessions@.remove(i),
                None => !old(self).has(session_id@) && *final(self) == *old(self),
            },
    {
        match self.position(session_id) {
            Some(i) => {
                let ghost before = self.sessions@;
                let s = self.sessions.remove(i);
                assert forall|a: int, b: int| 0 <= a < b < self.sessions@.len() implies self.sessions@[a].session_id@
                    != self.sessions@[b].session_id@ by {
                    let a0 = if a < i { a } else { a + 1 };
                    let b0 = if b < i { b } else { b + 1 };
                    assert(self.sessions@[a] == before[a0]);
                    assert(self.sessions@[b] == before[b0]);
                }
                Some(s)
            },
            None => None,
        }
    }

    /// The summaries of the running sessions.
    pub fn list(&self) -> (r: Vec<SessionInfo>)
        ensures
            r@.len() == self.sessions@.len(),
            forall|i: int| 0 <= i < r@.len() ==> describes(#[trigger] r@[i], self.sessions@[i]),
    {
        let mut out: Vec<SessionInfo> = Vec::new();
        let mut i: usize = 0;
        while i < self.sessions.len()
            invariant
                i <= self.sessions@.len(),
                out@.len() == i,
                forall|k: int| 0 <= k < i ==> describes(#[trigger] out@[k], self.sessions@[k]),
            decreases self.sessions@.len() - i,
        {
            out.push(self.sessions[i].info());
            i = i + 1;
        }
        out
    }

    /// Ends every session, and returns their ids, for their agents to be
    /// stopped.
    pub fn shutdown_all(&mut self) -> (r: Vec<String>)
        ensures
            final(self).sessions@.len() == 0,
            Self::same_config(*old(self), *final(self)),
            r@.len() == old(self).sessions@.len(),
            forall|i: int| 0 <= i < r@.len() ==> #[trigger] r@[i]@ == old(self).sessions@[i].session_id@,
    {
        let mut ids: Vec<String> = Vec::new();
        let mut i: usize = 0;
        while i < self.sessions.len()
            invariant
                i <= self.sessions@.len(),
                ids@.len() == i,
                forall|k: int| 0 <= k < i ==> #[trigger] ids@[k]@ == self.sessions@[k].session_id@,
            decreases self.sessions@.len() - i,
        {
            ids.push(self.sessions[i].session_id.clone());
            i = i + 1;
        }
        self.sessions = Vec::new();
        ids
    }
}

} // verus!
