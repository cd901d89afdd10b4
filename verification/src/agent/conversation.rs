//! The conversation: the message history sent to the model, and the
//! timestamped turns kept for persistence.

use vstd::prelude::*;

use crate::json::{json_compact_text, json_to_text, JsonValue};
use crate::llm::types::{
    Message, MessageModel, Role, ToolCallFunction, ToolCallResponse, UsageStats,
};
use crate::text::append_str;

verus! {

/// A point in time: seconds since the Unix epoch and nanoseconds within the second.
#[derive(Clone, Copy, Debug)]
pub struct Timestamp {
    pub secs: i64,
    pub nanos: u32,
}

/// Where the system clock stands against the Unix epoch
/// (`SystemTime::now().duration_since(UNIX_EPOCH)`): whether it is at or
/// after the epoch, and the whole seconds and the nanoseconds (below one
/// second) of the distance either way.
#[verifier::external_body]
fn clock_offset() -> (r: (bool, u64, u32))
    ensures
        r.2 < 1_000_000_000,
{
    match std::time::SystemTime::now().duration_since(std::time::UNIX_EPOCH) {
        Ok(d) => (true, d.as_secs(), d.subsec_nanos()),
        Err(e) => (false, e.duration().as_secs(), e.duration().subsec_nanos()),
    }
}

/// Seconds as a signed count; a distance past the signed range is held at its bound.
pub open spec fn signed_secs(secs: u64) -> i64 {
    if secs <= i64::MAX as u64 {
        secs as i64
    } else {
        i64::MAX
    }
}

/// The time at a distance from the epoch, in whole seconds and the
/// nanoseconds after them: before the epoch, a fractional distance rounds
/// the seconds down.
pub open spec fn timestamp_of(after: bool, secs: u64, nanos: u32) -> Timestamp {
    let s = signed_secs(secs);
    if after {
        Timestamp { secs: s, nanos }
    } else if nanos == 0 {
        Timestamp { secs: (-s) as i64, nanos: 0 }
    } else {
        Timestamp { secs: (-s - 1) as i64, nanos: (1_000_000_000 - nanos) as u32 }
    }
}

/// The current UTC time; a clock set before the epoch gives a negative time.
fn current_time() -> (t: Timestamp)
    ensures
        t.nanos < 1_000_000_000,
{
    let (after, secs, nanos) = clock_offset();
    let s: i64 = if secs <= 9_223_372_036_854_775_807u64 {
        secs as i64
    } else {
        9_223_372_036_854_775_807i64
    };
    let t = if after {
        Timestamp { secs: s, nanos }
    } else if nanos == 0 {
        Timestamp { secs: (-s) as i64, nanos: 0 }
    } else {
        Timestamp { secs: -s - 1, nanos: 1_000_000_000 - nanos }
    };
    assert(t == timestamp_of(after, secs, nanos));
    t
}

/// A lowercase hexadecimal digit.
pub open spec fn is_hex_digit(c: char) -> bool {
    ('0' <= c <= '9') || ('a' <= c <= 'f')
}

/// The hyphenated lowercase text of a random (version 4, RFC variant) UUID:
/// five groups of 8, 4, 4, 4 and 12 hexadecimal digits.
pub open spec fn uuid_v4_text(s: Seq<char>) -> bool {
    &&& s.len() == 36
    &&& forall|i: int| 0 <= i < 36 ==> (if i == 8 || i == 13 || i == 18 || i == 23 {
        #[trigger] s[i] == '-'
    } else {
        is_hex_digit(s[i])
    })
    &&& s[14] == '4'
    &&& (s[19] == '8' || s[19] == '9' || s[19] == 'a' || s[19] == 'b')
}

/// A random UUID in its hyphenated text form (`uuid::Uuid::new_v4`, then
/// its `Display`).
#[verifier::external_body]
pub(crate) fn new_session_id() -> (r: String)
    ensures
        uuid_v4_text(r@),
{
    uuid::Uuid::new_v4().to_string()
}

/// Token counts of one turn.
#[derive(Clone, Copy, Debug)]
pub struct TurnUsage {
    pub prompt_tokens: u32,
    pub completion_tokens: u32,
}

/// A single turn of the conversation, for persistence.
pub struct ConversationTurn {
    pub timestamp: Timestamp,
    pub role: String,
    pub content: String,
    pub tool_name: Option<String>,
    pub token_usage: Option<TurnUsage>,
}

/// Whether `t` is a turn with this role, text and tool name and no usage.
pub open spec fn turn_is(t: ConversationTurn, role: Seq<char>, content: Seq<char>, tool_name: Option<Seq<char>>) -> bool {
    &&& t.role@ == role
    &&& t.content@ == content
    &&& match (t.tool_name, tool_name) {
        (Some(a), Some(b)) => a@ == b,
        (None, None) => true,
        _ => false,
    }
    &&& t.token_usage is None
}

/// `after` is `before` with one more element at the end.
pub open spec fn appended<T>(before: Seq<T>, after: Seq<T>) -> bool {
    after.len() == before.len() + 1 && after.take(before.len() as int) == before
}

/// The conversation state.
pub struct Conversation {
    /// The message history sent to the model
    pub messages: Vec<Message>,
    /// Full history for persistence
    pub turns: Vec<ConversationTurn>,
    /// Session identifier
    pub session_id: String,
    /// Total tokens used in this conversation
    pub total_prompt_tokens: u32,
    pub total_completion_tokens: u32,
}

/// The text recorded for a tool call turn.
pub open spec fn tool_call_text(name: Seq<char>, arguments: JsonValue) -> Seq<char> {
    "Calling tool: "@ + name + " with args: "@ + json_compact_text(arguments@)
}

impl Conversation {
    /// An empty conversation with a fresh session identifier.
    pub fn new() -> (r: Self)
        ensures
            r.messages@.len() == 0,
            r.turns@.len() == 0,
            uuid_v4_text(r.session_id@),
            r.total_prompt_tokens == 0,
            r.total_completion_tokens == 0,
    {
        Conversation {
            messages: Vec::new(),
            turns: Vec::new(),
            session_id: new_session_id(),
            total_prompt_tokens: 0,
            total_completion_tokens: 0,
        }
    }

    fn push_plain(&mut self, role: Role, role_name: &str, content: &str, tool_name: Option<&str>)
        ensures
            appended(old(self).messages@, final(self).messages@),
            final(self).messages@.last()@ == (MessageModel {
                role,
                content: content@,
                tool_calls: None,
                tool_name: match tool_name {
                    Some(n) => Some(n@),
                    None => None,
                },
            }),
            appended(old(self).turns@, final(self).turns@),
            turn_is(final(self).turns@.last(), role_name@, content@, match tool_name {
                Some(n) => Some(n@),
                None => None,
            }),
            final(self).session_id == old(self).session_id,
            final(self).total_prompt_tokens == old(self).total_prompt_tokens,
            final(self).total_completion_tokens == old(self).total_completion_tokens,
    {
        let ghost om = self.messages@;
        let ghost ot = self.turns@;
        self.messages.push(
            Message {
                role,
                content: content.to_owned(),
                tool_calls: None,
                tool_name: match tool_name {
                    Some(n) => Some(n.to_owned()),
                    None => None,
                },
            },
        );
        self.turns.push(
            ConversationTurn {
                timestamp: current_time(),
                role: role_name.to_owned(),
                content: content.to_owned(),
                tool_name: match tool_name {
                    Some(n) => Some(n.to_owned()),
                    None => None,
                },
                token_usage: None,
            },
        );
        assert(self.messages@.take(om.len() as int) =~= om);
        assert(self.turns@.take(ot.len() as int) =~= ot);
    }

    /// Add a user message.
    pub fn add_user_message(&mut self, content: &str)
        ensures
            appended(old(self).messages@, final(self).messages@),
            final(self).messages@.last()@ == (MessageModel {
                role: Role::User,
                content: content@,
                tool_calls: None,
                tool_name: None,
            }),
            appended(old(self).turns@, final(self).turns@),
            turn_is(final(self).turns@.last(), "user"@, content@, None),
            final(self).session_id == old(self).session_id,
            final(self).total_prompt_tokens == old(self).total_prompt_tokens,
            final(self).total_completion_tokens == old(self).total_completion_tokens,
    {
        self.push_plain(Role::User, "user", content, None);
    }

    /// Add an assistant message.
    pub fn add_assistant_message(&mut self, content: &str)
        ensures
            appended(old(self).messages@, final(self).messages@),
            final(self).messages@.last()@ == (MessageModel {
                role: Role::Assistant,
                content: content@,
                tool_calls: None,
                tool_name: None,
            }),
            appended(old(self).turns@, final(self).turns@),
            turn_is(final(self).turns@.last(), "assistant"@, content@, None),
            final(self).session_id == old(self).session_id,
            final(self).total_prompt_tokens == old(self).total_prompt_tokens,
            final(self).total_completion_tokens == old(self).total_completion_tokens,
    {
        self.push_plain(Role::Assistant, "assistant", content, None);
    }

    /// Add a tool result message.
    pub fn add_tool_result(&mut self, tool_name: &str, result: &str)
        ensures
            appended(old(self).messages@, final(self).messages@),
            final(self).messages@.last()@ == (MessageModel {
                role: Role::Tool,
                content: result@,
                tool_calls: None,
                tool_name: Some(tool_name@),
            }),
            appended(old(self).turns@, final(self).turns@),
            turn_is(final(self).turns@.last(), "tool"@, result@, Some(tool_name@)),
            final(self).session_id == old(self).session_id,
            final(self).total_prompt_tokens == old(self).total_prompt_tokens,
            final(self).total_completion_tokens == old(self).total_completion_tokens,
    {
        self.push_plain(Role::Tool, "tool", result, Some(tool_name));
    }

    /// Add an assistant message that calls a tool (native tool calling).
    pub fn add_assistant_tool_call(&mut self, tool_name: &str, arguments: &JsonValue)
        ensures
            appended(old(self).messages@, final(self).messages@),
            final(self).messages@.last()@ == (MessageModel {
                role: Role::Assistant,
                content: Seq::empty(),
                tool_calls: Some(seq![(tool_name@, arguments@)]),
                tool_name: None,
            }),
            appended(old(self).turns@, final(self).turns@),
            turn_is(final(self).turns@.last(), "assistant"@, tool_call_text(tool_name@, *arguments), Some(tool_name@)),
            final(self).session_id == old(self).session_id,
            final(self).total_prompt_tokens == old(self).total_prompt_tokens,
            final(self).total_completion_tokens == old(self).total_completion_tokens,
    {
        let mut content = String::new();
        append_str(&mut content, "Calling tool: ");
        append_str(&mut content, tool_name);
        append_str(&mut content, " with args: ");
        let args_text = json_to_text(arguments);
        append_str(&mut content, args_text.as_str());
        let ghost om = self.messages@;
        let ghost ot = self.turns@;
        let calls: Vec<ToolCallResponse> = vec![
            ToolCallResponse {
                function: ToolCallFunction { name: tool_name.to_owned(), arguments: arguments.deep_clone() },
            },
        ];
        self.messages.push(
            Message { role: Role::Assistant, content: String::new(), tool_calls: Some(calls), tool_name: None },
        );
        assert(self.messages@.last()@.tool_calls->Some_0 =~= seq![(tool_name@, arguments@)]);
        self.turns.push(
            ConversationTurn {
                timestamp: current_time(),
                role: "assistant".to_owned(),
                content,
                tool_name: Some(tool_name.to_owned()),
                token_usage: None,
            },
        );
        assert(self.turns@.last().content@ =~= tool_call_text(tool_name@, *arguments));
        assert(self.messages@.take(om.len() as int) =~= om);
        assert(self.turns@.take(ot.len() as int) =~= ot);
    }

    /// Record the token usage of a completed call.
    pub fn record_usage(&mut self, stats: &UsageStats)
        requires
            old(self).total_prompt_tokens + stats.prompt_tokens <= u32::MAX,
            old(self).total_completion_tokens + stats.completion_tokens <= u32::MAX,
        ensures
            final(self).total_prompt_tokens == old(self).total_prompt_tokens + stats.prompt_tokens,
            final(self).total_completion_tokens == old(self).total_completion_tokens
                + stats.completion_tokens,
            final(self).messages == old(self).messages,
            final(self).turns == old(self).turns,
            final(self).session_id == old(self).session_id,
    {
        self.total_prompt_tokens = self.total_prompt_tokens + stats.prompt_tokens;
        self.total_completion_tokens = self.total_completion_tokens + stats.completion_tokens;
    }

    /// Number of messages.
    pub fn len(&self) -> (n: usize)
        ensures
            n == self.messages@.len(),
    {
        self.messages.len()
    }
}

/// Where a session's turns are saved: `sessions/<id>.json` under the data
/// directory.
pub fn session_file(data_dir: &str, session_id: &str) -> (r: String)
    ensures
        r@ == crate::tools::paths::join_path(
            crate::tools::paths::join_path(data_dir@, "sessions"@),
            session_id@ + ".json"@,
        ),
{
    let dir = crate::tools::paths::join(data_dir, "sessions");
    let mut name = session_id.to_owned();
    append_str(&mut name, ".json");
    crate::tools::paths::join(dir.as_str(), name.as_str())
}

} // verus!
