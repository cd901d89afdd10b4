//! The decisions of the agentic loop. Each model call and each tool run is
//! done by the caller; these steps say what the conversation becomes and
//! which events the user interface is sent.

use vstd::prelude::*;

use crate::agent::context::{ContextManager, truncated_text};
use crate::agent::conversation::{appended, tool_call_text, turn_is, Conversation};
use crate::agent::system_prompt::{build_system_prompt, system_prompt_text};
use crate::config::settings::Settings;
use crate::json::{JsonModel, JsonValue};
use crate::llm::capabilities::ModelCapabilities;
use crate::llm::stream::StreamEventModel;
use crate::llm::types::{fallback_arguments, fallback_tool_name};
use crate::json::str_field;
use crate::text::str_byte_len;
use crate::llm::types::{
    fallback_of, fallback_schema_model, messages_model, parse_fallback_tool_call,
    tool_call_fallback_schema, Message, MessageModel, Role, StreamEvent, ToolCall, ToolDefinition,
};
use crate::json::json_parse_text;
use crate::text::{append_str, byte_len, decimal, push_decimal};
use crate::tools::registry::{default_tools, descriptions_text, kind_description, kind_name, kind_schema, ToolRegistry};
use crate::tools::types::{ToolResult, ToolResultModel};

verus! {

/// Events sent to the user interface.
pub enum AgentEvent {
    /// Streaming text from the assistant
    TextDelta(String),
    /// Reasoning text of a model in JSON fallback mode
    Thinking(String),
    /// A tool is about to be called
    ToolCallStart { name: String, arguments: JsonValue },
    /// A tool finished
    ToolResult { name: String, result: String, is_error: bool },
    /// A tool needs user approval
    NeedsApproval { tool_name: String, description: String, preview: Option<String>, arguments: JsonValue },
    /// The agent asks the user a question
    AskUser(String),
    /// The agent completed the task
    Complete(String),
    /// Token usage: totals so far, and the estimated tokens of the context
    /// against the history budget
    UsageUpdate { prompt_tokens: u32, completion_tokens: u32, used_tokens: u32, budget_tokens: u32 },
    /// An error
    Error(String),
    /// The turn is over; no more events for it
    TurnComplete,
}

/// Model of an event.
pub enum EventModel {
    TextDelta(Seq<char>),
    Thinking(Seq<char>),
    ToolCallStart(Seq<char>, JsonModel),
    ToolResult(Seq<char>, Seq<char>, bool),
    NeedsApproval(Seq<char>, Seq<char>, Option<Seq<char>>, JsonModel),
    AskUser(Seq<char>),
    Complete(Seq<char>),
    UsageUpdate(u32, u32, u32, u32),
    Error(Seq<char>),
    TurnComplete,
}

impl View for AgentEvent {
    type V = EventModel;

    open spec fn view(&self) -> EventModel {
        match self {
            AgentEvent::TextDelta(t) => EventModel::TextDelta(t@),
            AgentEvent::Thinking(t) => EventModel::Thinking(t@),
            AgentEvent::ToolCallStart { name, arguments } => EventModel::ToolCallStart(name@, arguments@),
            AgentEvent::ToolResult { name, result, is_error } => EventModel::ToolResult(name@, result@, *is_error),
            AgentEvent::NeedsApproval { tool_name, description, preview, arguments } => EventModel::NeedsApproval(
                tool_name@,
                description@,
                match preview {
                    Some(p) => Some(p@),
                    None => None,
                },
                arguments@,
            ),
            AgentEvent::AskUser(q) => EventModel::AskUser(q@),
            AgentEvent::Complete(r) => EventModel::Complete(r@),
            AgentEvent::UsageUpdate { prompt_tokens, completion_tokens, used_tokens, budget_tokens } => EventModel::UsageUpdate(
                *prompt_tokens,
                *completion_tokens,
                *used_tokens,
                *budget_tokens,
            ),
            AgentEvent::Error(e) => EventModel::Error(e@),
            AgentEvent::TurnComplete => EventModel::TurnComplete,
        }
    }
}

pub open spec fn events_model(es: Seq<AgentEvent>) -> Seq<EventModel> {
    es.map_values(|e: AgentEvent| e@)
}

/// How a step of the loop ends.
#[derive(Clone, Copy, Debug, PartialEq, Eq, Structural)]
pub enum TurnOutcome {
    /// The agent called tools and goes on with their results
    Continue,
    /// The agent is done (a text answer, or completion)
    Complete,
    /// The agent waits for the user (a question, or an approval)
    WaitForUser,
}

/// Largest tool output kept, in tokens.
pub const TOOL_RESULT_TOKENS: u32 = 4096;

/// The event, the message added to the history (if any), and the outcome
/// for a tool result.
pub open spec fn tool_result_step(name: Seq<char>, r: ToolResultModel) -> (EventModel, Option<Seq<char>>, TurnOutcome) {
    match r {
        ToolResultModel::Success(out) => {
            let t = if byte_len(out) <= TOOL_RESULT_TOKENS * 4 {
                out
            } else {
                truncated_text(out, (TOOL_RESULT_TOKENS * 4) as nat)
            };
            (EventModel::ToolResult(name, t, false), Some(t), TurnOutcome::Continue)
        },
        ToolResultModel::Error(e) => (EventModel::ToolResult(name, e, true), Some("ERROR: "@ + e), TurnOutcome::Continue),
        ToolResultModel::AskUser(q) => (EventModel::AskUser(q), None, TurnOutcome::WaitForUser),
        ToolResultModel::Complete(c) => (EventModel::Complete(c), None, TurnOutcome::Complete),
        ToolResultModel::NeedsApproval(p) => (
            EventModel::NeedsApproval(p.tool_name, p.description, p.preview, p.arguments),
            None,
            TurnOutcome::WaitForUser,
        ),
    }
}

/// A tool's result decides how the step goes on: an output or an error lets
/// the agent go on (the model sees the error, prefixed with `ERROR: `, and
/// can recover), a question or an approval request waits for the user, and
/// only completion ends the turn. Outputs and errors are shown and recorded
/// for the named tool (an output that fits the budget whole); the others
/// are passed on as events and record nothing.
pub proof fn law_tool_result_outcome(name: Seq<char>, r: ToolResultModel)
    ensures
        (tool_result_step(name, r).2 == TurnOutcome::Continue) <==> (r is Success || r is Error),
        (tool_result_step(name, r).2 == TurnOutcome::WaitForUser) <==> (r is AskUser || r is NeedsApproval),
        (tool_result_step(name, r).2 == TurnOutcome::Complete) <==> r is Complete,
        (tool_result_step(name, r).1 is Some) <==> (r is Success || r is Error),
        r matches ToolResultModel::Error(e) ==> tool_result_step(name, r).0 == EventModel::ToolResult(name, e, true)
            && tool_result_step(name, r).1 == Some("ERROR: "@ + e),
        r matches ToolResultModel::Success(out) ==> (tool_result_step(name, r).0 matches EventModel::ToolResult(
            n,
            t,
            is_error,
        ) && n == name && !is_error && tool_result_step(name, r).1 == Some(t) && (byte_len(out)
            <= TOOL_RESULT_TOKENS * 4 ==> t == out)),
        r matches ToolResultModel::AskUser(q) ==> tool_result_step(name, r).0 == EventModel::AskUser(q),
        r matches ToolResultModel::Complete(c) ==> tool_result_step(name, r).0 == EventModel::Complete(c),
        r matches ToolResultModel::NeedsApproval(p) ==> tool_result_step(name, r).0 == EventModel::NeedsApproval(
            p.tool_name,
            p.description,
            p.preview,
            p.arguments,
        ),
{
}

/// The tool result message added to the history.
pub open spec fn tool_message(name: Seq<char>, text: Seq<char>) -> MessageModel {
    MessageModel { role: Role::Tool, content: text, tool_calls: None, tool_name: Some(name) }
}

/// A plain message of the given role.
pub open spec fn plain_message(role: Role, text: Seq<char>) -> MessageModel {
    MessageModel { role, content: text, tool_calls: None, tool_name: None }
}

/// The assistant message that records a tool call.
pub open spec fn call_message(name: Seq<char>, args: JsonModel) -> MessageModel {
    MessageModel { role: Role::Assistant, content: Seq::empty(), tool_calls: Some(seq![(name, args)]), tool_name: None }
}

/// What the loop does with the collected answer of the model: run its tool
/// calls, read a JSON fallback answer, or stop.
pub enum AfterStream {
    ToolCalls(Vec<ToolCall>),
    Fallback(String),
    Finished,
}

/// The answer of the model, collected from its stream.
pub struct TurnCollector {
    pub full_text: String,
    pub tool_calls: Vec<ToolCall>,
}

/// What to do with one stream event.
pub enum StreamStep {
    /// Send this event to the user interface
    Forward(AgentEvent),
    /// Nothing to send
    Nothing,
    /// The stream failed with this message; the turn ends
    Abort(String),
}

/// What the loop of a turn does next.
#[derive(Clone, Copy, Debug, PartialEq, Eq, Structural)]
pub enum LoopStep {
    /// Call the model once more
    CallModel,
    /// End the turn (then send `finish_turn`'s events)
    Stop,
}

/// What to do within the tool calls of one answer.
#[derive(Clone, Copy, Debug, PartialEq, Eq, Structural)]
pub enum ToolStep {
    /// Run the call at this index
    Run(usize),
    /// The calls are over, with this outcome for the step
    Done(TurnOutcome),
}

/// Which tool call comes next: after `done` of `total` calls, the last one
/// ending with `last`. A call that does not let the agent go on ends the
/// calls with its outcome; after the last call the agent goes on.
pub fn tool_step(done: usize, total: usize, last: Option<TurnOutcome>) -> (r: ToolStep)
    ensures
        (last matches Some(o) && o != TurnOutcome::Continue) ==> r == ToolStep::Done(last.unwrap()),
        (last is None || last == Some(TurnOutcome::Continue)) ==> r == if done < total {
            ToolStep::Run(done)
        } else {
            ToolStep::Done(TurnOutcome::Continue)
        },
{
    match last {
        Some(o) => {
            if o != TurnOutcome::Continue {
                return ToolStep::Done(o);
            }
        },
        None => {},
    }
    if done < total {
        ToolStep::Run(done)
    } else {
        ToolStep::Done(TurnOutcome::Continue)
    }
}

/// A tool to run once the user approves it.
#[derive(Clone, Copy, Debug, PartialEq, Eq, Structural)]
pub enum ApprovedAction {
    WriteFile,
    EditFile,
    Bash,
}

/// What the fallback answer asks for: events to send, a tool call to run,
/// and the outcome when no tool is run.
pub struct FallbackPlan {
    pub events: Vec<AgentEvent>,
    pub tool_call: Option<ToolCall>,
}

/// What is sent to the model for one call.
pub struct ChatPlan {
    pub model: String,
    pub messages: Vec<Message>,
    pub tools: Option<Vec<ToolDefinition>>,
    pub format: Option<JsonValue>,
    pub num_ctx: u32,
}

impl TurnCollector {
    pub fn new() -> (r: Self)
        ensures
            r.full_text@ == Seq::<char>::empty(),
            r.tool_calls@.len() == 0,
    {
        TurnCollector { full_text: String::new(), tool_calls: Vec::new() }
    }
}

impl ToolCall {
    pub fn duplicate(&self) -> (r: Self)
        ensures
            r.name@ == self.name@,
            r.arguments@ == self.arguments@,
    {
        ToolCall { name: self.name.clone(), arguments: self.arguments.deep_clone() }
    }
}

/// The core agentic loop.
pub struct AgentLoop {
    capabilities: ModelCapabilities,
    settings: Settings,
    tools: ToolRegistry,
    conversation: Conversation,
    context_manager: ContextManager,
    system_prompt: String,
    working_dir: String,
}

proof fn lemma_appended_model(before: Seq<Message>, after: Seq<Message>)
    requires
        appended(before, after),
    ensures
        messages_model(after) == messages_model(before).push(after.last()@),
{
    assert(messages_model(after) =~= messages_model(before).push(after.last()@)) by {
        assert forall|i: int| 0 <= i < before.len() implies #[trigger] after[i] == before[i] by {
            assert(after.take(before.len() as int)[i] == after[i]);
        }
    }
}

/// The thinking text of a fallback answer, or the empty text.
pub open spec fn thinking_of(m: JsonModel) -> Seq<char> {
    match str_field(m, "thinking"@) {
        Some(t) => t,
        None => Seq::empty(),
    }
}

/// The prompt of a loop for `working_dir` with the default tools.
pub open spec fn default_prompt(
    working_dir: String,
    supports_tools: bool,
    instructions: Option<String>,
) -> Seq<char> {
    system_prompt_text(
        working_dir@,
        supports_tools,
        descriptions_text(default_tools(working_dir)),
        match instructions {
            Some(i) => Some(i@),
            None => None,
        },
    )
}

impl AgentLoop {
    pub closed spec fn history(&self) -> Seq<MessageModel> {
        messages_model(self.conversation.messages@)
    }

    pub closed spec fn supports_tools(&self) -> bool {
        self.capabilities.supports_tools
    }

    pub closed spec fn context(&self) -> ContextManager {
        self.context_manager
    }

    pub closed spec fn prompt(&self) -> Seq<char> {
        self.system_prompt@
    }

    pub closed spec fn max_iterations_spec(&self) -> u32 {
        self.settings.max_iterations
    }

    pub closed spec fn prompt_tokens_total(&self) -> u32 {
        self.conversation.total_prompt_tokens
    }

    pub closed spec fn completion_tokens_total(&self) -> u32 {
        self.conversation.total_completion_tokens
    }

    pub closed spec fn registry(&self) -> ToolRegistry {
        self.tools
    }

    pub closed spec fn project_dir(&self) -> Seq<char> {
        self.working_dir@
    }

    pub closed spec fn model(&self) -> Seq<char> {
        self.capabilities.model_name@
    }

    pub closed spec fn context_length(&self) -> u32 {
        self.capabilities.context_length
    }

    /// Everything but the conversation is the same in `a` and `b`.
    pub closed spec fn same_setup(a: Self, b: Self) -> bool {
        &&& a.capabilities == b.capabilities
        &&& a.settings == b.settings
        &&& a.tools == b.tools
        &&& a.context_manager == b.context_manager
        &&& a.system_prompt == b.system_prompt
        &&& a.working_dir == b.working_dir
    }

    /// The token totals and the session are the same in `a` and `b`.
    pub closed spec fn same_totals(a: Self, b: Self) -> bool {
        &&& a.conversation.total_prompt_tokens == b.conversation.total_prompt_tokens
        &&& a.conversation.total_completion_tokens == b.conversation.total_completion_tokens
        &&& a.conversation.session_id == b.conversation.session_id
    }

    /// Whether the system prompt of a new loop fits the token arithmetic.
    pub fn prompt_fits(
        capabilities: &ModelCapabilities,
        working_dir: &String,
        project_instructions: &Option<String>,
    ) -> (b: bool)
        ensures
            b == (byte_len(default_prompt(*working_dir, capabilities.supports_tools, *project_instructions)) + 3
                <= u32::MAX),
    {
        let mut tools = ToolRegistry::new();
        tools.register_defaults(working_dir.clone());
        let p = build_system_prompt(working_dir.as_str(), capabilities, &tools, project_instructions);
        str_byte_len(p.as_str()) <= 0xFFFF_FFFF - 3
    }

    /// A loop for the project at `working_dir` (its display form), with the
    /// project instructions when the project has them.
    pub fn new(
        capabilities: ModelCapabilities,
        settings: Settings,
        working_dir: String,
        project_instructions: Option<String>,
    ) -> (r: Self)
        requires
            byte_len(default_prompt(working_dir, capabilities.supports_tools, project_instructions)) + 3 <= u32::MAX,
        ensures
            r.history().len() == 0,
            r.supports_tools() == capabilities.supports_tools,
            r.max_iterations_spec() == settings.max_iterations,
            r.model() == capabilities.model_name@,
            r.project_dir() == working_dir@,
            r.context_length() == capabilities.context_length,
            r.registry().tools() == default_tools(working_dir),
            r.prompt() == default_prompt(working_dir, capabilities.supports_tools, project_instructions),
            r.context().system_prompt() == crate::agent::context::token_estimate(r.prompt()),
            r.context().max_history() == (if capabilities.context_length >= crate::llm::capabilities::reply_budget(capabilities.context_length) {
                capabilities.context_length - crate::llm::capabilities::reply_budget(capabilities.context_length)
            } else {
                0
            }),
            r.prompt_tokens_total() == 0,
            r.completion_tokens_total() == 0,
    {
        let mut tools = ToolRegistry::new();
        tools.register_defaults(working_dir.clone());
        let sys_prompt = build_system_prompt(working_dir.as_str(), &capabilities, &tools, &project_instructions);
        let sys_prompt_tokens = ContextManager::estimate_tokens(sys_prompt.as_str());
        let context_manager = ContextManager::new(capabilities.history_budget(), sys_prompt_tokens);
        AgentLoop {
            capabilities,
            settings,
            tools,
            conversation: Conversation::new(),
            context_manager,
            system_prompt: sys_prompt,
            working_dir,
        }
    }

    /// Whether the token counts, with one more user message, fit the `u32`
    /// arithmetic of the estimates.
    pub fn within_limits(&self, user_message: &str) -> (b: bool)
        ensures
            b == self.context().counts_fit(self.history().push(plain_message(Role::User, user_message@))),
    {
        self.context_manager.counts_fit_with(self.conversation.messages.as_slice(), user_message)
    }

    /// Whether the token counts of the history fit the `u32` arithmetic of
    /// the estimates.
    pub fn history_fits(&self) -> (b: bool)
        ensures
            b == self.context().counts_fit(self.history()),
    {
        self.context_manager.counts_fit_all(self.conversation.messages.as_slice())
    }

    /// Start a turn: record the user message, and truncate the history when
    /// more than 80% of the budget is used.
    pub fn start_turn(&mut self, user_message: &str)
        requires
            old(self).context().counts_fit(old(self).history().push(plain_message(Role::User, user_message@))),
        ensures
            Self::same_setup(*old(self), *final(self)),
            Self::same_totals(*old(self), *final(self)),
            ({
                let h1 = old(self).history().push(plain_message(Role::User, user_message@));
                if 5 * old(self).context().used(h1) > 4 * old(self).context().max_history() {
                    old(self).context().truncation_of(h1, final(self).history())
                } else {
                    final(self).history() == h1
                }
            }),
    {
        let ghost before = self.conversation.messages@;
        self.conversation.add_user_message(user_message);
        proof {
            lemma_appended_model(before, self.conversation.messages@);
        }
        proof {
            crate::agent::context::lemma_model_bounds(self.conversation.messages@);
        }
        if self.context_manager.needs_compaction(self.conversation.messages.as_slice()) {
            self.context_manager.truncate_history(&mut self.conversation.messages);
        }
    }

    /// The request for the next model call: the system prompt and the history,
    /// with the tool definitions for native tool calling, or the fallback
    /// schema otherwise.
    pub fn chat_plan(&self) -> (r: ChatPlan)
        ensures
            r.model@ == self.model(),
            messages_model(r.messages@) == seq![plain_message(Role::System, self.prompt())] + self.history(),
            r.num_ctx == self.context_length(),
            self.supports_tools() ==> r.format is None && (r.tools matches Some(defs) && defs@.len() == self.registry().tools().len()
                && forall|i: int| 0 <= i < defs@.len() ==> #[trigger] defs@[i].function.name@ == kind_name(self.registry().tools()[i])
                    && defs@[i].function.description@ == kind_description(self.registry().tools()[i])
                    && defs@[i].function.parameters@ == kind_schema(self.registry().tools()[i])
                    && defs@[i].tool_type@ == "function"@),
            !self.supports_tools() ==> r.tools is None && (r.format matches Some(f) && f@ == fallback_schema_model()),
    {
        let mut messages: Vec<Message> = Vec::new();
        messages.push(Message::plain(Role::System, self.system_prompt.as_str()));
        let ghost hist = self.history();
        let mut i: usize = 0;
        while i < self.conversation.messages.len()
            invariant
                i <= self.conversation.messages@.len(),
                hist == messages_model(self.conversation.messages@),
                messages_model(messages@) =~= seq![plain_message(Role::System, self.system_prompt@)] + hist.take(i as int),
            decreases self.conversation.messages.len() - i,
        {
            let m = self.conversation.messages[i].duplicate();
            let ghost b = messages@;
            messages.push(m);
            proof {
                assert(messages_model(messages@) =~= messages_model(b).push(hist[i as int]));
                assert(hist.take(i + 1) =~= hist.take(i as int).push(hist[i as int]));
            }
            i = i + 1;
        }
        assert(hist.take(hist.len() as int) =~= hist);
        let (tools, format) = if self.capabilities.supports_tools {
            (Some(self.tools.tool_definitions()), None)
        } else {
            (None, Some(tool_call_fallback_schema()))
        };
        ChatPlan {
            model: self.capabilities.model_name.clone(),
            messages,
            tools,
            format,
            num_ctx: self.capabilities.context_length,
        }
    }

    /// Take one event of the model's stream: text is collected and
    /// forwarded, tool calls are collected, usage is recorded, and an error
    /// ends the turn.
    pub fn on_stream_event(&mut self, collector: &mut TurnCollector, event: StreamEvent) -> (r: StreamStep)
        requires
            event matches StreamEvent::Done(s) ==> old(self).prompt_tokens_total() + s.prompt_tokens <= u32::MAX
                && old(self).completion_tokens_total() + s.completion_tokens <= u32::MAX,
        ensures
            Self::same_setup(*old(self), *final(self)),
            final(self).history() == old(self).history(),
            match event@ {
                StreamEventModel::TextDelta(t) => final(collector).full_text@ == old(collector).full_text@ + t
                    && final(collector).tool_calls@ == old(collector).tool_calls@
                    && Self::same_totals(*old(self), *final(self))
                    && (r matches StreamStep::Forward(e) && e@ == EventModel::TextDelta(t)),
                StreamEventModel::ToolCall(n, a) => final(collector).full_text@ == old(collector).full_text@
                    && final(collector).tool_calls@.len() == old(collector).tool_calls@.len() + 1
                    && final(collector).tool_calls@.take(old(collector).tool_calls@.len() as int) == old(collector).tool_calls@
                    && final(collector).tool_calls@.last().name@ == n && final(collector).tool_calls@.last().arguments@ == a
                    && r is Nothing && Self::same_totals(*old(self), *final(self)),
                StreamEventModel::Done(s) => final(collector).full_text@ == old(collector).full_text@
                    && final(collector).tool_calls@ == old(collector).tool_calls@ && r is Nothing
                    && final(self).prompt_tokens_total() == old(self).prompt_tokens_total() + s.prompt_tokens
                    && final(self).completion_tokens_total() == old(self).completion_tokens_total() + s.completion_tokens,
                StreamEventModel::Error(e) => final(collector).full_text@ == old(collector).full_text@
                    && final(collector).tool_calls@ == old(collector).tool_calls@
                    && Self::same_totals(*old(self), *final(self))
                    && (r matches StreamStep::Abort(m) && m@ == "LLM stream error: "@ + e),
            },
    {
        match event {
            StreamEvent::TextDelta(text) => {
                append_str(&mut collector.full_text, text.as_str());
                StreamStep::Forward(AgentEvent::TextDelta(text))
            },
            StreamEvent::ToolCall(tc) => {
                let ghost b = collector.tool_calls@;
                collector.tool_calls.push(tc);
                assert(collector.tool_calls@.take(b.len() as int) =~= b);
                StreamStep::Nothing
            },
            StreamEvent::Done(stats) => {
                self.conversation.record_usage(&stats);
                StreamStep::Nothing
            },
            StreamEvent::Error(e) => {
                let mut m = "LLM stream error: ".to_owned();
                append_str(&mut m, e.as_str());
                StreamStep::Abort(m)
            },
        }
    }

    /// Decide what to do with the collected answer: run its tool calls (after
    /// recording its text), read it as a JSON fallback answer when the model
    /// has no native tool calling, or record it as the final answer.
    pub fn after_stream(&mut self, collector: TurnCollector) -> (r: AfterStream)
        ensures
            Self::same_setup(*old(self), *final(self)),
            Self::same_totals(*old(self), *final(self)),
            ({
                let text = collector.full_text@;
                let pushed = if text.len() > 0 {
                    old(self).history().push(plain_message(Role::Assistant, text))
                } else {
                    old(self).history()
                };
                if collector.tool_calls@.len() > 0 {
                    final(self).history() == pushed && (r matches AfterStream::ToolCalls(calls)
                        && calls@.len() == collector.tool_calls@.len()
                        && forall|i: int| 0 <= i < calls@.len() ==> #[trigger] calls@[i].name@ == collector.tool_calls@[i].name@
                            && calls@[i].arguments@ == collector.tool_calls@[i].arguments@)
                } else if !old(self).supports_tools() && text.len() > 0 {
                    final(self).history() == old(self).history() && (r matches AfterStream::Fallback(t) && t@ == text)
                } else {
                    final(self).history() == pushed && r is Finished
                }
            }),
    {
        let TurnCollector { full_text, tool_calls } = collector;
        if tool_calls.len() > 0 {
            if !full_text.as_str().is_empty() {
                let ghost before = self.conversation.messages@;
                self.conversation.add_assistant_message(full_text.as_str());
                proof {
                    lemma_appended_model(before, self.conversation.messages@);
                }
            }
            return AfterStream::ToolCalls(tool_calls);
        }
        if !self.capabilities.supports_tools && !full_text.as_str().is_empty() {
            return AfterStream::Fallback(full_text);
        }
        if !full_text.as_str().is_empty() {
            let ghost before = self.conversation.messages@;
            self.conversation.add_assistant_message(full_text.as_str());
            proof {
                lemma_appended_model(before, self.conversation.messages@);
            }
        }
        AfterStream::Finished
    }

    /// Record a tool call before it runs; the event announces it.
    pub fn begin_tool_call(&mut self, tc: &ToolCall) -> (e: AgentEvent)
        ensures
            Self::same_setup(*old(self), *final(self)),
            Self::same_totals(*old(self), *final(self)),
            final(self).history() == old(self).history().push(call_message(tc.name@, tc.arguments@)),
            e@ == EventModel::ToolCallStart(tc.name@, tc.arguments@),
    {
        let ghost before = self.conversation.messages@;
        self.conversation.add_assistant_tool_call(tc.name.as_str(), &tc.arguments);
        proof {
            lemma_appended_model(before, self.conversation.messages@);
        }
        AgentEvent::ToolCallStart { name: tc.name.clone(), arguments: tc.arguments.deep_clone() }
    }

    /// Take the result of a tool: outputs are cut to the tool result budget
    /// and recorded, errors are recorded with an `ERROR: ` prefix, and
    /// questions, completion and approval requests end the step.
    pub fn finish_tool_call(&mut self, tool_name: &str, result: ToolResult) -> (r: (AgentEvent, TurnOutcome))
        ensures
            Self::same_setup(*old(self), *final(self)),
            Self::same_totals(*old(self), *final(self)),
            ({
                let (ev, msg, outcome) = tool_result_step(tool_name@, result@);
                &&& r.0@ == ev
                &&& r.1 == outcome
                &&& match msg {
                    Some(t) => final(self).history() == old(self).history().push(tool_message(tool_name@, t)),
                    None => final(self).history() == old(self).history(),
                }
            }),
    {
        match result {
            ToolResult::Success(output) => {
                let truncated = ContextManager::truncate_tool_result(output.as_str(), TOOL_RESULT_TOKENS);
                let ghost before = self.conversation.messages@;
                self.conversation.add_tool_result(tool_name, truncated.as_str());
                proof {
                    lemma_appended_model(before, self.conversation.messages@);
                }
                (AgentEvent::ToolResult { name: tool_name.to_owned(), result: truncated, is_error: false }, TurnOutcome::Continue)
            },
            ToolResult::Error(err) => {
                let mut m = "ERROR: ".to_owned();
                append_str(&mut m, err.as_str());
                let ghost before = self.conversation.messages@;
                self.conversation.add_tool_result(tool_name, m.as_str());
                proof {
                    lemma_appended_model(before, self.conversation.messages@);
                }
                (AgentEvent::ToolResult { name: tool_name.to_owned(), result: err, is_error: true }, TurnOutcome::Continue)
            },
            ToolResult::AskUser(question) => (AgentEvent::AskUser(question), TurnOutcome::WaitForUser),
            ToolResult::Complete(result) => (AgentEvent::Complete(result), TurnOutcome::Complete),
            ToolResult::NeedsApproval(pending) => (
                AgentEvent::NeedsApproval {
                    tool_name: pending.tool_name,
                    description: pending.description,
                    preview: pending.preview,
                    arguments: pending.arguments,
                },
                TurnOutcome::WaitForUser,
            ),
        }
    }

    /// Read a JSON fallback answer: its thinking is shown, and it either
    /// calls a tool (recorded, to be run by the caller), answers the user, or
    /// only thinks (the thinking becomes the answer). A text that is not JSON
    /// is recorded as the answer and an error is shown.
    pub fn plan_fallback(&mut self, response_text: &str) -> (r: FallbackPlan)
        ensures
            Self::same_setup(*old(self), *final(self)),
            Self::same_totals(*old(self), *final(self)),
            match json_parse_text(response_text@) {
                Err(e) => final(self).history() == old(self).history().push(plain_message(Role::Assistant, response_text@))
                    && events_model(r.events@) == seq![EventModel::Error("Failed to parse model response as JSON: "@ + e)]
                    && r.tool_call is None,
                Ok(m) => {
                    let th = thinking_of(m);
                    let shown = if th.len() > 0 { seq![EventModel::Thinking(th)] } else { Seq::<EventModel>::empty() };
                    match fallback_tool_name(m) {
                        Some(n) => final(self).history() == old(self).history().push(call_message(n, fallback_arguments(m)))
                            && events_model(r.events@) == shown.push(EventModel::ToolCallStart(n, fallback_arguments(m)))
                            && (r.tool_call matches Some(tc) && tc.name@ == n && tc.arguments@ == fallback_arguments(m)),
                        None => events_model(r.events@) == shown && r.tool_call is None
                            && final(self).history() == old(self).history().push(plain_message(
                                Role::Assistant,
                                match str_field(m, "response"@) {
                                    Some(resp) => resp,
                                    None => th,
                                },
                            )),
                    }
                },
            },
    {
        let mut events: Vec<AgentEvent> = Vec::new();
        let ghost before = self.conversation.messages@;
        match parse_fallback_tool_call(response_text) {
            Ok(fallback) => {
                if !fallback.thinking.as_str().is_empty() {
                    events.push(AgentEvent::Thinking(fallback.thinking.clone()));
                }
                let ghost shown = events_model(events@);
                match fallback.tool_call {
                    Some(tc) => {
                        let ev = self.begin_tool_call(&tc);
                        events.push(ev);
                        assert(events_model(events@) =~= shown.push(ev@));
                        FallbackPlan { events, tool_call: Some(tc) }
                    },
                    None => {
                        match fallback.response {
                            Some(resp) => self.conversation.add_assistant_message(resp.as_str()),
                            None => self.conversation.add_assistant_message(fallback.thinking.as_str()),
                        }
                        proof {
                            lemma_appended_model(before, self.conversation.messages@);
                        }
                        FallbackPlan { events, tool_call: None }
                    },
                }
            },
            Err(e) => {
                self.conversation.add_assistant_message(response_text);
                proof {
                    lemma_appended_model(before, self.conversation.messages@);
                }
                let mut m = "Failed to parse model response as JSON: ".to_owned();
                append_str(&mut m, e.as_str());
                events.push(AgentEvent::Error(m));
                assert(events_model(events@) =~= seq![EventModel::Error("Failed to parse model response as JSON: "@ + e@)]);
                FallbackPlan { events, tool_call: None }
            },
        }
    }

    /// The event that reports a turn stopped at the iteration limit.
    pub open spec fn max_iterations_event(&self) -> EventModel {
        EventModel::Error("Max iterations ("@ + decimal(self.max_iterations_spec() as nat) + ") reached. Stopping."@)
    }

    /// What the turn does after `iterations` model calls, the last of which
    /// ended with `last` (`None` before the first call): an error or a
    /// finished answer ends the turn (an error is shown), a call that lets
    /// the agent go on leads to another call while fewer than the limit were
    /// made, and at the limit the turn ends with the limit's error.
    pub fn next_step(&self, iterations: u32, last: Option<Result<TurnOutcome, String>>) -> (r: (LoopStep, Option<AgentEvent>))
        ensures
            (last == Some(Ok::<TurnOutcome, String>(TurnOutcome::Complete)) || last == Some(Ok::<TurnOutcome, String>(TurnOutcome::WaitForUser)))
                ==> r.0 == LoopStep::Stop && r.1 is None,
            last matches Some(Err(e)) ==> r.0 == LoopStep::Stop && (r.1 matches Some(ev) && ev@ == EventModel::Error(e@)),
            (last is None || last == Some(Ok::<TurnOutcome, String>(TurnOutcome::Continue))) ==> if iterations < self.max_iterations_spec() {
                r.0 == LoopStep::CallModel && r.1 is None
            } else {
                r.0 == LoopStep::Stop && (r.1 matches Some(ev) && ev@ == self.max_iterations_event())
            },
    {
        match last {
            Some(Err(e)) => (LoopStep::Stop, Some(AgentEvent::Error(e))),
            Some(Ok(TurnOutcome::Complete)) => (LoopStep::Stop, None),
            Some(Ok(TurnOutcome::WaitForUser)) => (LoopStep::Stop, None),
            _ => {
                if iterations < self.settings.max_iterations {
                    (LoopStep::CallModel, None)
                } else {
                    (LoopStep::Stop, Some(self.max_iterations_error()))
                }
            },
        }
    }

    /// The event that stops a turn after too many model calls.
    pub fn max_iterations_error(&self) -> (e: AgentEvent)
        ensures
            e@ == EventModel::Error(
                "Max iterations ("@ + decimal(self.max_iterations_spec() as nat) + ") reached. Stopping."@,
            ),
    {
        let mut m = "Max iterations (".to_owned();
        push_decimal(&mut m, self.settings.max_iterations as u64);
        append_str(&mut m, ") reached. Stopping.");
        AgentEvent::Error(m)
    }

    /// Most model calls per turn.
    pub fn max_iterations(&self) -> (n: u32)
        ensures
            n == self.max_iterations_spec(),
    {
        self.settings.max_iterations
    }

    /// The last events of a turn: the token usage, then the end of the turn.
    pub fn finish_turn(&self) -> (es: Vec<AgentEvent>)
        requires
            self.context().counts_fit(self.history()),
        ensures
            events_model(es@) == seq![
                EventModel::UsageUpdate(
                    self.prompt_tokens_total(),
                    self.completion_tokens_total(),
                    self.context().used(self.history()) as u32,
                    self.context().max_history(),
                ),
                EventModel::TurnComplete,
            ],
    {
        proof {
            crate::agent::context::lemma_model_bounds(self.conversation.messages@);
        }
        let used = self.context_manager.used_tokens(self.conversation.messages.as_slice());
        let budget = self.context_manager.max_history_tokens();
        let es = vec![
            AgentEvent::UsageUpdate {
                prompt_tokens: self.conversation.total_prompt_tokens,
                completion_tokens: self.conversation.total_completion_tokens,
                used_tokens: used,
                budget_tokens: budget,
            },
            AgentEvent::TurnComplete,
        ];
        assert(events_model(es@) =~= seq![
            EventModel::UsageUpdate(
                self.prompt_tokens_total(),
                self.completion_tokens_total(),
                self.context().used(self.history()) as u32,
                self.context().max_history(),
            ),
            EventModel::TurnComplete,
        ]);
        es
    }

    /// The tool that an approved action runs, if it is one that asks for approval.
    pub fn approved_action(tool_name: &str) -> (r: Option<ApprovedAction>)
        ensures
            r == (if tool_name@ == "write_file"@ {
                Some(ApprovedAction::WriteFile)
            } else if tool_name@ == "edit_file"@ {
                Some(ApprovedAction::EditFile)
            } else if tool_name@ == "bash"@ {
                Some(ApprovedAction::Bash)
            } else {
                None
            }),
    {
        if crate::json::str_eq(tool_name, "write_file") {
            Some(ApprovedAction::WriteFile)
        } else if crate::json::str_eq(tool_name, "edit_file") {
            Some(ApprovedAction::EditFile)
        } else if crate::json::str_eq(tool_name, "bash") {
            Some(ApprovedAction::Bash)
        } else {
            None
        }
    }

    /// Record the result of an approved (or denied) action.
    pub fn add_tool_result_and_continue(&mut self, tool_name: &str, result: &str)
        ensures
            Self::same_setup(*old(self), *final(self)),
            Self::same_totals(*old(self), *final(self)),
            final(self).history() == old(self).history().push(tool_message(tool_name@, result@)),
    {
        let ghost before = self.conversation.messages@;
        self.conversation.add_tool_result(tool_name, result);
        proof {
            lemma_appended_model(before, self.conversation.messages@);
        }
    }

    /// The conversation.
    pub fn conversation(&self) -> (c: &Conversation)
        ensures
            messages_model(c.messages@) == self.history(),
    {
        &self.conversation
    }

    /// The tools of the loop.
    pub fn tools(&self) -> (t: &ToolRegistry)
        ensures
            *t == self.registry(),
    {
        &self.tools
    }

    /// The working directory of the loop.
    pub fn working_dir(&self) -> (s: &str)
        ensures
            s@ == self.project_dir(),
    {
        self.working_dir.as_str()
    }

    /// The model name.
    pub fn model_name(&self) -> (s: &str)
        ensures
            s@ == self.model(),
    {
        self.capabilities.model_name.as_str()
    }

    /// Estimated tokens in use and the history budget, whose ratio is the
    /// context usage.
    pub fn context_usage(&self) -> (r: (u32, u32))
        requires
            self.context().counts_fit(self.history()),
        ensures
            r.0 == self.context().used(self.history()),
            r.1 == self.context().max_history(),
    {
        proof {
            crate::agent::context::lemma_model_bounds(self.conversation.messages@);
        }
        let used = self.context_manager.used_tokens(self.conversation.messages.as_slice());
        (used, self.context_manager.max_history_tokens())
    }
}

} // verus!
