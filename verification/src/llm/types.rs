//! Types exchanged with the model server, and the JSON fallback protocol for
//! models without native tool calling.

use vstd::prelude::*;

use crate::json::{
    json_from_text, json_parse_text, model_get, object_schema, object_schema_model, str_field,
    JsonModel, JsonValue,
};

verus! {

/// Author of a chat message.
#[derive(Clone, Copy, Debug, PartialEq, Eq, Structural)]
pub enum Role {
    System,
    User,
    Assistant,
    Tool,
}

/// Name and arguments of a tool call as the model sends them.
pub struct ToolCallFunction {
    pub name: String,
    pub arguments: JsonValue,
}

/// One tool call inside an assistant message.
pub struct ToolCallResponse {
    pub function: ToolCallFunction,
}

/// A chat message.
pub struct Message {
    pub role: Role,
    pub content: String,
    pub tool_calls: Option<Vec<ToolCallResponse>>,
    pub tool_name: Option<String>,
}

/// Model of a chat message: role, text, the `(name, arguments)` of its tool
/// calls, and the tool name of a tool result.
pub struct MessageModel {
    pub role: Role,
    pub content: Seq<char>,
    pub tool_calls: Option<Seq<(Seq<char>, JsonModel)>>,
    pub tool_name: Option<Seq<char>>,
}

pub open spec fn calls_model(calls: Seq<ToolCallResponse>) -> Seq<(Seq<char>, JsonModel)> {
    calls.map_values(|c: ToolCallResponse| (c.function.name@, c.function.arguments@))
}

impl View for Message {
    type V = MessageModel;

    open spec fn view(&self) -> MessageModel {
        MessageModel {
            role: self.role,
            content: self.content@,
            tool_calls: match self.tool_calls {
                Some(c) => Some(calls_model(c@)),
                None => None,
            },
            tool_name: match self.tool_name {
                Some(n) => Some(n@),
                None => None,
            },
        }
    }
}

/// The models of a sequence of messages.
pub open spec fn messages_model(ms: Seq<Message>) -> Seq<MessageModel> {
    ms.map_values(|m: Message| m@)
}

fn copy_opt_string(s: &Option<String>) -> (r: Option<String>)
    ensures
        match (s, r) {
            (Some(a), Some(b)) => a@ == b@,
            (None, None) => true,
            _ => false,
        },
{
    match s {
        Some(x) => Some(x.clone()),
        None => None,
    }
}

impl ToolCallResponse {
    pub fn duplicate(&self) -> (r: Self)
        ensures
            r.function.name@ == self.function.name@,
            r.function.arguments@ == self.function.arguments@,
    {
        ToolCallResponse {
            function: ToolCallFunction {
                name: self.function.name.clone(),
                arguments: self.function.arguments.deep_clone(),
            },
        }
    }
}

impl Message {
    /// A copy with the same model.
    pub fn duplicate(&self) -> (r: Self)
        ensures
            r@ == self@,
    {
        let tool_calls = match &self.tool_calls {
            Some(calls) => {
                let mut out: Vec<ToolCallResponse> = Vec::new();
                let mut i: usize = 0;
                while i < calls.len()
                    invariant
                        i <= calls@.len(),
                        out@.len() == i,
                        forall|k: int| 0 <= k < i ==> #[trigger] out@[k].function.name@ == calls@[k].function.name@
                            && out@[k].function.arguments@ == calls@[k].function.arguments@,
                    decreases calls.len() - i,
                {
                    out.push(calls[i].duplicate());
                    i = i + 1;
                }
                assert(calls_model(out@) =~= calls_model(calls@));
                Some(out)
            },
            None => None,
        };
        Message {
            role: self.role,
            content: self.content.clone(),
            tool_calls,
            tool_name: copy_opt_string(&self.tool_name),
        }
    }

    /// A plain message with no tool data.
    pub fn plain(role: Role, content: &str) -> (r: Self)
        ensures
            r@ == (MessageModel { role, content: content@, tool_calls: None, tool_name: None }),
    {
        Message { role, content: content.to_owned(), tool_calls: None, tool_name: None }
    }
}

/// Name, description and parameter schema of a tool.
pub struct ToolFunction {
    pub name: String,
    pub description: String,
    pub parameters: JsonValue,
}

/// A tool definition as offered to the model.
pub struct ToolDefinition {
    pub tool_type: String,
    pub function: ToolFunction,
}

impl ToolDefinition {
    /// A `"function"` tool with the given name, description and schema.
    pub fn new(name: &str, description: &str, parameters: JsonValue) -> (r: Self)
        ensures
            r.tool_type@ == "function"@,
            r.function.name@ == name@,
            r.function.description@ == description@,
            r.function.parameters == parameters,
    {
        ToolDefinition {
            tool_type: String::from_str("function"),
            function: ToolFunction {
                name: name.to_owned(),
                description: description.to_owned(),
                parameters,
            },
        }
    }
}

/// A parsed tool call, from either the native or the fallback path.
pub struct ToolCall {
    pub name: String,
    pub arguments: JsonValue,
}

/// The message part of a streamed chat chunk.
pub struct StreamMessage {
    pub role: Role,
    pub content: String,
    pub tool_calls: Option<Vec<ToolCallResponse>>,
}

/// One line of a streamed chat response.
pub struct ChatStreamChunk {
    pub model: String,
    pub created_at: String,
    pub message: Option<StreamMessage>,
    pub done: bool,
    pub done_reason: Option<String>,
    pub total_duration: Option<u64>,
    pub load_duration: Option<u64>,
    pub prompt_eval_count: Option<u32>,
    pub prompt_eval_duration: Option<u64>,
    pub eval_count: Option<u32>,
    pub eval_duration: Option<u64>,
}

/// Details of a model as `/api/show` and `/api/tags` report them.
pub struct ModelDetails {
    pub parent_model: Option<String>,
    pub format: Option<String>,
    pub family: Option<String>,
    pub families: Option<Vec<String>>,
    pub parameter_size: Option<String>,
    pub quantization_level: Option<String>,
}

/// The answer of `/api/show`.
pub struct ShowModelResponse {
    pub modelfile: Option<String>,
    pub parameters: Option<String>,
    pub template: Option<String>,
    pub details: Option<ModelDetails>,
    pub model_info: Option<JsonValue>,
    pub capabilities: Option<Vec<String>>,
}

/// One entry of `/api/tags`.
pub struct ModelEntry {
    pub name: String,
    pub model: String,
    pub modified_at: Option<String>,
    pub size: Option<u64>,
    pub details: Option<ModelDetails>,
}

/// The answer of `/api/tags`.
pub struct ListModelsResponse {
    pub models: Vec<ModelEntry>,
}

/// Token counts and timings of a completed call.
#[derive(Clone, Copy, Debug)]
pub struct UsageStats {
    pub prompt_tokens: u32,
    pub completion_tokens: u32,
    pub total_duration_ns: u64,
    pub eval_duration_ns: u64,
}

impl UsageStats {
    /// All counts zero.
    pub fn zero() -> (r: Self)
        ensures
            r.prompt_tokens == 0 && r.completion_tokens == 0 && r.total_duration_ns == 0
                && r.eval_duration_ns == 0,
    {
        UsageStats { prompt_tokens: 0, completion_tokens: 0, total_duration_ns: 0, eval_duration_ns: 0 }
    }
}

/// Events produced while reading a streamed response.
pub enum StreamEvent {
    TextDelta(String),
    ToolCall(ToolCall),
    Done(UsageStats),
    Error(String),
}

/// What a model in JSON fallback mode answered.
pub struct FallbackResponse {
    pub thinking: String,
    pub response: Option<String>,
    pub tool_call: Option<ToolCall>,
}

pub const THINKING_DESC: &'static str = "Your reasoning about what to do next";
pub const RESPONSE_DESC: &'static str = "Your text response to the user (if no tool call needed)";
pub const TOOL_DESC: &'static str = "The name of the tool to call (if a tool call is needed)";
pub const ARGUMENTS_DESC: &'static str = "The arguments for the tool call";

/// Model of the schema given to the server's `format` parameter for models
/// without native tool calling.
pub open spec fn fallback_schema_model() -> JsonModel {
    object_schema_model(
        seq![
            ("thinking"@, "string"@, THINKING_DESC@),
            ("response"@, "string"@, RESPONSE_DESC@),
            ("tool"@, "string"@, TOOL_DESC@),
            ("arguments"@, "object"@, ARGUMENTS_DESC@),
        ],
        Some(seq!["thinking"@]),
    )
}

/// The schema used with the server's `format` parameter for models that
/// do not support native tool calling.
pub fn tool_call_fallback_schema() -> (r: JsonValue)
    ensures
        r@ == fallback_schema_model(),
{
    let props: Vec<(&str, &str, &str)> = vec![
        ("thinking", "string", THINKING_DESC),
        ("response", "string", RESPONSE_DESC),
        ("tool", "string", TOOL_DESC),
        ("arguments", "object", ARGUMENTS_DESC),
    ];
    let req: Vec<&str> = vec!["thinking"];
    let r = object_schema(&props, Some(&req));
    assert(props@.map_values(|p: (&str, &str, &str)| (p.0@, p.1@, p.2@)) =~= seq![
        ("thinking"@, "string"@, THINKING_DESC@),
        ("response"@, "string"@, RESPONSE_DESC@),
        ("tool"@, "string"@, TOOL_DESC@),
        ("arguments"@, "object"@, ARGUMENTS_DESC@),
    ]);
    assert(req@.map_values(|s: &str| s@) =~= seq!["thinking"@]);
    r
}

/// The tool call in a fallback answer: present when `"tool"` is a non-empty string.
pub open spec fn fallback_tool_name(m: JsonModel) -> Option<Seq<char>> {
    match str_field(m, "tool"@) {
        Some(name) => if name.len() > 0 { Some(name) } else { None },
        None => None,
    }
}

/// The arguments of a fallback tool call: `"arguments"`, or `null` when absent.
pub open spec fn fallback_arguments(m: JsonModel) -> JsonModel {
    match model_get(m, "arguments"@) {
        Some(a) => a,
        None => JsonModel::Null,
    }
}

/// Whether `f` is what the fallback protocol reads from the JSON value `m`.
pub open spec fn fallback_of(m: JsonModel, f: FallbackResponse) -> bool {
    &&& f.thinking@ == (match str_field(m, "thinking"@) { Some(t) => t, None => Seq::<char>::empty() })
    &&& match f.response {
        Some(r) => str_field(m, "response"@) == Some(r@),
        None => str_field(m, "response"@) is None,
    }
    &&& match f.tool_call {
        Some(tc) => fallback_tool_name(m) == Some(tc.name@) && tc.arguments@ == fallback_arguments(m),
        None => fallback_tool_name(m) is None,
    }
}

/// Reads a fallback answer from an already parsed JSON value.
pub fn fallback_from_value(val: &JsonValue) -> (f: FallbackResponse)
    ensures
        fallback_of(val@, f),
{
    let thinking = match val.get_str("thinking") {
        Some(t) => t,
        None => String::new(),
    };
    let response = val.get_str("response");
    let tool_call = match val.get_str("tool") {
        Some(name) => {
            if !name.as_str().is_empty() {
                let arguments = match val.get("arguments") {
                    Some(a) => a.deep_clone(),
                    None => JsonValue::Null,
                };
                Some(ToolCall { name, arguments })
            } else {
                None
            }
        },
        None => None,
    };
    FallbackResponse { thinking, response, tool_call }
}

/// Parses a fallback answer: the JSON text's `"thinking"`, `"response"` and
/// `"tool"`/`"arguments"` members, or the JSON parser's error message.
pub fn parse_fallback_tool_call(json_str: &str) -> (r: Result<FallbackResponse, String>)
    ensures
        match r {
            Ok(f) => json_parse_text(json_str@) matches Ok(m) && fallback_of(m, f),
            Err(e) => json_parse_text(json_str@) == Err::<JsonModel, Seq<char>>(e@),
        },
{
    match json_from_text(json_str) {
        Ok(val) => Ok(fallback_from_value(&val)),
        Err(e) => Err(e),
    }
}

} // verus!
