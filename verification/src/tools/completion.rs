//! Tools that end or pause the agent's turn.

use vstd::prelude::*;

use crate::json::{object_schema, object_schema_model, str_field, JsonModel, JsonValue};
use crate::tools::types::{ToolResult, ToolResultModel};

verus! {

pub const COMPLETION_DESCRIPTION: &'static str = "Signal that the task is complete. Provide a result message summarizing what was done. The user will review and may provide feedback to continue.";
pub const RESULT_DESC: &'static str = "A summary of what was accomplished";
pub const DEFAULT_RESULT: &'static str = "Task completed.";

pub const ASK_DESCRIPTION: &'static str = "Ask the user a question when you need clarification or additional information to proceed. The agent will pause and wait for the user's response.";
pub const QUESTION_DESC: &'static str = "The question to ask the user";
pub const DEFAULT_QUESTION: &'static str = "Could you provide more details?";

/// The string member `key` of `args`, or `default`.
pub open spec fn str_or(args: JsonModel, key: Seq<char>, default: Seq<char>) -> Seq<char> {
    match str_field(args, key) {
        Some(s) => s,
        None => default,
    }
}

/// Tool that signals that the task is complete.
pub struct AttemptCompletionTool;

impl AttemptCompletionTool {
    pub fn name(&self) -> (r: &'static str)
        ensures
            r@ == "attempt_completion"@,
    {
        "attempt_completion"
    }

    pub fn description(&self) -> (r: &'static str)
        ensures
            r@ == COMPLETION_DESCRIPTION@,
    {
        COMPLETION_DESCRIPTION
    }

    pub fn parameters_schema(&self) -> (r: JsonValue)
        ensures
            r@ == object_schema_model(seq![("result"@, "string"@, RESULT_DESC@)], Some(seq!["result"@])),
    {
        let props: Vec<(&str, &str, &str)> = vec![("result", "string", RESULT_DESC)];
        let req: Vec<&str> = vec!["result"];
        let r = object_schema(&props, Some(&req));
        assert(props@.map_values(|p: (&str, &str, &str)| (p.0@, p.1@, p.2@)) =~= seq![("result"@, "string"@, RESULT_DESC@)]);
        assert(req@.map_values(|s: &str| s@) =~= seq!["result"@]);
        r
    }

    pub fn requires_approval(&self) -> (b: bool)
        ensures
            !b,
    {
        false
    }

    /// Completes with `"result"`, or a default summary.
    pub fn execute(&self, arguments: &JsonValue) -> (r: ToolResult)
        ensures
            r@ == ToolResultModel::Complete(str_or(arguments@, "result"@, DEFAULT_RESULT@)),
    {
        match arguments.get_str("result") {
            Some(s) => ToolResult::Complete(s),
            None => ToolResult::Complete(DEFAULT_RESULT.to_owned()),
        }
    }
}

/// Tool that asks the user a question.
pub struct AskUserTool;

impl AskUserTool {
    pub fn name(&self) -> (r: &'static str)
        ensures
            r@ == "ask_user"@,
    {
        "ask_user"
    }

    pub fn description(&self) -> (r: &'static str)
        ensures
            r@ == ASK_DESCRIPTION@,
    {
        ASK_DESCRIPTION
    }

    pub fn parameters_schema(&self) -> (r: JsonValue)
        ensures
            r@ == object_schema_model(seq![("question"@, "string"@, QUESTION_DESC@)], Some(seq!["question"@])),
    {
        let props: Vec<(&str, &str, &str)> = vec![("question", "string", QUESTION_DESC)];
        let req: Vec<&str> = vec!["question"];
        let r = object_schema(&props, Some(&req));
        assert(props@.map_values(|p: (&str, &str, &str)| (p.0@, p.1@, p.2@)) =~= seq![("question"@, "string"@, QUESTION_DESC@)]);
        assert(req@.map_values(|s: &str| s@) =~= seq!["question"@]);
        r
    }

    pub fn requires_approval(&self) -> (b: bool)
        ensures
            !b,
    {
        false
    }

    /// Asks `"question"`, or a default question.
    pub fn execute(&self, arguments: &JsonValue) -> (r: ToolResult)
        ensures
            r@ == ToolResultModel::AskUser(str_or(arguments@, "question"@, DEFAULT_QUESTION@)),
    {
        match arguments.get_str("question") {
            Some(s) => ToolResult::AskUser(s),
            None => ToolResult::AskUser(DEFAULT_QUESTION.to_owned()),
        }
    }
}

} // verus!
