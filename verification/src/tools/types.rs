//! Results of tool execution.

use vstd::prelude::*;

use crate::json::{JsonModel, JsonValue};

verus! {

/// An action that requires user approval before execution.
pub struct PendingAction {
    pub tool_name: String,
    pub description: String,
    pub preview: Option<String>,
    pub arguments: JsonValue,
}

/// Result of executing a tool.
pub enum ToolResult {
    /// Tool executed successfully, with its output text
    Success(String),
    /// Tool execution failed, with an error message
    Error(String),
    /// The tool asks the user a question; the agent pauses
    AskUser(String),
    /// The agent signals that the task is complete
    Complete(String),
    /// The tool needs user approval before executing
    NeedsApproval(PendingAction),
}

/// Model of a pending action.
pub struct PendingModel {
    pub tool_name: Seq<char>,
    pub description: Seq<char>,
    pub preview: Option<Seq<char>>,
    pub arguments: JsonModel,
}

/// Model of a tool result.
pub enum ToolResultModel {
    Success(Seq<char>),
    Error(Seq<char>),
    AskUser(Seq<char>),
    Complete(Seq<char>),
    NeedsApproval(PendingModel),
}

impl View for PendingAction {
    type V = PendingModel;

    open spec fn view(&self) -> PendingModel {
        PendingModel {
            tool_name: self.tool_name@,
            description: self.description@,
            preview: match self.preview {
                Some(p) => Some(p@),
                None => None,
            },
            arguments: self.arguments@,
        }
    }
}

impl View for ToolResult {
    type V = ToolResultModel;

    open spec fn view(&self) -> ToolResultModel {
        match self {
            ToolResult::Success(s) => ToolResultModel::Success(s@),
            ToolResult::Error(s) => ToolResultModel::Error(s@),
            ToolResult::AskUser(s) => ToolResultModel::AskUser(s@),
            ToolResult::Complete(s) => ToolResultModel::Complete(s@),
            ToolResult::NeedsApproval(p) => ToolResultModel::NeedsApproval(p@),
        }
    }
}

} // verus!
