//! The state of the application and what the status bar shows of it.

use vstd::prelude::*;

verus! {

/// Current state of the application.
#[derive(Debug, Clone, Copy, PartialEq, Eq, Structural)]
pub enum AppState {
    Idle,
    Thinking,
    ToolExec,
    WaitingApproval,
    Streaming,
}

/// The label of a state in the status bar.
pub open spec fn state_text(s: AppState) -> Seq<char> {
    match s {
        AppState::Idle => " ● READY "@,
        AppState::Thinking => " ◉ THINKING "@,
        AppState::ToolExec => " ⟐ TOOL "@,
        AppState::WaitingApproval => " ⚠ APPROVAL "@,
        AppState::Streaming => " ◉ STREAMING "@,
    }
}

pub fn state_label(s: AppState) -> (r: &'static str)
    ensures
        r@ == state_text(s),
{
    match s {
        AppState::Idle => " ● READY ",
        AppState::Thinking => " ◉ THINKING ",
        AppState::ToolExec => " ⟐ TOOL ",
        AppState::WaitingApproval => " ⚠ APPROVAL ",
        AppState::Streaming => " ◉ STREAMING ",
    }
}

/// How full the context is, as the status bar colors it.
#[derive(Debug, Clone, Copy, PartialEq, Eq, Structural)]
pub enum ContextLevel {
    Low,
    Medium,
    High,
}

/// The level for `used` tokens of a `budget`: their ratio is compared with
/// 80 and 60 (the ratio itself, not a percentage of it).
pub open spec fn level_of(used: int, budget: int) -> ContextLevel {
    if used > 80 * budget {
        ContextLevel::High
    } else if used > 60 * budget {
        ContextLevel::Medium
    } else {
        ContextLevel::Low
    }
}

pub fn context_level(used: u32, budget: u32) -> (l: ContextLevel)
    ensures
        l == level_of(used as int, budget as int),
{
    let u = used as u64;
    let b = budget as u64;
    if u > 80 * b {
        ContextLevel::High
    } else if u > 60 * b {
        ContextLevel::Medium
    } else {
        ContextLevel::Low
    }
}

} // verus!
