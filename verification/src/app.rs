//! The decisions of the terminal application: how agent events and keys
//! change what the chat shows, the input line and the application state,
//! and which outside work each of them asks for.

use vstd::prelude::*;

use crate::agent::agent_loop::{AgentEvent, EventModel};
use crate::text::{byte_len, concat_str, lowercase, str_byte_len};
use crate::tools::types::{PendingAction, PendingModel, ToolResult};
use crate::tui::chat::{
    chat_model, error_message, plain_message, tool_message, ChatMessage, ChatMessageModel, ChatRole,
};
use crate::tui::input::{
    at_boundary, can_delete_back, can_delete_forward, can_insert, cleared, command_arg, command_word,
    deleted_back, deleted_forward, inserted, is_char_boundary, killed_line, killed_word, moved_left,
    moved_right, moved_to, named_command, parse_slash_command, recalled_next, recalled_previous,
    submitted, InputState, SlashCommand, SlashModel,
};
use crate::tui::status::AppState;

verus! {

/// A key as the application reads it.
#[derive(Debug, Clone, Copy, PartialEq, Eq, Structural)]
pub enum Key {
    Char(char),
    Enter,
    Backspace,
    Delete,
    Left,
    Right,
    Home,
    End,
    Up,
    Down,
    PageUp,
    PageDown,
    Other,
}

/// The outside work that a key asks for.
pub enum KeyOutcome {
    Nothing,
    /// Stop listening to the running turn
    CancelTurn,
    /// Run the approved action, then report with `App::approved_result`
    ExecuteApproved(PendingAction),
    /// Tell the agent that the action was denied, with this result text
    Denied { tool_name: String, result: String },
    /// Send the text to the agent
    Send(String),
    /// Save the conversation, then report with `App::save_finished`
    Save,
}

/// The application's state.
pub struct App {
    pub messages: Vec<ChatMessage>,
    pub input: InputState,
    pub state: AppState,
    pub scroll_offset: u16,
    pub model_name: String,
    /// Estimated tokens of the context and its budget, once reported
    pub context_usage: Option<(u32, u32)>,
    pub total_tokens: u32,
    pub pending_approval: Option<PendingAction>,
    /// The tools whose actions the user approved for the rest of the session
    pub always_approved: Vec<String>,
    pub should_quit: bool,
}

pub open spec fn sys(t: Seq<char>) -> ChatMessageModel {
    plain_message(ChatRole::System, t)
}

/// The messages with a streaming last message marked finished.
pub open spec fn finalized(ms: Seq<ChatMessageModel>) -> Seq<ChatMessageModel> {
    if ms.len() > 0 && ms.last().is_streaming {
        let m = ms.last();
        ms.drop_last().push(
            ChatMessageModel {
                role: m.role,
                content: m.content,
                tool_name: m.tool_name,
                is_streaming: false,
                is_error: m.is_error,
            },
        )
    } else {
        ms
    }
}

/// Streamed text goes to the end of a streaming last message, or starts a
/// new streaming assistant message.
pub open spec fn with_delta(ms: Seq<ChatMessageModel>, text: Seq<char>) -> Seq<ChatMessageModel> {
    if ms.len() > 0 && ms.last().is_streaming {
        let m = ms.last();
        ms.drop_last().push(
            ChatMessageModel {
                role: m.role,
                content: m.content + text,
                tool_name: m.tool_name,
                is_streaming: true,
                is_error: m.is_error,
            },
        )
    } else {
        ms.push(
            ChatMessageModel {
                role: ChatRole::Assistant,
                content: text,
                tool_name: None,
                is_streaming: true,
                is_error: false,
            },
        )
    }
}

/// After the streaming message is finished, no message streams: the last one
/// is marked finished and every other message stays as it was.
pub proof fn lemma_finalized_stops_streaming(ms: Seq<ChatMessageModel>)
    ensures
        finalized(ms).len() == ms.len(),
        finalized(ms).len() > 0 ==> !finalized(ms).last().is_streaming,
        forall|i: int| 0 <= i < ms.len() - 1 ==> #[trigger] finalized(ms)[i] == ms[i],
        ms.len() > 0 ==> finalized(ms).last().content == ms.last().content,
{
}

pub open spec fn welcome_text() -> Seq<char> {
    "Welcome to Enki — your local AI coding assistant.\nType a message or /help for commands."@
}

pub open spec fn help_text() -> Seq<char> {
    "Commands:\n  /help     — Show this help\n  /clear    — Clear chat\n  /model <n> — Switch model\n  /compact  — Compact context\n  /save     — Save session\n  /quit     — Exit Enki"@
}

/// The text that tells the agent an action was denied.
pub open spec fn denied_text() -> Seq<char> {
    "DENIED: User rejected this action."@
}

/// `b` is the chat `a` with one more message, of `role`, holding `content`,
/// finished, an error report or not; the messages before it keep their
/// texts, and all but the last of `a` stay as they were.
pub open spec fn one_more(
    a: Seq<ChatMessageModel>,
    b: Seq<ChatMessageModel>,
    role: ChatRole,
    content: Seq<char>,
    is_error: bool,
) -> bool {
    &&& b.len() == a.len() + 1
    &&& b.last().role == role
    &&& b.last().content == content
    &&& b.last().is_error == is_error
    &&& !b.last().is_streaming
    &&& forall|i: int| 0 <= i < a.len() - 1 ==> #[trigger] b[i] == a[i]
    &&& a.len() > 0 ==> b[a.len() - 1].content == a.last().content
}

/// What each agent event shows: a question, a final answer that is not
/// empty, an error, a tool's result, the model's thinking and the start of a
/// tool call each add one message that holds the event's text (a question
/// or an answer from the assistant, an error marked as one, a result under
/// its tool's name); streamed text ends the last message, which streams; an
/// empty answer, an approval request and the end of the turn add none, and
/// a usage report leaves the chat alone. A question and the end of the turn
/// leave the application idle, the start of a tool call shows a tool running.
pub proof fn law_agent_event_chat(a: App, e: EventModel, b: App)
    requires
        App::event_effect(a, e, b),
    ensures
        match e {
            EventModel::AskUser(q) => b.state == AppState::Idle && one_more(
                a.chat(),
                b.chat(),
                ChatRole::Assistant,
                q,
                false,
            ),
            EventModel::Complete(r) => if r.len() > 0 {
                one_more(a.chat(), b.chat(), ChatRole::Assistant, r, false)
            } else {
                b.chat().len() == a.chat().len()
            },
            EventModel::Error(err) => one_more(a.chat(), b.chat(), ChatRole::System, err, true),
            EventModel::ToolResult(name, result, is_error) => one_more(
                a.chat(),
                b.chat(),
                ChatRole::Tool,
                result,
                is_error,
            ) && b.chat().last().tool_name == Some(name),
            EventModel::Thinking(t) => one_more(a.chat(), b.chat(), ChatRole::System, "💭 "@ + t, false),
            EventModel::ToolCallStart(name, _) => b.state == AppState::ToolExec && one_more(
                a.chat(),
                b.chat(),
                ChatRole::System,
                "Calling "@ + name + "..."@,
                false,
            ),
            EventModel::TextDelta(t) => b.state == AppState::Streaming && b.chat().len() > 0
                && b.chat().last().is_streaming && b.chat().last().content.len() >= t.len()
                && b.chat().last().content.skip(b.chat().last().content.len() - t.len()) == t
                && a.chat().len() <= b.chat().len() <= a.chat().len() + 1,
            EventModel::TurnComplete => b.state == AppState::Idle && b.chat().len() == a.chat().len() && (
            b.chat().len() > 0 ==> !b.chat().last().is_streaming),
            EventModel::NeedsApproval(_, _, _, _) => b.chat().len() == a.chat().len(),
            EventModel::UsageUpdate(_, _, _, _) => b.messages == a.messages,
        },
{
    lemma_finalized_stops_streaming(a.chat());
    let c = a.chat();
    match e {
        EventModel::TextDelta(t) => {
            let d = with_delta(c, t);
            if c.len() > 0 && c.last().is_streaming {
                assert(d.last().content == c.last().content + t);
                assert(d.last().content.skip(d.last().content.len() - t.len()) =~= t);
            } else {
                assert(d.last().content.skip(0) =~= t);
            }
        },
        _ => {},
    }
}

/// While an action waits for approval, `y` and `a` run it (`a` also
/// approves the tool for the rest of the session), `n` refuses it, telling
/// the agent so and showing it in the chat; after any of them the action
/// no longer waits. Any other key without Control changes nothing.
pub proof fn law_approval_keys(a: App, key: Key, b: App, out: KeyOutcome)
    requires
        a.state == AppState::WaitingApproval,
        a.pending_approval is Some,
        App::key_effect(a, key, false, b, out),
    ensures
        (key == Key::Char('y') || key == Key::Char('a')) ==> out == KeyOutcome::ExecuteApproved(
            a.pending_approval.unwrap(),
        ) && b.pending_approval is None && b.state == AppState::ToolExec && b.messages == a.messages,
        key == Key::Char('a') ==> b.always_approved@.len() == a.always_approved@.len() + 1
            && b.always_approved@.last()@ == a.pending_approval.unwrap().tool_name@,
        key == Key::Char('y') ==> b.always_approved == a.always_approved,
        key == Key::Char('n') ==> (out matches KeyOutcome::Denied { tool_name, result } && tool_name@
            == a.pending_approval.unwrap().tool_name@ && result@ == "DENIED: User rejected this action."@)
            && b.pending_approval is None && b.chat().len() == a.chat().len() + 1 && b.chat().last().content
            == "Action denied."@,
        !(key == Key::Char('y') || key == Key::Char('Y') || key == Key::Char('a') || key == Key::Char('A')
            || key == Key::Char('n') || key == Key::Char('N')) ==> out is Nothing && b == a,
{
}

impl App {
    pub open spec fn wf(&self) -> bool {
        self.input.wf()
    }

    pub open spec fn chat(&self) -> Seq<ChatMessageModel> {
        chat_model(self.messages@)
    }

    /// The user approved the actions of tool `tool` for the rest of the session.
    pub open spec fn always_approves(a: App, tool: Seq<char>) -> bool {
        exists|i: int| 0 <= i < a.always_approved@.len() && #[trigger] a.always_approved@[i]@ == tool
    }

    /// The model, the token counts, the always approved tools are the same.
    pub open spec fn keeps(a: App, b: App) -> bool {
        &&& b.always_approved == a.always_approved
        &&& b.model_name == a.model_name
        &&& b.context_usage == a.context_usage
        &&& b.total_tokens == a.total_tokens
    }

    /// What an agent event does to the application.
    pub open spec fn event_effect(a: App, e: EventModel, b: App) -> bool {
        match e {
            EventModel::TextDelta(t) => {
                &&& b.state == AppState::Streaming
                &&& b.chat() == with_delta(a.chat(), t)
                &&& b.scroll_offset == 0
                &&& b.pending_approval == a.pending_approval
            },
            EventModel::Thinking(t) => {
                &&& b.state == a.state
                &&& b.chat() == a.chat().push(sys("💭 "@ + t))
                &&& b.scroll_offset == 0
                &&& b.pending_approval == a.pending_approval
            },
            EventModel::ToolCallStart(name, _) => {
                &&& b.state == AppState::ToolExec
                &&& b.chat() == finalized(a.chat()).push(sys("Calling "@ + name + "..."@))
                &&& b.scroll_offset == 0
                &&& b.pending_approval == a.pending_approval
            },
            EventModel::ToolResult(name, result, is_error) => {
                &&& b.state == a.state
                &&& b.chat() == a.chat().push(tool_message(name, result, is_error))
                &&& b.scroll_offset == 0
                &&& b.pending_approval == a.pending_approval
            },
            EventModel::NeedsApproval(tool_name, description, preview, arguments) => {
                &&& b.chat() == finalized(a.chat())
                &&& b.scroll_offset == a.scroll_offset
                &&& if App::always_approves(a, tool_name) {
                    b.state == AppState::ToolExec && b.pending_approval is None
                } else {
                    &&& b.state == AppState::WaitingApproval
                    &&& b.pending_approval matches Some(p) && p@ == (PendingModel {
                        tool_name,
                        description,
                        preview,
                        arguments,
                    })
                }
            },
            EventModel::AskUser(q) => {
                &&& b.state == AppState::Idle
                &&& b.chat() == finalized(a.chat()).push(plain_message(ChatRole::Assistant, q))
                &&& b.scroll_offset == 0
                &&& b.pending_approval == a.pending_approval
            },
            EventModel::Complete(r) => {
                &&& b.state == a.state
                &&& b.chat() == if r.len() > 0 {
                    finalized(a.chat()).push(plain_message(ChatRole::Assistant, r))
                } else {
                    finalized(a.chat())
                }
                &&& b.scroll_offset == 0
                &&& b.pending_approval == a.pending_approval
            },
            EventModel::UsageUpdate(_, _, _, _) => {
                &&& b.state == a.state
                &&& b.messages == a.messages
                &&& b.scroll_offset == a.scroll_offset
                &&& b.pending_approval == a.pending_approval
            },
            EventModel::Error(err) => {
                &&& b.state == a.state
                &&& b.chat() == a.chat().push(error_message(err))
                &&& b.scroll_offset == 0
                &&& b.pending_approval == a.pending_approval
            },
            EventModel::TurnComplete => {
                &&& b.state == AppState::Idle
                &&& b.chat() == finalized(a.chat())
                &&& b.scroll_offset == a.scroll_offset
                &&& b.pending_approval == a.pending_approval
            },
        }
    }

    /// The token counts after an event: a usage update sets them, any other
    /// event leaves them.
    pub open spec fn counts_after(a: App, e: EventModel, b: App) -> bool {
        match e {
            EventModel::UsageUpdate(p, c, used, budget) => {
                &&& b.total_tokens == p + c
                &&& b.context_usage == Some((used, budget))
            },
            _ => {
                &&& b.total_tokens == a.total_tokens
                &&& b.context_usage == a.context_usage
            },
        }
    }

    /// Only the input line may differ.
    pub open spec fn only_input(a: App, b: App) -> bool {
        &&& b.messages == a.messages
        &&& b.state == a.state
        &&& b.scroll_offset == a.scroll_offset
        &&& b.pending_approval == a.pending_approval
        &&& b.should_quit == a.should_quit
        &&& App::keeps(a, b)
    }

    /// The input line, the state and the approval are the same.
    pub open spec fn same_controls(a: App, b: App) -> bool {
        &&& b.input == a.input
        &&& b.state == a.state
        &&& b.pending_approval == a.pending_approval
        &&& App::keeps(a, b)
    }

    /// What a slash command does, after the input line was submitted into `a`.
    pub open spec fn slash_effect(a: App, cmd: SlashModel, b: App, out: KeyOutcome) -> bool {
        &&& App::same_controls(a, b)
        &&& b.scroll_offset == 0
        &&& b.should_quit == (a.should_quit || cmd is Quit)
        &&& (if cmd is Save { out is Save } else { out is Nothing })
        &&& b.chat() == match cmd {
            SlashModel::Help => a.chat().push(sys(help_text())),
            SlashModel::Clear => seq![sys("Chat cleared."@)],
            SlashModel::Model(n) => a.chat().push(
                sys(
                    if n.len() == 0 {
                        "Current model: "@ + a.model_name@
                    } else {
                        "Model switching will be implemented. Current: "@ + a.model_name@
                    },
                ),
            ),
            SlashModel::Compact => a.chat().push(sys("Context compaction triggered."@)),
            SlashModel::Save => a.chat(),
            SlashModel::Quit => a.chat(),
            SlashModel::Unknown(c) => a.chat().push(
                error_message("Unknown command: /"@ + c + ". Type /help for available commands."@),
            ),
        }
    }

    /// The edit of the input line that a key makes while the application is idle.
    pub open spec fn edit_effect(a: InputState, key: Key, ctrl: bool, b: InputState) -> bool {
        match key {
            Key::Backspace => deleted_back(a, b),
            Key::Delete => deleted_forward(a, b),
            Key::Left => moved_left(a, b),
            Key::Right => moved_right(a, b),
            Key::Home => moved_to(a, 0, b),
            Key::End => moved_to(a, byte_len(a.buffer@) as int, b),
            Key::Up => recalled_previous(a, b),
            Key::Down => recalled_next(a, b),
            Key::Char(c) => if ctrl && c == 'a' {
                moved_to(a, 0, b)
            } else if ctrl && c == 'e' {
                moved_to(a, byte_len(a.buffer@) as int, b)
            } else if ctrl && c == 'k' {
                killed_line(a, b)
            } else if ctrl && c == 'w' {
                killed_word(a, b)
            } else if ctrl && c == 'u' {
                cleared(a, b)
            } else {
                inserted(a, c, b)
            },
            _ => b == a,
        }
    }

    /// The key is one that the input line can take while idle.
    pub open spec fn edit_allowed(a: InputState, key: Key, ctrl: bool) -> bool {
        match key {
            Key::Backspace => can_delete_back(a),
            Key::Delete => can_delete_forward(a),
            Key::Char(c) => if ctrl && (c == 'a' || c == 'e' || c == 'u') {
                true
            } else if ctrl && (c == 'k' || c == 'w') {
                at_boundary(a)
            } else {
                can_insert(a)
            },
            _ => true,
        }
    }

    /// Ctrl-C and Ctrl-D act in every state.
    pub open spec fn is_global(key: Key, ctrl: bool) -> bool {
        ctrl && (key == Key::Char('c') || key == Key::Char('d'))
    }

    /// A key is safe when, if it edits the input line, the edit is allowed.
    pub open spec fn key_safe(a: App, key: Key, ctrl: bool) -> bool {
        (a.state == AppState::Idle && !App::is_global(key, ctrl) && key != Key::Enter && key != Key::PageUp
            && key != Key::PageDown) ==> App::edit_allowed(a.input, key, ctrl)
    }

    /// What a key does.
    pub open spec fn key_effect(a: App, key: Key, ctrl: bool, b: App, out: KeyOutcome) -> bool {
        if ctrl && key == Key::Char('c') {
            if a.state != AppState::Idle {
                &&& out is CancelTurn
                &&& b.state == AppState::Idle
                &&& b.chat() == finalized(a.chat()).push(sys("Cancelled."@))
                &&& b.input == a.input
                &&& b.scroll_offset == a.scroll_offset
                &&& b.pending_approval == a.pending_approval
                &&& b.should_quit == a.should_quit
                &&& App::keeps(a, b)
            } else {
                &&& out is Nothing
                &&& b.should_quit
                &&& b.messages == a.messages
                &&& b.scroll_offset == a.scroll_offset
                &&& App::same_controls(a, b)
            }
        } else if ctrl && key == Key::Char('d') {
            &&& out is Nothing
            &&& b.should_quit
            &&& b.messages == a.messages
            &&& b.scroll_offset == a.scroll_offset
            &&& App::same_controls(a, b)
        } else if a.state == AppState::WaitingApproval {
            match a.pending_approval {
                Some(p) => if key == Key::Char('y') || key == Key::Char('Y') {
                    &&& out == KeyOutcome::ExecuteApproved(p)
                    &&& b.state == AppState::ToolExec
                    &&& b.pending_approval is None
                    &&& b.messages == a.messages
                    &&& b.input == a.input
                    &&& b.scroll_offset == a.scroll_offset
                    &&& b.should_quit == a.should_quit
                    &&& App::keeps(a, b)
                } else if key == Key::Char('a') || key == Key::Char('A') {
                    &&& out == KeyOutcome::ExecuteApproved(p)
                    &&& b.state == AppState::ToolExec
                    &&& b.pending_approval is None
                    &&& b.always_approved@.len() == a.always_approved@.len() + 1
                    &&& b.always_approved@.drop_last() == a.always_approved@
                    &&& b.always_approved@.last()@ == p.tool_name@
                    &&& b.messages == a.messages
                    &&& b.input == a.input
                    &&& b.scroll_offset == a.scroll_offset
                    &&& b.should_quit == a.should_quit
                    &&& b.model_name == a.model_name
                    &&& b.context_usage == a.context_usage
                    &&& b.total_tokens == a.total_tokens
                } else if key == Key::Char('n') || key == Key::Char('N') {
                    &&& out matches KeyOutcome::Denied { tool_name, result }
                        && tool_name@ == p.tool_name@ && result@ == denied_text()
                    &&& b.state == AppState::Thinking
                    &&& b.pending_approval is None
                    &&& b.chat() == a.chat().push(sys("Action denied."@))
                    &&& b.input == a.input
                    &&& b.scroll_offset == a.scroll_offset
                    &&& b.should_quit == a.should_quit
                    &&& App::keeps(a, b)
                } else {
                    out is Nothing && b == a
                },
                None => out is Nothing && b == a,
            }
        } else if a.state != AppState::Idle {
            out is Nothing && b == a
        } else if key == Key::Enter {
            let text = a.input.buffer@;
            &&& submitted(a.input, text, b.input)
            &&& if text.len() == 0 {
                out is Nothing && App::only_input(a, b)
            } else if text[0] == '/' {
                App::slash_effect(
                    App { input: b.input, ..a },
                    named_command(lowercase(command_word(text)), command_arg(text)),
                    b,
                    out,
                )
            } else {
                &&& out matches KeyOutcome::Send(t) && t@ == text
                &&& b.chat() == a.chat().push(plain_message(ChatRole::User, text))
                &&& b.scroll_offset == 0
                &&& b.state == AppState::Thinking
                &&& b.pending_approval == a.pending_approval
                &&& b.should_quit == a.should_quit
                &&& App::keeps(a, b)
            }
        } else if key == Key::PageUp || key == Key::PageDown {
            &&& out is Nothing
            &&& b.scroll_offset == if key == Key::PageUp {
                if a.scroll_offset + 10 > u16::MAX { u16::MAX as int } else { a.scroll_offset + 10 }
            } else {
                if a.scroll_offset >= 10 { a.scroll_offset - 10 } else { 0 }
            }
            &&& b.messages == a.messages
            &&& b.should_quit == a.should_quit
            &&& App::same_controls(a, b)
        } else {
            &&& out is Nothing
            &&& App::edit_effect(a.input, key, ctrl, b.input)
            &&& App::only_input(a, b)
        }
    }

    /// The state that the application starts in.
    pub fn new(model_name: String) -> (r: Self)
        ensures
            r.wf(),
            r.chat() == seq![sys(welcome_text())],
            r.input.buffer@ == Seq::<char>::empty(),
            r.input.cursor == 0,
            r.input.history@.len() == 0,
            r.input.history_index is None,
            r.state == AppState::Idle,
            r.scroll_offset == 0,
            r.model_name == model_name,
            r.context_usage is None,
            r.total_tokens == 0,
            r.pending_approval is None,
            r.always_approved@.len() == 0,
            !r.should_quit,
    {
        let mut messages: Vec<ChatMessage> = Vec::new();
        messages.push(
            ChatMessage::system(
                "Welcome to Enki — your local AI coding assistant.\nType a message or /help for commands.",
            ),
        );
        let r = App {
            messages,
            input: InputState::new(),
            state: AppState::Idle,
            scroll_offset: 0,
            model_name,
            context_usage: None,
            total_tokens: 0,
            pending_approval: None,
            always_approved: Vec::new(),
            should_quit: false,
        };
        assert(r.chat() =~= seq![sys(welcome_text())]);
        r
    }

    fn push_message(&mut self, m: ChatMessage)
        ensures
            final(self).chat() == old(self).chat().push(m@),
            final(self).input == old(self).input,
            final(self).state == old(self).state,
            final(self).scroll_offset == old(self).scroll_offset,
            final(self).pending_approval == old(self).pending_approval,
            final(self).should_quit == old(self).should_quit,
            App::keeps(*old(self), *final(self)),
    {
        let ghost before = self.messages@;
        self.messages.push(m);
        assert(chat_model(self.messages@) =~= chat_model(before).push(m@));
    }

    /// Whether the user approved the actions of tool `tool` for the rest of
    /// the session.
    pub fn is_always_approved(&self, tool: &str) -> (b: bool)
        ensures
            b == App::always_approves(*self, tool@),
    {
        let mut i: usize = 0;
        while i < self.always_approved.len()
            invariant
                i <= self.always_approved@.len(),
                forall|k: int| 0 <= k < i ==> self.always_approved@[k]@ != tool@,
            decreases self.always_approved@.len() - i,
        {
            if crate::json::str_eq(self.always_approved[i].as_str(), tool) {
                return true;
            }
            i = i + 1;
        }
        false
    }

    /// Marks a streaming last message finished.
    pub fn finalize_streaming(&mut self)
        ensures
            final(self).chat() == finalized(old(self).chat()),
            final(self).input == old(self).input,
            final(self).state == old(self).state,
            final(self).scroll_offset == old(self).scroll_offset,
            final(self).pending_approval == old(self).pending_approval,
            final(self).should_quit == old(self).should_quit,
            App::keeps(*old(self), *final(self)),
    {
        let n = self.messages.len();
        if n > 0 && self.messages[n - 1].is_streaming {
            let ghost before = self.messages@;
            let mut last = self.messages.pop().unwrap();
            last.is_streaming = false;
            self.messages.push(last);
            assert(chat_model(self.messages@) =~= finalized(chat_model(before)));
        }
    }

    fn append_delta(&mut self, text: String)
        ensures
            final(self).chat() == with_delta(old(self).chat(), text@),
            final(self).input == old(self).input,
            final(self).state == old(self).state,
            final(self).scroll_offset == old(self).scroll_offset,
            final(self).pending_approval == old(self).pending_approval,
            final(self).should_quit == old(self).should_quit,
            App::keeps(*old(self), *final(self)),
    {
        let n = self.messages.len();
        let ghost before = self.messages@;
        if n > 0 && self.messages[n - 1].is_streaming {
            let mut last = self.messages.pop().unwrap();
            let joined = concat_str(last.content.as_str(), text.as_str());
            last.content = joined;
            self.messages.push(last);
            assert(chat_model(self.messages@) =~= with_delta(chat_model(before), text@));
        } else {
            let mut msg = ChatMessage::assistant_streaming();
            msg.content = text;
            self.messages.push(msg);
            assert(chat_model(self.messages@) =~= with_delta(chat_model(before), text@));
        }
    }

    /// Applies an event from the agent. An action of a tool that the user
    /// always approves is not put to the user: it is returned, to be run.
    pub fn handle_agent_event(&mut self, event: AgentEvent) -> (r: Option<PendingAction>)
        requires
            event@ matches EventModel::UsageUpdate(p, c, _, _) ==> p + c <= u32::MAX,
        ensures
            App::event_effect(*old(self), event@, *final(self)),
            final(self).always_approved == old(self).always_approved,
            match event@ {
                EventModel::NeedsApproval(tool_name, description, preview, arguments) => if App::always_approves(
                    *old(self),
                    tool_name,
                ) {
                    r matches Some(p) && p@ == (PendingModel { tool_name, description, preview, arguments })
                } else {
                    r is None
                },
                _ => r is None,
            },
            App::counts_after(*old(self), event@, *final(self)),
            final(self).input == old(self).input,
            final(self).model_name == old(self).model_name,
            final(self).should_quit == old(self).should_quit,
    {
        match event {
            AgentEvent::TextDelta(text) => {
                self.state = AppState::Streaming;
                self.append_delta(text);
                self.scroll_offset = 0;
            },
            AgentEvent::Thinking(text) => {
                let t = concat_str("💭 ", text.as_str());
                self.push_message(ChatMessage::system(t.as_str()));
                self.scroll_offset = 0;
            },
            AgentEvent::ToolCallStart { name, arguments: _ } => {
                self.state = AppState::ToolExec;
                self.finalize_streaming();
                let mut t = concat_str("Calling ", name.as_str());
                t = concat_str(t.as_str(), "...");
                self.push_message(ChatMessage::system(t.as_str()));
                self.scroll_offset = 0;
            },
            AgentEvent::ToolResult { name, result, is_error } => {
                self.push_message(ChatMessage::tool(name.as_str(), result.as_str(), is_error));
                self.scroll_offset = 0;
            },
            AgentEvent::NeedsApproval { tool_name, description, preview, arguments } => {
                self.finalize_streaming();
                let action = PendingAction { tool_name, description, preview, arguments };
                if self.is_always_approved(action.tool_name.as_str()) {
                    self.state = AppState::ToolExec;
                    self.pending_approval = None;
                    return Some(action);
                }
                self.state = AppState::WaitingApproval;
                self.pending_approval = Some(action);
            },
            AgentEvent::AskUser(question) => {
                self.state = AppState::Idle;
                self.finalize_streaming();
                self.push_message(ChatMessage::assistant(question.as_str()));
                self.scroll_offset = 0;
            },
            AgentEvent::Complete(result) => {
                self.finalize_streaming();
                if !result.as_str().is_empty() {
                    self.push_message(ChatMessage::assistant(result.as_str()));
                }
                self.scroll_offset = 0;
            },
            AgentEvent::UsageUpdate { prompt_tokens, completion_tokens, used_tokens, budget_tokens } => {
                self.total_tokens = prompt_tokens + completion_tokens;
                self.context_usage = Some((used_tokens, budget_tokens));
            },
            AgentEvent::Error(err) => {
                self.push_message(ChatMessage::error(err.as_str()));
                self.scroll_offset = 0;
            },
            AgentEvent::TurnComplete => {
                self.state = AppState::Idle;
                self.finalize_streaming();
            },
        }
        None
    }

    /// Carries out a slash command. Saving is outside work: the outcome
    /// asks for it.
    pub fn handle_slash_command(&mut self, cmd: SlashCommand) -> (out: KeyOutcome)
        ensures
            App::slash_effect(*old(self), cmd@, *final(self), out),
    {
        let out = match cmd {
            SlashCommand::Help => {
                self.push_message(
                    ChatMessage::system(
                        "Commands:\n  /help     — Show this help\n  /clear    — Clear chat\n  /model <n> — Switch model\n  /compact  — Compact context\n  /save     — Save session\n  /quit     — Exit Enki",
                    ),
                );
                KeyOutcome::Nothing
            },
            SlashCommand::Clear => {
                self.messages = Vec::new();
                self.push_message(ChatMessage::system("Chat cleared."));
                assert(self.chat() =~= seq![sys("Chat cleared."@)]);
                KeyOutcome::Nothing
            },
            SlashCommand::Model(name) => {
                let text = if name.as_str().is_empty() {
                    concat_str("Current model: ", self.model_name.as_str())
                } else {
                    concat_str("Model switching will be implemented. Current: ", self.model_name.as_str())
                };
                self.push_message(ChatMessage::system(text.as_str()));
                KeyOutcome::Nothing
            },
            SlashCommand::Compact => {
                self.push_message(ChatMessage::system("Context compaction triggered."));
                KeyOutcome::Nothing
            },
            SlashCommand::Save => KeyOutcome::Save,
            SlashCommand::Quit => {
                self.should_quit = true;
                KeyOutcome::Nothing
            },
            SlashCommand::Unknown(c) => {
                let mut text = concat_str("Unknown command: /", c.as_str());
                text = concat_str(text.as_str(), ". Type /help for available commands.");
                self.push_message(ChatMessage::error(text.as_str()));
                KeyOutcome::Nothing
            },
        };
        self.scroll_offset = 0;
        out
    }

    /// Reports how saving went.
    pub fn save_finished(&mut self, outcome: Result<(), String>)
        ensures
            final(self).chat() == old(self).chat().push(
                match outcome {
                    Ok(()) => sys("Session saved."@),
                    Err(e) => error_message("Failed to save: "@ + e@),
                },
            ),
            App::same_controls(*old(self), *final(self)),
            final(self).scroll_offset == old(self).scroll_offset,
            final(self).should_quit == old(self).should_quit,
    {
        match outcome {
            Ok(()) => self.push_message(ChatMessage::system("Session saved.")),
            Err(e) => {
                let text = concat_str("Failed to save: ", e.as_str());
                self.push_message(ChatMessage::error(text.as_str()));
            },
        }
    }

    /// Shows the result of an approved action and returns the text that
    /// the agent gets as the tool's result; the agent goes on thinking.
    pub fn approved_result(&mut self, tool_name: &str, result: &ToolResult) -> (content: String)
        ensures
            ({
                let (text, is_error) = match result {
                    ToolResult::Success(s) => (s@, false),
                    ToolResult::Error(e) => (e@, true),
                    _ => ("Done."@, false),
                };
                &&& content@ == text
                &&& final(self).chat() == old(self).chat().push(tool_message(tool_name@, text, is_error))
            }),
            final(self).state == AppState::Thinking,
            final(self).input == old(self).input,
            final(self).pending_approval == old(self).pending_approval,
            final(self).scroll_offset == old(self).scroll_offset,
            final(self).should_quit == old(self).should_quit,
            App::keeps(*old(self), *final(self)),
    {
        let (content, is_error) = match result {
            ToolResult::Success(s) => (s.clone(), false),
            ToolResult::Error(e) => (e.clone(), true),
            _ => ("Done.".to_owned(), false),
        };
        self.push_message(ChatMessage::tool(tool_name, content.as_str(), is_error));
        self.state = AppState::Thinking;
        content
    }

    /// Whether a key meets what `handle_key` asks of it.
    pub fn key_is_safe(&self, key: Key, ctrl: bool) -> (r: bool)
        requires
            self.wf(),
        ensures
            r == App::key_safe(*self, key, ctrl),
    {
        let global = ctrl && (key == Key::Char('c') || key == Key::Char('d'));
        if self.state != AppState::Idle || global || key == Key::Enter || key == Key::PageUp || key == Key::PageDown {
            return true;
        }
        let buf = self.input.buffer.as_str();
        let cursor = self.input.cursor;
        match key {
            Key::Backspace => cursor == 0 || (is_char_boundary(buf, cursor - 1) && cursor - 1 < str_byte_len(buf)),
            Key::Delete => cursor >= str_byte_len(buf) || is_char_boundary(buf, cursor),
            Key::Char(c) => {
                if ctrl && (c == 'a' || c == 'e' || c == 'u') {
                    true
                } else if ctrl && (c == 'k' || c == 'w') {
                    is_char_boundary(buf, cursor)
                } else {
                    is_char_boundary(buf, cursor)
                }
            },
            _ => true,
        }
    }

    /// Handles a key; `ctrl` says that Control, and no other modifier, is held.
    pub fn handle_key(&mut self, key: Key, ctrl: bool) -> (out: KeyOutcome)
        requires
            old(self).wf(),
            App::key_safe(*old(self), key, ctrl),
        ensures
            final(self).wf(),
            App::key_effect(*old(self), key, ctrl, *final(self), out),
    {
        if ctrl && key == Key::Char('c') {
            if self.state != AppState::Idle {
                self.state = AppState::Idle;
                self.finalize_streaming();
                self.push_message(ChatMessage::system("Cancelled."));
                return KeyOutcome::CancelTurn;
            } else {
                self.should_quit = true;
                return KeyOutcome::Nothing;
            }
        }
        if ctrl && key == Key::Char('d') {
            self.should_quit = true;
            return KeyOutcome::Nothing;
        }
        if self.state == AppState::WaitingApproval {
            let pending = self.pending_approval.take();
            match pending {
                Some(approval) => {
                    if key == Key::Char('y') || key == Key::Char('Y') {
                        self.state = AppState::ToolExec;
                        return KeyOutcome::ExecuteApproved(approval);
                    } else if key == Key::Char('a') || key == Key::Char('A') {
                        let ghost before = self.always_approved@;
                        self.always_approved.push(approval.tool_name.clone());
                        assert(self.always_approved@.drop_last() =~= before);
                        self.state = AppState::ToolExec;
                        return KeyOutcome::ExecuteApproved(approval);
                    } else if key == Key::Char('n') || key == Key::Char('N') {
                        let tool_name = approval.tool_name;
                        self.push_message(ChatMessage::system("Action denied."));
                        self.state = AppState::Thinking;
                        return KeyOutcome::Denied {
                            tool_name,
                            result: "DENIED: User rejected this action.".to_owned(),
                        };
                    } else {
                        self.pending_approval = Some(approval);
                        return KeyOutcome::Nothing;
                    }
                },
                None => {
                    return KeyOutcome::Nothing;
                },
            }
        }
        if self.state != AppState::Idle {
            return KeyOutcome::Nothing;
        }
        match key {
            Key::Enter => {
                let text = self.input.submit();
                if text.as_str().is_empty() {
                    return KeyOutcome::Nothing;
                }
                let ghost after_submit = *self;
                let parsed = parse_slash_command(text.as_str());
                match parsed {
                    Some(cmd) => {
                        return self.handle_slash_command(cmd);
                    },
                    None => {
                        self.push_message(ChatMessage::user(text.as_str()));
                        self.scroll_offset = 0;
                        self.state = AppState::Thinking;
                        return KeyOutcome::Send(text);
                    },
                }
            },
            Key::Backspace => self.input.delete_char(),
            Key::Delete => self.input.delete_forward(),
            Key::Left => self.input.move_left(),
            Key::Right => self.input.move_right(),
            Key::Home => self.input.move_home(),
            Key::End => self.input.move_end(),
            Key::Up => self.input.history_up(),
            Key::Down => self.input.history_down(),
            Key::PageUp => {
                self.scroll_offset = if self.scroll_offset > u16::MAX - 10 {
                    u16::MAX
                } else {
                    self.scroll_offset + 10
                };
            },
            Key::PageDown => {
                self.scroll_offset = if self.scroll_offset >= 10 {
                    self.scroll_offset - 10
                } else {
                    0
                };
            },
            Key::Char(c) => {
                if ctrl && c == 'a' {
                    self.input.move_home();
                } else if ctrl && c == 'e' {
                    self.input.move_end();
                } else if ctrl && c == 'k' {
                    self.input.kill_line();
                } else if ctrl && c == 'w' {
                    self.input.kill_word_back();
                } else if ctrl && c == 'u' {
                    self.input.clear();
                } else {
                    self.input.insert_char(c);
                }
            },
            Key::Other => {},
        }
        KeyOutcome::Nothing
    }
}

} // verus!
