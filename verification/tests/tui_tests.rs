use enki::agent::agent_loop::AgentEvent;
use enki::app::{App, Key, KeyOutcome};
use enki::json::JsonValue;
use enki::tools::types::ToolResult;
use enki::tui::chat::{approval_lines, chat_lines, chat_scroll, ChatMessage, ChatRole, LineStyle};
use enki::tui::input::{cursor_column, input_view, is_char_boundary, parse_slash_command, InputState, SlashCommand};
use enki::tui::status::{context_level, state_label, AppState, ContextLevel};

fn typed(text: &str) -> InputState {
    let mut s = InputState::new();
    for c in text.chars() {
        s.insert_char(c);
    }
    s
}

#[test]
fn typing_and_editing() {
    let mut s = typed("helo");
    s.move_left();
    s.insert_char('l');
    assert_eq!(s.buffer, "hello");
    assert_eq!(s.cursor, 4);
    s.delete_forward();
    assert_eq!(s.buffer, "hell");
    s.move_home();
    s.delete_char();
    assert_eq!(s.buffer, "hell");
    assert_eq!(s.cursor, 0);
    s.move_end();
    assert_eq!(s.cursor, 4);
    s.move_right();
    assert_eq!(s.cursor, 4);
    s.delete_char();
    assert_eq!(s.buffer, "hel");
}

#[test]
fn insert_then_delete_restores() {
    let mut s = typed("abc");
    s.move_left();
    let before = (s.buffer.clone(), s.cursor);
    s.insert_char('x');
    s.delete_char();
    assert_eq!((s.buffer.clone(), s.cursor), before);
    // also for a character of several bytes
    s.insert_char('é');
    assert_eq!(s.buffer, "abéc");
    assert_eq!(s.cursor, 3);
    s.delete_char();
    assert_eq!((s.buffer.clone(), s.cursor), before);
}

#[test]
fn cursor_moves_by_bytes() {
    let mut s = typed("é");
    assert_eq!(s.buffer.len(), 2);
    // the cursor moved one byte for a two-byte character
    assert_eq!(s.cursor, 1);
    assert!(!is_char_boundary(&s.buffer, 1));
    s.move_end();
    assert_eq!(s.cursor, 2);
    assert!(is_char_boundary(&s.buffer, 2));
    assert!(is_char_boundary(&s.buffer, 0));
    assert!(!is_char_boundary(&s.buffer, 3));
}

#[test]
fn kill_line_and_word() {
    let mut s = typed("git commit  -m msg");
    s.kill_word_back();
    assert_eq!(s.buffer, "git commit  -m ");
    assert_eq!(s.cursor, 15);
    s.kill_word_back();
    assert_eq!(s.buffer, "git commit  ");
    s.kill_word_back();
    assert_eq!(s.buffer, "git ");
    s.move_home();
    s.move_right();
    s.kill_line();
    assert_eq!(s.buffer, "g");
    s.clear();
    assert_eq!(s.buffer, "");
    assert_eq!(s.cursor, 0);
    s.kill_word_back();
    assert_eq!(s.buffer, "");
}

#[test]
fn submit_and_history() {
    let mut s = typed("first");
    assert_eq!(s.submit(), "first");
    assert_eq!(s.submit(), "");
    for c in "second".chars() {
        s.insert_char(c);
    }
    s.submit();
    assert_eq!(s.history, vec!["first".to_string(), "second".to_string()]);
    s.history_up();
    assert_eq!(s.buffer, "second");
    assert_eq!(s.cursor, 6);
    s.history_up();
    assert_eq!(s.buffer, "first");
    s.history_up();
    assert_eq!(s.buffer, "first");
    assert_eq!(s.history_index, Some(0));
    s.history_down();
    assert_eq!(s.buffer, "second");
    s.history_down();
    assert_eq!(s.buffer, "");
    assert_eq!(s.history_index, None);
    s.history_down();
    assert_eq!(s.buffer, "");
}

#[test]
fn history_up_with_empty_history_does_nothing() {
    let mut s = typed("draft");
    s.history_up();
    assert_eq!(s.buffer, "draft");
    assert_eq!(s.history_index, None);
}

#[test]
fn slash_commands() {
    assert!(parse_slash_command("hello").is_none());
    assert!(parse_slash_command("").is_none());
    assert_eq!(parse_slash_command("/help"), Some(SlashCommand::Help));
    assert_eq!(parse_slash_command("/H"), Some(SlashCommand::Help));
    assert_eq!(parse_slash_command("/clear"), Some(SlashCommand::Clear));
    assert_eq!(parse_slash_command("/Model llama3 big"), Some(SlashCommand::Model("llama3 big".to_string())));
    assert_eq!(parse_slash_command("/m"), Some(SlashCommand::Model(String::new())));
    assert_eq!(parse_slash_command("/compact"), Some(SlashCommand::Compact));
    assert_eq!(parse_slash_command("/save"), Some(SlashCommand::Save));
    assert_eq!(parse_slash_command("/EXIT"), Some(SlashCommand::Quit));
    assert_eq!(parse_slash_command("/q"), Some(SlashCommand::Quit));
    assert_eq!(parse_slash_command("/Foo bar"), Some(SlashCommand::Unknown("foo".to_string())));
    assert_eq!(parse_slash_command("/"), Some(SlashCommand::Unknown(String::new())));
}

#[test]
fn input_view_and_cursor() {
    let v = input_view("", true);
    assert_eq!(v.text, "Type a message... (/help for commands)");
    assert!(v.dimmed);
    let w = input_view("abc", true);
    assert_eq!(w.text, "abc");
    assert!(!w.dimmed);
    let x = input_view("", false);
    assert_eq!(x.text, "");
    assert!(input_view("abc", false).dimmed);
    assert_eq!(cursor_column(3, 5), 9);
}

#[test]
fn chat_lines_for_each_kind() {
    let msgs = vec![
        ChatMessage::user("hi\nthere"),
        ChatMessage::tool("bash", "line1\nline2", false),
        ChatMessage::tool("bash", "boom", true),
        ChatMessage::system(""),
    ];
    let ls = chat_lines(&msgs);
    let got: Vec<(LineStyle, String)> = ls.into_iter().map(|l| (l.style, l.text)).collect();
    let want = vec![
        (LineStyle::User, "❯ hi".to_string()),
        (LineStyle::User, "  there".to_string()),
        (LineStyle::Blank, String::new()),
        (LineStyle::ToolHeader, "⟐ bash ".to_string()),
        (LineStyle::ToolBody, "  line1".to_string()),
        (LineStyle::ToolBody, "  line2".to_string()),
        (LineStyle::Blank, String::new()),
        (LineStyle::Error, "✗ boom".to_string()),
        (LineStyle::Blank, String::new()),
        (LineStyle::System, "◆ ".to_string()),
        (LineStyle::Blank, String::new()),
    ];
    assert_eq!(got, want);
}

#[test]
fn streaming_message_shows_a_cursor() {
    let mut m = ChatMessage::assistant_streaming();
    let ls = chat_lines(&vec![ChatMessage::assistant_streaming()]);
    assert_eq!(ls[0].text, "⚡ ▌");
    m.content = "par".to_string();
    let ls2 = chat_lines(&vec![m]);
    assert_eq!(ls2[0].text, "⚡ par▌");
    assert_eq!(ls2.len(), 2);
}

#[test]
fn scroll_follows_the_bottom() {
    assert_eq!(chat_scroll(50, 12, 0), 40);
    assert_eq!(chat_scroll(50, 12, 15), 25);
    assert_eq!(chat_scroll(50, 12, 100), 0);
    assert_eq!(chat_scroll(5, 12, 0), 0);
    assert_eq!(chat_scroll(5, 1, 0), 5);
    assert_eq!(chat_scroll(65536 + 20, 12, 0), 10);
}

#[test]
fn approval_lines_show_preview_head() {
    let preview: String = (1..=25).map(|i| format!("p{}\n", i)).collect();
    let ls = approval_lines("bash", "Execute: ls", Some(&preview));
    assert_eq!(ls.len(), 3 + 1 + 20 + 2);
    assert_eq!(ls[0].text, "Tool: bash");
    assert!(matches!(ls[0].style, LineStyle::Title));
    assert_eq!(ls[2].text, "Execute: ls");
    assert_eq!(ls[4].text, "p1");
    assert_eq!(ls[23].text, "p20");
    assert_eq!(ls[25].text, "[y] Approve  [n] Deny  [a] Always approve");
    let short = approval_lines("x", "d", None);
    assert_eq!(short.len(), 5);
}

#[test]
fn status_labels_and_levels() {
    assert_eq!(state_label(AppState::Idle), " ● READY ");
    assert_eq!(state_label(AppState::WaitingApproval), " ⚠ APPROVAL ");
    assert_eq!(context_level(10, 100), ContextLevel::Low);
    assert_eq!(context_level(6001, 100), ContextLevel::Medium);
    assert_eq!(context_level(8000, 100), ContextLevel::Medium);
    assert_eq!(context_level(8001, 100), ContextLevel::High);
    assert_eq!(context_level(1, 0), ContextLevel::High);
    assert_eq!(context_level(0, 0), ContextLevel::Low);
}

fn type_into(app: &mut App, text: &str) {
    for c in text.chars() {
        assert!(app.key_is_safe(Key::Char(c), false));
        app.handle_key(Key::Char(c), false);
    }
}

fn contents(app: &App) -> Vec<String> {
    app.messages.iter().map(|m| m.content.clone()).collect()
}

#[test]
fn app_starts_with_welcome() {
    let app = App::new("m".to_string());
    assert_eq!(app.messages.len(), 1);
    assert_eq!(app.messages[0].role, ChatRole::System);
    assert!(app.messages[0].content.starts_with("Welcome to Enki"));
    assert_eq!(app.state, AppState::Idle);
    assert_eq!(app.context_usage, None);
}

#[test]
fn app_sends_typed_text() {
    let mut app = App::new("m".to_string());
    type_into(&mut app, "fix it");
    match app.handle_key(Key::Enter, false) {
        KeyOutcome::Send(t) => assert_eq!(t, "fix it"),
        _ => panic!("expected send"),
    }
    assert_eq!(app.state, AppState::Thinking);
    assert_eq!(app.messages.last().unwrap().role, ChatRole::User);
    assert_eq!(app.input.buffer, "");
    // keys are ignored while the agent works
    assert!(matches!(app.handle_key(Key::Char('z'), false), KeyOutcome::Nothing));
    assert_eq!(app.input.buffer, "");
    assert!(matches!(app.handle_key(Key::Enter, false), KeyOutcome::Nothing));
}

#[test]
fn app_streams_agent_text() {
    let mut app = App::new("m".to_string());
    app.handle_agent_event(AgentEvent::TextDelta("Hel".to_string()));
    app.handle_agent_event(AgentEvent::TextDelta("lo".to_string()));
    assert_eq!(app.state, AppState::Streaming);
    assert_eq!(app.messages.len(), 2);
    assert_eq!(app.messages[1].content, "Hello");
    assert!(app.messages[1].is_streaming);
    app.handle_agent_event(AgentEvent::ToolCallStart { name: "bash".to_string(), arguments: JsonValue::Null });
    assert!(!app.messages[1].is_streaming);
    assert_eq!(app.messages[2].content, "Calling bash...");
    assert_eq!(app.state, AppState::ToolExec);
    app.handle_agent_event(AgentEvent::ToolResult { name: "bash".to_string(), result: "ok".to_string(), is_error: false });
    app.handle_agent_event(AgentEvent::Thinking("hmm".to_string()));
    app.handle_agent_event(AgentEvent::Complete(String::new()));
    app.handle_agent_event(AgentEvent::Complete("done".to_string()));
    app.handle_agent_event(AgentEvent::Error("bad".to_string()));
    app.handle_agent_event(AgentEvent::UsageUpdate { prompt_tokens: 7, completion_tokens: 5, used_tokens: 30, budget_tokens: 100 });
    app.handle_agent_event(AgentEvent::TurnComplete);
    assert_eq!(
        contents(&app)[1..],
        ["Hello", "Calling bash...", "ok", "💭 hmm", "done", "bad"].map(|s| s.to_string())
    );
    assert!(app.messages[6].is_error);
    assert_eq!(app.total_tokens, 12);
    assert_eq!(app.context_usage, Some((30, 100)));
    assert_eq!(app.state, AppState::Idle);
}

#[test]
fn app_approval_flow() {
    let mut app = App::new("m".to_string());
    app.handle_agent_event(AgentEvent::NeedsApproval {
        tool_name: "bash".to_string(),
        description: "Execute: ls".to_string(),
        preview: None,
        arguments: JsonValue::Null,
    });
    assert_eq!(app.state, AppState::WaitingApproval);
    assert!(matches!(app.handle_key(Key::Char('x'), false), KeyOutcome::Nothing));
    assert!(app.pending_approval.is_some());
    match app.handle_key(Key::Char('Y'), false) {
        KeyOutcome::ExecuteApproved(p) => assert_eq!(p.tool_name, "bash"),
        _ => panic!("expected execution"),
    }
    assert_eq!(app.state, AppState::ToolExec);
    assert!(app.pending_approval.is_none());
    let content = app.approved_result("bash", &ToolResult::Error("exit 1".to_string()));
    assert_eq!(content, "exit 1");
    assert!(app.messages.last().unwrap().is_error);
    assert_eq!(app.state, AppState::Thinking);
    let content2 = app.approved_result("ask", &ToolResult::Complete("x".to_string()));
    assert_eq!(content2, "Done.");
}

#[test]
fn app_denial() {
    let mut app = App::new("m".to_string());
    app.handle_agent_event(AgentEvent::NeedsApproval {
        tool_name: "write_file".to_string(),
        description: "Write".to_string(),
        preview: Some("p".to_string()),
        arguments: JsonValue::Null,
    });
    match app.handle_key(Key::Char('n'), false) {
        KeyOutcome::Denied { tool_name, result } => {
            assert_eq!(tool_name, "write_file");
            assert_eq!(result, "DENIED: User rejected this action.");
        }
        _ => panic!("expected denial"),
    }
    assert_eq!(app.messages.last().unwrap().content, "Action denied.");
    assert_eq!(app.state, AppState::Thinking);
}

#[test]
fn app_ctrl_c_cancels_then_quits() {
    let mut app = App::new("m".to_string());
    type_into(&mut app, "go");
    app.handle_key(Key::Enter, false);
    app.handle_agent_event(AgentEvent::TextDelta("par".to_string()));
    assert!(matches!(app.handle_key(Key::Char('c'), true), KeyOutcome::CancelTurn));
    assert_eq!(app.state, AppState::Idle);
    assert_eq!(app.messages.last().unwrap().content, "Cancelled.");
    assert!(!app.messages[app.messages.len() - 2].is_streaming);
    assert!(!app.should_quit);
    app.handle_key(Key::Char('c'), true);
    assert!(app.should_quit);
}

#[test]
fn app_ctrl_d_quits_anywhere() {
    let mut app = App::new("m".to_string());
    app.state = AppState::ToolExec;
    app.handle_key(Key::Char('d'), true);
    assert!(app.should_quit);
}

#[test]
fn app_slash_commands() {
    let mut app = App::new("llama".to_string());
    type_into(&mut app, "/model");
    app.handle_key(Key::Enter, false);
    assert_eq!(app.messages.last().unwrap().content, "Current model: llama");
    type_into(&mut app, "/model other");
    app.handle_key(Key::Enter, false);
    assert_eq!(app.messages.last().unwrap().content, "Model switching will be implemented. Current: llama");
    type_into(&mut app, "/bogus");
    app.handle_key(Key::Enter, false);
    assert_eq!(
        app.messages.last().unwrap().content,
        "Unknown command: /bogus. Type /help for available commands."
    );
    assert!(app.messages.last().unwrap().is_error);
    type_into(&mut app, "/help");
    app.handle_key(Key::Enter, false);
    assert!(app.messages.last().unwrap().content.starts_with("Commands:\n  /help"));
    type_into(&mut app, "/clear");
    app.handle_key(Key::Enter, false);
    assert_eq!(contents(&app), vec!["Chat cleared.".to_string()]);
    type_into(&mut app, "/save");
    assert!(matches!(app.handle_key(Key::Enter, false), KeyOutcome::Save));
    app.save_finished(Err("disk full".to_string()));
    assert_eq!(app.messages.last().unwrap().content, "Failed to save: disk full");
    app.save_finished(Ok(()));
    assert_eq!(app.messages.last().unwrap().content, "Session saved.");
    type_into(&mut app, "/quit");
    app.handle_key(Key::Enter, false);
    assert!(app.should_quit);
    assert_eq!(app.state, AppState::Idle);
}

#[test]
fn app_editing_keys() {
    let mut app = App::new("m".to_string());
    type_into(&mut app, "ab cd");
    app.handle_key(Key::Char('w'), true);
    assert_eq!(app.input.buffer, "ab ");
    app.handle_key(Key::Char('a'), true);
    assert_eq!(app.input.cursor, 0);
    app.handle_key(Key::Char('e'), true);
    assert_eq!(app.input.cursor, 3);
    app.handle_key(Key::Backspace, false);
    assert_eq!(app.input.buffer, "ab");
    app.handle_key(Key::Home, false);
    app.handle_key(Key::Delete, false);
    assert_eq!(app.input.buffer, "b");
    app.handle_key(Key::Char('k'), true);
    assert_eq!(app.input.buffer, "");
    type_into(&mut app, "x");
    app.handle_key(Key::Char('u'), true);
    assert_eq!(app.input.buffer, "");
    // a control chord that is no command inserts its character
    app.handle_key(Key::Char('z'), true);
    assert_eq!(app.input.buffer, "z");
    app.handle_key(Key::PageUp, false);
    assert_eq!(app.scroll_offset, 10);
    app.handle_key(Key::PageDown, false);
    app.handle_key(Key::PageDown, false);
    assert_eq!(app.scroll_offset, 0);
    app.scroll_offset = 65530;
    app.handle_key(Key::PageUp, false);
    assert_eq!(app.scroll_offset, 65535);
}

#[test]
fn app_unsafe_keys_are_reported() {
    let mut app = App::new("m".to_string());
    type_into(&mut app, "é");
    // the cursor now stands inside the character
    assert!(!app.key_is_safe(Key::Char('x'), false));
    assert!(!app.key_is_safe(Key::Char('k'), true));
    assert!(app.key_is_safe(Key::Char('a'), true));
    assert!(app.key_is_safe(Key::Left, false));
    assert!(app.key_is_safe(Key::Backspace, false));
}

#[test]
fn ascii_insert_keeps_the_cursor_on_a_boundary() {
    let mut s = typed("ñ");
    s.move_end();
    assert!(is_char_boundary(&s.buffer, s.cursor));
    s.insert_char('z');
    assert_eq!(s.buffer, "ñz");
    assert_eq!(s.cursor, 3);
    assert!(is_char_boundary(&s.buffer, s.cursor));
    assert!(s.buffer.is_char_boundary(s.cursor));
}

#[test]
fn app_always_approve() {
    let mut app = App::new("m".to_string());
    let ask = |name: &str| AgentEvent::NeedsApproval {
        tool_name: name.to_string(),
        description: "d".to_string(),
        preview: None,
        arguments: JsonValue::Null,
    };
    assert!(app.handle_agent_event(ask("bash")).is_none());
    assert_eq!(app.state, AppState::WaitingApproval);
    match app.handle_key(Key::Char('a'), false) {
        KeyOutcome::ExecuteApproved(p) => assert_eq!(p.tool_name, "bash"),
        _ => panic!("expected execution"),
    }
    assert_eq!(app.state, AppState::ToolExec);
    assert!(app.pending_approval.is_none());
    assert_eq!(app.always_approved, vec!["bash".to_string()]);
    assert!(app.is_always_approved("bash"));
    assert!(!app.is_always_approved("write_file"));
    // the next bash action runs without asking
    match app.handle_agent_event(ask("bash")) {
        Some(p) => assert_eq!(p.tool_name, "bash"),
        None => panic!("expected the action to run"),
    }
    assert_eq!(app.state, AppState::ToolExec);
    assert!(app.pending_approval.is_none());
    // another tool still asks
    assert!(app.handle_agent_event(ask("write_file")).is_none());
    assert_eq!(app.state, AppState::WaitingApproval);
}
