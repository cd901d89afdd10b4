use enki::agent::agent_loop::{tool_step, AgentEvent, LoopStep, ToolStep, TurnOutcome};
use enki::agent::context::ContextManager;
use enki::agent::conversation::Conversation;
use enki::json::{JsonValue};
use enki::llm::types::{Message, Role, UsageStats};

fn msg(role: Role, content: &str) -> Message {
    Message::plain(role, content)
}

#[test]
fn estimate_tokens_rounds_up_quarter_bytes() {
    assert_eq!(ContextManager::estimate_tokens(""), 0);
    assert_eq!(ContextManager::estimate_tokens("a"), 1);
    assert_eq!(ContextManager::estimate_tokens("abcd"), 1);
    assert_eq!(ContextManager::estimate_tokens("abcde"), 2);
    // bytes, not characters: "é" takes two bytes
    assert_eq!(ContextManager::estimate_tokens("éééé"), 2);
}

#[test]
fn estimate_messages_adds_overhead_per_message() {
    let ms = vec![msg(Role::User, "abcd"), msg(Role::Assistant, "abcdefgh")];
    assert_eq!(ContextManager::estimate_messages_tokens(&ms), (1 + 4) + (2 + 4));
    assert_eq!(ContextManager::estimate_messages_tokens(&[]), 0);
}

#[test]
fn available_tokens_saturates() {
    let cm = ContextManager::new(20, 5);
    let ms = vec![msg(Role::User, "abcd")];
    assert_eq!(cm.available_tokens(&ms), 20 - 5 - 5);
    let big = vec![msg(Role::User, &"x".repeat(400))];
    assert_eq!(cm.available_tokens(&big), 0);
    assert_eq!(cm.used_tokens(&ms), 10);
    assert_eq!(cm.max_history_tokens(), 20);
}

#[test]
fn needs_compaction_above_eighty_percent() {
    let cm = ContextManager::new(10, 4);
    // used = 4 + (1 + 4) = 9 > 8
    assert!(cm.needs_compaction(&[msg(Role::User, "ab")]));
    // used = 8, exactly 80 %
    let cm2 = ContextManager::new(10, 3);
    assert!(!cm2.needs_compaction(&[msg(Role::User, "ab")]));
    // no budget: any use counts
    let cm3 = ContextManager::new(0, 1);
    assert!(cm3.needs_compaction(&[]));
    let cm4 = ContextManager::new(0, 0);
    assert!(!cm4.needs_compaction(&[]));
}

#[test]
fn truncate_history_keeps_first_and_recent() {
    let cm = ContextManager::new(30, 0);
    let body = "x".repeat(40);
    let mut ms = vec![
        msg(Role::User, &format!("first{}", &body[5..])),
        msg(Role::Assistant, &body),
        msg(Role::User, &body),
        msg(Role::Assistant, &format!("last{}", &body[4..])),
    ];
    cm.truncate_history(&mut ms);
    assert_eq!(ms.len(), 3);
    assert!(ms[0].content.starts_with("first"));
    assert_eq!(ms[1].role, Role::System);
    assert_eq!(
        ms[1].content,
        "[2 earlier messages were removed to fit the context window. The conversation continues below.]"
    );
    assert!(ms[2].content.starts_with("last"));
}

#[test]
fn truncate_history_leaves_short_or_fitting_histories() {
    let cm = ContextManager::new(10, 0);
    let body = "x".repeat(400);
    let mut two = vec![msg(Role::User, &body), msg(Role::Assistant, &body)];
    cm.truncate_history(&mut two);
    assert_eq!(two.len(), 2);
    let cm2 = ContextManager::new(1000, 0);
    let mut three = vec![msg(Role::User, "a"), msg(Role::User, "b"), msg(Role::User, "c")];
    cm2.truncate_history(&mut three);
    assert_eq!(three.len(), 3);
    assert_eq!(three[1].content, "b");
}

#[test]
fn truncate_history_with_no_room_for_recent_keeps_only_first() {
    // the last message does not fit next to the first: all but the first go
    let cm = ContextManager::new(20, 0);
    let body = "x".repeat(40);
    let first = format!("first{}", &body[5..]);
    let mut ms = vec![msg(Role::User, &first), msg(Role::User, &body), msg(Role::User, &body)];
    cm.truncate_history(&mut ms);
    assert_eq!(ms.len(), 2);
    assert_eq!(ms[0].content, first);
    assert_eq!(
        ms[1].content,
        "[2 earlier messages were removed to fit the context window. The conversation continues below.]"
    );
}

#[test]
fn truncate_tool_result_short_is_unchanged() {
    assert_eq!(ContextManager::truncate_tool_result("hello", 2), "hello");
    assert_eq!(ContextManager::truncate_tool_result("12345678", 2), "12345678");
}

#[test]
fn truncate_tool_result_keeps_head_and_tail_lines() {
    let text = "aaaa\nbbbb\ncccc\ndddd\n";
    assert_eq!(
        ContextManager::truncate_tool_result(text, 3),
        "aaaa\n... (output truncated, 20 total chars) ...\ndddd\n"
    );
    assert_eq!(
        ContextManager::truncate_tool_result(text, 2),
        "... (output truncated, 20 total chars) ...\n"
    );
}

#[test]
fn conversation_records_messages_and_turns() {
    let mut c = Conversation::new();
    assert_eq!(c.session_id.len(), 36);
    assert_eq!(c.len(), 0);
    c.add_user_message("hi");
    c.add_assistant_message("hello");
    c.add_tool_result("bash", "ok");
    assert_eq!(c.len(), 3);
    assert_eq!(c.messages[0].role, Role::User);
    assert_eq!(c.messages[2].role, Role::Tool);
    assert_eq!(c.messages[2].tool_name.as_deref(), Some("bash"));
    assert_eq!(c.turns.len(), 3);
    assert_eq!(c.turns[1].role, "assistant");
    assert_eq!(c.turns[2].role, "tool");
}

#[test]
fn conversation_tool_call_turn_shows_compact_arguments() {
    let mut c = Conversation::new();
    let args = JsonValue::Object(vec![("command".to_string(), JsonValue::String("ls".to_string()))]);
    c.add_assistant_tool_call("bash", &args);
    assert_eq!(c.messages.len(), 1);
    assert_eq!(c.messages[0].content, "");
    let calls = c.messages[0].tool_calls.as_ref().unwrap();
    assert_eq!(calls.len(), 1);
    assert_eq!(calls[0].function.name, "bash");
    assert_eq!(c.turns[0].content, "Calling tool: bash with args: {\"command\":\"ls\"}");
    assert_eq!(c.turns[0].tool_name.as_deref(), Some("bash"));
}

#[test]
fn session_id_is_a_version_4_uuid() {
    let c = Conversation::new();
    let id: Vec<char> = c.session_id.chars().collect();
    assert_eq!(id.len(), 36);
    for (i, ch) in id.iter().enumerate() {
        if [8, 13, 18, 23].contains(&i) {
            assert_eq!(*ch, '-');
        } else {
            assert!(ch.is_ascii_hexdigit() && !ch.is_ascii_uppercase());
        }
    }
    assert_eq!(id[14], '4');
    assert!("89ab".contains(id[19]));
}

#[test]
fn conversation_sessions_differ() {
    let a = Conversation::new();
    let b = Conversation::new();
    assert_ne!(a.session_id, b.session_id);
}

#[test]
fn record_usage_accumulates() {
    let mut c = Conversation::new();
    let s = UsageStats { prompt_tokens: 10, completion_tokens: 3, total_duration_ns: 0, eval_duration_ns: 0 };
    c.record_usage(&s);
    c.record_usage(&s);
    assert_eq!(c.total_prompt_tokens, 20);
    assert_eq!(c.total_completion_tokens, 6);
}

fn small_loop(max_iterations: u32) -> enki::agent::agent_loop::AgentLoop {
    let mut settings = enki::config::settings::Settings::defaults();
    settings.max_iterations = max_iterations;
    let caps = enki::llm::capabilities::ModelCapabilities::fallback("m");
    enki::agent::agent_loop::AgentLoop::new(caps, settings, "/w".to_string(), None)
}

#[test]
fn loop_stops_at_the_iteration_limit() {
    let a = small_loop(2);
    assert!(matches!(a.next_step(0, None), (LoopStep::CallModel, None)));
    assert!(matches!(a.next_step(1, Some(Ok(TurnOutcome::Continue))), (LoopStep::CallModel, None)));
    match a.next_step(2, Some(Ok(TurnOutcome::Continue))) {
        (LoopStep::Stop, Some(AgentEvent::Error(m))) => assert_eq!(m, "Max iterations (2) reached. Stopping."),
        _ => panic!("expected the limit"),
    }
    assert!(matches!(a.next_step(1, Some(Ok(TurnOutcome::Complete))), (LoopStep::Stop, None)));
    assert!(matches!(a.next_step(1, Some(Ok(TurnOutcome::WaitForUser))), (LoopStep::Stop, None)));
    match a.next_step(0, Some(Err("boom".to_string()))) {
        (LoopStep::Stop, Some(AgentEvent::Error(m))) => assert_eq!(m, "boom"),
        _ => panic!("expected the error"),
    }
}

#[test]
fn tool_calls_stop_at_the_first_that_does_not_continue() {
    assert_eq!(tool_step(0, 3, None), ToolStep::Run(0));
    assert_eq!(tool_step(1, 3, Some(TurnOutcome::Continue)), ToolStep::Run(1));
    assert_eq!(tool_step(2, 3, Some(TurnOutcome::WaitForUser)), ToolStep::Done(TurnOutcome::WaitForUser));
    assert_eq!(tool_step(3, 3, Some(TurnOutcome::Continue)), ToolStep::Done(TurnOutcome::Continue));
    assert_eq!(tool_step(0, 0, None), ToolStep::Done(TurnOutcome::Continue));
}

#[test]
fn messages_estimate_adds_up() {
    let a = vec![msg(Role::User, "hello"), msg(Role::Assistant, "")];
    let b = vec![msg(Role::System, "abcdefghi")];
    let ab = vec![msg(Role::User, "hello"), msg(Role::Assistant, ""), msg(Role::System, "abcdefghi")];
    assert_eq!(ContextManager::estimate_messages_tokens(&[]), 0);
    assert_eq!(ContextManager::estimate_messages_tokens(&b), ContextManager::estimate_tokens("abcdefghi") + 4);
    assert_eq!(
        ContextManager::estimate_messages_tokens(&ab),
        ContextManager::estimate_messages_tokens(&a) + ContextManager::estimate_messages_tokens(&b)
    );
}
