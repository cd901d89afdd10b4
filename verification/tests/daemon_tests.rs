use enki::daemon::lifecycle::pid_file_text;
use std::path::Path;
use enki::agent::agent_loop::AgentEvent;
use enki::daemon::lifecycle::{log_path, parse_u32, pid_path, read_pid, runtime_dir, socket_path};
use enki::daemon::protocol::{ClientMessage, ServerMessage, SessionInfo};
use enki::config::settings::Settings;
use enki::daemon::server::{create_reply, denial_result, finish_create, handle_line, invalid_message, session_reply, Work};
use enki::daemon::session::{check_capacity, ends_turn, SessionManager};

#[test]
fn runtime_locations() {
    assert_eq!(runtime_dir(Some("/run/user/1000"), 7), "/run/user/1000/enki");
    assert_eq!(runtime_dir(None, 1000), "/tmp/enki-1000");
    assert_eq!(socket_path("/tmp/enki-5"), "/tmp/enki-5/enki.sock");
    assert_eq!(pid_path("/tmp/enki-5"), "/tmp/enki-5/enki.pid");
    assert_eq!(log_path(Some("/home/u/.local/share")), "/home/u/.local/share/enki/daemon.log");
    assert_eq!(log_path(None), "/tmp/enki/daemon.log");
}

#[test]
fn pid_file_parsing() {
    assert_eq!(read_pid("1234\n"), Some(1234));
    assert_eq!(read_pid("  +42  "), Some(42));
    assert_eq!(read_pid(""), None);
    assert_eq!(read_pid("12a"), None);
    assert_eq!(read_pid("-1"), None);
    assert_eq!(parse_u32("4294967295"), Some(u32::MAX));
    assert_eq!(parse_u32("4294967296"), None);
    assert_eq!(parse_u32("99999999999999999999"), None);
    assert_eq!(parse_u32("+"), None);
    assert_eq!(parse_u32("007"), Some(7));
    assert_eq!(parse_u32(" 7"), None);
    for s in ["0", "17", "+17", "4294967295", "4294967296", "x", "", "1 2"] {
        assert_eq!(parse_u32(s), s.parse::<u32>().ok(), "{:?}", s);
    }
}

fn manager(max: usize) -> SessionManager {
    SessionManager::new(Settings::defaults(), max)
}

fn error_text(m: &Option<ServerMessage>) -> String {
    match m {
        Some(ServerMessage::Error { message }) => message.clone(),
        _ => panic!("expected an error"),
    }
}

fn start(sm: &mut SessionManager, dir: &str) -> String {
    let r = handle_line(sm, 1, Ok(ClientMessage::CreateSession { working_dir: dir.to_string() }));
    assert!(r.reply.is_none());
    match r.work {
        Work::Spawn { working_dir } => assert_eq!(working_dir, dir),
        _ => panic!("expected a spawn"),
    }
    match finish_create(sm, dir.to_string(), Ok("m1".to_string()), "t0".to_string()) {
        ServerMessage::SessionCreated { session_id } => session_id,
        _ => panic!("expected creation"),
    }
}

#[test]
fn lines_get_their_answers() {
    let mut sm = manager(4);
    let r = handle_line(&mut sm, 1, Err("expected value".to_string()));
    assert_eq!(error_text(&r.reply), "Invalid message: expected value");
    assert!(matches!(r.work, Work::Nothing));
    let r = handle_line(&mut sm, 1, Ok(ClientMessage::Ping));
    assert!(matches!(r.reply, Some(ServerMessage::Pong)));
    let r = handle_line(&mut sm, 1, Ok(ClientMessage::AttachSession { session_id: "nope".to_string() }));
    assert_eq!(error_text(&r.reply), "Session not found: nope");
    let r = handle_line(
        &mut sm,
        1,
        Ok(ClientMessage::SendMessage { session_id: "nope".to_string(), text: "hi".to_string() }),
    );
    assert_eq!(error_text(&r.reply), "Session not found: nope");
    assert!(matches!(r.work, Work::Nothing));
    let r = handle_line(&mut sm, 1, Ok(ClientMessage::DetachSession { session_id: "x".to_string() }));
    assert_eq!(error_text(&r.reply), "Session not found: x");
    let r = handle_line(
        &mut sm,
        1,
        Ok(ClientMessage::ApproveAction { session_id: "x".to_string(), approved: true }),
    );
    assert_eq!(error_text(&r.reply), "Session not found: x");
    let r = handle_line(&mut sm, 1, Ok(ClientMessage::CancelTurn { session_id: "x".to_string() }));
    assert!(matches!(r.reply, Some(ServerMessage::Acknowledged)));
    let r = handle_line(&mut sm, 1, Ok(ClientMessage::CompactContext { session_id: "x".to_string() }));
    assert!(matches!(r.reply, Some(ServerMessage::Acknowledged)));
    let r = handle_line(&mut sm, 1, Ok(ClientMessage::Shutdown));
    assert!(matches!(r.reply, Some(ServerMessage::Acknowledged)));
    assert!(matches!(r.work, Work::Shutdown));
    let r = handle_line(&mut sm, 1, Ok(ClientMessage::ListSessions));
    match r.reply {
        Some(ServerMessage::SessionList { sessions }) => assert!(sessions.is_empty()),
        _ => panic!("expected a list"),
    }
}

#[test]
fn sessions_start_and_serve_their_clients() {
    let mut sm = manager(2);
    let id = start(&mut sm, "/p");
    assert_eq!(id.len(), 36);
    let r = handle_line(&mut sm, 7, Ok(ClientMessage::AttachSession { session_id: id.clone() }));
    assert!(matches!(r.reply, Some(ServerMessage::Acknowledged)));
    assert_eq!(sm.get(&id).unwrap().subscribers, vec![7]);
    let r = handle_line(&mut sm, 8, Ok(ClientMessage::AttachSession { session_id: id.clone() }));
    assert!(matches!(r.reply, Some(ServerMessage::Acknowledged)));
    let r = handle_line(&mut sm, 7, Ok(ClientMessage::DetachSession { session_id: id.clone() }));
    assert!(matches!(r.reply, Some(ServerMessage::Acknowledged)));
    assert_eq!(sm.get(&id).unwrap().subscribers, vec![8]);
    let r = handle_line(
        &mut sm,
        8,
        Ok(ClientMessage::SendMessage { session_id: id.clone(), text: "hello".to_string() }),
    );
    assert!(matches!(r.reply, Some(ServerMessage::Acknowledged)));
    match r.work {
        Work::Send { session_id, text } => {
            assert_eq!(session_id, id);
            assert_eq!(text, "hello");
        }
        _ => panic!("expected a send"),
    }
    assert!(sm.get(&id).unwrap().streaming);
    let r = handle_line(
        &mut sm,
        8,
        Ok(ClientMessage::ApproveAction { session_id: id.clone(), approved: false }),
    );
    assert!(matches!(r.reply, Some(ServerMessage::Acknowledged)));
    assert!(matches!(r.work, Work::Deny { ref session_id } if *session_id == id));
    let r = handle_line(&mut sm, 8, Ok(ClientMessage::ApproveAction { session_id: id.clone(), approved: true }));
    assert!(matches!(r.work, Work::Nothing));
    let r = handle_line(&mut sm, 8, Ok(ClientMessage::ListSessions));
    match r.reply {
        Some(ServerMessage::SessionList { sessions }) => {
            assert_eq!(sessions.len(), 1);
            assert_eq!(sessions[0].session_id, id);
            assert_eq!(sessions[0].working_dir, "/p");
            assert_eq!(sessions[0].model_name, "m1");
            assert_eq!(sessions[0].created_at, "t0");
        }
        _ => panic!("expected a list"),
    }
}

#[test]
fn session_limit_and_spawn_errors() {
    let mut sm = manager(1);
    match finish_create(&mut sm, "/p".to_string(), Err("no model".to_string()), "t".to_string()) {
        ServerMessage::Error { message } => assert_eq!(message, "no model"),
        _ => panic!("expected an error"),
    }
    assert!(sm.sessions.is_empty());
    let id = start(&mut sm, "/p");
    let r = handle_line(&mut sm, 1, Ok(ClientMessage::CreateSession { working_dir: "/q".to_string() }));
    assert_eq!(error_text(&r.reply), "Maximum number of sessions (1) reached");
    assert!(matches!(r.work, Work::Nothing));
    match finish_create(&mut sm, "/q".to_string(), Ok("m".to_string()), "t".to_string()) {
        ServerMessage::Error { message } => assert_eq!(message, "Maximum number of sessions (1) reached"),
        _ => panic!("expected an error"),
    }
    let removed = sm.remove(&id).unwrap();
    assert_eq!(removed.working_dir, "/p");
    assert!(sm.remove(&id).is_none());
    let a = start(&mut sm, "/a");
    assert_eq!(sm.shutdown_all(), vec![a]);
    assert!(sm.sessions.is_empty());
}

#[test]
fn turn_events_drain() {
    let mut sm = manager(3);
    let id = start(&mut sm, "/p");
    let i = sm.position(&id).unwrap();
    let s = &mut sm.sessions[i];
    assert!(!s.drain_events(&vec![], false));
    s.send_message();
    assert!(s.drain_events(&vec![AgentEvent::TextDelta("x".to_string())], false));
    assert!(!s.drain_events(&vec![AgentEvent::TurnComplete], false));
    s.send_message();
    assert!(!s.drain_events(&vec![], true));
    s.subscribe(3);
    s.subscribe(4);
    s.subscribe(3);
    s.remove_subscriber(3);
    assert_eq!(s.subscribers, vec![4]);
    let info = s.info();
    assert_eq!(info.session_id, id);
}

#[test]
fn replies() {
    match invalid_message("expected value") {
        ServerMessage::Error { message } => assert_eq!(message, "Invalid message: expected value"),
        _ => panic!("expected an error"),
    }
    assert!(matches!(session_reply(true, "a"), ServerMessage::Acknowledged));
    match session_reply(false, "abc") {
        ServerMessage::Error { message } => assert_eq!(message, "Session not found: abc"),
        _ => panic!("expected an error"),
    }
    match create_reply(Ok("id1".to_string())) {
        ServerMessage::SessionCreated { session_id } => assert_eq!(session_id, "id1"),
        _ => panic!("expected creation"),
    }
    let (tool, text) = denial_result();
    assert_eq!(tool, "unknown");
    assert_eq!(text, "DENIED: User rejected this action.");
}

#[test]
fn session_limits_and_turn_end() {
    assert!(check_capacity(0, 1).is_ok());
    assert_eq!(check_capacity(4, 4), Err("Maximum number of sessions (4) reached".to_string()));
    assert!(ends_turn(&vec![AgentEvent::TextDelta("x".to_string()), AgentEvent::TurnComplete]));
    assert!(!ends_turn(&vec![AgentEvent::TextDelta("x".to_string())]));
    assert!(!ends_turn(&vec![]));
    let info = SessionInfo {
        session_id: "s".to_string(),
        working_dir: "/w".to_string(),
        model_name: "m".to_string(),
        created_at: "t".to_string(),
    };
    let copy = info.duplicate();
    assert_eq!(copy.working_dir, "/w");
}

#[test]
fn runtime_files_lie_in_the_runtime_dir() {
    for dir in [runtime_dir(Some("/run/user/1000"), 7), runtime_dir(None, 42), runtime_dir(Some(""), 1)] {
        let sock = socket_path(&dir);
        let pid = pid_path(&dir);
        assert_eq!(Path::new(&sock).parent(), Some(Path::new(&dir)));
        assert_eq!(Path::new(&pid).parent(), Some(Path::new(&dir)));
        assert_eq!(Path::new(&sock).file_name().unwrap(), "enki.sock");
        assert_eq!(Path::new(&pid).file_name().unwrap(), "enki.pid");
    }
}

#[test]
fn pid_file_round_trip() {
    for pid in [0u32, 7, 1234, u32::MAX] {
        assert_eq!(read_pid(&pid_file_text(pid)), Some(pid));
    }
    assert_eq!(pid_file_text(1234), "1234");
}

#[test]
fn session_events_fan_out() {
    let mut sm = manager(2);
    let id = start(&mut sm, "/p");
    let i = sm.position(&id).unwrap();
    let s = &mut sm.sessions[i];
    for c in [1u64, 2, 3, 4] {
        s.subscribe(c);
    }
    match s.event_message(AgentEvent::TextDelta("hi".to_string())) {
        ServerMessage::Event { session_id, event: AgentEvent::TextDelta(t) } => {
            assert_eq!(session_id, id);
            assert_eq!(t, "hi");
        }
        _ => panic!("expected an event"),
    }
    s.keep_delivered(&vec![true, false, true, false]);
    assert_eq!(s.subscribers, vec![1, 3]);
}
