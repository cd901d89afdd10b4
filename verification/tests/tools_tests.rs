use enki::tools::bash::{command_failed, command_result, spawn_failed, timed_out};
use enki::tools::file_edit::{approved_edit, edit_done};
use enki::tools::file_write::write_done;
use enki::tools::paths::{dir_failed, read_failed, write_failed};
use enki::json::{JsonNumber, JsonValue};
use enki::tools::bash::{compose_output, is_command_denied, BashTool};
use enki::tools::completion::{AskUserTool, AttemptCompletionTool};
use enki::tools::diff::format_diff;
use enki::tools::directory::ListDirectoryTool;
use enki::tools::file_edit::{apply_edit, EditFileTool};
use enki::tools::file_read::ReadFileTool;
use enki::tools::file_write::{content_preview, WriteFileTool};
use enki::tools::paths::{edit_access, join, outside_project, read_access};
use enki::tools::search::{SearchFilesTool, SearchTextTool, TextSearch};
use enki::tools::types::ToolResult;
use enki::tools::ToolRegistry;

fn obj(fields: &[(&str, JsonValue)]) -> JsonValue {
    JsonValue::Object(
        fields
            .iter()
            .map(|(k, v)| (k.to_string(), v.deep_clone()))
            .collect(),
    )
}

fn s(t: &str) -> JsonValue {
    JsonValue::String(t.to_string())
}

fn n(v: u64) -> JsonValue {
    JsonValue::Number(JsonNumber::PosInt(v))
}

fn success(r: ToolResult) -> String {
    match r {
        ToolResult::Success(t) => t,
        ToolResult::Error(e) => panic!("error: {}", e),
        _ => panic!("not a success"),
    }
}

fn error(r: ToolResult) -> String {
    match r {
        ToolResult::Error(e) => e,
        _ => panic!("not an error"),
    }
}

#[test]
fn deny_patterns_ignore_case() {
    assert!(is_command_denied("RM -RF / --no-preserve-root"));
    assert!(is_command_denied("sudo mkfs.ext4 /dev/sda1"));
    assert!(is_command_denied("echo x > /dev/sda"));
    assert!(is_command_denied("dd if=/dev/zero of=disk"));
    assert!(is_command_denied(":(){ :|:& };:"));
    // these patterns hold upper-case letters, so the lowered command never matches them
    assert!(!is_command_denied("chmod -R 777 /"));
    assert!(!is_command_denied("rm -rf $HOME"));
    assert!(!is_command_denied("ls -la"));
    assert!(!is_command_denied("rm -r build"));
    assert!(!is_command_denied("mkfs"));
}

#[test]
fn bash_asks_for_approval() {
    let t = BashTool::new("/w".to_string());
    assert_eq!(t.name(), "bash");
    assert!(t.requires_approval());
    match t.execute(&obj(&[("command", s("cargo test"))])) {
        ToolResult::NeedsApproval(p) => {
            assert_eq!(p.tool_name, "bash");
            assert_eq!(p.description, "Execute: cargo test");
            assert!(p.preview.is_none());
            assert_eq!(p.arguments.get_str("command").as_deref(), Some("cargo test"));
        }
        _ => panic!("expected approval"),
    }
    assert_eq!(error(t.execute(&obj(&[]))), "Missing required parameter: command");
    assert_eq!(
        error(t.execute(&obj(&[("command", s("rm -rf /"))]))),
        "Command denied for safety: rm -rf /"
    );
}

#[test]
fn bash_output_composition() {
    assert_eq!(compose_output("out\n", "", Some(0)), "out\n\nExit code: 0");
    assert_eq!(compose_output("", "", None), "(no output)\nExit code: -1");
    assert_eq!(compose_output("a\n", "err\n", Some(2)), "a\n\nSTDERR:\nerr\n\nExit code: 2");
    assert_eq!(compose_output("", "err\n", Some(-3)), "STDERR:\nerr\n\nExit code: -3");
    let long = "x".repeat(60_000);
    let r = compose_output(&long, "", Some(0));
    assert_eq!(
        r,
        format!("{}\n... (output truncated, 60000 total bytes) ...\nExit code: 0", "x".repeat(25_000))
    );
    let exact = "y".repeat(50_000);
    assert_eq!(compose_output(&exact, "", Some(1)), format!("{}\nExit code: 1", exact));
}

#[test]
fn read_file_numbers_lines() {
    let content = "a\nb\nc\n";
    assert_eq!(success(ReadFileTool::render("f", content, &obj(&[]))), "   1 | a\n   2 | b\n   3 | c\n");
    assert_eq!(
        success(ReadFileTool::render("f", content, &obj(&[("start_line", n(2)), ("end_line", n(2))]))),
        "   2 | b\n"
    );
    assert_eq!(
        success(ReadFileTool::render("f", content, &obj(&[("start_line", n(0)), ("end_line", n(10))]))),
        "   1 | a\n   2 | b\n   3 | c\n"
    );
    assert_eq!(
        error(ReadFileTool::render("f", content, &obj(&[("start_line", n(5))]))),
        "start_line 5 exceeds file length (3 lines)"
    );
    let wide: String = (1..=12).map(|i| format!("l{}\n", i)).collect();
    let out = success(ReadFileTool::render("f", &wide, &obj(&[("start_line", n(10)), ("end_line", n(10))])));
    assert_eq!(out, "  10 | l10\n");
}

#[test]
fn read_file_refuses_large_files() {
    let big = "z".repeat(100_001);
    assert_eq!(
        error(ReadFileTool::render("big.txt", &big, &obj(&[]))),
        "File 'big.txt' is too large (100001 bytes). Use start_line/end_line to read a portion."
    );
}

#[test]
fn read_file_request_resolves_path() {
    let t = ReadFileTool::new("/proj".to_string());
    assert_eq!(t.name(), "read_file");
    assert!(!t.requires_approval());
    match t.request(&obj(&[("path", s("src/main.rs"))])) {
        Ok(r) => {
            assert_eq!(r.path, "src/main.rs");
            assert_eq!(r.resolved, "/proj/src/main.rs");
        }
        Err(_) => panic!("expected a request"),
    }
    match t.request(&obj(&[])) {
        Err(e) => assert_eq!(error(e), "Missing required parameter: path"),
        Ok(_) => panic!("expected an error"),
    }
    assert_eq!(t.resolve_path("/etc/hosts"), "/etc/hosts");
    assert_eq!(join("/proj/", "x"), "/proj/x");
}

#[test]
fn content_preview_elides_the_middle() {
    assert_eq!(content_preview("a\nb"), "a\nb");
    let text: String = (1..=25).map(|i| format!("{}\n", i)).collect();
    let mut expected = String::new();
    for i in 1..=10 {
        expected.push_str(&format!("{}\n", i));
    }
    expected.push_str("... (5 more lines) ...\n");
    for i in 16..=25 {
        expected.push_str(&format!("{}\n", i));
    }
    assert_eq!(content_preview(&text), expected);
}

#[test]
fn diff_marks_changed_lines() {
    assert_eq!(format_diff("a\nb\n", "a\nc\n"), " a\n-b\n+c\n");
    assert_eq!(format_diff("x", "y"), "-x\n+y\n");
    assert_eq!(format_diff("same\n", "same\n"), " same\n");
}

#[test]
fn write_file_review_previews() {
    let args = obj(&[("path", s("n.txt")), ("content", s("hi\n"))]);
    match WriteFileTool::review("n.txt", None, "hi\n", &args) {
        ToolResult::NeedsApproval(p) => {
            assert_eq!(p.tool_name, "write_file");
            assert_eq!(p.description, "Write to file: n.txt");
            assert_eq!(p.preview.as_deref(), Some("New file: n.txt\nhi\n"));
        }
        _ => panic!("expected approval"),
    }
    match WriteFileTool::review("n.txt", Some("old\n"), "hi\n", &args) {
        ToolResult::NeedsApproval(p) => assert_eq!(p.preview.as_deref(), Some("-old\n+hi\n")),
        _ => panic!("expected approval"),
    }
    let t = WriteFileTool::new("/w".to_string());
    match t.request(&obj(&[("path", s("a"))])) {
        Err(e) => assert_eq!(error(e), "Missing required parameter: content"),
        Ok(_) => panic!("expected an error"),
    }
}

#[test]
fn edit_replaces_first_occurrence() {
    assert_eq!(apply_edit("hello world world", "world", "there"), "hello there world");
    assert_eq!(apply_edit("abc", "x", "y"), "abc");
}

#[test]
fn edit_review_requires_a_unique_match() {
    let args = obj(&[]);
    assert_eq!(
        error(EditFileTool::review("f.rs", "a\nb\n", "zz", "y", &args)),
        "old_string not found in 'f.rs'. Make sure the string matches exactly including whitespace."
    );
    assert_eq!(
        error(EditFileTool::review("f.rs", "x\nx\n", "x", "y", &args)),
        "old_string found 2 times in 'f.rs'. Include more context lines to make the match unique."
    );
    match EditFileTool::review("f.rs", "a\nb\n", "b", "c", &args) {
        ToolResult::NeedsApproval(p) => {
            assert_eq!(p.tool_name, "edit_file");
            assert_eq!(p.description, "Edit file: f.rs");
            assert_eq!(p.preview.as_deref(), Some(" a\n-b\n+c\n"));
        }
        _ => panic!("expected approval"),
    }
}

#[test]
fn directory_listing_is_sorted() {
    let entries = vec![("b.txt".to_string(), false), ("a".to_string(), true), ("C".to_string(), false)];
    assert_eq!(success(ListDirectoryTool::listing("src", &entries)), "C\na/\nb.txt");
    assert_eq!(success(ListDirectoryTool::listing("src", &vec![])), "Directory 'src' is empty");
    let t = ListDirectoryTool::new("/w".to_string());
    let (p, r) = t.request(&obj(&[]));
    assert_eq!(p, ".");
    assert_eq!(r, "/w/.");
}

#[test]
fn text_search_finds_case_insensitive_matches() {
    let tool = SearchTextTool::new("/w".to_string());
    let req = match tool.request(&obj(&[("pattern", s("main"))])) {
        Ok(r) => r,
        Err(_) => panic!("expected a request"),
    };
    assert_eq!(req.resolved, "/w/.");
    assert_eq!(req.max_results, 50);
    let mut search = TextSearch::new(req.max_results);
    search.scan_file(&req.matcher, "src/a.rs", "fn Main() {}\nlet x = 1;\n   main();  \n");
    assert_eq!(
        success(search.finish("main")),
        "Found 2 matches:\nsrc/a.rs:1: fn Main() {}\nsrc/a.rs:3: main();"
    );
    let empty = TextSearch::new(5);
    assert_eq!(success(empty.finish("q")), "No matches found for pattern 'q'");
}

#[test]
fn text_search_stops_at_the_limit() {
    let tool = SearchTextTool::new("/w".to_string());
    let req = match tool.request(&obj(&[("pattern", s("x")), ("max_results", n(2)), ("path", s("/abs"))])) {
        Ok(r) => r,
        Err(_) => panic!("expected a request"),
    };
    assert_eq!(req.resolved, "/abs");
    let mut search = TextSearch::new(req.max_results);
    search.scan_file(&req.matcher, "f", "x1\nx2\nx3\n");
    assert!(search.is_full());
    assert_eq!(search.results.len(), 2);
}

#[test]
fn text_search_reports_bad_patterns() {
    let tool = SearchTextTool::new("/w".to_string());
    match tool.request(&obj(&[("pattern", s("("))])) {
        Err(e) => assert!(error(e).starts_with("Invalid regex pattern: ")),
        Ok(_) => panic!("expected an error"),
    }
    match tool.request(&obj(&[])) {
        Err(e) => assert_eq!(error(e), "Missing required parameter: pattern"),
        Ok(_) => panic!("expected an error"),
    }
}

#[test]
fn file_search_globs() {
    let tool = SearchFilesTool::new("/w".to_string());
    match tool.request(&obj(&[("pattern", s("Cargo.toml"))])) {
        Ok((p, g)) => {
            assert_eq!(p, "Cargo.toml");
            assert_eq!(g, "/w/**/Cargo.toml");
        }
        Err(_) => panic!("expected a request"),
    }
    match tool.request(&obj(&[("pattern", s("src/*.rs"))])) {
        Ok((_, g)) => assert_eq!(g, "/w/src/*.rs"),
        Err(_) => panic!("expected a request"),
    }
    assert_eq!(
        success(SearchFilesTool::report("*.md", &vec!["a.md".to_string(), "b/c.md".to_string()])),
        "2 files found:\na.md\nb/c.md"
    );
    assert_eq!(success(SearchFilesTool::report("*.md", &vec![])), "No files matching '*.md'");
}

#[test]
fn completion_tools_answer_with_defaults() {
    match AttemptCompletionTool.execute(&obj(&[])) {
        ToolResult::Complete(t) => assert_eq!(t, "Task completed."),
        _ => panic!("expected completion"),
    }
    match AttemptCompletionTool.execute(&obj(&[("result", s("all done"))])) {
        ToolResult::Complete(t) => assert_eq!(t, "all done"),
        _ => panic!("expected completion"),
    }
    match AskUserTool.execute(&obj(&[])) {
        ToolResult::AskUser(q) => assert_eq!(q, "Could you provide more details?"),
        _ => panic!("expected a question"),
    }
}

#[test]
fn registry_holds_the_default_tools() {
    let mut r = ToolRegistry::new();
    r.register_defaults("/w".to_string());
    let mut names: Vec<&str> = r.tool_names();
    names.sort();
    assert_eq!(
        names,
        vec![
            "ask_user",
            "attempt_completion",
            "bash",
            "edit_file",
            "list_directory",
            "read_file",
            "search_files",
            "search_text",
            "write_file"
        ]
    );
    assert!(r.requires_approval("bash"));
    assert!(r.requires_approval("write_file"));
    assert!(!r.requires_approval("read_file"));
    assert!(r.requires_approval("no_such_tool"));
    assert!(r.get("read_file").is_some());
    assert!(r.get("nope").is_none());
    assert_eq!(r.tool_definitions().len(), 9);
    let d = r.tool_descriptions();
    assert!(d.starts_with("Available tools:\n\n"));
    assert!(d.contains("## bash\n"));
    assert!(d.contains(
        "Parameters: {\"properties\":{\"command\":{\"description\":\"The bash command to execute\",\"type\":\"string\"},\"timeout_secs\":{\"description\":\"Timeout in seconds (default: 120)\",\"type\":\"integer\"}},\"required\":[\"command\"],\"type\":\"object\"}\n\n"
    ));
    assert_eq!(error(ToolRegistry::unknown_tool("x")), "Unknown tool: x");
}

#[test]
fn access_rules() {
    let root = Some("/w".to_string());
    assert!(read_access("a", Ok("/w/a".to_string()), root.clone()).is_none());
    assert_eq!(
        error(read_access("a", Err("No such file".to_string()), root.clone()).unwrap()),
        "Cannot access 'a': No such file"
    );
    assert_eq!(
        error(read_access("../x", Ok("/x".to_string()), root.clone()).unwrap()),
        "Access denied: path '../x' is outside the project directory"
    );
    // whole components: "/wx" does not lie in "/w"
    assert!(read_access("p", Ok("/wx/p".to_string()), root.clone()).is_some());
    assert!(read_access("p", Ok("/x".to_string()), None).is_none());
    assert!(edit_access("p", Err("gone".to_string()), None).is_none());
    assert!(edit_access("p", Err("gone".to_string()), root.clone()).is_some());
    assert!(outside_project("p", None, root.clone()).is_none());
    assert!(outside_project("p", Some("/w".to_string()), root.clone()).is_none());
    assert!(outside_project("p", Some("/etc".to_string()), root).is_some());
}

#[test]
fn read_file_reversed_range_is_empty() {
    let ten: String = (1..=10).map(|i| format!("l{}\n", i)).collect();
    assert_eq!(
        success(ReadFileTool::render("f", &ten, &obj(&[("start_line", n(5)), ("end_line", n(2))]))),
        ""
    );
}

#[test]
fn approved_edit_needs_one_match() {
    assert_eq!(approved_edit("a.txt", "one two one", "two", "2").ok(), Some("one 2 one".to_string()));
    assert_eq!(
        error(approved_edit("a.txt", "one two one", "one", "1").unwrap_err()),
        "old_string found 2 times in 'a.txt'. Include more context lines to make the match unique."
    );
    assert_eq!(
        error(approved_edit("a.txt", "abc", "zz", "1").unwrap_err()),
        "old_string not found in 'a.txt'. Make sure the string matches exactly including whitespace."
    );
    assert_eq!(success(edit_done("src/x.rs")), "Successfully edited src/x.rs");
}

#[test]
fn approved_write_and_file_errors() {
    assert_eq!(success(write_done("n.txt")), "Successfully wrote to n.txt");
    assert_eq!(error(read_failed("a", "denied")), "Failed to read 'a': denied");
    assert_eq!(error(write_failed("a", "full")), "Failed to write 'a': full");
    assert_eq!(error(dir_failed("nope")), "Failed to create directory: nope");
}

#[test]
fn file_search_results() {
    assert_eq!(
        error(SearchFilesTool::result("[", Err("bad range".to_string()))),
        "Invalid glob pattern: bad range"
    );
    assert_eq!(success(SearchFilesTool::result("*.zz", Ok(vec![]))), "No files matching '*.zz'");
    assert_eq!(
        success(SearchFilesTool::result("*.rs", Ok(vec!["a.rs".to_string(), "b/c.rs".to_string()]))),
        "2 files found:\na.rs\nb/c.rs"
    );
    let many: Vec<String> = (0..150).map(|i| format!("f{}.rs", i)).collect();
    assert!(!SearchFilesTool::is_full(&many[..99].to_vec()));
    assert!(SearchFilesTool::is_full(&many[..100].to_vec()));
    let out = success(SearchFilesTool::result("*.rs", Ok(many)));
    assert!(out.starts_with("100 files found:\nf0.rs\n"));
    assert!(out.ends_with("\nf99.rs"));
}

#[test]
fn bash_results() {
    assert_eq!(error(timed_out(30)), "Command timed out after 30 seconds");
    assert_eq!(error(spawn_failed("no bash")), "Failed to spawn command: no bash");
    assert_eq!(error(command_failed("lost")), "Command failed: lost");
    assert_eq!(success(command_result("hi\n", "", Some(0))), "hi\n\nExit code: 0");
}

#[test]
fn bash_long_output_cuts_at_a_character() {
    // a two-byte character straddles byte 25000
    let long = format!("{}é{}", "a".repeat(24_999), "b".repeat(30_000));
    let r = compose_output(&long, "", Some(0));
    assert_eq!(
        r,
        format!("{}\n... (output truncated, 55001 total bytes) ...\nExit code: 0", "a".repeat(24_999))
    );
}

#[test]
fn default_registry_approvals() {
    let mut r = ToolRegistry::new();
    r.register_defaults("/w".to_string());
    let mut names = r.tool_names();
    names.sort();
    assert_eq!(
        names,
        vec![
            "ask_user",
            "attempt_completion",
            "bash",
            "edit_file",
            "list_directory",
            "read_file",
            "search_files",
            "search_text",
            "write_file"
        ]
    );
    for n in ["read_file", "list_directory", "search_text", "search_files", "attempt_completion", "ask_user"] {
        assert!(!r.requires_approval(n), "{}", n);
    }
    for n in ["write_file", "edit_file", "bash", "nope"] {
        assert!(r.requires_approval(n), "{}", n);
    }
}
