//! The shell command tool.

use vstd::prelude::*;

use crate::json::{json_str, object_schema, object_schema_model, str_field, u64_field, JsonModel, JsonValue};
use crate::text::{
    append_str, byte_len, chars_of, contains, contains_exec, decimal, longest_within, prefix_within,
    lowercase, push_decimal, push_signed_decimal, signed_decimal, starts_with, to_lowercase,
};
use crate::tools::types::{PendingAction, PendingModel, ToolResult, ToolResultModel};

verus! {

pub const DENY_1: &'static str = "rm -rf /";
pub const DENY_2: &'static str = "rm -rf ~";
pub const DENY_3: &'static str = "rm -rf $HOME";
pub const DENY_4: &'static str = "mkfs.";
pub const DENY_5: &'static str = "> /dev/sd";
pub const DENY_6: &'static str = "dd if=/dev/zero";
pub const DENY_7: &'static str = ":(){ :|:& };:";
pub const DENY_8: &'static str = "chmod -R 777 /";

/// Patterns that are always denied for safety.
pub open spec fn deny_patterns() -> Seq<Seq<char>> {
    seq![DENY_1@, DENY_2@, DENY_3@, DENY_4@, DENY_5@, DENY_6@, DENY_7@, DENY_8@]
}

/// A command is denied when its lowercase form contains a denied pattern.
pub open spec fn command_denied(command: Seq<char>) -> bool {
    exists|i: int| 0 <= i < deny_patterns().len() && contains(lowercase(command), #[trigger] deny_patterns()[i])
}

/// Whether a command is denied for safety.
pub fn is_command_denied(command: &str) -> (b: bool)
    ensures
        b == command_denied(command@),
{
    let lower = to_lowercase(command);
    let h = chars_of(lower.as_str());
    let patterns: Vec<&str> = vec![DENY_1, DENY_2, DENY_3, DENY_4, DENY_5, DENY_6, DENY_7, DENY_8];
    assert(patterns@.map_values(|p: &str| p@) =~= deny_patterns());
    let mut i: usize = 0;
    while i < patterns.len()
        invariant
            i <= patterns@.len(),
            patterns@.map_values(|p: &str| p@) == deny_patterns(),
            h@ == lowercase(command@),
            forall|k: int| 0 <= k < i ==> !contains(lowercase(command@), #[trigger] deny_patterns()[k]),
        decreases patterns.len() - i,
    {
        let p = chars_of(patterns[i]);
        assert(p@ == deny_patterns()[i as int]);
        if contains_exec(&h, &p) {
            return true;
        }
        i = i + 1;
    }
    false
}

pub const BASH_DESCRIPTION: &'static str = "Execute a shell command in the project directory. The command runs in bash. Requires user approval before execution. Use this for running tests, installing packages, git operations, building projects, etc.";
pub const COMMAND_DESC: &'static str = "The bash command to execute";
pub const TIMEOUT_DESC: &'static str = "Timeout in seconds (default: 120)";

/// The result of the shell tool for its arguments: a missing command is an
/// error, a denied one is refused, and any other needs approval.
pub open spec fn bash_decision(args: JsonModel) -> ToolResultModel {
    match str_field(args, "command"@) {
        None => ToolResultModel::Error("Missing required parameter: command"@),
        Some(c) => if command_denied(c) {
            ToolResultModel::Error("Command denied for safety: "@ + c)
        } else {
            ToolResultModel::NeedsApproval(
                PendingModel { tool_name: "bash"@, description: "Execute: "@ + c, preview: None, arguments: args },
            )
        },
    }
}

/// Tool that runs shell commands.
pub struct BashTool {
    pub working_dir: String,
}

impl BashTool {
    pub fn new(working_dir: String) -> (r: Self)
        ensures
            r.working_dir == working_dir,
    {
        BashTool { working_dir }
    }

    pub fn name(&self) -> (r: &'static str)
        ensures
            r@ == "bash"@,
    {
        "bash"
    }

    pub fn description(&self) -> (r: &'static str)
        ensures
            r@ == BASH_DESCRIPTION@,
    {
        BASH_DESCRIPTION
    }

    pub fn parameters_schema(&self) -> (r: JsonValue)
        ensures
            r@ == object_schema_model(
                seq![("command"@, "string"@, COMMAND_DESC@), ("timeout_secs"@, "integer"@, TIMEOUT_DESC@)],
                Some(seq!["command"@]),
            ),
    {
        let props: Vec<(&str, &str, &str)> = vec![
            ("command", "string", COMMAND_DESC),
            ("timeout_secs", "integer", TIMEOUT_DESC),
        ];
        let req: Vec<&str> = vec!["command"];
        let r = object_schema(&props, Some(&req));
        assert(props@.map_values(|p: (&str, &str, &str)| (p.0@, p.1@, p.2@)) =~= seq![
            ("command"@, "string"@, COMMAND_DESC@),
            ("timeout_secs"@, "integer"@, TIMEOUT_DESC@),
        ]);
        assert(req@.map_values(|s: &str| s@) =~= seq!["command"@]);
        r
    }

    pub fn requires_approval(&self) -> (b: bool)
        ensures
            b,
    {
        true
    }

    /// Checks the command and asks for approval to run it.
    pub fn execute(&self, arguments: &JsonValue) -> (r: ToolResult)
        ensures
            r@ == bash_decision(arguments@),
    {
        let command = match arguments.get_str("command") {
            Some(c) => c,
            None => return ToolResult::Error("Missing required parameter: command".to_owned()),
        };
        if is_command_denied(command.as_str()) {
            let mut msg = "Command denied for safety: ".to_owned();
            append_str(&mut msg, command.as_str());
            return ToolResult::Error(msg);
        }
        let mut description = "Execute: ".to_owned();
        append_str(&mut description, command.as_str());
        ToolResult::NeedsApproval(
            PendingAction {
                tool_name: "bash".to_owned(),
                description,
                preview: None,
                arguments: arguments.deep_clone(),
            },
        )
    }
}

/// Longest output kept whole, in bytes.
pub const OUTPUT_LIMIT: usize = 50000;

/// Bytes kept of an output that is too long.
pub const OUTPUT_KEEP: usize = 25000;

/// Standard output, then standard error under a `STDERR:` header, or
/// `(no output)` when both are empty.
pub open spec fn combined_output(stdout: Seq<char>, stderr: Seq<char>) -> Seq<char> {
    let a = stdout;
    let b = if stderr.len() > 0 {
        if a.len() > 0 {
            a + "\n"@ + "STDERR:\n"@ + stderr
        } else {
            "STDERR:\n"@ + stderr
        }
    } else {
        a
    };
    if b.len() == 0 {
        "(no output)"@
    } else {
        b
    }
}

/// Whether `r` is the final report of a finished command: its combined output,
/// cut to its longest prefix of at most `OUTPUT_KEEP` bytes (the first
/// `OUTPUT_KEEP` bytes when a character starts there) with a note when longer
/// than `OUTPUT_LIMIT` bytes, then the exit code (`-1` when there is none).
pub open spec fn command_report(stdout: Seq<char>, stderr: Seq<char>, exit_code: Option<i32>, r: Seq<char>) -> bool {
    let out = combined_output(stdout, stderr);
    let code = match exit_code {
        Some(c) => c as int,
        None => -1,
    };
    let tail = "\nExit code: "@ + signed_decimal(code);
    if byte_len(out) > OUTPUT_LIMIT {
        exists|k: int|
            longest_within(out, OUTPUT_KEEP as int, k) && r == out.take(k)
                + "\n... (output truncated, "@ + decimal(byte_len(out)) + " total bytes) ..."@ + tail
    } else {
        r == out + tail
    }
}

/// The command to run once approved and its timeout in seconds (120 when
/// none is given), or the error for a missing command.
pub fn bash_request(arguments: &JsonValue) -> (r: Result<(String, u64), ToolResult>)
    ensures
        match str_field(arguments@, "command"@) {
            Some(c) => r matches Ok(x) && x.0@ == c && x.1 == match u64_field(arguments@, "timeout_secs"@) {
                Some(t) => t,
                None => 120,
            },
            None => r matches Err(e) && e@ == ToolResultModel::Error("Missing command"@),
        },
{
    let command = match arguments.get_str("command") {
        Some(c) => c,
        None => return Err(ToolResult::Error("Missing command".to_owned())),
    };
    let timeout = match arguments.get_u64("timeout_secs") {
        Some(t) => t,
        None => 120,
    };
    Ok((command, timeout))
}

/// The report of a finished shell command.
pub fn compose_output(stdout: &str, stderr: &str, exit_code: Option<i32>) -> (r: String)
    ensures
        command_report(stdout@, stderr@, exit_code, r@),
{
    let mut result = String::new();
    if !stdout.is_empty() {
        append_str(&mut result, stdout);
    }
    if !stderr.is_empty() {
        if !result.as_str().is_empty() {
            append_str(&mut result, "\n");
        }
        append_str(&mut result, "STDERR:\n");
        append_str(&mut result, stderr);
    }
    if result.as_str().is_empty() {
        result = "(no output)".to_owned();
    }
    assert(result@ == combined_output(stdout@, stderr@));
    let total = crate::text::str_byte_len(result.as_str());
    let ghost mut witness: Seq<char> = Seq::empty();
    let mut out = if total > OUTPUT_LIMIT {
        let mut kept = prefix_within(result.as_str(), OUTPUT_KEEP);
        proof {
            witness = kept@;
        }
        append_str(&mut kept, "\n... (output truncated, ");
        push_decimal(&mut kept, total as u64);
        append_str(&mut kept, " total bytes) ...");
        kept
    } else {
        result
    };
    append_str(&mut out, "\nExit code: ");
    let code: i64 = match exit_code {
        Some(c) => c as i64,
        None => -1,
    };
    push_signed_decimal(&mut out, code);
    proof {
        let o = combined_output(stdout@, stderr@);
        let tail = "\nExit code: "@ + signed_decimal(code as int);
        if byte_len(o) > OUTPUT_LIMIT {
            let k = choose|k: int| longest_within(o, OUTPUT_KEEP as int, k) && witness == o.take(k);
            assert(out@ =~= o.take(k) + "\n... (output truncated, "@ + decimal(byte_len(o)) + " total bytes) ..."@ + tail);
        } else {
            assert(out@ =~= o + tail);
        }
    }
    out
}

/// The result of a command stopped after its timeout.
pub fn timed_out(timeout_secs: u64) -> (r: ToolResult)
    ensures
        r@ == ToolResultModel::Error("Command timed out after "@ + decimal(timeout_secs as nat) + " seconds"@),
{
    let mut m = "Command timed out after ".to_owned();
    push_decimal(&mut m, timeout_secs);
    append_str(&mut m, " seconds");
    ToolResult::Error(m)
}

/// The result of a command that could not be started.
pub fn spawn_failed(error: &str) -> (r: ToolResult)
    ensures
        r@ == ToolResultModel::Error("Failed to spawn command: "@ + error@),
{
    let mut m = "Failed to spawn command: ".to_owned();
    append_str(&mut m, error);
    ToolResult::Error(m)
}

/// The result of a command whose wait failed.
pub fn command_failed(error: &str) -> (r: ToolResult)
    ensures
        r@ == ToolResultModel::Error("Command failed: "@ + error@),
{
    let mut m = "Command failed: ".to_owned();
    append_str(&mut m, error);
    ToolResult::Error(m)
}

/// The result of a finished command: its report, as a success.
pub fn command_result(stdout: &str, stderr: &str, exit_code: Option<i32>) -> (r: ToolResult)
    ensures
        r matches ToolResult::Success(t) && command_report(stdout@, stderr@, exit_code, t@),
{
    ToolResult::Success(compose_output(stdout, stderr, exit_code))
}

} // verus!
