//! The system prompt, built from the project context, the model's
//! capabilities and the available tools.

use vstd::prelude::*;

use crate::llm::capabilities::ModelCapabilities;
use crate::text::{append_str, push_char};
use crate::tools::registry::{descriptions_text, ToolRegistry};

verus! {

pub const ROLE_TEXT: &'static str = "You are Enki, an expert AI coding assistant running locally. \
     You help users with programming tasks by reading files, writing code, \
     editing existing code, running commands, and searching codebases.\n\n";

pub const NATIVE_TOOLS_TEXT: &'static str = "You have access to tools that you can call to interact with the codebase. \
     Use tools to gather information before answering, and to make changes when asked.\n\n\
     RULES:\n\
     - Always read a file before editing it\n\
     - Use search_text or list_directory to explore unfamiliar codebases\n\
     - When editing files, include enough context in old_string for a unique match\n\
     - For multi-step tasks, work through them one tool call at a time\n\
     - Use attempt_completion when the task is fully done\n\
     - Use ask_user if you need clarification\n\
     - Never guess file contents — always read first\n\n";

pub const FALLBACK_TOOLS_TEXT: &'static str = "You have access to tools to interact with the codebase. \
     To use a tool, respond with a JSON object containing:\n\
     - \"thinking\": your reasoning about what to do\n\
     - \"tool\": the tool name to call\n\
     - \"arguments\": an object with the tool's parameters\n\n\
     If you want to respond to the user without calling a tool, use:\n\
     - \"thinking\": your reasoning\n\
     - \"response\": your text response\n\n\
     RULES:\n\
     - Always read a file before editing it\n\
     - Use search_text or list_directory to explore unfamiliar codebases\n\
     - When editing, include enough context in old_string for a unique match\n\
     - For multi-step tasks, work through them one tool call at a time\n\
     - Call attempt_completion when the task is fully done\n\
     - Call ask_user if you need clarification\n\
     - Never guess file contents — always read first\n\n";

pub const SAFETY_TEXT: &'static str = "SAFETY:\n\
     - Never execute destructive commands without the user's explicit intent\n\
     - Do not access files outside the project directory\n\
     - Do not generate or execute malicious code\n\
     - If unsure about a destructive operation, ask the user first\n\n";

/// The system prompt: role, working directory, tool instructions (with the
/// tool descriptions for models without native tool calling), safety rules,
/// and the project instructions when there are any.
pub open spec fn system_prompt_text(
    working_dir: Seq<char>,
    supports_tools: bool,
    tool_descriptions: Seq<char>,
    instructions: Option<Seq<char>>,
) -> Seq<char> {
    let tools_part = if supports_tools {
        NATIVE_TOOLS_TEXT@
    } else {
        FALLBACK_TOOLS_TEXT@ + tool_descriptions + seq!['\n']
    };
    let base = ROLE_TEXT@ + "Working directory: "@ + working_dir + "\n\n"@ + tools_part + SAFETY_TEXT@;
    match instructions {
        Some(i) => base + "PROJECT INSTRUCTIONS (from enki.md):\n"@ + i + "\n\n"@,
        None => base,
    }
}

/// Project instructions are appended after everything else, under their
/// heading: the prompt with instructions `i` is the prompt without any,
/// then `PROJECT INSTRUCTIONS (from enki.md):`, `i` and a blank line, so
/// different instructions give different prompts. Every prompt starts with
/// the role and names the working directory, and one without instructions
/// ends with the safety rules.
pub proof fn law_prompt_instructions(
    working_dir: Seq<char>,
    supports_tools: bool,
    tool_descriptions: Seq<char>,
    i: Seq<char>,
    j: Seq<char>,
)
    ensures
        system_prompt_text(working_dir, supports_tools, tool_descriptions, Some(i)) == system_prompt_text(
            working_dir,
            supports_tools,
            tool_descriptions,
            None,
        ) + "PROJECT INSTRUCTIONS (from enki.md):\n"@ + i + "\n\n"@,
        i != j ==> system_prompt_text(working_dir, supports_tools, tool_descriptions, Some(i)) != system_prompt_text(
            working_dir,
            supports_tools,
            tool_descriptions,
            Some(j),
        ),
        system_prompt_text(working_dir, supports_tools, tool_descriptions, None).take(
            (ROLE_TEXT@.len() + "Working directory: "@.len() + working_dir.len()) as int,
        ) == ROLE_TEXT@ + "Working directory: "@ + working_dir,
        ({
            let p = system_prompt_text(working_dir, supports_tools, tool_descriptions, None);
            p.len() >= SAFETY_TEXT@.len() && p.skip(p.len() - SAFETY_TEXT@.len()) == SAFETY_TEXT@
        }),
{
    let h = "PROJECT INSTRUCTIONS (from enki.md):\n"@;
    let t = "\n\n"@;
    let base = system_prompt_text(working_dir, supports_tools, tool_descriptions, None);
    let head = ROLE_TEXT@ + "Working directory: "@ + working_dir;
    let tools_part = if supports_tools {
        NATIVE_TOOLS_TEXT@
    } else {
        FALLBACK_TOOLS_TEXT@ + tool_descriptions + seq!['\n']
    };
    assert(base == head + ("\n\n"@ + tools_part + SAFETY_TEXT@));
    assert(base.take(head.len() as int) =~= head);
    assert(base == (head + "\n\n"@ + tools_part) + SAFETY_TEXT@);
    assert(base.skip(base.len() - SAFETY_TEXT@.len()) =~= SAFETY_TEXT@);
    if i != j {
        let pi = base + h + i + t;
        let pj = base + h + j + t;
        assert(pi.len() == base.len() + h.len() + i.len() + t.len());
        assert(pj.len() == base.len() + h.len() + j.len() + t.len());
        if pi == pj {
            assert(i.len() == j.len());
            let k: int = (base.len() + h.len()) as int;
            assert(pi.subrange(k, k + i.len()) =~= i);
            assert(pj.subrange(k, k + j.len()) =~= j);
        }
    }
}

/// A model with native tool calling gets the tool instructions alone, so
/// its prompt does not depend on the tool descriptions; any other model gets
/// the descriptions written out after the fallback instructions.
pub proof fn law_prompt_tools(working_dir: Seq<char>, d1: Seq<char>, d2: Seq<char>, i: Option<Seq<char>>)
    ensures
        system_prompt_text(working_dir, true, d1, i) == system_prompt_text(working_dir, true, d2, i),
        ({
            let k = ROLE_TEXT@.len() + "Working directory: "@.len() + working_dir.len() + 2 + FALLBACK_TOOLS_TEXT@.len();
            let p = system_prompt_text(working_dir, false, d1, i);
            &&& p.len() >= k + d1.len()
            &&& p.subrange(k as int, (k + d1.len()) as int) == d1
            &&& p.subrange((k - FALLBACK_TOOLS_TEXT@.len()) as int, k as int) == FALLBACK_TOOLS_TEXT@
        }),
{
    reveal_strlit("\n\n");
    let k = ROLE_TEXT@.len() + "Working directory: "@.len() + working_dir.len() + 2 + FALLBACK_TOOLS_TEXT@.len();
    let pre = ROLE_TEXT@ + "Working directory: "@ + working_dir + "\n\n"@;
    let rest = d1 + seq!['\n'] + SAFETY_TEXT@;
    let tail = match i {
        Some(x) => "PROJECT INSTRUCTIONS (from enki.md):\n"@ + x + "\n\n"@,
        None => Seq::<char>::empty(),
    };
    let p = system_prompt_text(working_dir, false, d1, i);
    assert(p =~= pre + FALLBACK_TOOLS_TEXT@ + rest + tail);
    assert(pre.len() + FALLBACK_TOOLS_TEXT@.len() == k);
    assert(p.subrange(k as int, (k + d1.len()) as int) =~= d1);
    assert(p.subrange((k - FALLBACK_TOOLS_TEXT@.len()) as int, k as int) =~= FALLBACK_TOOLS_TEXT@);
}

/// Builds the system prompt for a project at `working_dir` (its display form).
pub fn build_system_prompt(
    working_dir: &str,
    capabilities: &ModelCapabilities,
    tools: &ToolRegistry,
    project_instructions: &Option<String>,
) -> (r: String)
    ensures
        r@ == system_prompt_text(
            working_dir@,
            capabilities.supports_tools,
            descriptions_text(tools.tools()),
            match project_instructions {
                Some(i) => Some(i@),
                None => None,
            },
        ),
{
    let mut prompt = String::new();
    append_str(&mut prompt, ROLE_TEXT);
    append_str(&mut prompt, "Working directory: ");
    append_str(&mut prompt, working_dir);
    append_str(&mut prompt, "\n\n");
    if capabilities.supports_tools {
        append_str(&mut prompt, NATIVE_TOOLS_TEXT);
    } else {
        append_str(&mut prompt, FALLBACK_TOOLS_TEXT);
        let d = tools.tool_descriptions();
        append_str(&mut prompt, d.as_str());
        push_char(&mut prompt, '\n');
    }
    append_str(&mut prompt, SAFETY_TEXT);
    match project_instructions {
        Some(instructions) => {
            append_str(&mut prompt, "PROJECT INSTRUCTIONS (from enki.md):\n");
            append_str(&mut prompt, instructions.as_str());
            append_str(&mut prompt, "\n\n");
        },
        None => {},
    }
    prompt
}

} // verus!
