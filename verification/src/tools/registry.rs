//! The set of tools offered to the model, looked up by name.

use vstd::prelude::*;

use crate::json::{json_compact_text, json_to_text, JsonModel, JsonValue};
use crate::llm::types::ToolDefinition;
use crate::text::append_str;
use crate::json::object_schema_model;
use crate::tools::bash::{BashTool, BASH_DESCRIPTION, COMMAND_DESC, TIMEOUT_DESC};
use crate::tools::completion::{
    AskUserTool, AttemptCompletionTool, ASK_DESCRIPTION, COMPLETION_DESCRIPTION, QUESTION_DESC,
    RESULT_DESC,
};
use crate::tools::directory::{ListDirectoryTool, LIST_DESCRIPTION, LIST_PATH_DESC};
use crate::tools::file_edit::{
    EditFileTool, EDIT_DESCRIPTION, EDIT_PATH_DESC, NEW_STRING_DESC, OLD_STRING_DESC,
};
use crate::tools::file_read::{
    ReadFileTool, END_LINE_DESC, READ_DESCRIPTION, READ_PATH_DESC, START_LINE_DESC,
};
use crate::tools::file_write::{WriteFileTool, CONTENT_DESC, WRITE_DESCRIPTION, WRITE_PATH_DESC};
use crate::tools::search::{
    SearchFilesTool, SearchTextTool, GLOB_DESC, MAX_RESULTS_DESC, PATTERN_DESC,
    SEARCH_FILES_DESCRIPTION, SEARCH_PATH_DESC, SEARCH_TEXT_DESCRIPTION,
};
use crate::tools::types::ToolResult;

verus! {

/// One of the tools of the assistant.
pub enum ToolKind {
    ReadFile(ReadFileTool),
    WriteFile(WriteFileTool),
    EditFile(EditFileTool),
    ListDirectory(ListDirectoryTool),
    SearchText(SearchTextTool),
    SearchFiles(SearchFilesTool),
    Bash(BashTool),
    AttemptCompletion(AttemptCompletionTool),
    AskUser(AskUserTool),
}

/// The name under which a tool is offered.
pub open spec fn kind_name(k: ToolKind) -> Seq<char> {
    match k {
        ToolKind::ReadFile(_) => "read_file"@,
        ToolKind::WriteFile(_) => "write_file"@,
        ToolKind::EditFile(_) => "edit_file"@,
        ToolKind::ListDirectory(_) => "list_directory"@,
        ToolKind::SearchText(_) => "search_text"@,
        ToolKind::SearchFiles(_) => "search_files"@,
        ToolKind::Bash(_) => "bash"@,
        ToolKind::AttemptCompletion(_) => "attempt_completion"@,
        ToolKind::AskUser(_) => "ask_user"@,
    }
}

/// The description of a tool.
pub open spec fn kind_description(k: ToolKind) -> Seq<char> {
    match k {
        ToolKind::ReadFile(_) => READ_DESCRIPTION@,
        ToolKind::WriteFile(_) => WRITE_DESCRIPTION@,
        ToolKind::EditFile(_) => EDIT_DESCRIPTION@,
        ToolKind::ListDirectory(_) => LIST_DESCRIPTION@,
        ToolKind::SearchText(_) => SEARCH_TEXT_DESCRIPTION@,
        ToolKind::SearchFiles(_) => SEARCH_FILES_DESCRIPTION@,
        ToolKind::Bash(_) => BASH_DESCRIPTION@,
        ToolKind::AttemptCompletion(_) => COMPLETION_DESCRIPTION@,
        ToolKind::AskUser(_) => ASK_DESCRIPTION@,
    }
}

/// The parameter schema of a tool.
pub open spec fn kind_schema(k: ToolKind) -> JsonModel {
    match k {
        ToolKind::ReadFile(_) => object_schema_model(
            seq![
                ("path"@, "string"@, READ_PATH_DESC@),
                ("start_line"@, "integer"@, START_LINE_DESC@),
                ("end_line"@, "integer"@, END_LINE_DESC@),
            ],
            Some(seq!["path"@]),
        ),
        ToolKind::WriteFile(_) => object_schema_model(
            seq![("path"@, "string"@, WRITE_PATH_DESC@), ("content"@, "string"@, CONTENT_DESC@)],
            Some(seq!["path"@, "content"@]),
        ),
        ToolKind::EditFile(_) => object_schema_model(
            seq![
                ("path"@, "string"@, EDIT_PATH_DESC@),
                ("old_string"@, "string"@, OLD_STRING_DESC@),
                ("new_string"@, "string"@, NEW_STRING_DESC@),
            ],
            Some(seq!["path"@, "old_string"@, "new_string"@]),
        ),
        ToolKind::ListDirectory(_) => object_schema_model(seq![("path"@, "string"@, LIST_PATH_DESC@)], None),
        ToolKind::SearchText(_) => object_schema_model(
            seq![
                ("pattern"@, "string"@, PATTERN_DESC@),
                ("path"@, "string"@, SEARCH_PATH_DESC@),
                ("max_results"@, "integer"@, MAX_RESULTS_DESC@),
            ],
            Some(seq!["pattern"@]),
        ),
        ToolKind::SearchFiles(_) => object_schema_model(seq![("pattern"@, "string"@, GLOB_DESC@)], Some(seq!["pattern"@])),
        ToolKind::Bash(_) => object_schema_model(
            seq![("command"@, "string"@, COMMAND_DESC@), ("timeout_secs"@, "integer"@, TIMEOUT_DESC@)],
            Some(seq!["command"@]),
        ),
        ToolKind::AttemptCompletion(_) => object_schema_model(seq![("result"@, "string"@, RESULT_DESC@)], Some(seq!["result"@])),
        ToolKind::AskUser(_) => object_schema_model(seq![("question"@, "string"@, QUESTION_DESC@)], Some(seq!["question"@])),
    }
}

/// The text describing tools for the JSON fallback: a header, then for each
/// tool its name, description and compact parameter schema.
pub open spec fn descriptions_text(ts: Seq<ToolKind>) -> Seq<char>
    decreases ts.len(),
{
    if ts.len() == 0 {
        "Available tools:\n\n"@
    } else {
        descriptions_text(ts.drop_last()) + "## "@ + kind_name(ts.last()) + "\n"@ + kind_description(ts.last())
            + "\nParameters: "@ + json_compact_text(kind_schema(ts.last())) + "\n\n"@
    }
}

/// Whether a tool needs user approval before it acts.
pub open spec fn kind_requires_approval(k: ToolKind) -> bool {
    match k {
        ToolKind::WriteFile(_) | ToolKind::EditFile(_) | ToolKind::Bash(_) => true,
        _ => false,
    }
}

impl ToolKind {
    pub fn name(&self) -> (r: &'static str)
        ensures
            r@ == kind_name(*self),
    {
        match self {
            ToolKind::ReadFile(t) => t.name(),
            ToolKind::WriteFile(t) => t.name(),
            ToolKind::EditFile(t) => t.name(),
            ToolKind::ListDirectory(t) => t.name(),
            ToolKind::SearchText(t) => t.name(),
            ToolKind::SearchFiles(t) => t.name(),
            ToolKind::Bash(t) => t.name(),
            ToolKind::AttemptCompletion(t) => t.name(),
            ToolKind::AskUser(t) => t.name(),
        }
    }

    pub fn description(&self) -> (r: &'static str)
        ensures
            r@ == kind_description(*self),
    {
        match self {
            ToolKind::ReadFile(t) => t.description(),
            ToolKind::WriteFile(t) => t.description(),
            ToolKind::EditFile(t) => t.description(),
            ToolKind::ListDirectory(t) => t.description(),
            ToolKind::SearchText(t) => t.description(),
            ToolKind::SearchFiles(t) => t.description(),
            ToolKind::Bash(t) => t.description(),
            ToolKind::AttemptCompletion(t) => t.description(),
            ToolKind::AskUser(t) => t.description(),
        }
    }

    pub fn parameters_schema(&self) -> (r: JsonValue)
        ensures
            r@ == kind_schema(*self),
    {
        match self {
            ToolKind::ReadFile(t) => t.parameters_schema(),
            ToolKind::WriteFile(t) => t.parameters_schema(),
            ToolKind::EditFile(t) => t.parameters_schema(),
            ToolKind::ListDirectory(t) => t.parameters_schema(),
            ToolKind::SearchText(t) => t.parameters_schema(),
            ToolKind::SearchFiles(t) => t.parameters_schema(),
            ToolKind::Bash(t) => t.parameters_schema(),
            ToolKind::AttemptCompletion(t) => t.parameters_schema(),
            ToolKind::AskUser(t) => t.parameters_schema(),
        }
    }

    pub fn requires_approval(&self) -> (b: bool)
        ensures
            b == kind_requires_approval(*self),
    {
        match self {
            ToolKind::ReadFile(t) => t.requires_approval(),
            ToolKind::WriteFile(t) => t.requires_approval(),
            ToolKind::EditFile(t) => t.requires_approval(),
            ToolKind::ListDirectory(t) => t.requires_approval(),
            ToolKind::SearchText(t) => t.requires_approval(),
            ToolKind::SearchFiles(t) => t.requires_approval(),
            ToolKind::Bash(t) => t.requires_approval(),
            ToolKind::AttemptCompletion(t) => t.requires_approval(),
            ToolKind::AskUser(t) => t.requires_approval(),
        }
    }

    /// The definition offered to the model.
    pub fn definition(&self) -> (r: ToolDefinition)
        ensures
            r.tool_type@ == "function"@,
            r.function.name@ == kind_name(*self),
            r.function.description@ == kind_description(*self),
            r.function.parameters@ == kind_schema(*self),
    {
        ToolDefinition::new(self.name(), self.description(), self.parameters_schema())
    }
}

/// The tool registered under `name`, if any.
pub open spec fn lookup(ts: Seq<ToolKind>, name: Seq<char>) -> Option<ToolKind>
    decreases ts.len(),
{
    if ts.len() == 0 {
        None
    } else if kind_name(ts[0]) == name {
        Some(ts[0])
    } else {
        lookup(ts.drop_first(), name)
    }
}

/// The names of the default tools.
pub open spec fn default_tool_name(n: Seq<char>) -> bool {
    n == "read_file"@ || n == "write_file"@ || n == "edit_file"@ || n == "list_directory"@
        || n == "search_text"@ || n == "search_files"@ || n == "bash"@ || n == "attempt_completion"@
        || n == "ask_user"@
}

/// The default tools, in registration order.
pub open spec fn default_tools(working_dir: String) -> Seq<ToolKind> {
    seq![
        ToolKind::ReadFile(ReadFileTool { working_dir }),
        ToolKind::WriteFile(WriteFileTool { working_dir }),
        ToolKind::EditFile(EditFileTool { working_dir }),
        ToolKind::ListDirectory(ListDirectoryTool { working_dir }),
        ToolKind::SearchText(SearchTextTool { working_dir }),
        ToolKind::SearchFiles(SearchFilesTool { working_dir }),
        ToolKind::Bash(BashTool { working_dir }),
        ToolKind::AttemptCompletion(AttemptCompletionTool),
        ToolKind::AskUser(AskUserTool),
    ]
}

/// The names of the tools that only read or ask, and act without approval.
pub open spec fn read_only_tool_name(n: Seq<char>) -> bool {
    n == "read_file"@ || n == "list_directory"@ || n == "search_text"@ || n == "search_files"@
        || n == "attempt_completion"@ || n == "ask_user"@
}

/// A registry holding the default tools offers exactly the nine default
/// names, and a call needs approval unless its name is one of the
/// read-only tools: writes, edits and shell commands need it, and so does
/// any name that is not registered.
pub proof fn law_default_registry(wd: String, n: Seq<char>)
    ensures
        default_tools(wd).map_values(|k: ToolKind| kind_name(k)).contains(n) <==> default_tool_name(n),
        lookup(default_tools(wd), n) is Some <==> default_tool_name(n),
        lookup(default_tools(wd), n) matches Some(k) ==> kind_name(k) == n,
        (match lookup(default_tools(wd), n) {
            Some(k) => kind_requires_approval(k),
            None => true,
        }) <==> !read_only_tool_name(n),
{
    reveal_strlit("read_file");
    reveal_strlit("write_file");
    reveal_strlit("edit_file");
    reveal_strlit("list_directory");
    reveal_strlit("search_text");
    reveal_strlit("search_files");
    reveal_strlit("bash");
    reveal_strlit("attempt_completion");
    reveal_strlit("ask_user");
    let d = default_tools(wd);
    reveal_with_fuel(lookup, 10);
    assert(d.drop_first().drop_first().drop_first().drop_first().drop_first().drop_first().drop_first().drop_first().drop_first().len() == 0);
    assert("edit_file"@[0] != "read_file"@[0]);
    let names = d.map_values(|k: ToolKind| kind_name(k));
    assert(names =~= seq![
        "read_file"@,
        "write_file"@,
        "edit_file"@,
        "list_directory"@,
        "search_text"@,
        "search_files"@,
        "bash"@,
        "attempt_completion"@,
        "ask_user"@,
    ]);
    if default_tool_name(n) {
        if n == "read_file"@ { assert(names[0] == n); }
        if n == "write_file"@ { assert(names[1] == n); }
        if n == "edit_file"@ { assert(names[2] == n); }
        if n == "list_directory"@ { assert(names[3] == n); }
        if n == "search_text"@ { assert(names[4] == n); }
        if n == "search_files"@ { assert(names[5] == n); }
        if n == "bash"@ { assert(names[6] == n); }
        if n == "attempt_completion"@ { assert(names[7] == n); }
        if n == "ask_user"@ { assert(names[8] == n); }
    }
    if n == "write_file"@ || n == "bash"@ {
        assert(n.len() == 10 || n.len() == 4);
        assert(!read_only_tool_name(n));
    }
    if n == "edit_file"@ {
        assert(n[0] == 'e');
        assert(n != "read_file"@);
        assert(!read_only_tool_name(n));
    }
}

proof fn lemma_default_fresh(wd: String, k: int)
    requires
        0 <= k < 9,
    ensures
        forall|i: int| 0 <= i < k ==> kind_name(#[trigger] default_tools(wd)[i]) != kind_name(default_tools(wd)[k]),
{
    reveal_strlit("read_file");
    reveal_strlit("write_file");
    reveal_strlit("edit_file");
    reveal_strlit("list_directory");
    reveal_strlit("search_text");
    reveal_strlit("search_files");
    reveal_strlit("bash");
    reveal_strlit("attempt_completion");
    reveal_strlit("ask_user");
    let d = default_tools(wd);
    assert(kind_name(d[0]) == "read_file"@);
    assert(kind_name(d[1]) == "write_file"@);
    assert(kind_name(d[2]) == "edit_file"@);
    assert(kind_name(d[3]) == "list_directory"@);
    assert(kind_name(d[4]) == "search_text"@);
    assert(kind_name(d[5]) == "search_files"@);
    assert(kind_name(d[6]) == "bash"@);
    assert(kind_name(d[7]) == "attempt_completion"@);
    assert(kind_name(d[8]) == "ask_user"@);
    assert("read_file"@[0] != "edit_file"@[0]);
    assert(forall|i: int| 0 <= i < k ==> kind_name(#[trigger] d[i]) != kind_name(d[k]));
}

/// No two tools share a name.
pub open spec fn distinct_names(ts: Seq<ToolKind>) -> bool {
    forall|i: int, j: int| 0 <= i < j < ts.len() ==> kind_name(ts[i]) != kind_name(ts[j])
}

proof fn lemma_lookup_index(ts: Seq<ToolKind>, name: Seq<char>, i: int)
    requires
        distinct_names(ts),
        0 <= i < ts.len(),
        kind_name(ts[i]) == name,
    ensures
        lookup(ts, name) == Some(ts[i]),
    decreases i,
{
    if i > 0 {
        assert(kind_name(ts[0]) != name);
        lemma_lookup_index(ts.drop_first(), name, i - 1);
    }
}

proof fn lemma_lookup_absent(ts: Seq<ToolKind>, name: Seq<char>)
    requires
        forall|i: int| 0 <= i < ts.len() ==> kind_name(#[trigger] ts[i]) != name,
    ensures
        lookup(ts, name) is None,
    decreases ts.len(),
{
    if ts.len() > 0 {
        lemma_lookup_absent(ts.drop_first(), name);
    }
}

proof fn lemma_lookup_all(ts: Seq<ToolKind>, name: Seq<char>)
    requires
        distinct_names(ts),
    ensures
        lookup(ts, name) is None <==> (forall|i: int| 0 <= i < ts.len() ==> kind_name(#[trigger] ts[i]) != name),
        lookup(ts, name) matches Some(k) ==> kind_name(k) == name && ts.contains(k),
{
    if exists|i: int| 0 <= i < ts.len() && kind_name(#[trigger] ts[i]) == name {
        let i = choose|i: int| 0 <= i < ts.len() && kind_name(#[trigger] ts[i]) == name;
        lemma_lookup_index(ts, name, i);
    } else {
        lemma_lookup_absent(ts, name);
    }
}

fn name_eq(a: &str, b: &str) -> (r: bool)
    ensures
        r == (a@ == b@),
{
    crate::json::str_eq(a, b)
}

/// Registry of the available tools, one per name.
pub struct ToolRegistry {
    tools: Vec<ToolKind>,
}

impl ToolRegistry {
    #[verifier::type_invariant]
    spec fn names_are_distinct(self) -> bool {
        distinct_names(self.tools@)
    }

    /// The registered tools, in registration order.
    pub closed spec fn tools(&self) -> Seq<ToolKind> {
        self.tools@
    }

    /// An empty registry.
    pub fn new() -> (r: Self)
        ensures
            r.tools().len() == 0,
    {
        ToolRegistry { tools: Vec::new() }
    }

    fn index_of(&self, name: &str) -> (r: Option<usize>)
        ensures
            match r {
                Some(i) => i < self.tools().len() && kind_name(self.tools()[i as int]) == name@,
                None => forall|i: int| 0 <= i < self.tools().len() ==> kind_name(#[trigger] self.tools()[i]) != name@,
            },
    {
        let mut i: usize = 0;
        while i < self.tools.len()
            invariant
                i <= self.tools@.len(),
                forall|k: int| 0 <= k < i ==> kind_name(#[trigger] self.tools@[k]) != name@,
            decreases self.tools.len() - i,
        {
            if name_eq(self.tools[i].name(), name) {
                return Some(i);
            }
            i = i + 1;
        }
        None
    }

    /// Register a tool, replacing any tool of the same name.
    pub fn register(&mut self, tool: ToolKind)
        ensures
            (forall|i: int| 0 <= i < old(self).tools().len() ==> kind_name(#[trigger] old(self).tools()[i]) != kind_name(tool))
                ==> final(self).tools() == old(self).tools().push(tool),
            forall|n: Seq<char>| #[trigger] lookup(final(self).tools(), n) == if n == kind_name(tool) {
                Some(tool)
            } else {
                lookup(old(self).tools(), n)
            },
    {
        proof {
            use_type_invariant(&*self);
        }
        let ghost before = self.tools@;
        let name = tool.name();
        match self.index_of(name) {
            Some(i) => {
                let mut tools: Vec<ToolKind> = Vec::new();
                std::mem::swap(&mut tools, &mut self.tools);
                tools.set(i, tool);
                let ghost after = tools@;
                proof {
                    assert(distinct_names(after));
                    assert forall|n: Seq<char>| #[trigger] lookup(after, n) == if n == kind_name(tool) {
                        Some(tool)
                    } else {
                        lookup(before, n)
                    } by {
                        lemma_lookup_all(after, n);
                        lemma_lookup_all(before, n);
                        if n == kind_name(tool) {
                            lemma_lookup_index(after, n, i as int);
                        } else if exists|k: int| 0 <= k < before.len() && kind_name(#[trigger] before[k]) == n {
                            let k = choose|k: int| 0 <= k < before.len() && kind_name(#[trigger] before[k]) == n;
                            lemma_lookup_index(before, n, k);
                            lemma_lookup_index(after, n, k);
                        }
                    }
                }
                self.tools = tools;
            },
            None => {
                let mut tools: Vec<ToolKind> = Vec::new();
                std::mem::swap(&mut tools, &mut self.tools);
                tools.push(tool);
                let ghost after = tools@;
                proof {
                    assert(distinct_names(after));
                    assert forall|n: Seq<char>| #[trigger] lookup(after, n) == if n == kind_name(tool) {
                        Some(tool)
                    } else {
                        lookup(before, n)
                    } by {
                        lemma_lookup_all(after, n);
                        lemma_lookup_all(before, n);
                        if n == kind_name(tool) {
                            lemma_lookup_index(after, n, before.len() as int);
                        } else if exists|k: int| 0 <= k < before.len() && kind_name(#[trigger] before[k]) == n {
                            let k = choose|k: int| 0 <= k < before.len() && kind_name(#[trigger] before[k]) == n;
                            lemma_lookup_index(before, n, k);
                            lemma_lookup_index(after, n, k);
                        } else {
                            assert forall|k: int| 0 <= k < after.len() implies kind_name(#[trigger] after[k]) != n by {
                                if k < before.len() {
                                    assert(after[k] == before[k]);
                                }
                            }
                        }
                    }
                }
                self.tools = tools;
            },
        }
    }

    /// Register the default tools, all working in `working_dir`.
    pub fn register_defaults(&mut self, working_dir: String)
        ensures
            old(self).tools().len() == 0 ==> final(self).tools() == default_tools(working_dir),
            forall|n: Seq<char>| default_tool_name(n) ==> (#[trigger] lookup(final(self).tools(), n) matches Some(k) && kind_name(k) == n),
            forall|n: Seq<char>| !default_tool_name(n) ==> #[trigger] lookup(final(self).tools(), n) == lookup(old(self).tools(), n),
    {
        let ghost empty = old(self).tools().len() == 0;
        let ghost wd = working_dir;
        self.register(ToolKind::ReadFile(ReadFileTool::new(working_dir.clone())));
        assert(empty ==> self.tools() =~= default_tools(wd).take(1));
        proof {
            lemma_default_fresh(wd, 1);
        }
        self.register(ToolKind::WriteFile(WriteFileTool::new(working_dir.clone())));
        assert(empty ==> self.tools() =~= default_tools(wd).take(2));
        proof {
            lemma_default_fresh(wd, 2);
        }
        self.register(ToolKind::EditFile(EditFileTool::new(working_dir.clone())));
        assert(empty ==> self.tools() =~= default_tools(wd).take(3));
        proof {
            lemma_default_fresh(wd, 3);
        }
        self.register(ToolKind::ListDirectory(ListDirectoryTool::new(working_dir.clone())));
        assert(empty ==> self.tools() =~= default_tools(wd).take(4));
        proof {
            lemma_default_fresh(wd, 4);
        }
        self.register(ToolKind::SearchText(SearchTextTool::new(working_dir.clone())));
        assert(empty ==> self.tools() =~= default_tools(wd).take(5));
        proof {
            lemma_default_fresh(wd, 5);
        }
        self.register(ToolKind::SearchFiles(SearchFilesTool::new(working_dir.clone())));
        assert(empty ==> self.tools() =~= default_tools(wd).take(6));
        proof {
            lemma_default_fresh(wd, 6);
        }
        self.register(ToolKind::Bash(BashTool::new(working_dir)));
        assert(empty ==> self.tools() =~= default_tools(wd).take(7));
        proof {
            lemma_default_fresh(wd, 7);
        }
        self.register(ToolKind::AttemptCompletion(AttemptCompletionTool));
        assert(empty ==> self.tools() =~= default_tools(wd).take(8));
        proof {
            lemma_default_fresh(wd, 8);
        }
        self.register(ToolKind::AskUser(AskUserTool));
        assert(empty ==> self.tools() =~= default_tools(wd));
    }

    /// The tool registered under `name`.
    pub fn get(&self, name: &str) -> (r: Option<&ToolKind>)
        ensures
            match r {
                Some(k) => lookup(self.tools(), name@) == Some(*k),
                None => lookup(self.tools(), name@) is None,
            },
    {
        proof {
            use_type_invariant(self);
            lemma_lookup_all(self.tools@, name@);
        }
        match self.index_of(name) {
            Some(i) => {
                proof {
                    lemma_lookup_index(self.tools@, name@, i as int);
                }
                Some(&self.tools[i])
            },
            None => None,
        }
    }

    /// Whether the tool `name` needs approval; unknown tools do.
    pub fn requires_approval(&self, name: &str) -> (b: bool)
        ensures
            b == match lookup(self.tools(), name@) {
                Some(k) => kind_requires_approval(k),
                None => true,
            },
    {
        match self.get(name) {
            Some(t) => t.requires_approval(),
            None => true,
        }
    }

    /// The error for a call of a tool that is not registered.
    pub fn unknown_tool(name: &str) -> (r: ToolResult)
        ensures
            r@ == crate::tools::types::ToolResultModel::Error("Unknown tool: "@ + name@),
    {
        let mut m = "Unknown tool: ".to_owned();
        append_str(&mut m, name);
        ToolResult::Error(m)
    }

    /// The definitions of all tools, one per tool, in registration order.
    pub fn tool_definitions(&self) -> (r: Vec<ToolDefinition>)
        ensures
            r@.len() == self.tools().len(),
            forall|i: int| 0 <= i < r@.len() ==> #[trigger] r@[i].function.name@ == kind_name(self.tools()[i])
                && r@[i].function.description@ == kind_description(self.tools()[i])
                && r@[i].function.parameters@ == kind_schema(self.tools()[i])
                && r@[i].tool_type@ == "function"@,
    {
        let mut defs: Vec<ToolDefinition> = Vec::new();
        let mut i: usize = 0;
        while i < self.tools.len()
            invariant
                i <= self.tools@.len(),
                defs@.len() == i,
                forall|k: int| 0 <= k < i ==> #[trigger] defs@[k].function.name@ == kind_name(self.tools@[k])
                    && defs@[k].function.description@ == kind_description(self.tools@[k])
                    && defs@[k].function.parameters@ == kind_schema(self.tools@[k])
                    && defs@[k].tool_type@ == "function"@,
            decreases self.tools.len() - i,
        {
            defs.push(self.tools[i].definition());
            i = i + 1;
        }
        defs
    }

    /// The names of all tools, in registration order.
    pub fn tool_names(&self) -> (r: Vec<&'static str>)
        ensures
            r@.map_values(|s: &str| s@) == self.tools().map_values(|k: ToolKind| kind_name(k)),
    {
        let mut names: Vec<&'static str> = Vec::new();
        let mut i: usize = 0;
        while i < self.tools.len()
            invariant
                i <= self.tools@.len(),
                names@.map_values(|s: &str| s@) =~= self.tools@.take(i as int).map_values(|k: ToolKind| kind_name(k)),
            decreases self.tools.len() - i,
        {
            let ghost before = names@;
            let nm = self.tools[i].name();
            names.push(nm);
            assert(names@.map_values(|s: &str| s@) =~= before.map_values(|s: &str| s@).push(kind_name(self.tools@[i as int])));
            assert(self.tools@.take(i + 1) =~= self.tools@.take(i as int).push(self.tools@[i as int]));
            assert(self.tools@.take(i + 1).map_values(|k: ToolKind| kind_name(k)) =~= self.tools@.take(i as int).map_values(|k: ToolKind| kind_name(k)).push(kind_name(self.tools@[i as int])));
            i = i + 1;
        }
        assert(self.tools@.take(self.tools@.len() as int) =~= self.tools@);
        names
    }

    /// A description of all tools for the system prompt of the JSON fallback:
    /// name, description and parameter schema of each.
    pub fn tool_descriptions(&self) -> (r: String)
        ensures
            r@ == descriptions_text(self.tools()),
    {
        let mut desc = "Available tools:\n\n".to_owned();
        let mut i: usize = 0;
        assert(self.tools@.take(0) =~= Seq::<ToolKind>::empty());
        while i < self.tools.len()
            invariant
                i <= self.tools@.len(),
                desc@ == descriptions_text(self.tools@.take(i as int)),
            decreases self.tools.len() - i,
        {
            proof {
                let t = self.tools@.take(i + 1);
                assert(t.drop_last() =~= self.tools@.take(i as int));
                assert(t.last() == self.tools@[i as int]);
            }
            let t = &self.tools[i];
            append_str(&mut desc, "## ");
            append_str(&mut desc, t.name());
            append_str(&mut desc, "\n");
            append_str(&mut desc, t.description());
            append_str(&mut desc, "\nParameters: ");
            let schema = t.parameters_schema();
            let text = json_to_text(&schema);
            append_str(&mut desc, text.as_str());
            append_str(&mut desc, "\n\n");
            i = i + 1;
        }
        assert(self.tools@.take(self.tools@.len() as int) =~= self.tools@);
        desc
    }
}

} // verus!
