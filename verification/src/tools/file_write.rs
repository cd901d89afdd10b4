//! The file writing tool.

use vstd::prelude::*;

use crate::json::{object_schema, object_schema_model, str_field, JsonModel, JsonValue};
use crate::text::{append_str, decimal, lines, push_char, push_decimal, split_lines};
use crate::tools::diff::{format_diff, line_diff, render_diff};
use crate::tools::paths::{join, join_path};
use crate::tools::types::{PendingAction, PendingModel, ToolResult, ToolResultModel};

verus! {

pub const WRITE_DESCRIPTION: &'static str = "Create a new file or overwrite an existing file with the given content. The directory will be created if it doesn't exist. Requires user approval.";
pub const WRITE_PATH_DESC: &'static str = "The file path to write to (relative to project root or absolute)";
pub const CONTENT_DESC: &'static str = "The content to write to the file";

/// The arguments of a write: path as given, path resolved, and content.
pub struct WriteRequest {
    pub path: String,
    pub resolved: String,
    pub content: String,
}

/// The write asked for by `args`, or the error naming the first missing argument.
pub open spec fn write_request(
    working_dir: Seq<char>,
    args: JsonModel,
    r: Result<WriteRequest, ToolResult>,
    missing_path: Seq<char>,
    missing_content: Seq<char>,
) -> bool {
    match (str_field(args, "path"@), str_field(args, "content"@)) {
        (Some(p), Some(c)) => r matches Ok(req) && req.path@ == p && req.resolved@ == join_path(
            working_dir,
            p,
        ) && req.content@ == c,
        (None, _) => r matches Err(e) && e@ == ToolResultModel::Error(missing_path),
        (Some(_), None) => r matches Err(e) && e@ == ToolResultModel::Error(missing_content),
    }
}

fn read_write_args(working_dir: &str, args: &JsonValue, missing_path: &str, missing_content: &str) -> (r: Result<WriteRequest, ToolResult>)
    ensures
        write_request(working_dir@, args@, r, missing_path@, missing_content@),
{
    let path = match args.get_str("path") {
        Some(p) => p,
        None => return Err(ToolResult::Error(missing_path.to_owned())),
    };
    let content = match args.get_str("content") {
        Some(c) => c,
        None => return Err(ToolResult::Error(missing_content.to_owned())),
    };
    let resolved = join(working_dir, path.as_str());
    Ok(WriteRequest { path, resolved, content })
}

/// Lines, each followed by a newline.
pub open spec fn joined_lines(ls: Seq<Seq<char>>) -> Seq<char>
    decreases ls.len(),
{
    if ls.len() == 0 {
        Seq::empty()
    } else {
        joined_lines(ls.drop_last()) + ls.last() + seq!['\n']
    }
}

/// Preview of new content: all of it when it has at most 20 lines, else its
/// first ten and last ten lines around a count of the lines left out.
pub open spec fn preview_of(content: Seq<char>) -> Seq<char> {
    let ls = lines(content);
    if ls.len() <= 20 {
        content
    } else {
        joined_lines(ls.take(10)) + "... ("@ + decimal((ls.len() - 20) as nat) + " more lines) ...\n"@
            + joined_lines(ls.skip(ls.len() - 10))
    }
}

fn push_lines(out: &mut String, ls: &Vec<String>, lo: usize, hi: usize)
    requires
        lo <= hi <= ls@.len(),
    ensures
        final(out)@ == old(out)@ + joined_lines(ls@.map_values(|l: String| l@).subrange(lo as int, hi as int)),
{
    let ghost lm = ls@.map_values(|l: String| l@);
    let ghost o = out@;
    let mut i = lo;
    assert(lm.subrange(lo as int, lo as int) =~= Seq::<Seq<char>>::empty());
    assert(o + Seq::<char>::empty() =~= o);
    while i < hi
        invariant
            lo <= i <= hi <= ls@.len(),
            lm == ls@.map_values(|l: String| l@),
            out@ == o + joined_lines(lm.subrange(lo as int, i as int)),
        decreases hi - i,
    {
        append_str(out, ls[i].as_str());
        push_char(out, '\n');
        proof {
            let t = lm.subrange(lo as int, i + 1);
            assert(t.drop_last() =~= lm.subrange(lo as int, i as int));
            assert(t.last() == lm[i as int]);
        }
        i = i + 1;
    }
}

/// The preview of content to be written.
pub fn content_preview(content: &str) -> (r: String)
    ensures
        r@ == preview_of(content@),
{
    let ls = split_lines(content);
    let ghost lm = lines(content@);
    assert(ls@.map_values(|l: String| l@) =~= lm);
    let n = ls.len();
    if n <= 20 {
        return content.to_owned();
    }
    let mut preview = String::new();
    push_lines(&mut preview, &ls, 0, 10);
    append_str(&mut preview, "... (");
    push_decimal(&mut preview, (n - 20) as u64);
    append_str(&mut preview, " more lines) ...\n");
    push_lines(&mut preview, &ls, n - 10, n);
    assert(lm.subrange(0, 10) =~= lm.take(10));
    assert(lm.subrange(n - 10, n as int) =~= lm.skip(n - 10));
    assert(preview@ =~= preview_of(content@));
    preview
}

/// The preview of writing `content` at `path`: the diff against the current
/// contents for an existing file, else a note and the content preview.
pub open spec fn write_preview_of(path: Seq<char>, existing: Option<Seq<char>>, content: Seq<char>) -> Seq<char> {
    match existing {
        Some(old) => render_diff(line_diff(old, content)),
        None => "New file: "@ + path + "\n"@ + preview_of(content),
    }
}

/// Tool that writes files.
pub struct WriteFileTool {
    pub working_dir: String,
}

impl WriteFileTool {
    pub fn new(working_dir: String) -> (r: Self)
        ensures
            r.working_dir == working_dir,
    {
        WriteFileTool { working_dir }
    }

    /// `path` resolved against the working directory.
    pub fn resolve_path(&self, path: &str) -> (r: String)
        ensures
            r@ == join_path(self.working_dir@, path@),
    {
        join(self.working_dir.as_str(), path)
    }

    pub fn name(&self) -> (r: &'static str)
        ensures
            r@ == "write_file"@,
    {
        "write_file"
    }

    pub fn description(&self) -> (r: &'static str)
        ensures
            r@ == WRITE_DESCRIPTION@,
    {
        WRITE_DESCRIPTION
    }

    pub fn parameters_schema(&self) -> (r: JsonValue)
        ensures
            r@ == object_schema_model(
                seq![("path"@, "string"@, WRITE_PATH_DESC@), ("content"@, "string"@, CONTENT_DESC@)],
                Some(seq!["path"@, "content"@]),
            ),
    {
        let props: Vec<(&str, &str, &str)> = vec![
            ("path", "string", WRITE_PATH_DESC),
            ("content", "string", CONTENT_DESC),
        ];
        let req: Vec<&str> = vec!["path", "content"];
        let r = object_schema(&props, Some(&req));
        assert(props@.map_values(|p: (&str, &str, &str)| (p.0@, p.1@, p.2@)) =~= seq![
            ("path"@, "string"@, WRITE_PATH_DESC@),
            ("content"@, "string"@, CONTENT_DESC@),
        ]);
        assert(req@.map_values(|s: &str| s@) =~= seq!["path"@, "content"@]);
        r
    }

    pub fn requires_approval(&self) -> (b: bool)
        ensures
            b,
    {
        true
    }

    /// The write asked for, before approval.
    pub fn request(&self, arguments: &JsonValue) -> (r: Result<WriteRequest, ToolResult>)
        ensures
            write_request(
                self.working_dir@,
                arguments@,
                r,
                "Missing required parameter: path"@,
                "Missing required parameter: content"@,
            ),
    {
        read_write_args(
            self.working_dir.as_str(),
            arguments,
            "Missing required parameter: path",
            "Missing required parameter: content",
        )
    }

    /// The approval request for writing `content` at `path`, given the current
    /// contents of the file when it exists.
    pub fn review(path: &str, existing: Option<&str>, content: &str, arguments: &JsonValue) -> (r: ToolResult)
        ensures
            r@ == ToolResultModel::NeedsApproval(
                PendingModel {
                    tool_name: "write_file"@,
                    description: "Write to file: "@ + path@,
                    preview: Some(write_preview_of(path@, match existing {
                        Some(e) => Some(e@),
                        None => None,
                    }, content@)),
                    arguments: arguments@,
                },
            ),
    {
        let preview = match existing {
            Some(old) => format_diff(old, content),
            None => {
                let mut p = "New file: ".to_owned();
                append_str(&mut p, path);
                append_str(&mut p, "\n");
                let cp = content_preview(content);
                append_str(&mut p, cp.as_str());
                p
            },
        };
        let mut description = "Write to file: ".to_owned();
        append_str(&mut description, path);
        ToolResult::NeedsApproval(
            PendingAction {
                tool_name: "write_file".to_owned(),
                description,
                preview: Some(preview),
                arguments: arguments.deep_clone(),
            },
        )
    }
}

/// The write to perform once approved (the arguments of `execute_write`).
pub fn approved_write_request(working_dir: &str, arguments: &JsonValue) -> (r: Result<WriteRequest, ToolResult>)
    ensures
        write_request(working_dir@, arguments@, r, "Missing path"@, "Missing content"@),
{
    read_write_args(working_dir, arguments, "Missing path", "Missing content")
}

/// The answer once an approved write of `path` is done.
pub fn write_done(path: &str) -> (r: ToolResult)
    ensures
        r@ == ToolResultModel::Success("Successfully wrote to "@ + path@),
{
    let mut m = "Successfully wrote to ".to_owned();
    append_str(&mut m, path);
    ToolResult::Success(m)
}

} // verus!
