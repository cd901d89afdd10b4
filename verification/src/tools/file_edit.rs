//! The file editing tool: replace one exact occurrence of a string.

use vstd::prelude::*;

use crate::json::{object_schema, object_schema_model, str_field, JsonModel, JsonValue};
use crate::text::{
    append_str, chars_of, count_matches, count_matches_exec, decimal, push_decimal, replace_first,
    replace_first_exec, string_from_chars,
};
use crate::tools::diff::{format_diff, line_diff, render_diff};
use crate::tools::paths::{join, join_path};
use crate::tools::types::{PendingAction, PendingModel, ToolResult, ToolResultModel};

verus! {

pub const EDIT_DESCRIPTION: &'static str = "Edit an existing file by replacing an exact string with new content. The old_string must match exactly one location in the file (including whitespace and indentation). Include several lines of context to ensure a unique match.";
pub const EDIT_PATH_DESC: &'static str = "The file path to edit (relative to project root or absolute)";
pub const OLD_STRING_DESC: &'static str = "The exact text to find and replace. Must match exactly once in the file.";
pub const NEW_STRING_DESC: &'static str = "The text to replace old_string with";

/// The arguments of an edit: path as given, path resolved, old and new text.
pub struct EditRequest {
    pub path: String,
    pub resolved: String,
    pub old_string: String,
    pub new_string: String,
}

/// The edit asked for by `args`, or the error naming the first missing
/// argument, with messages `missing(name)`.
pub open spec fn edit_request(
    working_dir: Seq<char>,
    args: JsonModel,
    r: Result<EditRequest, ToolResult>,
    missing_path: Seq<char>,
    missing_old: Seq<char>,
    missing_new: Seq<char>,
) -> bool {
    match (str_field(args, "path"@), str_field(args, "old_string"@), str_field(args, "new_string"@)) {
        (Some(p), Some(o), Some(n)) => r matches Ok(req) && req.path@ == p && req.resolved@ == join_path(
            working_dir,
            p,
        ) && req.old_string@ == o && req.new_string@ == n,
        (None, _, _) => r matches Err(e) && e@ == ToolResultModel::Error(missing_path),
        (Some(_), None, _) => r matches Err(e) && e@ == ToolResultModel::Error(missing_old),
        (Some(_), Some(_), None) => r matches Err(e) && e@ == ToolResultModel::Error(missing_new),
    }
}

fn read_edit_args(
    working_dir: &str,
    args: &JsonValue,
    missing_path: &str,
    missing_old: &str,
    missing_new: &str,
) -> (r: Result<EditRequest, ToolResult>)
    ensures
        edit_request(working_dir@, args@, r, missing_path@, missing_old@, missing_new@),
{
    let path = match args.get_str("path") {
        Some(p) => p,
        None => return Err(ToolResult::Error(missing_path.to_owned())),
    };
    let old_string = match args.get_str("old_string") {
        Some(s) => s,
        None => return Err(ToolResult::Error(missing_old.to_owned())),
    };
    let new_string = match args.get_str("new_string") {
        Some(s) => s,
        None => return Err(ToolResult::Error(missing_new.to_owned())),
    };
    let resolved = join(working_dir, path.as_str());
    Ok(EditRequest { path, resolved, old_string, new_string })
}

/// The error for a string found `count` times in file `path`, where once is
/// required.
pub open spec fn match_count_error(path: Seq<char>, count: nat) -> ToolResultModel {
    if count == 0 {
        ToolResultModel::Error(
            "old_string not found in '"@ + path
                + "'. Make sure the string matches exactly including whitespace."@,
        )
    } else {
        ToolResultModel::Error(
            "old_string found "@ + decimal(count) + " times in '"@ + path
                + "'. Include more context lines to make the match unique."@,
        )
    }
}

fn count_error(path: &str, count: usize) -> (r: ToolResult)
    ensures
        r@ == match_count_error(path@, count as nat),
{
    if count == 0 {
        let mut m = "old_string not found in '".to_owned();
        append_str(&mut m, path);
        append_str(&mut m, "'. Make sure the string matches exactly including whitespace.");
        ToolResult::Error(m)
    } else {
        let mut m = "old_string found ".to_owned();
        push_decimal(&mut m, count as u64);
        append_str(&mut m, " times in '");
        append_str(&mut m, path);
        append_str(&mut m, "'. Include more context lines to make the match unique.");
        ToolResult::Error(m)
    }
}

/// What the tool answers for file `path` with contents `content`: the
/// string must occur exactly once, and then the change awaits approval with
/// its diff as preview.
pub open spec fn edit_outcome(
    path: Seq<char>,
    content: Seq<char>,
    old_string: Seq<char>,
    new_string: Seq<char>,
    args: JsonModel,
) -> ToolResultModel {
    let count = count_matches(content, old_string);
    if count != 1 {
        match_count_error(path, count)
    } else {
        ToolResultModel::NeedsApproval(
            PendingModel {
                tool_name: "edit_file"@,
                description: "Edit file: "@ + path,
                preview: Some(render_diff(line_diff(content, replace_first(content, old_string, new_string)))),
                arguments: args,
            },
        )
    }
}

/// An edit goes to the user for approval exactly when its string occurs
/// once in the file, as an `edit_file` action on the path with the given
/// arguments and a preview; otherwise it is refused, saying whether the
/// string was missing or how often it was found.
pub proof fn law_edit_needs_unique_match(
    path: Seq<char>,
    content: Seq<char>,
    old_string: Seq<char>,
    new_string: Seq<char>,
    args: JsonModel,
)
    ensures
        (edit_outcome(path, content, old_string, new_string, args) is NeedsApproval) <==> count_matches(
            content,
            old_string,
        ) == 1,
        (edit_outcome(path, content, old_string, new_string, args) is Error) <==> count_matches(content, old_string)
            != 1,
        edit_outcome(path, content, old_string, new_string, args) matches ToolResultModel::NeedsApproval(p) ==> (
        p.tool_name == "edit_file"@ && p.description == "Edit file: "@ + path && p.arguments == args
            && p.preview is Some),
        count_matches(content, old_string) == 0 ==> edit_outcome(path, content, old_string, new_string, args)
            == ToolResultModel::Error(
            "old_string not found in '"@ + path + "'. Make sure the string matches exactly including whitespace."@,
        ),
        count_matches(content, old_string) > 1 ==> edit_outcome(path, content, old_string, new_string, args)
            == ToolResultModel::Error(
            "old_string found "@ + decimal(count_matches(content, old_string)) + " times in '"@ + path
                + "'. Include more context lines to make the match unique."@,
        ),
{
}

/// `content` with the first occurrence of `old_string` replaced (`str::replacen(.., 1)`).
pub fn apply_edit(content: &str, old_string: &str, new_string: &str) -> (r: String)
    ensures
        r@ == replace_first(content@, old_string@, new_string@),
{
    let h = chars_of(content);
    let p = chars_of(old_string);
    let n = chars_of(new_string);
    let out = replace_first_exec(&h, &p, &n);
    string_from_chars(&out)
}

/// Tool that edits files.
pub struct EditFileTool {
    pub working_dir: String,
}

impl EditFileTool {
    pub fn new(working_dir: String) -> (r: Self)
        ensures
            r.working_dir == working_dir,
    {
        EditFileTool { working_dir }
    }

    /// `path` resolved against the working directory.
    pub fn resolve_path(&self, path: &str) -> (r: String)
        ensures
            r@ == join_path(self.working_dir@, path@),
    {
        join(self.working_dir.as_str(), path)
    }

    pub fn name(&self) -> (r: &'static str)
        ensures
            r@ == "edit_file"@,
    {
        "edit_file"
    }

    pub fn description(&self) -> (r: &'static str)
        ensures
            r@ == EDIT_DESCRIPTION@,
    {
        EDIT_DESCRIPTION
    }

    pub fn parameters_schema(&self) -> (r: JsonValue)
        ensures
            r@ == object_schema_model(
                seq![
                    ("path"@, "string"@, EDIT_PATH_DESC@),
                    ("old_string"@, "string"@, OLD_STRING_DESC@),
                    ("new_string"@, "string"@, NEW_STRING_DESC@),
                ],
                Some(seq!["path"@, "old_string"@, "new_string"@]),
            ),
    {
        let props: Vec<(&str, &str, &str)> = vec![
            ("path", "string", EDIT_PATH_DESC),
            ("old_string", "string", OLD_STRING_DESC),
            ("new_string", "string", NEW_STRING_DESC),
        ];
        let req: Vec<&str> = vec!["path", "old_string", "new_string"];
        let r = object_schema(&props, Some(&req));
        assert(props@.map_values(|p: (&str, &str, &str)| (p.0@, p.1@, p.2@)) =~= seq![
            ("path"@, "string"@, EDIT_PATH_DESC@),
            ("old_string"@, "string"@, OLD_STRING_DESC@),
            ("new_string"@, "string"@, NEW_STRING_DESC@),
        ]);
        assert(req@.map_values(|s: &str| s@) =~= seq!["path"@, "old_string"@, "new_string"@]);
        r
    }

    pub fn requires_approval(&self) -> (b: bool)
        ensures
            b,
    {
        true
    }

    /// The edit asked for, before approval.
    pub fn request(&self, arguments: &JsonValue) -> (r: Result<EditRequest, ToolResult>)
        ensures
            edit_request(
                self.working_dir@,
                arguments@,
                r,
                "Missing required parameter: path"@,
                "Missing required parameter: old_string"@,
                "Missing required parameter: new_string"@,
            ),
    {
        read_edit_args(
            self.working_dir.as_str(),
            arguments,
            "Missing required parameter: path",
            "Missing required parameter: old_string",
            "Missing required parameter: new_string",
        )
    }

    /// The answer for the current contents of the file.
    pub fn review(path: &str, content: &str, old_string: &str, new_string: &str, arguments: &JsonValue) -> (r: ToolResult)
        requires
            content@.len() < usize::MAX,
        ensures
            r@ == edit_outcome(path@, content@, old_string@, new_string@, arguments@),
    {
        let h = chars_of(content);
        let p = chars_of(old_string);
        let match_count = count_matches_exec(&h, &p);
        if match_count != 1 {
            return count_error(path, match_count);
        }
        let new_content = apply_edit(content, old_string, new_string);
        let preview = format_diff(content, new_content.as_str());
        let mut description = "Edit file: ".to_owned();
        append_str(&mut description, path);
        ToolResult::NeedsApproval(
            PendingAction {
                tool_name: "edit_file".to_owned(),
                description,
                preview: Some(preview),
                arguments: arguments.deep_clone(),
            },
        )
    }
}

/// The edit to perform once approved (the arguments of `execute_edit`).
pub fn approved_edit_request(working_dir: &str, arguments: &JsonValue) -> (r: Result<EditRequest, ToolResult>)
    ensures
        edit_request(
            working_dir@,
            arguments@,
            r,
            "Missing path"@,
            "Missing old_string"@,
            "Missing new_string"@,
        ),
{
    read_edit_args(working_dir, arguments, "Missing path", "Missing old_string", "Missing new_string")
}

/// The new contents of file `path` for an approved edit: `content` with its
/// one occurrence of `old_string` replaced, or the error where the string does
/// not occur exactly once (and nothing is to be written).
pub fn approved_edit(path: &str, content: &str, old_string: &str, new_string: &str) -> (r: Result<
    String,
    ToolResult,
>)
    requires
        content@.len() < usize::MAX,
    ensures
        count_matches(content@, old_string@) == 1 ==> (r matches Ok(t) && t@ == replace_first(
            content@,
            old_string@,
            new_string@,
        )),
        count_matches(content@, old_string@) != 1 ==> (r matches Err(e) && e@ == match_count_error(
            path@,
            count_matches(content@, old_string@),
        )),
{
    let h = chars_of(content);
    let p = chars_of(old_string);
    let match_count = count_matches_exec(&h, &p);
    if match_count != 1 {
        return Err(count_error(path, match_count));
    }
    Ok(apply_edit(content, old_string, new_string))
}

/// The answer once an approved edit of `path` is written.
pub fn edit_done(path: &str) -> (r: ToolResult)
    ensures
        r@ == ToolResultModel::Success("Successfully edited "@ + path@),
{
    let mut m = "Successfully edited ".to_owned();
    append_str(&mut m, path);
    ToolResult::Success(m)
}

} // verus!
