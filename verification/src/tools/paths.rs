//! Path handling shared by the file tools (Unix path syntax).

use vstd::prelude::*;

use crate::json::{str_field, JsonModel, JsonValue};
use crate::text::{append_str, push_char};
use crate::tools::types::{ToolResult, ToolResultModel};

verus! {

/// A path is absolute when it starts at the root.
pub open spec fn is_absolute(p: Seq<char>) -> bool {
    p.len() > 0 && p[0] == '/'
}

/// `Path::join`: an absolute path replaces the base; a relative one is
/// appended, with a separator unless the base is empty or ends with one.
pub open spec fn join_path(base: Seq<char>, p: Seq<char>) -> Seq<char> {
    if is_absolute(p) {
        p
    } else if base.len() == 0 || base.last() == '/' {
        base + p
    } else {
        base + seq!['/'] + p
    }
}

/// `Path::join` on path texts.
pub fn join(base: &str, p: &str) -> (r: String)
    ensures
        r@ == join_path(base@, p@),
{
    let pv = crate::text::chars_of(p);
    if pv.len() > 0 && pv[0] == '/' {
        return p.to_owned();
    }
    let bv = crate::text::chars_of(base);
    let mut r = base.to_owned();
    if bv.len() > 0 && bv[bv.len() - 1] != '/' {
        push_char(&mut r, '/');
    }
    append_str(&mut r, p);
    r
}

/// The request of a file tool: the path as given and as resolved against
/// the working directory.
pub struct PathRequest {
    pub path: String,
    pub resolved: String,
}

/// The `"path"` argument resolved against `working_dir`, or the error for a
/// missing one.
pub open spec fn path_request(working_dir: Seq<char>, args: JsonModel, r: Result<PathRequest, ToolResult>) -> bool {
    match str_field(args, "path"@) {
        Some(p) => r matches Ok(req) && req.path@ == p && req.resolved@ == join_path(working_dir, p),
        None => r matches Err(e) && e@ == ToolResultModel::Error("Missing required parameter: path"@),
    }
}

/// Reads and resolves the `"path"` argument.
pub fn require_path(working_dir: &str, args: &JsonValue) -> (r: Result<PathRequest, ToolResult>)
    ensures
        path_request(working_dir@, args@, r),
{
    match args.get_str("path") {
        Some(p) => {
            let resolved = join(working_dir, p.as_str());
            Ok(PathRequest { path: p, resolved })
        },
        None => Err(ToolResult::Error("Missing required parameter: path".to_owned())),
    }
}

/// The message for a path outside the project directory.
pub fn access_denied(path: &str) -> (r: ToolResult)
    ensures
        r@ == ToolResultModel::Error(
            "Access denied: path '"@ + path@ + "' is outside the project directory"@,
        ),
{
    let mut m = "Access denied: path '".to_owned();
    append_str(&mut m, path);
    append_str(&mut m, "' is outside the project directory");
    ToolResult::Error(m)
}

/// Whether `base` is a prefix of `path` in whole components, as
/// `std::path::Path::starts_with` decides.
pub uninterp spec fn path_prefix(path: Seq<char>, base: Seq<char>) -> bool;

/// `Path::new(path).starts_with(base)`.
#[verifier::external_body]
fn path_starts_with(path: &str, base: &str) -> (b: bool)
    ensures
        b == path_prefix(path@, base@),
{
    std::path::Path::new(path).starts_with(base)
}

/// The error for a path that could not be resolved on disk.
pub fn cannot_access(path: &str, error: &str) -> (r: ToolResult)
    ensures
        r@ == ToolResultModel::Error("Cannot access '"@ + path@ + "': "@ + error@),
{
    let mut m = "Cannot access '".to_owned();
    append_str(&mut m, path);
    append_str(&mut m, "': ");
    append_str(&mut m, error);
    ToolResult::Error(m)
}

/// The error for a file that could not be read.
pub fn read_failed(path: &str, error: &str) -> (r: ToolResult)
    ensures
        r@ == ToolResultModel::Error("Failed to read '"@ + path@ + "': "@ + error@),
{
    let mut m = "Failed to read '".to_owned();
    append_str(&mut m, path);
    append_str(&mut m, "': ");
    append_str(&mut m, error);
    ToolResult::Error(m)
}

/// The error for a file that could not be written.
pub fn write_failed(path: &str, error: &str) -> (r: ToolResult)
    ensures
        r@ == ToolResultModel::Error("Failed to write '"@ + path@ + "': "@ + error@),
{
    let mut m = "Failed to write '".to_owned();
    append_str(&mut m, path);
    append_str(&mut m, "': ");
    append_str(&mut m, error);
    ToolResult::Error(m)
}

/// The error for a parent directory that could not be made.
pub fn dir_failed(error: &str) -> (r: ToolResult)
    ensures
        r@ == ToolResultModel::Error("Failed to create directory: "@ + error@),
{
    let mut m = "Failed to create directory: ".to_owned();
    append_str(&mut m, error);
    ToolResult::Error(m)
}

/// The canonical form of a path, or the message of the error in finding it.
pub open spec fn resolved_view(r: Result<String, String>) -> Result<Seq<char>, Seq<char>> {
    match r {
        Ok(p) => Ok(p@),
        Err(e) => Err(e@),
    }
}

pub open spec fn opt_text(o: Option<String>) -> Option<Seq<char>> {
    match o {
        Some(s) => Some(s@),
        None => None,
    }
}

/// Reading needs a path that resolves, and inside the project when the
/// project's own path resolves.
pub open spec fn read_access_of(path: Seq<char>, canonical: Result<Seq<char>, Seq<char>>, root: Option<Seq<char>>) -> Option<ToolResultModel> {
    match canonical {
        Err(e) => Some(ToolResultModel::Error("Cannot access '"@ + path + "': "@ + e)),
        Ok(c) => match root {
            Some(w) => if path_prefix(c, w) {
                None
            } else {
                Some(ToolResultModel::Error("Access denied: path '"@ + path + "' is outside the project directory"@))
            },
            None => None,
        },
    }
}

/// The error that stops a read of `path`, given its canonical form and the
/// project's (when that resolves); `None` lets the read go on.
pub fn read_access(path: &str, canonical: Result<String, String>, root: Option<String>) -> (r: Option<ToolResult>)
    ensures
        match r {
            Some(e) => read_access_of(path@, resolved_view(canonical), opt_text(root)) == Some(e@),
            None => read_access_of(path@, resolved_view(canonical), opt_text(root)) is None,
        },
{
    match canonical {
        Err(e) => Some(cannot_access(path, e.as_str())),
        Ok(c) => match root {
            Some(w) => if path_starts_with(c.as_str(), w.as_str()) {
                None
            } else {
                Some(access_denied(path))
            },
            None => None,
        },
    }
}

/// Editing checks only when the project's path resolves: then the file must
/// resolve, inside the project.
pub open spec fn edit_access_of(path: Seq<char>, canonical: Result<Seq<char>, Seq<char>>, root: Option<Seq<char>>) -> Option<ToolResultModel> {
    match root {
        None => None,
        Some(_) => read_access_of(path, canonical, root),
    }
}

/// The error that stops an edit of `path`; `None` lets it go on.
pub fn edit_access(path: &str, canonical: Result<String, String>, root: Option<String>) -> (r: Option<ToolResult>)
    ensures
        match r {
            Some(e) => edit_access_of(path@, resolved_view(canonical), opt_text(root)) == Some(e@),
            None => edit_access_of(path@, resolved_view(canonical), opt_text(root)) is None,
        },
{
    match root {
        None => None,
        Some(w) => read_access(path, canonical, Some(w)),
    }
}

/// Writing and listing refuse a path only when both it and the project
/// resolve and it lies outside.
pub open spec fn outside_of(path: Seq<char>, canonical: Option<Seq<char>>, root: Option<Seq<char>>) -> Option<ToolResultModel> {
    match (canonical, root) {
        (Some(c), Some(w)) => if path_prefix(c, w) {
            None
        } else {
            Some(ToolResultModel::Error("Access denied: path '"@ + path + "' is outside the project directory"@))
        },
        _ => None,
    }
}

/// The error for a path found outside the project; `None` lets the tool go on.
pub fn outside_project(path: &str, canonical: Option<String>, root: Option<String>) -> (r: Option<ToolResult>)
    ensures
        match r {
            Some(e) => outside_of(path@, opt_text(canonical), opt_text(root)) == Some(e@),
            None => outside_of(path@, opt_text(canonical), opt_text(root)) is None,
        },
{
    match (canonical, root) {
        (Some(c), Some(w)) => if path_starts_with(c.as_str(), w.as_str()) {
            None
        } else {
            Some(access_denied(path))
        },
        _ => None,
    }
}

} // verus!
