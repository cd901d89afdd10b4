//! The directory listing tool.

use vstd::prelude::*;

use crate::json::{object_schema, object_schema_model, str_field, JsonModel, JsonValue};
use crate::text::{
    append_str, join_strings, join_texts, push_char, sort_strings, sorted_texts, texts,
};
use crate::tools::paths::{join, join_path};
use crate::tools::types::{ToolResult, ToolResultModel};

verus! {

pub const LIST_DESCRIPTION: &'static str = "List the contents of a directory. Respects .gitignore. Results show files and directories with '/' suffix for directories.";
pub const LIST_PATH_DESC: &'static str = "Directory path to list (relative to project root or absolute). Defaults to project root.";

/// The name shown for a directory entry: directories get a trailing `/`.
pub open spec fn entry_label(name: Seq<char>, is_dir: bool) -> Seq<char> {
    if is_dir {
        name + seq!['/']
    } else {
        name
    }
}

/// The labels of the entries, in walk order.
pub open spec fn entry_labels(entries: Seq<(String, bool)>) -> Seq<Seq<char>> {
    entries.map_values(|e: (String, bool)| entry_label(e.0@, e.1))
}

/// Whether `r` lists the entries of directory `path`: sorted labels, one per
/// line, or a note that the directory is empty.
pub open spec fn listing_of(path: Seq<char>, entries: Seq<(String, bool)>, r: ToolResultModel) -> bool {
    if entries.len() == 0 {
        r == ToolResultModel::Success("Directory '"@ + path + "' is empty"@)
    } else {
        exists|sorted: Seq<Seq<char>>|
            sorted.to_multiset() == entry_labels(entries).to_multiset() && sorted_texts(sorted) && r
                == ToolResultModel::Success(join_texts(sorted, "\n"@))
    }
}

/// The `"path"` argument, or `"."`.
pub open spec fn listed_path(args: JsonModel) -> Seq<char> {
    match str_field(args, "path"@) {
        Some(p) => p,
        None => "."@,
    }
}

/// Tool that lists directories.
pub struct ListDirectoryTool {
    pub working_dir: String,
}

impl ListDirectoryTool {
    pub fn new(working_dir: String) -> (r: Self)
        ensures
            r.working_dir == working_dir,
    {
        ListDirectoryTool { working_dir }
    }

    /// `path` resolved against the working directory.
    pub fn resolve_path(&self, path: &str) -> (r: String)
        ensures
            r@ == join_path(self.working_dir@, path@),
    {
        join(self.working_dir.as_str(), path)
    }

    pub fn name(&self) -> (r: &'static str)
        ensures
            r@ == "list_directory"@,
    {
        "list_directory"
    }

    pub fn description(&self) -> (r: &'static str)
        ensures
            r@ == LIST_DESCRIPTION@,
    {
        LIST_DESCRIPTION
    }

    pub fn parameters_schema(&self) -> (r: JsonValue)
        ensures
            r@ == object_schema_model(seq![("path"@, "string"@, LIST_PATH_DESC@)], None),
    {
        let props: Vec<(&str, &str, &str)> = vec![("path", "string", LIST_PATH_DESC)];
        let r = object_schema(&props, None);
        assert(props@.map_values(|p: (&str, &str, &str)| (p.0@, p.1@, p.2@)) =~= seq![("path"@, "string"@, LIST_PATH_DESC@)]);
        r
    }

    pub fn requires_approval(&self) -> (b: bool)
        ensures
            !b,
    {
        false
    }

    /// The directory to list, as given and resolved.
    pub fn request(&self, arguments: &JsonValue) -> (r: (String, String))
        ensures
            r.0@ == listed_path(arguments@),
            r.1@ == join_path(self.working_dir@, listed_path(arguments@)),
    {
        let path = match arguments.get_str("path") {
            Some(p) => p,
            None => ".".to_owned(),
        };
        let resolved = join(self.working_dir.as_str(), path.as_str());
        (path, resolved)
    }

    /// The error for a path that is not a directory.
    pub fn not_a_directory(path: &str) -> (r: ToolResult)
        ensures
            r@ == ToolResultModel::Error("'"@ + path@ + "' is not a directory"@),
    {
        let mut m = "'".to_owned();
        append_str(&mut m, path);
        append_str(&mut m, "' is not a directory");
        ToolResult::Error(m)
    }

    /// The listing of directory `path` from its entries `(name, is_dir)`.
    pub fn listing(path: &str, entries: &Vec<(String, bool)>) -> (r: ToolResult)
        ensures
            listing_of(path@, entries@, r@),
    {
        let mut names: Vec<String> = Vec::new();
        let mut i: usize = 0;
        while i < entries.len()
            invariant
                i <= entries@.len(),
                texts(names@) =~= entry_labels(entries@).take(i as int),
            decreases entries.len() - i,
        {
            let mut label = entries[i].0.clone();
            if entries[i].1 {
                push_char(&mut label, '/');
            }
            assert(label@ =~= entry_label(entries@[i as int].0@, entries@[i as int].1));
            let ghost before = names@;
            names.push(label);
            assert(texts(names@) =~= texts(before).push(entry_label(entries@[i as int].0@, entries@[i as int].1)));
            assert(entry_labels(entries@).take(i + 1) =~= entry_labels(entries@).take(i as int).push(
                entry_label(entries@[i as int].0@, entries@[i as int].1),
            ));
            i = i + 1;
        }
        assert(entry_labels(entries@).take(entries@.len() as int) =~= entry_labels(entries@));
        if names.len() == 0 {
            let mut m = "Directory '".to_owned();
            append_str(&mut m, path);
            append_str(&mut m, "' is empty");
            return ToolResult::Success(m);
        }
        sort_strings(&mut names);
        let listed = join_strings(&names, "\n");
        let r = ToolResult::Success(listed);
        assert(listing_of(path@, entries@, r@)) by {
            let s = texts(names@);
            assert(s.to_multiset() == entry_labels(entries@).to_multiset() && sorted_texts(s) && r@
                == ToolResultModel::Success(join_texts(s, "\n"@)));
        }
        r
    }
}

} // verus!
