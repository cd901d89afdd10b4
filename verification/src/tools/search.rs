//! Text search (regular expressions, via the `regex` crate) and file search
//! (glob patterns) over the project.

use vstd::prelude::*;

use crate::json::{object_schema, object_schema_model, str_field, u64_field, JsonModel, JsonValue};
use crate::text::{
    append_str, chars_of, decimal, join_strings, join_texts, lines, push_decimal, split_lines,
    texts, trim, trim_str,
};
use crate::tools::paths::{join, join_path};
use crate::tools::types::{ToolResult, ToolResultModel};

verus! {

#[verifier::external_type_specification]
#[verifier::external_body]
pub struct ExRegex(regex::Regex);

/// The message of the error `regex::Regex::new` gives for a pattern, or
/// nothing when the pattern compiles.
pub uninterp spec fn regex_compile_error(pattern: Seq<char>) -> Option<Seq<char>>;

/// Whether the compiled `pattern` matches somewhere in `text` (`Regex::is_match`).
pub uninterp spec fn regex_matches(pattern: Seq<char>, text: Seq<char>) -> bool;

/// A compiled regular expression together with its source text. It is only
/// made by `compile_regex`, so the expression is always the one compiled from
/// the source.
pub struct SearchPattern {
    source: String,
    regex: regex::Regex,
}

impl SearchPattern {
    /// The source text the expression was compiled from.
    pub closed spec fn source(&self) -> Seq<char> {
        self.source@
    }
}

/// `regex::Regex::new`: the compiled pattern, or the `Display` of the error.
#[verifier::external_body]
fn compile_regex(pattern: &str) -> (r: Result<SearchPattern, String>)
    ensures
        match r {
            Ok(p) => regex_compile_error(pattern@) is None && p.source() == pattern@,
            Err(e) => regex_compile_error(pattern@) == Some(e@),
        },
{
    match regex::Regex::new(pattern) {
        Ok(regex) => Ok(SearchPattern { source: pattern.to_string(), regex }),
        Err(e) => Err(e.to_string()),
    }
}

/// `Regex::is_match` on the compiled expression of `p`.
#[verifier::external_body]
fn regex_is_match(p: &SearchPattern, text: &str) -> (b: bool)
    ensures
        b == regex_matches(p.source(), text@),
{
    p.regex.is_match(text)
}

pub const SEARCH_TEXT_DESCRIPTION: &'static str = "Search for text matching a regex pattern across files in the project. Respects .gitignore. Returns matching lines with file paths and line numbers.";
pub const PATTERN_DESC: &'static str = "Regex pattern to search for (case-insensitive by default)";
pub const SEARCH_PATH_DESC: &'static str = "Directory or file to search in (relative to project root). Defaults to project root.";
pub const MAX_RESULTS_DESC: &'static str = "Maximum number of results to return. Defaults to 50.";

pub const SEARCH_FILES_DESCRIPTION: &'static str = "Search for files matching a glob pattern. Respects .gitignore. Returns matching file paths.";
/// Most files a file search reports.
pub const MAX_FILE_RESULTS: usize = 100;

pub const GLOB_DESC: &'static str = "Glob pattern to match file names (e.g., '**/*.rs', 'src/**/*.ts')";

/// A reported match: path, 1-based line number and the trimmed line.
pub open spec fn hit_text(rel: Seq<char>, index: nat, line: Seq<char>) -> Seq<char> {
    rel + ":"@ + decimal(index + 1) + ": "@ + trim(line)
}

/// The matches among lines, in order.
pub open spec fn file_hits(src: Seq<char>, rel: Seq<char>, ls: Seq<Seq<char>>) -> Seq<Seq<char>>
    decreases ls.len(),
{
    if ls.len() == 0 {
        Seq::empty()
    } else {
        let prev = file_hits(src, rel, ls.drop_last());
        if regex_matches(src, ls.last()) {
            prev.push(hit_text(rel, (ls.len() - 1) as nat, ls.last()))
        } else {
            prev
        }
    }
}

proof fn lemma_hits_prefix(src: Seq<char>, rel: Seq<char>, ls: Seq<Seq<char>>, j: int)
    requires
        0 <= j <= ls.len(),
    ensures
        file_hits(src, rel, ls.take(j)) == file_hits(src, rel, ls).take(file_hits(src, rel, ls.take(j)).len() as int),
        file_hits(src, rel, ls.take(j)).len() <= file_hits(src, rel, ls).len(),
    decreases ls.len() - j,
{
    if j == ls.len() {
        assert(ls.take(j) =~= ls);
        assert(file_hits(src, rel, ls).take(file_hits(src, rel, ls).len() as int) =~= file_hits(src, rel, ls));
    } else {
        let dl = ls.drop_last();
        assert(ls.take(j) =~= dl.take(j));
        lemma_hits_prefix(src, rel, dl, j);
        let a = file_hits(src, rel, dl.take(j));
        let b = file_hits(src, rel, dl);
        assert(b.take(a.len() as int) == a);
        let c = file_hits(src, rel, ls);
        assert(c.take(b.len() as int) =~= b);
        assert(c.take(a.len() as int) =~= b.take(a.len() as int));
    }
}

/// The matches of one file that a search with room for `room` more results keeps.
pub open spec fn kept_hits(src: Seq<char>, rel: Seq<char>, content: Seq<char>, room: int) -> Seq<Seq<char>> {
    let h = file_hits(src, rel, lines(content));
    if room <= 0 {
        Seq::empty()
    } else if room < h.len() {
        h.take(room)
    } else {
        h
    }
}

/// The arguments of a text search.
pub struct TextSearchRequest {
    /// The pattern as given
    pub pattern: String,
    /// The compiled case-insensitive pattern
    pub matcher: SearchPattern,
    /// Where to search, resolved
    pub resolved: String,
    /// Most results reported
    pub max_results: usize,
}

/// Matches collected so far by a text search.
pub struct TextSearch {
    pub results: Vec<String>,
    pub max_results: usize,
}

impl TextSearch {
    pub fn new(max_results: usize) -> (r: Self)
        ensures
            r.results@.len() == 0,
            r.max_results == max_results,
    {
        TextSearch { results: Vec::new(), max_results }
    }

    /// Whether no more results are wanted.
    pub fn is_full(&self) -> (b: bool)
        ensures
            b == (self.results@.len() >= self.max_results),
    {
        self.results.len() >= self.max_results
    }

    /// Adds the matching lines of one file, as `path:line: text`, up to the limit.
    pub fn scan_file(&mut self, pattern: &SearchPattern, rel_path: &str, content: &str)
        ensures
            final(self).max_results == old(self).max_results,
            texts(final(self).results@) == texts(old(self).results@) + kept_hits(
                pattern.source(),
                rel_path@,
                content@,
                old(self).max_results - old(self).results@.len(),
            ),
    {
        let ls = split_lines(content);
        let ghost lm = lines(content@);
        let ghost src = pattern.source();
        let ghost start = texts(self.results@);
        let ghost room = self.max_results - self.results@.len();
        assert(lm.take(0) =~= Seq::<Seq<char>>::empty());
        assert(start + Seq::<Seq<char>>::empty() =~= start);
        let mut i: usize = 0;
        while i < ls.len()
            invariant
                lm == lines(content@),
                src == pattern.source(),
                ls@.len() == lm.len(),
                forall|k: int| 0 <= k < ls@.len() ==> #[trigger] ls@[k]@ == lm[k],
                i <= ls@.len(),
                self.max_results == old(self).max_results,
                start == texts(old(self).results@),
                room == old(self).max_results - old(self).results@.len(),
                texts(self.results@) == start + file_hits(src, rel_path@, lm.take(i as int)),
                room > 0 ==> file_hits(src, rel_path@, lm.take(i as int)).len() <= room,
                room <= 0 ==> i == 0,
            ensures
                texts(self.results@) == start + file_hits(src, rel_path@, lm.take(i as int)),
                i == ls@.len() || (room <= 0 && i == 0) || file_hits(src, rel_path@, lm.take(i as int)).len() == room,
                room > 0 ==> file_hits(src, rel_path@, lm.take(i as int)).len() <= room,
            decreases ls.len() - i,
        {
            if self.results.len() >= self.max_results {
                break;
            }
            proof {
                let t = lm.take(i + 1);
                assert(t.drop_last() =~= lm.take(i as int));
                assert(t.last() == lm[i as int]);
            }
            if regex_is_match(pattern, ls[i].as_str()) {
                let mut hit = rel_path.to_owned();
                append_str(&mut hit, ":");
                push_decimal(&mut hit, (i + 1) as u64);
                append_str(&mut hit, ": ");
                let trimmed = trim_str(ls[i].as_str());
                append_str(&mut hit, trimmed.as_str());
                let ghost before = self.results@;
                self.results.push(hit);
                assert(texts(self.results@) =~= texts(before).push(hit_text(rel_path@, i as nat, lm[i as int])));
            }
            i = i + 1;
        }
        proof {
            lemma_hits_prefix(src, rel_path@, lm, i as int);
            if i == ls@.len() {
                assert(lm.take(i as int) =~= lm);
            }
        }
    }

    /// The final report of the search for `pattern`.
    pub fn finish(&self, pattern: &str) -> (r: ToolResult)
        ensures
            r@ == (if self.results@.len() == 0 {
                ToolResultModel::Success("No matches found for pattern '"@ + pattern@ + "'"@)
            } else {
                ToolResultModel::Success(
                    "Found "@ + decimal(self.results@.len()) + " matches:\n"@ + join_texts(texts(self.results@), "\n"@),
                )
            }),
    {
        if self.results.len() == 0 {
            let mut m = "No matches found for pattern '".to_owned();
            append_str(&mut m, pattern);
            append_str(&mut m, "'");
            return ToolResult::Success(m);
        }
        let mut m = "Found ".to_owned();
        push_decimal(&mut m, self.results.len() as u64);
        append_str(&mut m, " matches:\n");
        let joined = join_strings(&self.results, "\n");
        append_str(&mut m, joined.as_str());
        ToolResult::Success(m)
    }
}

/// The `"path"` argument, or `"."`.
pub open spec fn search_path_arg(args: JsonModel) -> Seq<char> {
    match str_field(args, "path"@) {
        Some(p) => p,
        None => "."@,
    }
}

/// What a text search asks for: a pattern compiled case-insensitively, where
/// to search and how many results at most (50 by default).
pub open spec fn text_search_request(working_dir: Seq<char>, args: JsonModel, r: Result<TextSearchRequest, ToolResult>) -> bool {
    match str_field(args, "pattern"@) {
        None => r matches Err(e) && e@ == ToolResultModel::Error("Missing required parameter: pattern"@),
        Some(p) => match regex_compile_error("(?i)"@ + p) {
            Some(msg) => r matches Err(e) && e@ == ToolResultModel::Error("Invalid regex pattern: "@ + msg),
            None => r matches Ok(req) && req.pattern@ == p && req.matcher.source() == "(?i)"@ + p
                && req.resolved@ == join_path(working_dir, search_path_arg(args)) && req.max_results == (
            match u64_field(args, "max_results"@) {
                Some(n) => n as usize,
                None => 50usize,
            }),
        },
    }
}

/// Tool that searches file contents.
pub struct SearchTextTool {
    pub working_dir: String,
}

impl SearchTextTool {
    pub fn new(working_dir: String) -> (r: Self)
        ensures
            r.working_dir == working_dir,
    {
        SearchTextTool { working_dir }
    }

    pub fn name(&self) -> (r: &'static str)
        ensures
            r@ == "search_text"@,
    {
        "search_text"
    }

    pub fn description(&self) -> (r: &'static str)
        ensures
            r@ == SEARCH_TEXT_DESCRIPTION@,
    {
        SEARCH_TEXT_DESCRIPTION
    }

    pub fn parameters_schema(&self) -> (r: JsonValue)
        ensures
            r@ == object_schema_model(
                seq![
                    ("pattern"@, "string"@, PATTERN_DESC@),
                    ("path"@, "string"@, SEARCH_PATH_DESC@),
                    ("max_results"@, "integer"@, MAX_RESULTS_DESC@),
                ],
                Some(seq!["pattern"@]),
            ),
    {
        let props: Vec<(&str, &str, &str)> = vec![
            ("pattern", "string", PATTERN_DESC),
            ("path", "string", SEARCH_PATH_DESC),
            ("max_results", "integer", MAX_RESULTS_DESC),
        ];
        let req: Vec<&str> = vec!["pattern"];
        let r = object_schema(&props, Some(&req));
        assert(props@.map_values(|p: (&str, &str, &str)| (p.0@, p.1@, p.2@)) =~= seq![
            ("pattern"@, "string"@, PATTERN_DESC@),
            ("path"@, "string"@, SEARCH_PATH_DESC@),
            ("max_results"@, "integer"@, MAX_RESULTS_DESC@),
        ]);
        assert(req@.map_values(|s: &str| s@) =~= seq!["pattern"@]);
        r
    }

    pub fn requires_approval(&self) -> (b: bool)
        ensures
            !b,
    {
        false
    }

    /// The search asked for.
    pub fn request(&self, arguments: &JsonValue) -> (r: Result<TextSearchRequest, ToolResult>)
        ensures
            text_search_request(self.working_dir@, arguments@, r),
    {
        let pattern = match arguments.get_str("pattern") {
            Some(p) => p,
            None => return Err(ToolResult::Error("Missing required parameter: pattern".to_owned())),
        };
        let mut full = "(?i)".to_owned();
        append_str(&mut full, pattern.as_str());
        let matcher = match compile_regex(full.as_str()) {
            Ok(m) => m,
            Err(e) => {
                let mut msg = "Invalid regex pattern: ".to_owned();
                append_str(&mut msg, e.as_str());
                return Err(ToolResult::Error(msg));
            },
        };
        let search_path = match arguments.get_str("path") {
            Some(p) => p,
            None => ".".to_owned(),
        };
        let resolved = join(self.working_dir.as_str(), search_path.as_str());
        let max_results: usize = match arguments.get_u64("max_results") {
            Some(n) => n as usize,
            None => 50,
        };
        Ok(TextSearchRequest { pattern, matcher, resolved, max_results })
    }
}

/// The glob pattern searched for: a pattern with a `/` or a `*` is taken from
/// the working directory, any other is looked for at any depth.
pub open spec fn glob_of(working_dir: Seq<char>, pattern: Seq<char>) -> Seq<char> {
    if pattern.contains('/') || pattern.contains('*') {
        join_path(working_dir, pattern)
    } else {
        join_path(working_dir, "**/"@ + pattern)
    }
}

/// The report on the files found for `pattern`.
pub open spec fn files_report(pattern: Seq<char>, entries: Seq<Seq<char>>) -> ToolResultModel {
    if entries.len() == 0 {
        ToolResultModel::Success("No files matching '"@ + pattern + "'"@)
    } else {
        ToolResultModel::Success(decimal(entries.len()) + " files found:\n"@ + join_texts(entries, "\n"@))
    }
}

/// Tool that searches file names.
pub struct SearchFilesTool {
    pub working_dir: String,
}

impl SearchFilesTool {
    pub fn new(working_dir: String) -> (r: Self)
        ensures
            r.working_dir == working_dir,
    {
        SearchFilesTool { working_dir }
    }

    pub fn name(&self) -> (r: &'static str)
        ensures
            r@ == "search_files"@,
    {
        "search_files"
    }

    pub fn description(&self) -> (r: &'static str)
        ensures
            r@ == SEARCH_FILES_DESCRIPTION@,
    {
        SEARCH_FILES_DESCRIPTION
    }

    pub fn parameters_schema(&self) -> (r: JsonValue)
        ensures
            r@ == object_schema_model(seq![("pattern"@, "string"@, GLOB_DESC@)], Some(seq!["pattern"@])),
    {
        let props: Vec<(&str, &str, &str)> = vec![("pattern", "string", GLOB_DESC)];
        let req: Vec<&str> = vec!["pattern"];
        let r = object_schema(&props, Some(&req));
        assert(props@.map_values(|p: (&str, &str, &str)| (p.0@, p.1@, p.2@)) =~= seq![("pattern"@, "string"@, GLOB_DESC@)]);
        assert(req@.map_values(|s: &str| s@) =~= seq!["pattern"@]);
        r
    }

    pub fn requires_approval(&self) -> (b: bool)
        ensures
            !b,
    {
        false
    }

    /// The pattern asked for and the glob pattern to search with.
    pub fn request(&self, arguments: &JsonValue) -> (r: Result<(String, String), ToolResult>)
        ensures
            match str_field(arguments@, "pattern"@) {
                None => r matches Err(e) && e@ == ToolResultModel::Error("Missing required parameter: pattern"@),
                Some(p) => r matches Ok(x) && x.0@ == p && x.1@ == glob_of(self.working_dir@, p),
            },
    {
        let pattern = match arguments.get_str("pattern") {
            Some(p) => p,
            None => return Err(ToolResult::Error("Missing required parameter: pattern".to_owned())),
        };
        let pv = chars_of(pattern.as_str());
        let mut has_special = false;
        let mut i: usize = 0;
        while i < pv.len()
            invariant
                i <= pv@.len(),
                pv@ == pattern@,
                has_special == (exists|k: int| 0 <= k < i && (pv@[k] == '/' || pv@[k] == '*')),
            decreases pv.len() - i,
        {
            if pv[i] == '/' || pv[i] == '*' {
                has_special = true;
            }
            i = i + 1;
        }
        assert(has_special == (pattern@.contains('/') || pattern@.contains('*')));
        let glob = if has_special {
            join(self.working_dir.as_str(), pattern.as_str())
        } else {
            let mut p = "**/".to_owned();
            append_str(&mut p, pattern.as_str());
            join(self.working_dir.as_str(), p.as_str())
        };
        Ok((pattern, glob))
    }

    /// The report for the files found (paths relative to the project).
    pub fn report(pattern: &str, entries: &Vec<String>) -> (r: ToolResult)
        ensures
            r@ == files_report(pattern@, texts(entries@)),
    {
        if entries.len() == 0 {
            let mut m = "No files matching '".to_owned();
            append_str(&mut m, pattern);
            append_str(&mut m, "'");
            return ToolResult::Success(m);
        }
        let mut m = String::new();
        push_decimal(&mut m, entries.len() as u64);
        append_str(&mut m, " files found:\n");
        let joined = join_strings(entries, "\n");
        append_str(&mut m, joined.as_str());
        ToolResult::Success(m)
    }

    /// Whether as many files have been found as are reported.
    pub fn is_full(entries: &Vec<String>) -> (b: bool)
        ensures
            b == (entries@.len() >= MAX_FILE_RESULTS),
    {
        entries.len() >= MAX_FILE_RESULTS
    }

    /// The answer for the files that the glob matched, in the order found
    /// (paths relative to the project), of which the first `MAX_FILE_RESULTS`
    /// are reported, or for the glob's error.
    pub fn result(pattern: &str, found: Result<Vec<String>, String>) -> (r: ToolResult)
        ensures
            match found {
                Err(e) => r@ == ToolResultModel::Error("Invalid glob pattern: "@ + e@),
                Ok(v) => r@ == files_report(
                    pattern@,
                    texts(v@).take(if v@.len() < MAX_FILE_RESULTS { v@.len() as int } else { MAX_FILE_RESULTS as int }),
                ),
            },
    {
        match found {
            Err(e) => {
                let mut m = "Invalid glob pattern: ".to_owned();
                append_str(&mut m, e.as_str());
                ToolResult::Error(m)
            },
            Ok(v) => {
                let ghost orig = v@;
                let mut v = v;
                while v.len() > MAX_FILE_RESULTS
                    invariant
                        v@.len() == orig.len() || v@.len() >= MAX_FILE_RESULTS,
                        v@.len() <= orig.len(),
                        v@ == orig.take(v@.len() as int),
                    decreases v@.len(),
                {
                    v.pop();
                    assert(v@ =~= orig.take(v@.len() as int));
                }
                proof {
                    let k = if orig.len() < MAX_FILE_RESULTS { orig.len() as int } else { MAX_FILE_RESULTS as int };
                    assert(texts(v@) =~= texts(orig).take(k));
                }
                Self::report(pattern, &v)
            },
        }
    }
}

} // verus!
