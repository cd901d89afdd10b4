//! The file reading tool.

use vstd::prelude::*;

use crate::json::{object_schema, object_schema_model, u64_field, JsonModel, JsonValue};
use crate::text::{append_str, byte_len, decimal, lines, push_char, push_decimal, split_lines};
use crate::tools::paths::{join, join_path, path_request, require_path, PathRequest};
use crate::tools::types::{ToolResult, ToolResultModel};

verus! {

pub const READ_DESCRIPTION: &'static str = "Read the contents of a file. You can optionally specify a line range to read only a portion of the file. Line numbers are 1-indexed.";
pub const READ_PATH_DESC: &'static str = "The file path to read (relative to project root or absolute)";
pub const START_LINE_DESC: &'static str = "Starting line number (1-indexed, inclusive). Optional.";
pub const END_LINE_DESC: &'static str = "Ending line number (1-indexed, inclusive). Optional.";

/// Largest file read whole, in bytes.
pub const MAX_READ_BYTES: usize = 100000;

/// A number right-aligned in a field of four characters.
pub open spec fn pad4(d: Seq<char>) -> Seq<char> {
    if d.len() >= 4 {
        d
    } else {
        Seq::new((4 - d.len()) as nat, |i: int| ' ') + d
    }
}

/// Lines prefixed with their numbers, from `first`: `"{:>4} | {}\n"` each.
pub open spec fn numbered(ls: Seq<Seq<char>>, first: nat) -> Seq<char>
    decreases ls.len(),
{
    if ls.len() == 0 {
        Seq::empty()
    } else {
        pad4(decimal(first)) + " | "@ + ls[0] + seq!['\n'] + numbered(ls.drop_first(), first + 1)
    }
}

proof fn lemma_numbered_push(a: Seq<Seq<char>>, x: Seq<char>, first: nat)
    ensures
        numbered(a.push(x), first) == numbered(a, first) + pad4(decimal(first + a.len())) + " | "@ + x
            + seq!['\n'],
    decreases a.len(),
{
    if a.len() == 0 {
        assert(a.push(x).drop_first() =~= Seq::<Seq<char>>::empty());
        assert(numbered(Seq::<Seq<char>>::empty(), first + 1) =~= Seq::<char>::empty());
        assert(numbered(a.push(x), first) =~= pad4(decimal(first)) + " | "@ + x + seq!['\n']);
        assert(numbered(a, first) =~= Seq::<char>::empty());
        assert(numbered(a, first) + pad4(decimal(first + a.len())) + " | "@ + x + seq!['\n'] =~= pad4(decimal(first)) + " | "@ + x + seq!['\n']);
    } else {
        assert(a.push(x).drop_first() =~= a.drop_first().push(x));
        lemma_numbered_push(a.drop_first(), x, first + 1);
        assert(numbered(a.push(x), first) =~= pad4(decimal(first)) + " | "@ + a[0] + seq!['\n'] + (
        numbered(a.drop_first(), first + 1) + pad4(decimal(first + 1 + a.drop_first().len()))
            + " | "@ + x + seq!['\n']));
    }
}

/// First line index asked for: `start_line - 1`, or 0.
pub open spec fn start_index(args: JsonModel) -> int {
    match u64_field(args, "start_line"@) {
        Some(k) => if (k as usize) >= 1 {
            (k as usize) - 1
        } else {
            0
        },
        None => 0,
    }
}

/// One past the last line index asked for, within `n` lines.
pub open spec fn end_index(args: JsonModel, n: int) -> int {
    let e = match u64_field(args, "end_line"@) {
        Some(k) => (k as usize) as int,
        None => n,
    };
    if e < n {
        e
    } else {
        n
    }
}

/// What the tool returns for the contents of file `path`: an error for a file
/// over the size limit or a start past its end, else the asked lines numbered
/// (none where the range ends before it starts).
pub open spec fn read_outcome(path: Seq<char>, content: Seq<char>, args: JsonModel) -> ToolResultModel {
    let ls = lines(content);
    let start = start_index(args);
    if byte_len(content) > MAX_READ_BYTES {
        ToolResultModel::Error(
            "File '"@ + path + "' is too large ("@ + decimal(byte_len(content))
                + " bytes). Use start_line/end_line to read a portion."@,
        )
    } else if start >= ls.len() {
        ToolResultModel::Error(
            "start_line "@ + decimal((start + 1) as nat) + " exceeds file length ("@ + decimal(ls.len())
                + " lines)"@,
        )
    } else {
        let end = end_index(args, ls.len() as int);
        ToolResultModel::Success(numbered(ls.subrange(start, if end < start { start } else { end }), (start + 1) as nat))
    }
}

/// A file read succeeds exactly when it is no larger than the limit and the
/// asked range starts inside it; a larger file is refused by its size, and
/// a start past the end by the file's line count.
pub proof fn law_read_outcome(path: Seq<char>, content: Seq<char>, args: JsonModel)
    ensures
        (read_outcome(path, content, args) is Success) <==> (byte_len(content) <= MAX_READ_BYTES && start_index(
            args,
        ) < lines(content).len()),
        byte_len(content) > MAX_READ_BYTES ==> read_outcome(path, content, args) == ToolResultModel::Error(
            "File '"@ + path + "' is too large ("@ + decimal(byte_len(content))
                + " bytes). Use start_line/end_line to read a portion."@,
        ),
        (read_outcome(path, content, args) is Success || read_outcome(path, content, args) is Error),
        (u64_field(args, "start_line"@) is None && u64_field(args, "end_line"@) is None && byte_len(content)
            <= MAX_READ_BYTES && lines(content).len() > 0) ==> read_outcome(path, content, args)
            == ToolResultModel::Success(numbered(lines(content), 1)),
{
    let ls = lines(content);
    assert(ls.subrange(0, ls.len() as int) =~= ls);
}

fn push_padded(out: &mut String, n: usize)
    ensures
        final(out)@ == old(out)@ + pad4(decimal(n as nat)),
{
    let d = crate::text::u64_to_string(n as u64);
    let dv = crate::text::chars_of(d.as_str());
    let mut k: usize = dv.len();
    let ghost o = out@;
    while k < 4
        invariant
            dv@ == decimal(n as nat),
            dv@.len() <= k <= 4 || (dv@.len() > 4 && k == dv@.len()),
            out@ == o + Seq::new((k - dv@.len()) as nat, |i: int| ' '),
        decreases 4 - k,
    {
        push_char(out, ' ');
        assert(Seq::new((k - dv@.len()) as nat, |i: int| ' ').push(' ') =~= Seq::new((k + 1 - dv@.len()) as nat, |i: int| ' '));
        k = k + 1;
    }
    append_str(out, d.as_str());
    proof {
        if dv@.len() >= 4 {
            assert(Seq::new((k - dv@.len()) as nat, |i: int| ' ') =~= Seq::<char>::empty());
            assert(out@ =~= o + decimal(n as nat));
        } else {
            assert(out@ =~= o + pad4(decimal(n as nat)));
        }
    }
}

/// Tool that reads files.
pub struct ReadFileTool {
    pub working_dir: String,
}

impl ReadFileTool {
    pub fn new(working_dir: String) -> (r: Self)
        ensures
            r.working_dir == working_dir,
    {
        ReadFileTool { working_dir }
    }

    /// `path` resolved against the working directory.
    pub fn resolve_path(&self, path: &str) -> (r: String)
        ensures
            r@ == join_path(self.working_dir@, path@),
    {
        join(self.working_dir.as_str(), path)
    }

    pub fn name(&self) -> (r: &'static str)
        ensures
            r@ == "read_file"@,
    {
        "read_file"
    }

    pub fn description(&self) -> (r: &'static str)
        ensures
            r@ == READ_DESCRIPTION@,
    {
        READ_DESCRIPTION
    }

    pub fn parameters_schema(&self) -> (r: JsonValue)
        ensures
            r@ == object_schema_model(
                seq![
                    ("path"@, "string"@, READ_PATH_DESC@),
                    ("start_line"@, "integer"@, START_LINE_DESC@),
                    ("end_line"@, "integer"@, END_LINE_DESC@),
                ],
                Some(seq!["path"@]),
            ),
    {
        let props: Vec<(&str, &str, &str)> = vec![
            ("path", "string", READ_PATH_DESC),
            ("start_line", "integer", START_LINE_DESC),
            ("end_line", "integer", END_LINE_DESC),
        ];
        let req: Vec<&str> = vec!["path"];
        let r = object_schema(&props, Some(&req));
        assert(props@.map_values(|p: (&str, &str, &str)| (p.0@, p.1@, p.2@)) =~= seq![
            ("path"@, "string"@, READ_PATH_DESC@),
            ("start_line"@, "integer"@, START_LINE_DESC@),
            ("end_line"@, "integer"@, END_LINE_DESC@),
        ]);
        assert(req@.map_values(|s: &str| s@) =~= seq!["path"@]);
        r
    }

    pub fn requires_approval(&self) -> (b: bool)
        ensures
            !b,
    {
        false
    }

    /// The file to read: the `"path"` argument, resolved.
    pub fn request(&self, arguments: &JsonValue) -> (r: Result<PathRequest, ToolResult>)
        ensures
            path_request(self.working_dir@, arguments@, r),
    {
        require_path(self.working_dir.as_str(), arguments)
    }

    /// The result for the contents of file `path`.
    pub fn render(path: &str, content: &str, arguments: &JsonValue) -> (r: ToolResult)
        ensures
            r@ == read_outcome(path@, content@, arguments@),
    {
        let size = crate::text::str_byte_len(content);
        if size > MAX_READ_BYTES {
            let mut m = "File '".to_owned();
            append_str(&mut m, path);
            append_str(&mut m, "' is too large (");
            push_decimal(&mut m, size as u64);
            append_str(&mut m, " bytes). Use start_line/end_line to read a portion.");
            return ToolResult::Error(m);
        }
        let ls = split_lines(content);
        let ghost lm = lines(content@);
        let n = ls.len();
        let start: usize = match arguments.get_u64("start_line") {
            Some(k) => (k as usize).saturating_sub(1),
            None => 0,
        };
        let e: usize = match arguments.get_u64("end_line") {
            Some(k) => k as usize,
            None => n,
        };
        let end = if e < n {
            e
        } else {
            n
        };
        let end = if end < start {
            start
        } else {
            end
        };
        if start >= n {
            let mut m = "start_line ".to_owned();
            push_decimal(&mut m, (start + 1) as u64);
            append_str(&mut m, " exceeds file length (");
            push_decimal(&mut m, n as u64);
            append_str(&mut m, " lines)");
            return ToolResult::Error(m);
        }
        let mut out = String::new();
        let mut i: usize = start;
        proof {
            assert(lm.subrange(start as int, start as int) =~= Seq::<Seq<char>>::empty());
        }
        while i < end
            invariant
                n == ls@.len() == lm.len(),
                forall|k: int| 0 <= k < ls@.len() ==> #[trigger] ls@[k]@ == lm[k],
                start <= i <= end <= n,
                out@ == numbered(lm.subrange(start as int, i as int), (start + 1) as nat),
            decreases end - i,
        {
            proof {
                lemma_numbered_push(lm.subrange(start as int, i as int), lm[i as int], (start + 1) as nat);
                assert(lm.subrange(start as int, i + 1) =~= lm.subrange(start as int, i as int).push(lm[i as int]));
            }
            push_padded(&mut out, i + 1);
            append_str(&mut out, " | ");
            append_str(&mut out, ls[i].as_str());
            push_char(&mut out, '\n');
            i = i + 1;
        }
        ToolResult::Success(out)
    }
}

} // verus!
